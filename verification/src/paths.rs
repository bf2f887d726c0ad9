//! Where the installed files go: joining path components, the set of install
//! paths, and the places on `PATH` where a program may be found.

use vstd::prelude::*;
use crate::platform::{Os, SIMPLE_PROGRAM_NAME, FULL_PROGRAM_NAME};
use crate::text::{split_on, split_chars, views, to_chars, concatenate, string_of_range, join_with, push_char};

verus! {

/// Whether `c` separates path components on `os`.
pub open spec fn is_separator(os: Os, c: char) -> bool {
    c == '/' || (os == Os::Windows && c == '\\')
}

/// Whether `c` is an ASCII letter (a drive letter on Windows).
pub open spec fn is_ascii_letter(c: char) -> bool {
    ('a' <= c && c <= 'z') || ('A' <= c && c <= 'Z')
}

/// Where the Windows path component that starts at `i` ends: at the next
/// `\` (or, outside verbatim prefixes, `/`), or at the end of `p`.
pub open spec fn component_end(p: Seq<char>, i: int, verbatim: bool) -> int
    decreases p.len() - i,
{
    if i >= p.len() {
        p.len() as int
    } else if p[i] == '\\' || (!verbatim && p[i] == '/') {
        i
    } else {
        component_end(p, i + 1, verbatim)
    }
}

/// The length of the Windows prefix that `p` starts with, 0 if none:
/// `\\?\UNC\server\share`, `\\?\name` (including `\\?\C:`), `\\.\device`,
/// `\\server\share` (both parts non-empty) or a drive `C:`.
pub open spec fn windows_prefix_len(p: Seq<char>) -> int {
    if p.len() >= 2 && p[0] == '\\' && p[1] == '\\' {
        if p.len() >= 4 && p[2] == '?' && p[3] == '\\' {
            if p.len() >= 8 && p[4] == 'U' && p[5] == 'N' && p[6] == 'C' && p[7] == '\\' {
                let s = component_end(p, 8, true);
                if s < p.len() && component_end(p, s + 1, true) > s + 1 {
                    component_end(p, s + 1, true)
                } else {
                    s
                }
            } else {
                component_end(p, 4, true)
            }
        } else if p.len() >= 4 && p[2] == '.' && p[3] == '\\' {
            component_end(p, 4, false)
        } else {
            let s = component_end(p, 2, false);
            if s > 2 && s < p.len() && component_end(p, s + 1, false) > s + 1 {
                component_end(p, s + 1, false)
            } else {
                0
            }
        }
    } else if p.len() >= 2 && is_ascii_letter(p[0]) && p[1] == ':' {
        2
    } else {
        0
    }
}

/// Whether `p`, joined onto another path, replaces all of it or all but its
/// prefix: on Windows when it has a prefix or starts at a root, elsewhere
/// when it starts with `/`.
pub open spec fn is_rooted(os: Os, p: Seq<char>) -> bool {
    if os == Os::Windows {
        windows_prefix_len(p) > 0 || (p.len() > 0 && is_separator(os, p[0]))
    } else {
        p.len() > 0 && p[0] == '/'
    }
}

/// Whether `p` starts with a verbatim prefix (`\\?\`).
pub open spec fn is_verbatim(p: Seq<char>) -> bool {
    p.len() >= 4 && p[0] == '\\' && p[1] == '\\' && p[2] == '?' && p[3] == '\\'
}

/// The pieces of `ps` that are not empty, in order.
pub open spec fn nonempty_parts(ps: Seq<Seq<char>>) -> Seq<Seq<char>>
    decreases ps.len(),
{
    if ps.len() == 0 {
        ps
    } else if ps.last().len() == 0 {
        nonempty_parts(ps.drop_last())
    } else {
        nonempty_parts(ps.drop_last()).push(ps.last())
    }
}

/// `s` with every `/` written as `\`.
pub open spec fn backslashed(s: Seq<char>) -> Seq<char> {
    s.map_values(|c: char| if c == '/' { '\\' } else { c })
}

/// One component of a name joined onto a verbatim path: `.` is dropped,
/// `..` removes the last component when that is a plain name (not `.` or
/// `..`), any other component is appended.
pub open spec fn verbatim_step(parts: Seq<Seq<char>>, c: Seq<char>) -> Seq<Seq<char>> {
    if c == "."@ {
        parts
    } else if c == ".."@ {
        if parts.len() > 0 && parts.last() != "."@ && parts.last() != ".."@ {
            parts.drop_last()
        } else {
            parts
        }
    } else {
        parts.push(c)
    }
}

/// The components `parts` after the name components `names`, in order.
pub open spec fn verbatim_apply(parts: Seq<Seq<char>>, names: Seq<Seq<char>>) -> Seq<Seq<char>>
    decreases names.len(),
{
    if names.len() == 0 {
        parts
    } else {
        verbatim_step(verbatim_apply(parts, names.drop_last()), names.last())
    }
}

/// A non-empty, unprefixed `name` joined onto a `base` with a verbatim
/// prefix, normalised as `Path::join` does: the components of `base` after
/// its prefix (separated by `\` only), or none if `name` starts at a root,
/// are followed by the components of `name` (separated by `\` or `/`), with
/// `.` dropped and `..` resolved; the prefix is followed by `\` and the
/// components joined with `\`.
pub open spec fn verbatim_join(base: Seq<char>, name: Seq<char>) -> Seq<char> {
    let plen = windows_prefix_len(base);
    let rest = base.subrange(plen, base.len() as int);
    let base_root = rest.len() > 0 && rest[0] == '\\';
    let name_root = name.len() > 0 && is_separator(Os::Windows, name[0]);
    let start = if name_root { Seq::empty() } else { nonempty_parts(split_on(rest, '\\')) };
    let parts = verbatim_apply(start, nonempty_parts(split_on(backslashed(name), '\\')));
    base.subrange(0, plen) + (if base_root || name_root || parts.len() > 0 { seq!['\\'] } else {
        Seq::empty()
    }) + join_with(parts, '\\')
}

/// `name` joined onto `base` as `Path::join` does it on Windows: a `name`
/// with a prefix replaces `base`; onto a `base` with a verbatim prefix a
/// non-empty `name` is joined with normalisation (`verbatim_join`); a `name`
/// that starts at a root keeps only the prefix of `base`; otherwise `\` goes
/// between them unless `base` is empty, ends with a separator or is only a
/// drive (`C:`).
pub open spec fn windows_join(base: Seq<char>, name: Seq<char>) -> Seq<char> {
    if windows_prefix_len(name) > 0 {
        name
    } else if is_verbatim(base) && name.len() > 0 {
        verbatim_join(base, name)
    } else if name.len() > 0 && is_separator(Os::Windows, name[0]) {
        base.subrange(0, windows_prefix_len(base)) + name
    } else if base.len() == 0 || is_separator(Os::Windows, base.last())
        || (base.len() == 2 && is_ascii_letter(base[0]) && base[1] == ':') {
        base + name
    } else {
        base + seq!['\\'] + name
    }
}

/// `s` with every `/` written as `\`.
fn backslash_separators(s: &str) -> (res: String)
    ensures
        res@ == backslashed(s@),
{
    let mut res = String::new();
    for c in iter: s.chars()
        invariant
            iter.seq() == s@,
            res@ == backslashed(s@.take(iter.index() as int)),
    {
        let ghost i = iter.index() as int;
        assert(s@.take(i + 1) =~= s@.take(i).push(s@[i]));
        if c == '/' {
            push_char(&mut res, '\\');
        } else {
            push_char(&mut res, c);
        }
        assert(backslashed(s@.take(i + 1)) =~= backslashed(s@.take(i)).push(
            if s@[i] == '/' { '\\' } else { s@[i] },
        ));
    }
    assert(s@.take(s@.len() as int) =~= s@);
    res
}

/// The strings of `v` that are not empty, in order.
fn nonempty_strings(v: Vec<String>) -> (res: Vec<String>)
    ensures
        views(res@) == nonempty_parts(views(v@)),
{
    let mut res: Vec<String> = Vec::new();
    let mut i: usize = 0;
    while i < v.len()
        invariant
            i <= v.len(),
            views(res@) == nonempty_parts(views(v@).take(i as int)),
        decreases v.len() - i,
    {
        let ghost before = views(res@);
        assert(views(v@).take(i + 1) =~= views(v@).take(i as int).push(v@[i as int]@));
        assert(views(v@).take(i + 1).drop_last() =~= views(v@).take(i as int));
        if v[i].as_str().is_empty() {
        } else {
            res.push(v[i].clone());
            assert(views(res@) =~= before.push(v@[i as int]@));
        }
        i = i + 1;
    }
    assert(views(v@).take(v.len() as int) =~= views(v@));
    res
}

/// The components `parts` after the name components `names`.
fn apply_components(parts: Vec<String>, names: &Vec<String>) -> (res: Vec<String>)
    ensures
        views(res@) == verbatim_apply(views(parts@), views(names@)),
{
    let dot = String::from_str(".");
    let dots = String::from_str("..");
    let mut res = parts;
    let ghost start = views(res@);
    let mut i: usize = 0;
    while i < names.len()
        invariant
            i <= names.len(),
            dot@ == "."@,
            dots@ == ".."@,
            views(res@) == verbatim_apply(start, views(names@).take(i as int)),
        decreases names.len() - i,
    {
        let ghost before = views(res@);
        assert(views(names@).take(i + 1).drop_last() =~= views(names@).take(i as int));
        assert(views(names@).take(i + 1).last() == names@[i as int]@);
        if names[i] == dot {
        } else if names[i] == dots {
            if res.len() > 0 && res[res.len() - 1] != dot && res[res.len() - 1] != dots {
                assert(before.last() == res@[res.len() - 1]@);
                res.pop();
                assert(views(res@) =~= before.drop_last());
            }
        } else {
            res.push(names[i].clone());
            assert(views(res@) =~= before.push(names@[i as int]@));
        }
        i = i + 1;
    }
    assert(views(names@).take(names.len() as int) =~= views(names@));
    res
}

/// Appends the strings of `parts`, separated by `\`.
fn append_joined(res: &mut String, parts: &Vec<String>)
    ensures
        final(res)@ == old(res)@ + join_with(views(parts@), '\\'),
{
    let ghost head = res@;
    let mut i: usize = 0;
    while i < parts.len()
        invariant
            i <= parts.len(),
            res@ == head + join_with(views(parts@).take(i as int), '\\'),
        decreases parts.len() - i,
    {
        let ghost t = views(parts@).take(i + 1);
        assert(t.drop_last() =~= views(parts@).take(i as int));
        assert(t.last() == parts@[i as int]@);
        if i > 0 {
            push_char(res, '\\');
        } else {
            assert(t =~= seq![parts@[0]@]);
            assert(views(parts@).take(0) =~= Seq::<Seq<char>>::empty());
        }
        res.append(parts[i].as_str());
        i = i + 1;
    }
    assert(views(parts@).take(parts.len() as int) =~= views(parts@));
}

/// Joins a non-empty, unprefixed `name` onto a `base` with a verbatim
/// prefix.
fn verbatim_join_path(base: &str, name: &str) -> (res: String)
    ensures
        res@ == verbatim_join(base@, name@),
{
    let b = to_chars(base);
    let plen = windows_prefix_length(&b);
    let rest = string_of_range(&b, plen, b.len());
    let base_root = rest.as_str().unicode_len() > 0 && rest.as_str().get_char(0) == '\\';
    let n = to_chars(name);
    let name_root = n.len() > 0 && (n[0] == '/' || n[0] == '\\');
    let start = if name_root { Vec::new() } else { nonempty_strings(split_chars(rest.as_str(), '\\')) };
    assert(name_root ==> views(start@) =~= Seq::<Seq<char>>::empty());
    let names = nonempty_strings(split_chars(backslash_separators(name).as_str(), '\\'));
    let parts = apply_components(start, &names);
    let mut res = string_of_range(&b, 0, plen);
    if base_root || name_root || parts.len() > 0 {
        push_char(&mut res, '\\');
    }
    append_joined(&mut res, &parts);
    res
}

/// `name` joined onto `base` as `Path::join` does it on Unix: a `name` that
/// starts with `/` replaces `base`; otherwise `/` goes between them unless
/// `base` is empty or already ends with `/`.
pub open spec fn unix_join(base: Seq<char>, name: Seq<char>) -> Seq<char> {
    if name.len() > 0 && name[0] == '/' {
        name
    } else if base.len() == 0 || base.last() == '/' {
        base + name
    } else {
        base + seq!['/'] + name
    }
}

/// `name` joined onto `base` on `os`.
pub open spec fn join_spec(os: Os, base: Seq<char>, name: Seq<char>) -> Seq<char> {
    if os == Os::Windows {
        windows_join(base, name)
    } else {
        unix_join(base, name)
    }
}

/// Where the component of `p` that starts at `i` ends.
fn component_end_at(p: &Vec<char>, i: usize, verbatim: bool) -> (res: usize)
    requires
        i <= p.len(),
    ensures
        res as int == component_end(p@, i as int, verbatim),
        i <= res <= p.len(),
{
    let mut j = i;
    while j < p.len() && !(p[j] == '\\' || (!verbatim && p[j] == '/'))
        invariant
            i <= j <= p.len(),
            component_end(p@, i as int, verbatim) == component_end(p@, j as int, verbatim),
        decreases p.len() - j,
    {
        j = j + 1;
    }
    j
}

fn ascii_letter(c: char) -> (res: bool)
    ensures
        res == is_ascii_letter(c),
{
    ('a' <= c && c <= 'z') || ('A' <= c && c <= 'Z')
}

/// The length of the Windows prefix that `p` starts with, 0 if none.
pub fn windows_prefix_length(p: &Vec<char>) -> (res: usize)
    ensures
        res as int == windows_prefix_len(p@),
        res <= p.len(),
{
    let n = p.len();
    if n >= 2 && p[0] == '\\' && p[1] == '\\' {
        if n >= 4 && p[2] == '?' && p[3] == '\\' {
            if n >= 8 && p[4] == 'U' && p[5] == 'N' && p[6] == 'C' && p[7] == '\\' {
                let s = component_end_at(p, 8, true);
                if s < n {
                    let e = component_end_at(p, s + 1, true);
                    if e > s + 1 {
                        return e;
                    }
                }
                s
            } else {
                component_end_at(p, 4, true)
            }
        } else if n >= 4 && p[2] == '.' && p[3] == '\\' {
            component_end_at(p, 4, false)
        } else {
            let s = component_end_at(p, 2, false);
            if s > 2 && s < n {
                let e = component_end_at(p, s + 1, false);
                if e > s + 1 {
                    return e;
                }
            }
            0
        }
    } else if n >= 2 && ascii_letter(p[0]) && p[1] == ':' {
        2
    } else {
        0
    }
}

/// Joins `name` onto `base`.
pub fn join_path(os: Os, base: &str, name: &str) -> (res: String)
    ensures
        res@ == join_spec(os, base@, name@),
{
    let b = to_chars(base);
    let n = to_chars(name);
    if os.is_windows() {
        if windows_prefix_length(&n) > 0 {
            return name.to_owned();
        }
        let verbatim = b.len() >= 4 && b[0] == '\\' && b[1] == '\\' && b[2] == '?' && b[3] == '\\';
        if verbatim && n.len() > 0 {
            return verbatim_join_path(base, name);
        }
        if n.len() > 0 && (n[0] == '/' || n[0] == '\\') {
            let mut res = string_of_range(&b, 0, windows_prefix_length(&b));
            res.append(name);
            return res;
        }
        let mut res = base.to_owned();
        let plain = b.len() == 0 || b[b.len() - 1] == '/' || b[b.len() - 1] == '\\'
            || (b.len() == 2 && ascii_letter(b[0]) && b[1] == ':');
        if !plain {
            res.append("\\");
            proof { reveal_strlit("\\"); }
            assert(res@ == base@ + seq!['\\']);
        }
        res.append(name);
        res
    } else {
        if n.len() > 0 && n[0] == '/' {
            return name.to_owned();
        }
        let mut res = base.to_owned();
        if !(b.len() == 0 || b[b.len() - 1] == '/') {
            res.append("/");
            proof { reveal_strlit("/"); }
            assert(res@ == base@ + seq!['/']);
        }
        res.append(name);
        res
    }
}

/// The places the installed program's files go.
pub struct InstallPaths {
    pub base_dir: String,
    pub runner_script: String,
    pub uninstall_script: String,
    pub app_link: String,
    pub jar: String,
    pub icon: String,
}

/// The install paths as character sequences.
pub struct InstallPathsView {
    pub base_dir: Seq<char>,
    pub runner_script: Seq<char>,
    pub uninstall_script: Seq<char>,
    pub app_link: Seq<char>,
    pub jar: Seq<char>,
    pub icon: Seq<char>,
}

impl View for InstallPaths {
    type V = InstallPathsView;

    open spec fn view(&self) -> InstallPathsView {
        InstallPathsView {
            base_dir: self.base_dir@,
            runner_script: self.runner_script@,
            uninstall_script: self.uninstall_script@,
            app_link: self.app_link@,
            jar: self.jar@,
            icon: self.icon@,
        }
    }
}

/// The directory the program is installed into: a folder in the user's home
/// on Windows, `/usr/bin/` elsewhere.
pub open spec fn base_dir_spec(os: Os, home: Seq<char>) -> Seq<char> {
    if os == Os::Windows {
        join_spec(os, home, "tinyinstallj-programs"@)
    } else {
        "/usr/bin/"@
    }
}

/// The file name of the script that runs the program.
pub open spec fn runner_script_name_spec(os: Os) -> Seq<char> {
    if os == Os::Windows {
        SIMPLE_PROGRAM_NAME@ + ".bat"@
    } else {
        SIMPLE_PROGRAM_NAME@
    }
}

/// The file name of the uninstall script.
pub open spec fn uninstall_script_name_spec(os: Os) -> Seq<char> {
    if os == Os::Windows {
        SIMPLE_PROGRAM_NAME@ + "-uninstall.bat"@
    } else {
        SIMPLE_PROGRAM_NAME@ + "-uninstall"@
    }
}

/// Every install path, given the user's home directory and configuration
/// directory (which matter on Windows only).
pub open spec fn install_paths_spec(os: Os, home: Seq<char>, config_dir: Seq<char>) -> InstallPathsView {
    let base = base_dir_spec(os, home);
    InstallPathsView {
        base_dir: base,
        runner_script: join_spec(os, base, runner_script_name_spec(os)),
        uninstall_script: join_spec(os, base, uninstall_script_name_spec(os)),
        app_link: if os == Os::Windows {
            join_spec(
                os,
                join_spec(os, config_dir, "Microsoft\\Windows\\Start Menu\\Programs"@),
                FULL_PROGRAM_NAME@ + ".lnk"@,
            )
        } else {
            join_spec(os, "/usr/share/applications"@, SIMPLE_PROGRAM_NAME@ + ".desktop"@)
        },
        jar: join_spec(os, base, SIMPLE_PROGRAM_NAME@ + ".jar"@),
        icon: if os == Os::Windows {
            join_spec(os, base, SIMPLE_PROGRAM_NAME@ + ".ico"@)
        } else {
            join_spec(os, "/usr/share/icons/"@, SIMPLE_PROGRAM_NAME@ + ".ico"@)
        },
    }
}

/// Joining a component that does not start at a root keeps `base` in front,
/// when `base` has no verbatim prefix (whose joins are normalised).
pub proof fn lemma_join_keeps_base(os: Os, base: Seq<char>, name: Seq<char>)
    requires
        !is_rooted(os, name),
        os == Os::Windows ==> !is_verbatim(base),
    ensures
        base.is_prefix_of(join_spec(os, base, name)),
{
    let j = join_spec(os, base, name);
    assert(j.subrange(0, base.len() as int) =~= base);
}

/// The program's jar, runner script and uninstall script all go into the
/// install directory (and so does the icon on Windows), for an install
/// directory without a verbatim (`\\?\`) prefix.
pub proof fn lemma_program_files_in_base_dir(os: Os, home: Seq<char>, config_dir: Seq<char>)
    requires
        os == Os::Windows ==> !is_verbatim(base_dir_spec(os, home)),
    ensures ({
        let p = install_paths_spec(os, home, config_dir);
        &&& p.base_dir.is_prefix_of(p.jar)
        &&& p.base_dir.is_prefix_of(p.runner_script)
        &&& p.base_dir.is_prefix_of(p.uninstall_script)
        &&& os == Os::Windows ==> p.base_dir.is_prefix_of(p.icon)
    }),
{
    reveal_strlit("tccweather");
    assert(SIMPLE_PROGRAM_NAME@ == "tccweather"@);
    let n = SIMPLE_PROGRAM_NAME@;
    assert(n[0] == 't' && n[1] == 'c');
    let base = base_dir_spec(os, home);
    let names = seq![
        n + ".jar"@,
        n + ".ico"@,
        runner_script_name_spec(os),
        uninstall_script_name_spec(os),
    ];
    assert forall|i: int| 0 <= i < 4 implies !is_rooted(os, #[trigger] names[i]) by {
        assert(names[i][0] == 't' && names[i][1] == 'c');
    }
    lemma_join_keeps_base(os, base, names[0]);
    lemma_join_keeps_base(os, base, names[1]);
    lemma_join_keeps_base(os, base, names[2]);
    lemma_join_keeps_base(os, base, names[3]);
}

/// Works out the install paths from the user's home directory and
/// configuration directory. On Windows the home directory is needed; without
/// it there are no install paths.
pub fn install_paths_for(os: Os, home: Option<&str>, config_dir: &str) -> (res: Option<InstallPaths>)
    ensures
        match res {
            Some(p) => os != Os::Windows || home is Some,
            None => os == Os::Windows && home is None,
        },
        res matches Some(p) ==> p@ == install_paths_spec(
            os,
            match home { Some(h) => h@, None => Seq::<char>::empty() },
            config_dir@,
        ),
{
    let windows = os.is_windows();
    let base_dir = if windows {
        match home {
            Some(h) => join_path(os, h, "tinyinstallj-programs"),
            None => {
                return None;
            },
        }
    } else {
        String::from_str("/usr/bin/")
    };
    let runner_name = if windows {
        concatenate(SIMPLE_PROGRAM_NAME, ".bat")
    } else {
        String::from_str(SIMPLE_PROGRAM_NAME)
    };
    let uninstall_name = if windows {
        concatenate(SIMPLE_PROGRAM_NAME, "-uninstall.bat")
    } else {
        concatenate(SIMPLE_PROGRAM_NAME, "-uninstall")
    };
    let jar_name = concatenate(SIMPLE_PROGRAM_NAME, ".jar");
    let icon_name = concatenate(SIMPLE_PROGRAM_NAME, ".ico");
    let jar = join_path(os, base_dir.as_str(), jar_name.as_str());
    let icon = if windows {
        join_path(os, base_dir.as_str(), icon_name.as_str())
    } else {
        join_path(os, "/usr/share/icons/", icon_name.as_str())
    };
    let runner_script = join_path(os, base_dir.as_str(), runner_name.as_str());
    let uninstall_script = join_path(os, base_dir.as_str(), uninstall_name.as_str());
    let app_link = if windows {
        let programs = join_path(os, config_dir, "Microsoft\\Windows\\Start Menu\\Programs");
        let link_name = concatenate(FULL_PROGRAM_NAME, ".lnk");
        join_path(os, programs.as_str(), link_name.as_str())
    } else {
        let desktop_name = concatenate(SIMPLE_PROGRAM_NAME, ".desktop");
        join_path(os, "/usr/share/applications", desktop_name.as_str())
    };
    Some(InstallPaths { base_dir, runner_script, uninstall_script, app_link, jar, icon })
}

/// The user's home directory.
/// Calls `dirs::home_dir`, which reads the environment (`$HOME`, or the user
/// database), so nothing is promised of what it gives; the path is turned into
/// a string with `to_string_lossy`.
#[verifier::external_body]
fn home_dir() -> (res: Option<String>) {
    dirs::home_dir().map(|p| p.to_string_lossy().into_owned())
}

/// The user's application configuration directory.
/// Calls `platform_dirs::AppDirs::new(None, true)` and takes its
/// `config_dir`; that depends on the environment, so nothing is promised of
/// what comes back; the path is turned into a string with `to_string_lossy`.
#[verifier::external_body]
fn app_config_dir() -> (res: Option<String>) {
    platform_dirs::AppDirs::new(None, true).map(|d| d.config_dir.to_string_lossy().into_owned())
}

/// Works out where the program is to be installed on this machine, from the
/// user's home and configuration directories. `None` when a directory that is
/// needed cannot be found.
pub fn get_install_paths(os: Os) -> (res: Option<InstallPaths>)
    ensures
        res matches Some(p) ==> exists|home: Seq<char>, config_dir: Seq<char>|
            p@ == install_paths_spec(os, home, config_dir),
        os != Os::Windows ==> (res matches Some(p) ==> p@ == install_paths_spec(
            os,
            Seq::<char>::empty(),
            Seq::<char>::empty(),
        )),
{
    let config_dir = match app_config_dir() {
        Some(c) => c,
        None => {
            return None;
        },
    };
    let home = if os.is_windows() { home_dir() } else { None };
    let res = match &home {
        Some(h) => install_paths_for(os, Some(h.as_str()), config_dir.as_str()),
        None => install_paths_for(os, None, config_dir.as_str()),
    };
    proof {
        if let Some(p) = &res {
            let h = match home { Some(h) => h@, None => Seq::<char>::empty() };
            assert(p@ == install_paths_spec(os, h, config_dir@));
            if os != Os::Windows {
                assert(install_paths_spec(os, h, config_dir@) == install_paths_spec(
                    os,
                    Seq::<char>::empty(),
                    Seq::<char>::empty(),
                ));
            }
        }
    }
    res
}

/// The character that separates the directories listed in `PATH` on `os`.
pub open spec fn path_list_separator(os: Os) -> char {
    if os == Os::Windows { ';' } else { ':' }
}

/// The places where `program_name` would be, for each directory that
/// `system_path` lists, in order.
pub open spec fn program_candidates_spec(os: Os, system_path: Seq<char>, program_name: Seq<char>) -> Seq<Seq<char>> {
    split_on(system_path, path_list_separator(os)).map_values(|d: Seq<char>| join_spec(os, d, program_name))
}

/// Lists, in order, the places where `program_name` would be found for each
/// directory of the `PATH` value `system_path`.
pub fn program_path_candidates(os: Os, system_path: &str, program_name: &str) -> (res: Vec<String>)
    ensures
        views(res@) == program_candidates_spec(os, system_path@, program_name@),
{
    let sep = if os.is_windows() { ';' } else { ':' };
    let dirs = split_chars(system_path, sep);
    let ghost ds = views(dirs@);
    let mut res: Vec<String> = Vec::new();
    let mut i: usize = 0;
    while i < dirs.len()
        invariant
            ds == views(dirs@),
            ds == split_on(system_path@, path_list_separator(os)),
            i <= dirs.len(),
            views(res@) == ds.take(i as int).map_values(|d: Seq<char>| join_spec(os, d, program_name@)),
        decreases dirs.len() - i,
    {
        let candidate = join_path(os, dirs[i].as_str(), program_name);
        let ghost before = views(res@);
        res.push(candidate);
        assert(views(res@) =~= before.push(candidate@));
        assert(ds.take(i + 1) =~= ds.take(i as int).push(ds[i as int]));
        assert(ds.take(i + 1).map_values(|d: Seq<char>| join_spec(os, d, program_name@))
            =~= ds.take(i as int).map_values(|d: Seq<char>| join_spec(os, d, program_name@)).push(join_spec(os, ds[i as int], program_name@)));
        i = i + 1;
    }
    assert(ds.take(dirs.len() as int) =~= ds);
    res
}

/// The first position holding `true`, if any.
pub fn first_true(flags: &Vec<bool>) -> (res: Option<usize>)
    ensures
        match res {
            Some(k) => k < flags.len() && flags@[k as int] && forall|j: int| 0 <= j < k ==> !flags@[j],
            None => forall|j: int| 0 <= j < flags.len() ==> !flags@[j],
        },
{
    let mut i: usize = 0;
    while i < flags.len()
        invariant
            i <= flags.len(),
            forall|j: int| 0 <= j < i ==> !flags@[j],
        decreases flags.len() - i,
    {
        if flags[i] {
            return Some(i);
        }
        i = i + 1;
    }
    None
}

} // verus!

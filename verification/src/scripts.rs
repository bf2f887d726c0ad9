//! The files the installer writes: the runner script, the uninstall script,
//! the desktop entry (or, on Windows, the PowerShell script that makes the
//! Start-menu shortcut), and the messages that report a failed step.

use vstd::prelude::*;
use crate::platform::{Os, FULL_PROGRAM_NAME, IS_CONSOLE_APP, SIMPLE_PROGRAM_NAME};
use crate::paths::{InstallPaths, InstallPathsView, join_spec, join_path};
use crate::text::{concatenate, contains_seq, lemma_contains_append_left, lemma_contains_append_right, lemma_contains_self};

verus! {

/// First line of the Windows runner script, up to the quoted jar path.
pub const RUNNER_WINDOWS_HEAD: &'static str = "@ECHO OFF\n            START /B javaw -jar \"";

/// First line of the Unix runner script, up to the quoted jar path.
pub const RUNNER_UNIX_HEAD: &'static str = "#!/bin/sh\n            java -jar \"";

/// The text of the script that starts the installed program.
pub open spec fn runner_script_spec(os: Os, jar: Seq<char>) -> Seq<char> {
    if os == Os::Windows {
        RUNNER_WINDOWS_HEAD@ + jar + "\""@
    } else {
        RUNNER_UNIX_HEAD@ + jar + "\""@
    }
}

/// Writes the text of the script that starts the program from `jar`.
pub fn runner_script_contents(os: Os, jar: &str) -> (res: String)
    ensures
        res@ == runner_script_spec(os, jar@),
{
    let mut res = if os.is_windows() {
        String::from_str(RUNNER_WINDOWS_HEAD)
    } else {
        String::from_str(RUNNER_UNIX_HEAD)
    };
    res.append(jar);
    res.append("\"");
    res
}

/// A file to be written: where, what, and whether it is to be made
/// executable afterwards.
pub struct ScriptFile {
    pub path: String,
    pub contents: String,
    pub make_executable: bool,
}

/// The runner script to write: in the runner-script path, starting the
/// installed jar, made executable everywhere but on Windows.
pub fn create_runner_script(os: Os, paths: &InstallPaths) -> (res: ScriptFile)
    ensures
        res.path@ == paths.runner_script@,
        res.contents@ == runner_script_spec(os, paths.jar@),
        res.make_executable == (os != Os::Windows),
{
    ScriptFile {
        path: paths.runner_script.clone(),
        contents: runner_script_contents(os, paths.jar.as_str()),
        make_executable: !os.is_windows(),
    }
}

/// The start of the Windows uninstall script.
pub const UNINSTALL_WINDOWS_HEAD: &'static str = "@ECHO OFF";

/// The start of the Unix uninstall script: it refuses to run unless root
/// runs it and the user confirms.
pub const UNINSTALL_UNIX_HEAD: &'static str = "#!/bin/sh\n            if [ \"$UID\" != 0 ]\n            then\n                echo \"You must be root to run this script\"\n                exit\n            fi\n            read -p \"Are you sure you want to run this uninstaller? \" -n 1 -r\n            echo \"\"\n            if [[ ! $REPLY =~ ^[y]$ ]]\n            then\n                echo \"Cancelled\"\n                exit\n            fi\n            ";

/// The line that lets a Windows batch file delete itself.
pub const UNINSTALL_WINDOWS_SELF_DELETE: &'static str = "\n(goto) 2>nul & del \"%~f0\"";

/// The last line of every uninstall script.
pub const UNINSTALL_TAIL: &'static str = "\n echo 'Finished uninstallation'";

/// The files the uninstall script removes: the runner script, the jar, the
/// icon and the application link, and on systems other than Windows the
/// uninstall script itself.
pub open spec fn uninstall_targets(os: Os, p: InstallPathsView) -> Seq<Seq<char>> {
    let common = seq![p.runner_script, p.jar, p.icon, p.app_link];
    if os == Os::Windows {
        common
    } else {
        common.push(p.uninstall_script)
    }
}

/// The script line that removes `path`.
pub open spec fn removal_line(os: Os, path: Seq<char>) -> Seq<char> {
    if os == Os::Windows {
        "\r\ndel \""@ + path + "\""@
    } else {
        "\nrm '"@ + path + "'"@
    }
}

/// The removal lines for `targets`, in order.
pub open spec fn removal_lines(os: Os, targets: Seq<Seq<char>>) -> Seq<char>
    decreases targets.len(),
{
    if targets.len() == 0 {
        Seq::empty()
    } else {
        removal_lines(os, targets.drop_last()) + removal_line(os, targets.last())
    }
}

/// The text of the uninstall script.
pub open spec fn uninstall_script_spec(os: Os, p: InstallPathsView) -> Seq<char> {
    if os == Os::Windows {
        UNINSTALL_WINDOWS_HEAD@ + removal_lines(os, uninstall_targets(os, p))
            + UNINSTALL_WINDOWS_SELF_DELETE@ + UNINSTALL_TAIL@
    } else {
        UNINSTALL_UNIX_HEAD@ + removal_lines(os, uninstall_targets(os, p)) + UNINSTALL_TAIL@
    }
}

proof fn lemma_removal_lines_contain(os: Os, targets: Seq<Seq<char>>, i: int)
    requires
        0 <= i < targets.len(),
    ensures
        contains_seq(removal_lines(os, targets), removal_line(os, targets[i])),
    decreases targets.len(),
{
    let prefix = removal_lines(os, targets.drop_last());
    let last = removal_line(os, targets.last());
    if i == targets.len() - 1 {
        lemma_contains_self(last);
        lemma_contains_append_left(prefix, last, last);
    } else {
        lemma_removal_lines_contain(os, targets.drop_last(), i);
        assert(targets.drop_last()[i] == targets[i]);
        lemma_contains_append_right(prefix, last, removal_line(os, targets[i]));
    }
}

/// The uninstall script removes every installed file: the runner script,
/// the jar, the icon and the application link, and on systems other than
/// Windows the uninstall script itself.
pub proof fn lemma_uninstaller_removes_every_file(os: Os, p: InstallPathsView, i: int)
    requires
        0 <= i < uninstall_targets(os, p).len(),
    ensures
        contains_seq(uninstall_script_spec(os, p), removal_line(os, uninstall_targets(os, p)[i])),
        uninstall_targets(os, p).contains(p.runner_script),
        uninstall_targets(os, p).contains(p.jar),
        uninstall_targets(os, p).contains(p.icon),
        uninstall_targets(os, p).contains(p.app_link),
        os != Os::Windows ==> uninstall_targets(os, p).contains(p.uninstall_script),
{
    let t = uninstall_targets(os, p);
    let lines = removal_lines(os, t);
    let line = removal_line(os, t[i]);
    lemma_removal_lines_contain(os, t, i);
    if os == Os::Windows {
        lemma_contains_append_left(UNINSTALL_WINDOWS_HEAD@, lines, line);
        lemma_contains_append_right(UNINSTALL_WINDOWS_HEAD@ + lines, UNINSTALL_WINDOWS_SELF_DELETE@, line);
        lemma_contains_append_right(UNINSTALL_WINDOWS_HEAD@ + lines + UNINSTALL_WINDOWS_SELF_DELETE@, UNINSTALL_TAIL@, line);
    } else {
        lemma_contains_append_left(UNINSTALL_UNIX_HEAD@, lines, line);
        lemma_contains_append_right(UNINSTALL_UNIX_HEAD@ + lines, UNINSTALL_TAIL@, line);
        assert(t[4] == p.uninstall_script);
    }
    assert(t[0] == p.runner_script);
    assert(t[1] == p.jar);
    assert(t[2] == p.icon);
    assert(t[3] == p.app_link);
}

/// Appends the line that removes `path`.
fn append_removal_line(os: Os, script: &mut String, path: &String)
    ensures
        final(script)@ == old(script)@ + removal_line(os, path@),
{
    if os.is_windows() {
        script.append("\r\ndel \"");
        script.append(path.as_str());
        script.append("\"");
    } else {
        script.append("\nrm '");
        script.append(path.as_str());
        script.append("'");
    }
}

/// Writes the text of the uninstall script for the files in `paths`.
pub fn uninstall_script_contents(os: Os, paths: &InstallPaths) -> (res: String)
    ensures
        res@ == uninstall_script_spec(os, paths@),
{
    let ghost targets = uninstall_targets(os, paths@);
    let windows = os.is_windows();
    let mut script = if windows {
        String::from_str(UNINSTALL_WINDOWS_HEAD)
    } else {
        String::from_str(UNINSTALL_UNIX_HEAD)
    };
    let ghost head = script@;
    append_removal_line(os, &mut script, &paths.runner_script);
    append_removal_line(os, &mut script, &paths.jar);
    append_removal_line(os, &mut script, &paths.icon);
    append_removal_line(os, &mut script, &paths.app_link);
    assert(targets.take(4) =~= seq![paths@.runner_script, paths@.jar, paths@.icon, paths@.app_link]);
    proof {
        let t = targets.take(4);
        assert(t.drop_last().drop_last().drop_last().drop_last() =~= Seq::<Seq<char>>::empty());
        assert(t.drop_last().drop_last().drop_last() =~= seq![paths@.runner_script]);
        assert(t.drop_last().drop_last() =~= seq![paths@.runner_script, paths@.jar]);
        assert(t.drop_last() =~= seq![paths@.runner_script, paths@.jar, paths@.icon]);
        let l1 = removal_line(os, paths@.runner_script);
        let l2 = removal_line(os, paths@.jar);
        let l3 = removal_line(os, paths@.icon);
        let l4 = removal_line(os, paths@.app_link);
        assert(removal_lines(os, t.drop_last().drop_last().drop_last().drop_last()) =~= Seq::<char>::empty());
        assert(removal_lines(os, t.drop_last().drop_last().drop_last()) =~= l1);
        assert(removal_lines(os, t.drop_last().drop_last()) =~= l1 + l2);
        assert(removal_lines(os, t.drop_last()) =~= l1 + l2 + l3);
        assert(removal_lines(os, t) =~= l1 + l2 + l3 + l4);
        assert(script@ =~= head + removal_lines(os, t));
    }
    if !windows {
        append_removal_line(os, &mut script, &paths.uninstall_script);
        assert(targets.drop_last() =~= targets.take(4));
        assert(script@ =~= head + removal_lines(os, targets));
    } else {
        assert(targets =~= targets.take(4));
    }
    if windows {
        script.append(UNINSTALL_WINDOWS_SELF_DELETE);
    }
    script.append(UNINSTALL_TAIL);
    script
}

/// The uninstall script to write: in the uninstall-script path, made
/// executable everywhere but on Windows.
pub fn create_uninstall_script(os: Os, paths: &InstallPaths) -> (res: ScriptFile)
    ensures
        res.path@ == paths.uninstall_script@,
        res.contents@ == uninstall_script_spec(os, paths@),
        res.make_executable == (os != Os::Windows),
{
    ScriptFile {
        path: paths.uninstall_script.clone(),
        contents: uninstall_script_contents(os, paths),
        make_executable: !os.is_windows(),
    }
}

/// Desktop entry text up to the terminal flag.
pub const DESKTOP_HEAD: &'static str = "\n        [Desktop Entry]\n        Encoding=UTF-8\n        Version=1.0\n        Type=Application\n        Terminal=";

/// Desktop entry text between the terminal flag and the jar path.
pub const DESKTOP_EXEC: &'static str = "\n        Exec=java -jar ";

/// Desktop entry text before the program name.
pub const DESKTOP_NAME: &'static str = "\n        Name=";

/// Desktop entry text before the icon path.
pub const DESKTOP_ICON: &'static str = "\n        Icon=";

/// `b` as Rust prints it.
pub open spec fn bool_text(b: bool) -> Seq<char> {
    if b { "true"@ } else { "false"@ }
}

/// The text of the desktop entry that starts the program from `jar` with the
/// icon at `icon`.
pub open spec fn desktop_entry_spec(jar: Seq<char>, icon: Seq<char>) -> Seq<char> {
    DESKTOP_HEAD@ + bool_text(IS_CONSOLE_APP) + DESKTOP_EXEC@ + jar + DESKTOP_NAME@
        + FULL_PROGRAM_NAME@ + DESKTOP_ICON@ + icon
}

/// Writes the text of the desktop entry.
pub fn desktop_entry_contents(jar: &str, icon: &str) -> (res: String)
    ensures
        res@ == desktop_entry_spec(jar@, icon@),
{
    let mut res = String::from_str(DESKTOP_HEAD);
    if IS_CONSOLE_APP {
        res.append("true");
    } else {
        res.append("false");
    }
    res.append(DESKTOP_EXEC);
    res.append(jar);
    res.append(DESKTOP_NAME);
    res.append(FULL_PROGRAM_NAME);
    res.append(DESKTOP_ICON);
    res.append(icon);
    res
}

/// PowerShell text up to the shortcut location.
pub const SHORTCUT_HEAD: &'static str = "\n        $WshShell = New-Object -comObject WScript.Shell\n        $Shortcut = $WshShell.CreateShortcut(\"";

/// PowerShell text between the shortcut location and the jar location.
pub const SHORTCUT_TARGET: &'static str = "\")\n        $Shortcut.TargetPath = \"javaw\"\n        $Shortcut.Arguments = '-jar \"";

/// PowerShell text between the jar location and the icon location.
pub const SHORTCUT_ICON: &'static str = "\"'\n        $Shortcut.IconLocation = \"";

/// PowerShell text after the icon location.
pub const SHORTCUT_TAIL: &'static str = "\" \n        $Shortcut.Save()";

/// The PowerShell script that makes a Start-menu shortcut at `link` that runs
/// `jar` with `javaw` and shows `icon`.
pub open spec fn shortcut_script_spec(link: Seq<char>, jar: Seq<char>, icon: Seq<char>) -> Seq<char> {
    SHORTCUT_HEAD@ + link + SHORTCUT_TARGET@ + jar + SHORTCUT_ICON@ + icon + SHORTCUT_TAIL@
}

/// Writes the PowerShell script that makes the Start-menu shortcut.
pub fn shortcut_script(link: &str, jar: &str, icon: &str) -> (res: String)
    ensures
        res@ == shortcut_script_spec(link@, jar@, icon@),
{
    let mut res = String::from_str(SHORTCUT_HEAD);
    res.append(link);
    res.append(SHORTCUT_TARGET);
    res.append(jar);
    res.append(SHORTCUT_ICON);
    res.append(icon);
    res.append(SHORTCUT_TAIL);
    res
}

/// How the application link is made.
pub enum AppLink {
    /// Write this desktop entry file (systems other than Windows).
    DesktopEntry(ScriptFile),
    /// Feed this script to PowerShell on its standard input (Windows).
    PowerShell(String),
}

/// How to make the link that puts the program in the desktop's menus.
pub fn create_app_link(os: Os, paths: &InstallPaths) -> (res: AppLink)
    ensures
        os == Os::Windows ==> (res matches AppLink::PowerShell(script)
            && script@ == shortcut_script_spec(paths.app_link@, paths.jar@, paths.icon@)),
        os != Os::Windows ==> (res matches AppLink::DesktopEntry(file)
            && file.path@ == paths.app_link@
            && file.contents@ == desktop_entry_spec(paths.jar@, paths.icon@)
            && !file.make_executable),
{
    if os.is_windows() {
        AppLink::PowerShell(shortcut_script(paths.app_link.as_str(), paths.jar.as_str(), paths.icon.as_str()))
    } else {
        AppLink::DesktopEntry(ScriptFile {
            path: paths.app_link.clone(),
            contents: desktop_entry_contents(paths.jar.as_str(), paths.icon.as_str()),
            make_executable: false,
        })
    }
}


/// The directory that a system-wide jar install uses on `os`.
pub open spec fn binary_directory_spec(os: Os) -> Seq<char> {
    if os == Os::Windows { "C:\\Program Files\\"@ } else { "/usr/bin/"@ }
}

/// The runner of a system-wide jar install, which calls `java -jar` on the
/// installed jar path (unquoted).
pub open spec fn jar_runner_spec(os: Os, jar: Seq<char>) -> Seq<char> {
    if os == Os::Windows {
        "java -jar "@ + jar
    } else {
        "#!/bin/sh\n            java -jar "@ + jar
    }
}

/// A system-wide install of the jar: where it and its runner go, what the
/// runner says, and whether the runner's permissions are then set to
/// `0o644` (on every system but Linux).
pub struct JarInstall {
    pub jar_path: String,
    pub runner_script_path: String,
    pub runner_script_contents: String,
    pub set_runner_permissions: bool,
}

/// Plans a system-wide install of the jar into the system's program
/// directory.
pub fn install_jar(os: Os) -> (res: JarInstall)
    ensures
        res.jar_path@ == join_spec(os, binary_directory_spec(os), SIMPLE_PROGRAM_NAME@ + ".jar"@),
        res.runner_script_path@ == join_spec(
            os,
            binary_directory_spec(os),
            if os == Os::Windows { SIMPLE_PROGRAM_NAME@ + ".bat"@ } else { SIMPLE_PROGRAM_NAME@ },
        ),
        res.runner_script_contents@ == jar_runner_spec(os, res.jar_path@),
        res.set_runner_permissions == (os != Os::Linux),
{
    let windows = os.is_windows();
    let binary_directory: &str = if windows { "C:\\Program Files\\" } else { "/usr/bin/" };
    let runner_name = if windows {
        concatenate(SIMPLE_PROGRAM_NAME, ".bat")
    } else {
        String::from_str(SIMPLE_PROGRAM_NAME)
    };
    let jar_name = concatenate(SIMPLE_PROGRAM_NAME, ".jar");
    let jar_path = join_path(os, binary_directory, jar_name.as_str());
    let runner_script_path = join_path(os, binary_directory, runner_name.as_str());
    let runner_script_contents = if windows {
        concatenate("java -jar ", jar_path.as_str())
    } else {
        concatenate("#!/bin/sh\n            java -jar ", jar_path.as_str())
    };
    let set_runner_permissions = match os {
        Os::Linux => false,
        _ => true,
    };
    JarInstall { jar_path, runner_script_path, runner_script_contents, set_runner_permissions }
}

/// The file, in the current directory, that a downloaded jar is saved to.
pub fn saved_jar_file_name() -> (res: String)
    ensures
        res@ == SIMPLE_PROGRAM_NAME@ + ".jar"@,
{
    concatenate(SIMPLE_PROGRAM_NAME, ".jar")
}

} // verus!

//! Finding the Java runtime and reading its version from the text that
//! `java -fullversion` prints.

use vstd::prelude::*;
use crate::platform::{Os, MIN_JAVA_VERSION};
use crate::text::{split_on, views, split_chars, remove_all, remove_char, parse_i32_spec, parse_i32, lemma_split_concat, lemma_split_single, lemma_split_prefix, all_digits, is_digit};

verus! {

/// The first position at or after `i` where `ws` holds `w`.
pub open spec fn first_index_from(ws: Seq<Seq<char>>, w: Seq<char>, i: nat) -> Option<nat>
    decreases ws.len() - i,
{
    if i >= ws.len() {
        None
    } else if ws[i as int] == w {
        Some(i)
    } else {
        first_index_from(ws, w, i + 1)
    }
}

/// The space-separated word that follows the first word `version` in the
/// output, if there is one.
pub open spec fn version_word(output: Seq<char>) -> Option<Seq<char>> {
    let words = split_on(output, ' ');
    match first_index_from(words, "version"@, 0) {
        Some(k) => if k + 1 < words.len() {
            Some(words[k + 1int])
        } else {
            None
        },
        None => None,
    }
}

/// The Java version that the output of `java -fullversion` names, read from
/// the word after `version` without its quotes. Versions of the old scheme
/// (`1.7.5`, `1.8.0_292`) are read by their second dot-separated field;
/// from Java 9 on (`17.0.1+12`, `17+35`, `17`) by the major number, the text
/// before the first `.` or `+`. The field is read as an `i32`.
pub open spec fn java_version_of(output: Seq<char>) -> Option<i32> {
    match version_word(output) {
        Some(word) => {
            let parts = split_on(remove_all(word, '"'), '.');
            if parts[0] == "1"@ && parts.len() >= 2 {
                parse_i32_spec(parts[1])
            } else {
                parse_i32_spec(split_on(parts[0], '+')[0])
            }
        },
        None => None,
    }
}

/// Versions of the current scheme (Java 9 on: `17.0.1+12`, `17+35`, `17`)
/// are read by their major number, the digits before the first `.` or `+`.
pub proof fn lemma_current_version_scheme(output: Seq<char>, word: Seq<char>, major: Seq<char>, tail: Seq<char>)
    requires
        version_word(output) == Some(word),
        remove_all(word, '"') == major + tail,
        major.len() > 0,
        all_digits(major),
        major != "1"@,
        tail.len() == 0 || tail[0] == '.' || tail[0] == '+',
    ensures
        java_version_of(output) == parse_i32_spec(major),
{
    reveal_strlit("1");
    assert(!major.contains('.') && !major.contains('+')) by {
        if major.contains('.') || major.contains('+') {
            let k = choose|k: int| 0 <= k < major.len() && (major[k] == '.' || major[k] == '+');
            assert(is_digit(major[k]));
        }
    }
    lemma_split_prefix(major, tail, '.');
    let parts = split_on(remove_all(word, '"'), '.');
    lemma_split_single(major, '+');
    if tail.len() == 0 {
        assert(tail =~= Seq::<char>::empty());
        assert(parts[0] == major);
    } else if tail[0] == '.' {
        lemma_split_concat(Seq::<char>::empty(), '.', tail.drop_first());
        assert(Seq::<char>::empty() + seq!['.'] + tail.drop_first() =~= tail);
        lemma_split_single(Seq::<char>::empty(), '.');
        assert(split_on(tail, '.')[0] =~= Seq::<char>::empty());
        assert(parts[0] =~= major);
    } else {
        let r = tail.drop_first();
        assert(seq!['+'] + r =~= tail);
        assert(!seq!['+'].contains('.')) by {
            if seq!['+'].contains('.') {
                let k = choose|k: int| 0 <= k < 1 && seq!['+'][k] == '.';
            }
        }
        lemma_split_prefix(seq!['+'], r, '.');
        let q = split_on(r, '.')[0];
        assert(parts[0] =~= major + seq!['+'] + q);
        assert(parts[0].len() >= 2);
        assert(parts[0] != "1"@);
        lemma_split_concat(major, '+', q);
        crate::text::lemma_split_nonempty(q, '+');
    }
}

/// Versions of the old scheme (`1.7.5`, `1.8.0_292`) are read by their
/// second field.
pub proof fn lemma_old_version_scheme(output: Seq<char>, word: Seq<char>, minor: Seq<char>, rest: Seq<char>)
    requires
        version_word(output) == Some(word),
        remove_all(word, '"') == "1"@ + seq!['.'] + minor + seq!['.'] + rest,
        !minor.contains('.'),
    ensures
        java_version_of(output) == parse_i32_spec(minor),
{
    reveal_strlit("1");
    let one = "1"@;
    assert(!one.contains('.')) by {
        assert(one.len() == 1 && one[0] == '1');
    }
    lemma_split_concat(one + seq!['.'] + minor, '.', rest);
    lemma_split_concat(one, '.', minor);
    lemma_split_single(one, '.');
    lemma_split_single(minor, '.');
    crate::text::lemma_split_nonempty(rest, '.');
    let parts = split_on(remove_all(word, '"'), '.');
    assert(parts[0] == one);
    assert(parts[1] == minor);
}

/// The first position at which `words` holds `target`.
pub fn position_of(words: &Vec<String>, target: &String) -> (res: Option<usize>)
    ensures
        res matches Some(k) ==> k < words.len() && first_index_from(views(words@), target@, 0) == Some(k as nat),
        res is None ==> first_index_from(views(words@), target@, 0) is None,
{
    let ghost ws = views(words@);
    let mut i: usize = 0;
    while i < words.len()
        invariant
            ws == views(words@),
            ws.len() == words@.len(),
            i <= words.len(),
            first_index_from(ws, target@, 0) == first_index_from(ws, target@, i as nat),
        decreases words.len() - i,
    {
        if words[i] == *target {
            return Some(i);
        }
        i = i + 1;
    }
    None
}

/// Reads the Java version out of what `java -fullversion` wrote to its error
/// stream. `None` means the version could not be worked out, and the user is
/// to be asked instead.
pub fn java_version_from_output(output: &str) -> (res: Option<i32>)
    ensures
        res == java_version_of(output@),
{
    let words = split_chars(output, ' ');
    let target = String::from_str("version");
    let k = match position_of(&words, &target) {
        Some(k) => k,
        None => {
            return None;
        },
    };
    if words.len() - k < 2 {
        return None;
    }
    assert(views(words@)[k + 1] == words@[k + 1]@);
    assert(version_word(output@) == Some(words@[k + 1]@));
    let cleaned = remove_char(words[k + 1].as_str(), '"');
    let parts = split_chars(cleaned.as_str(), '.');
    proof {
        crate::text::lemma_split_nonempty(cleaned@, '.');
    }
    let one = String::from_str("1");
    assert(views(parts@)[0] == parts@[0]@);
    if parts[0] == one && parts.len() >= 2 {
        assert(views(parts@)[1] == parts@[1]@);
        return parse_i32(parts[1].as_str());
    }
    let pieces = split_chars(parts[0].as_str(), '+');
    proof {
        crate::text::lemma_split_nonempty(parts@[0]@, '+');
    }
    assert(views(pieces@)[0] == pieces@[0]@);
    parse_i32(pieces[0].as_str())
}

/// The name of the Java executable on `os`.
pub fn java_executable_name(os: Os) -> (res: String)
    ensures
        res@ == (if os == Os::Windows { "java.exe"@ } else { "java"@ }),
{
    if os.is_windows() {
        String::from_str("java.exe")
    } else {
        String::from_str("java")
    }
}

/// The version to go by when the user was asked instead: the minimum version
/// if they said a suitable runtime is installed, otherwise 0.
pub fn version_from_user_answer(has_runtime: bool) -> (res: i32)
    ensures
        res == (if has_runtime { MIN_JAVA_VERSION } else { 0 }),
{
    if has_runtime {
        MIN_JAVA_VERSION
    } else {
        0
    }
}

/// Whether Java `version` is recent enough to run the program.
pub fn java_version_sufficient(version: i32) -> (res: bool)
    ensures
        res == (version >= MIN_JAVA_VERSION),
{
    version >= MIN_JAVA_VERSION
}

} // verus!

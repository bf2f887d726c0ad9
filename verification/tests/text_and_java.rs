use tinyinstallj::java::{java_executable_name, java_version_from_output, java_version_sufficient, version_from_user_answer};
use tinyinstallj::platform::{Os, MIN_JAVA_VERSION};
use tinyinstallj::text::{parse_i32, remove_char, split_chars, trim, concatenate};
use tinyinstallj::utils::{ask_yn, yn_prompt, i32_to_text, jre_question, java_requirement_message};

#[test]
fn reads_current_scheme_version() {
    assert_eq!(java_version_from_output("openjdk full version \"17.0.1+12-39\"\n"), Some(17));
    assert_eq!(java_version_from_output("openjdk full version \"21.0.2+13-58\""), Some(21));
}

#[test]
fn reads_major_version_without_dots() {
    assert_eq!(java_version_from_output("openjdk full version \"17+35\"\n"), Some(17));
    assert_eq!(java_version_from_output("openjdk full version \"17\""), Some(17));
    assert_eq!(java_version_from_output("openjdk full version \"11.0.2+9\""), Some(11));
    assert_eq!(java_version_from_output("openjdk full version \"21+35-2513\""), Some(21));
}

#[test]
fn reads_old_scheme_version() {
    assert_eq!(java_version_from_output("java full version \"1.8.0_292-b10\"\n"), Some(8));
    assert_eq!(java_version_from_output("java full version \"1.7.5\""), Some(7));
}

#[test]
fn unreadable_versions_are_refused() {
    assert_eq!(java_version_from_output(""), None);
    assert_eq!(java_version_from_output("no such word here"), None);
    assert_eq!(java_version_from_output("java full version"), None);
    assert_eq!(java_version_from_output("java full version \"abc.1\""), None);
    assert_eq!(java_version_from_output("java full version \"1.x.2\""), None);
    assert_eq!(java_version_from_output("java full version  \"17.0.1\""), None);
}

#[test]
fn first_version_word_counts() {
    assert_eq!(java_version_from_output("version \"11.0.2\" version \"17.0.1\""), Some(11));
}

#[test]
fn parses_i32_like_std() {
    for s in ["0", "7", "+7", "-7", "2147483647", "-2147483648", "2147483648", "-2147483649", "", "-", "+", "1a", " 1", "007", "99999999999999999999"] {
        assert_eq!(parse_i32(s), s.parse::<i32>().ok(), "input {:?}", s);
    }
}

#[test]
fn splits_like_std() {
    for (s, c) in [("a::b", ':'), ("", ':'), (":", ':'), ("/bin:/usr/bin", ':'), ("x", '.'), ("1.8.0_292", '.')] {
        let ours = split_chars(s, c);
        let std: Vec<String> = s.split(c).map(|p| p.to_string()).collect();
        assert_eq!(ours, std);
    }
}

#[test]
fn removes_quotes() {
    assert_eq!(remove_char("\"17.0.1\"", '"'), "17.0.1");
    assert_eq!(remove_char("", '"'), "");
}

#[test]
fn trims_like_std() {
    for s in ["  y\n", "n", "\t\r\n", "", " a b ", "\u{2003}y\u{2003}"] {
        assert_eq!(trim(s), s.trim());
    }
}

#[test]
fn concatenates() {
    assert_eq!(concatenate("ab", "cd"), "abcd");
}

#[test]
fn yes_no_answers() {
    assert!(ask_yn("y", false));
    assert!(!ask_yn("n", true));
    assert!(ask_yn("", true));
    assert!(!ask_yn("", false));
    assert!(!ask_yn("yes", false));
    assert!(ask_yn("Y", true));
    assert!(!ask_yn("Y", false));
}

#[test]
fn yes_no_prompts() {
    assert_eq!(yn_prompt("Proceed?", true), "Proceed? (Y/n) ");
    assert_eq!(yn_prompt("Proceed?", false), "Proceed? (y/N) ");
}

#[test]
fn writes_numbers() {
    for n in [0, 7, 17, 100, -45, i32::MAX, i32::MIN] {
        assert_eq!(i32_to_text(n), n.to_string());
    }
}

#[test]
fn java_messages() {
    assert_eq!(jre_question(), "Does your computer have JRE version 17 or greater installed?");
    assert_eq!(java_requirement_message(), "This program requires a minimum Java version of 17 to run");
}

#[test]
fn java_checks() {
    assert_eq!(java_executable_name(Os::Windows), "java.exe");
    assert_eq!(java_executable_name(Os::Linux), "java");
    assert_eq!(version_from_user_answer(true), MIN_JAVA_VERSION);
    assert_eq!(version_from_user_answer(false), 0);
    assert!(java_version_sufficient(17));
    assert!(java_version_sufficient(21));
    assert!(!java_version_sufficient(8));
}

#[test]
fn split_then_join_round_trip() {
    for (s, c) in [("a::b", ':'), ("", ':'), ("::", ':'), ("1.8.0_292", '.')] {
        let parts = split_chars(s, c);
        assert_eq!(parts.join(&c.to_string()), s);
        assert!(parts.iter().all(|p| !p.contains(c)));
    }
}

//! Questions to the user and the text of the installer's messages.

use vstd::prelude::*;
use crate::platform::{Os, FULL_PROGRAM_NAME, SIMPLE_PROGRAM_NAME, MIN_JAVA_VERSION};
use crate::text::push_char;

verus! {

/// The prompt shown for a yes/no question: the default answer is the
/// capital letter.
pub open spec fn yn_prompt_spec(prompt: Seq<char>, default_response: bool) -> Seq<char> {
    if default_response {
        prompt + " (Y/n) "@
    } else {
        prompt + " (y/N) "@
    }
}

/// Writes the prompt for a yes/no question.
pub fn yn_prompt(prompt: &str, default_response: bool) -> (res: String)
    ensures
        res@ == yn_prompt_spec(prompt@, default_response),
{
    let mut res = prompt.to_owned();
    if default_response {
        res.append(" (Y/n) ");
    } else {
        res.append(" (y/N) ");
    }
    res
}

/// The answer to a yes/no question, given what the user typed (already
/// trimmed): exactly `y` is yes, exactly `n` is no, anything else is the
/// default.
pub open spec fn ask_yn_spec(input: Seq<char>, default_response: bool) -> bool {
    if input == "y"@ {
        true
    } else if input == "n"@ {
        false
    } else {
        default_response
    }
}

/// Whatever the default, the answer `y` means yes and the answer `n` means
/// no; any other answer (an empty line, `yes`, `Y`, ...) gives the default.
pub proof fn lemma_yes_no_answers(default_response: bool, input: Seq<char>)
    ensures
        ask_yn_spec("y"@, default_response),
        !ask_yn_spec("n"@, default_response),
        input != "y"@ && input != "n"@ ==> ask_yn_spec(input, default_response) == default_response,
{
    reveal_strlit("y");
    reveal_strlit("n");
    assert("y"@[0] != "n"@[0]);
}

/// Decides a yes/no question from what the user typed (already trimmed).
pub fn ask_yn(input: &str, default_response: bool) -> (res: bool)
    ensures
        res == ask_yn_spec(input@, default_response),
{
    let answer = input.to_owned();
    if answer == String::from_str("y") {
        true
    } else if answer == String::from_str("n") {
        false
    } else {
        default_response
    }
}

/// The character of the decimal digit `d`.
pub open spec fn digit_char(d: int) -> char {
    (48 + d) as char
}

/// The decimal digits of `n`, most significant first.
pub open spec fn nat_text(n: nat) -> Seq<char>
    decreases n,
{
    if n < 10 {
        seq![digit_char(n as int)]
    } else {
        nat_text(n / 10).push(digit_char((n % 10) as int))
    }
}

/// `n` in decimal, as `i32::to_string` writes it.
pub open spec fn i32_text(n: i32) -> Seq<char> {
    if n < 0 {
        "-"@ + nat_text((-n) as nat)
    } else {
        nat_text(n as nat)
    }
}

fn digit_to_char(d: u64) -> (c: char)
    requires
        d < 10,
    ensures
        c == digit_char(d as int),
{
    let b: u8 = 48u8 + (d as u8);
    b as char
}

fn write_nat(out: &mut String, n: u64)
    ensures
        final(out)@ == old(out)@ + nat_text(n as nat),
    decreases n,
{
    if n < 10 {
        push_char(out, digit_to_char(n));
        assert(nat_text(n as nat) == seq![digit_char(n as int)]);
    } else {
        write_nat(out, n / 10);
        push_char(out, digit_to_char(n % 10));
    }
}

/// Writes `n` in decimal.
pub fn i32_to_text(n: i32) -> (res: String)
    ensures
        res@ == i32_text(n),
{
    let mut res = String::new();
    if n < 0 {
        res.append("-");
        let m: i64 = n as i64;
        write_nat(&mut res, (-m) as u64);
    } else {
        write_nat(&mut res, n as u64);
    }
    res
}

/// `a + b + c` as a new string.
fn join3(a: &str, b: &str, c: &str) -> (res: String)
    ensures
        res@ == a@ + b@ + c@,
{
    let mut res = a.to_owned();
    res.append(b);
    res.append(c);
    res
}

/// The question asked when the Java version cannot be read automatically.
pub fn jre_question() -> (res: String)
    ensures
        res@ == "Does your computer have JRE version "@ + i32_text(MIN_JAVA_VERSION)
            + " or greater installed?"@,
{
    let v = i32_to_text(MIN_JAVA_VERSION);
    join3("Does your computer have JRE version ", v.as_str(), " or greater installed?")
}

/// The line that states the minimum Java version.
pub fn java_requirement_message() -> (res: String)
    ensures
        res@ == "This program requires a minimum Java version of "@ + i32_text(MIN_JAVA_VERSION)
            + " to run"@,
{
    let v = i32_to_text(MIN_JAVA_VERSION);
    join3("This program requires a minimum Java version of ", v.as_str(), " to run")
}

/// The message shown when the installer lacks the rights it needs.
pub fn not_admin_message(os: Os) -> (res: String)
    ensures
        res@ == (if os == Os::Windows {
            "You must be an administrator to run this installer."@
        } else {
            "This installer must be run as root"@
        }),
{
    if os.is_windows() {
        String::from_str("You must be an administrator to run this installer.")
    } else {
        String::from_str("This installer must be run as root")
    }
}

/// How to uninstall the program once it is installed.
pub fn uninstall_instructions(os: Os, uninstall_script: &str) -> (res: String)
    ensures
        res@ == "To uninstall "@ + FULL_PROGRAM_NAME@ + ", run "@ + uninstall_script@
            + (if os == Os::Windows { ""@ } else { " as root"@ }),
{
    let mut res = join3("To uninstall ", FULL_PROGRAM_NAME, ", run ");
    res.append(uninstall_script);
    if os.is_windows() {
        res.append("");
    } else {
        res.append(" as root");
    }
    res
}

/// The line that announces a finished installation.
pub fn installed_message() -> (res: String)
    ensures
        res@ == FULL_PROGRAM_NAME@ + " has been installed as \""@ + SIMPLE_PROGRAM_NAME@ + "\""@,
{
    let mut res = join3(FULL_PROGRAM_NAME, " has been installed as \"", SIMPLE_PROGRAM_NAME);
    res.append("\"");
    res
}

/// The title of the desktop notification shown when the installer was not
/// started in a terminal.
pub fn install_error_title() -> (res: String)
    ensures
        res@ == "Error installing "@ + FULL_PROGRAM_NAME@,
{
    let mut res = String::from_str("Error installing ");
    res.append(FULL_PROGRAM_NAME);
    res
}

/// `prefix` followed by `subject`.
fn prefixed(prefix: &str, subject: &str) -> (res: String)
    ensures
        res@ == prefix@ + subject@,
{
    let mut res = prefix.to_owned();
    res.append(subject);
    res
}

/// The error for a failed download of `url`.
pub fn download_failed_message(url: &str) -> (res: String)
    ensures
        res@ == "Failed to download "@ + url@,
{
    prefixed("Failed to download ", url)
}

/// The error for a directory that could not be created.
pub fn create_dir_failed_message(dir: &str) -> (res: String)
    ensures
        res@ == "Failed to create directory "@ + dir@,
{
    prefixed("Failed to create directory ", dir)
}

/// The error for a file that could not be written.
pub fn write_failed_message(path: &str) -> (res: String)
    ensures
        res@ == "Failed to write "@ + path@,
{
    prefixed("Failed to write ", path)
}

/// The error for a file whose permissions could not be changed.
pub fn permissions_failed_message(path: &str) -> (res: String)
    ensures
        res@ == "Failed changing permissions of "@ + path@,
{
    prefixed("Failed changing permissions of ", path)
}

/// The error for a directory that could not be added to `PATH`.
pub fn path_append_failed_message(dir: &str) -> (res: String)
    ensures
        res@ == "Failed to add "@ + dir@ + " to path"@,
{
    join3("Failed to add ", dir, " to path")
}

/// Whether `chmod +x` succeeded, given how it ended: `None` if it could not
/// be started, `Some(None)` if it ended without an exit code (killed by a
/// signal), `Some(Some(code))` otherwise; a positive code is a failure.
pub open spec fn executable_bit_ok(status: Option<Option<i32>>) -> bool {
    match status {
        Some(Some(code)) => code <= 0,
        _ => false,
    }
}

/// What making `path` executable came to, given how `chmod +x path` ended.
pub fn executable_bit_result(path: &str, status: Option<Option<i32>>) -> (res: Result<(), String>)
    ensures
        executable_bit_ok(status) ==> res is Ok,
        !executable_bit_ok(status) ==> (res matches Err(e) && e@ == "Failed changing permissions of "@ + path@),
{
    match status {
        Some(Some(code)) => {
            if code > 0 {
                Err(permissions_failed_message(path))
            } else {
                Ok(())
            }
        },
        _ => Err(permissions_failed_message(path)),
    }
}

} // verus!

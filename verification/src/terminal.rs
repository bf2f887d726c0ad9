//! Making sure the installer runs in a terminal: when it was started some
//! other way (say, by a double click), it starts itself again under `sudo` in
//! a terminal emulator.

use vstd::prelude::*;
use crate::platform::Os;
use crate::text::{views, concatenate};

verus! {

/// Whether the installer has to start itself again in a terminal: on Windows
/// never (programs open in a console there), elsewhere when its standard
/// output is not a terminal.
pub fn check_is_in_terminal(os: Os, stdout_is_tty: bool) -> (must_relaunch: bool)
    ensures
        must_relaunch == (os != Os::Windows && !stdout_is_tty),
{
    if os.is_windows() {
        false
    } else {
        !stdout_is_tty
    }
}

/// A terminal emulator and the arguments that make it run the installer.
pub struct TerminalCommand {
    pub program: String,
    pub args: Vec<String>,
}

/// The terminal emulators that are tried, best first.
pub open spec fn terminal_programs() -> Seq<Seq<char>> {
    seq!["konsole"@, "alacritty"@, "xfce4-terminal"@, "xterm"@]
}

/// The arguments that make terminal `program` run `executable` under `sudo`:
/// `xfce4-terminal` takes the command as a single argument.
pub open spec fn terminal_args_spec(program: Seq<char>, executable: Seq<char>) -> Seq<Seq<char>> {
    if program == "xfce4-terminal"@ {
        seq!["-e"@, "sudo "@ + executable]
    } else {
        seq!["-e"@, "sudo"@, executable]
    }
}

/// Only `xfce4-terminal` takes the command as one argument (`sudo` and the
/// installer's path together); every other terminal gets `-e`, `sudo` and
/// the path as three arguments.
pub proof fn lemma_terminal_arguments(program: Seq<char>, executable: Seq<char>)
    ensures
        program != "xfce4-terminal"@ ==> terminal_args_spec(program, executable) == seq!["-e"@, "sudo"@, executable],
        program == "xfce4-terminal"@ ==> terminal_args_spec(program, executable) == seq!["-e"@, "sudo "@ + executable],
        terminal_args_spec(program, executable)[0] == "-e"@,
{
}

/// Of the terminals tried, `xfce4-terminal` is the only one that is not
/// `konsole`, `alacritty` or `xterm`.
pub proof fn lemma_terminal_programs_distinct()
    ensures
        terminal_programs()[0] != "xfce4-terminal"@,
        terminal_programs()[1] != "xfce4-terminal"@,
        terminal_programs()[3] != "xfce4-terminal"@,
{
    reveal_strlit("konsole");
    reveal_strlit("alacritty");
    reveal_strlit("xterm");
    reveal_strlit("xfce4-terminal");
    assert("konsole"@.len() != "xfce4-terminal"@.len());
    assert("alacritty"@.len() != "xfce4-terminal"@.len());
    assert("xterm"@.len() != "xfce4-terminal"@.len());
}

fn terminal_command(program: &str, executable: &str) -> (res: TerminalCommand)
    ensures
        res.program@ == program@,
        views(res.args@) == terminal_args_spec(program@, executable@),
{
    let mut args: Vec<String> = Vec::new();
    args.push(String::from_str("-e"));
    let name = String::from_str(program);
    if name == String::from_str("xfce4-terminal") {
        args.push(concatenate("sudo ", executable));
    } else {
        args.push(String::from_str("sudo"));
        args.push(executable.to_owned());
    }
    assert(views(args@) =~= terminal_args_spec(program@, executable@));
    TerminalCommand { program: name, args }
}

/// The commands that would start the installer at `executable` again in a
/// terminal, in the order they are to be tried.
pub fn terminal_emulators(executable: &str) -> (res: Vec<TerminalCommand>)
    ensures
        res.len() == terminal_programs().len(),
        forall|i: int| 0 <= i < res.len() ==> {
            &&& #[trigger] res@[i].program@ == terminal_programs()[i]
            &&& views(res@[i].args@) == terminal_args_spec(terminal_programs()[i], executable@)
        },
        forall|i: int| 0 <= i < res.len() && i != 2 ==> views(#[trigger] res@[i].args@) == seq![
            "-e"@,
            "sudo"@,
            executable@,
        ],
        views(res@[2].args@) == seq!["-e"@, "sudo "@ + executable@],
{
    proof {
        lemma_terminal_programs_distinct();
    }
    let mut res: Vec<TerminalCommand> = Vec::new();
    res.push(terminal_command("konsole", executable));
    res.push(terminal_command("alacritty", executable));
    res.push(terminal_command("xfce4-terminal", executable));
    res.push(terminal_command("xterm", executable));
    res
}

} // verus!

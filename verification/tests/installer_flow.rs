use tinyinstallj::admin::{is_admin, is_admin_with_uid};
use tinyinstallj::installer::{Action, CancelReason, Event, Installer, Step};
use tinyinstallj::platform::Os;
use tinyinstallj::terminal::{check_is_in_terminal, terminal_emulators};

fn drive(force: bool, events: &[Event]) -> (Installer, Vec<Action>) {
    let (mut state, first) = Installer::start(force);
    let mut actions = vec![first];
    for e in events {
        let (next, action) = state.next(*e);
        state = next;
        actions.push(action);
    }
    (state, actions)
}

const TASKS_OK: [Event; 5] = [Event::TaskDone(true); 5];

#[test]
fn full_installation() {
    let mut events = vec![
        Event::InTerminal(true),
        Event::Admin(true),
        Event::Proceed(true),
        Event::PathsFound(true),
        Event::JavaFound(true),
        Event::JavaVersion(17),
    ];
    events.extend_from_slice(&TASKS_OK);
    events.push(Event::TaskDone(true));
    let (state, actions) = drive(false, &events);
    assert_eq!(
        actions,
        vec![
            Action::CheckTerminal,
            Action::CheckAdmin,
            Action::AskToProceed,
            Action::DeterminePaths,
            Action::FindJava,
            Action::CheckJavaVersion,
            Action::SetupInstallDir,
            Action::SaveJar,
            Action::SaveIcon,
            Action::CreateRunnerScript,
            Action::CreateUninstaller,
            Action::CreateAppLink,
            Action::Finish,
        ]
    );
    assert_eq!(state.step, Step::Finished);
    assert_eq!(state.next(Event::TaskDone(true)).1, Action::Nothing);
}

#[test]
fn forced_installation_skips_java() {
    let mut events = vec![Event::InTerminal(true), Event::Admin(true), Event::Proceed(true), Event::PathsFound(true)];
    events.push(Event::TaskDone(true));
    let (_, actions) = drive(true, &events);
    assert_eq!(actions[4], Action::ReportSkippedJavaChecks);
    assert_eq!(actions[5], Action::SetupInstallDir);
    assert!(!actions.contains(&Action::FindJava));
}

#[test]
fn old_java_cancels() {
    let events = [
        Event::InTerminal(true),
        Event::Admin(true),
        Event::Proceed(true),
        Event::PathsFound(true),
        Event::JavaFound(true),
        Event::JavaVersion(8),
    ];
    let (state, actions) = drive(false, &events);
    assert_eq!(actions.last(), Some(&Action::Cancel(CancelReason::JavaUnavailable)));
    assert_eq!(state.step, Step::Stopped);
}

#[test]
fn refusals_cancel() {
    let (_, a) = drive(false, &[Event::InTerminal(true), Event::Admin(false)]);
    assert_eq!(a.last(), Some(&Action::Cancel(CancelReason::NotAdmin)));
    let (_, a) = drive(false, &[Event::InTerminal(true), Event::Admin(true), Event::Proceed(false)]);
    assert_eq!(a.last(), Some(&Action::Cancel(CancelReason::Declined)));
    let (_, a) = drive(false, &[Event::InTerminal(true), Event::Admin(true), Event::Proceed(true), Event::PathsFound(false)]);
    assert_eq!(a.last(), Some(&Action::Cancel(CancelReason::NoInstallPaths)));
    let (_, a) = drive(false, &[Event::InTerminal(true), Event::Admin(true), Event::Proceed(true), Event::PathsFound(true), Event::JavaFound(false)]);
    assert_eq!(a.last(), Some(&Action::Cancel(CancelReason::JavaUnavailable)));
    let (s, a) = drive(true, &[Event::InTerminal(true), Event::Admin(true), Event::Proceed(true), Event::PathsFound(true), Event::TaskDone(true), Event::TaskDone(false)]);
    assert_eq!(a.last(), Some(&Action::Cancel(CancelReason::TaskFailed)));
    assert_eq!(s.next(Event::TaskDone(true)).1, Action::Nothing);
}

#[test]
fn not_in_terminal_relaunches() {
    let (state, a) = drive(false, &[Event::InTerminal(false)]);
    assert_eq!(a.last(), Some(&Action::RelaunchInTerminal));
    assert_eq!(state.step, Step::Stopped);
}

#[test]
fn unexpected_event_repeats_request() {
    let (state, a) = drive(false, &[Event::InTerminal(true), Event::Proceed(true)]);
    assert_eq!(a.last(), Some(&Action::CheckAdmin));
    assert_eq!(state.step, Step::CheckAdmin);
    assert!(!state.agreed);
}

#[test]
fn admin_rights() {
    assert!(is_admin(Os::Windows));
    assert!(is_admin_with_uid(Os::Windows, 1000));
    assert!(is_admin_with_uid(Os::Linux, 0));
    assert!(!is_admin_with_uid(Os::Linux, 1000));
    assert!(!is_admin_with_uid(Os::Other, 1));
}

#[test]
fn terminal_checks() {
    assert!(!check_is_in_terminal(Os::Windows, false));
    assert!(!check_is_in_terminal(Os::Linux, true));
    assert!(check_is_in_terminal(Os::Linux, false));
    let cmds = terminal_emulators("/tmp/installer");
    let programs: Vec<&str> = cmds.iter().map(|c| c.program.as_str()).collect();
    assert_eq!(programs, vec!["konsole", "alacritty", "xfce4-terminal", "xterm"]);
    assert_eq!(cmds[0].args, vec!["-e", "sudo", "/tmp/installer"]);
    assert_eq!(cmds[2].args, vec!["-e", "sudo /tmp/installer"]);
    assert_eq!(cmds[3].args, vec!["-e", "sudo", "/tmp/installer"]);
}

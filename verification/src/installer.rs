//! The installation itself, as a state machine. The caller performs each
//! action (asking the user, checking Java, writing files) and
//! reports back what came of it; `Installer::next` decides what to do next.

use vstd::prelude::*;
use crate::platform::{MIN_JAVA_VERSION, IS_CONSOLE_APP};

verus! {

/// Where the installation stands.
#[derive(Clone, Copy, Debug, PartialEq, Eq, Structural)]
pub enum Step {
    CheckTerminal,
    CheckAdmin,
    AskToProceed,
    DeterminePaths,
    SkipJavaChecks,
    FindJava,
    CheckJavaVersion,
    SetupInstallDir,
    SaveJar,
    SaveIcon,
    CreateRunnerScript,
    CreateUninstaller,
    CreateAppLink,
    Finished,
    Stopped,
}

/// What came of the action that was last asked for.
#[derive(Clone, Copy, Debug, PartialEq, Eq, Structural)]
pub enum Event {
    /// Whether standard output is a terminal.
    InTerminal(bool),
    /// Whether the installer has administrator (root) rights.
    Admin(bool),
    /// Whether the user agreed to go ahead.
    Proceed(bool),
    /// Whether the install paths could be worked out.
    PathsFound(bool),
    /// Whether a Java runtime was found on `PATH`.
    JavaFound(bool),
    /// The version of the Java runtime that was found.
    JavaVersion(i32),
    /// Whether a file write or another task succeeded.
    TaskDone(bool),
}

/// Why the installation was cancelled.
#[derive(Clone, Copy, Debug, PartialEq, Eq, Structural)]
pub enum CancelReason {
    NotAdmin,
    Declined,
    NoInstallPaths,
    JavaUnavailable,
    TaskFailed,
}

/// What the caller is to do next.
#[derive(Clone, Copy, Debug, PartialEq, Eq, Structural)]
pub enum Action {
    CheckTerminal,
    RelaunchInTerminal,
    CheckAdmin,
    AskToProceed,
    DeterminePaths,
    ReportSkippedJavaChecks,
    FindJava,
    CheckJavaVersion,
    SetupInstallDir,
    SaveJar,
    SaveIcon,
    CreateRunnerScript,
    CreateUninstaller,
    CreateAppLink,
    Finish,
    Cancel(CancelReason),
    Nothing,
}

/// The installer's state: the current step, whether the Java checks are
/// skipped (`-f`), and what has been established so far.
#[derive(Clone, Copy, Debug, PartialEq, Eq, Structural)]
pub struct Installer {
    pub step: Step,
    pub force_install: bool,
    pub admin: bool,
    pub agreed: bool,
    pub java_ok: bool,
}

/// The action that a step asks for.
pub open spec fn action_for(step: Step) -> Action {
    match step {
        Step::CheckTerminal => Action::CheckTerminal,
        Step::CheckAdmin => Action::CheckAdmin,
        Step::AskToProceed => Action::AskToProceed,
        Step::DeterminePaths => Action::DeterminePaths,
        Step::SkipJavaChecks => Action::ReportSkippedJavaChecks,
        Step::FindJava => Action::FindJava,
        Step::CheckJavaVersion => Action::CheckJavaVersion,
        Step::SetupInstallDir => Action::SetupInstallDir,
        Step::SaveJar => Action::SaveJar,
        Step::SaveIcon => Action::SaveIcon,
        Step::CreateRunnerScript => Action::CreateRunnerScript,
        Step::CreateUninstaller => Action::CreateUninstaller,
        Step::CreateAppLink => Action::CreateAppLink,
        Step::Finished => Action::Finish,
        Step::Stopped => Action::Nothing,
    }
}

/// The step after a task step whose task succeeded.
pub open spec fn after_task(step: Step) -> Step {
    match step {
        Step::SkipJavaChecks => Step::SetupInstallDir,
        Step::SetupInstallDir => Step::SaveJar,
        Step::SaveJar => Step::SaveIcon,
        Step::SaveIcon => Step::CreateRunnerScript,
        Step::CreateRunnerScript => Step::CreateUninstaller,
        Step::CreateUninstaller => if IS_CONSOLE_APP { Step::Finished } else { Step::CreateAppLink },
        _ => Step::Finished,
    }
}

/// Whether `step` performs a task that reports with `TaskDone`.
pub open spec fn is_task_step(step: Step) -> bool {
    match step {
        Step::SkipJavaChecks | Step::SetupInstallDir
        | Step::SaveJar | Step::SaveIcon | Step::CreateRunnerScript | Step::CreateUninstaller
        | Step::CreateAppLink => true,
        _ => false,
    }
}

/// Moving on to `step`.
pub open spec fn go(s: Installer, step: Step) -> (Installer, Action) {
    (Installer { step, ..s }, action_for(step))
}

/// Stopping, for `reason`.
pub open spec fn cancel(s: Installer, reason: CancelReason) -> (Installer, Action) {
    (Installer { step: Step::Stopped, ..s }, Action::Cancel(reason))
}

/// What the installer does on `event`: the next state, and the action asked
/// for. An event that does not answer the current step leaves the state as
/// it is and asks for the step's action again; a finished or stopped
/// installer does nothing more.
pub open spec fn step_spec(s: Installer, e: Event) -> (Installer, Action) {
    match (s.step, e) {
        (Step::Finished, _) | (Step::Stopped, _) => (s, Action::Nothing),
        (Step::CheckTerminal, Event::InTerminal(tty)) => if tty {
            go(s, Step::CheckAdmin)
        } else {
            (Installer { step: Step::Stopped, ..s }, Action::RelaunchInTerminal)
        },
        (Step::CheckAdmin, Event::Admin(ok)) => if ok {
            go(Installer { admin: true, ..s }, Step::AskToProceed)
        } else {
            cancel(s, CancelReason::NotAdmin)
        },
        (Step::AskToProceed, Event::Proceed(yes)) => if yes {
            go(Installer { agreed: true, ..s }, Step::DeterminePaths)
        } else {
            cancel(s, CancelReason::Declined)
        },
        (Step::DeterminePaths, Event::PathsFound(found)) => if !found {
            cancel(s, CancelReason::NoInstallPaths)
        } else if s.force_install {
            go(s, Step::SkipJavaChecks)
        } else {
            go(s, Step::FindJava)
        },
        (Step::FindJava, Event::JavaFound(found)) => if found {
            go(s, Step::CheckJavaVersion)
        } else {
            cancel(s, CancelReason::JavaUnavailable)
        },
        (Step::CheckJavaVersion, Event::JavaVersion(v)) => if v >= MIN_JAVA_VERSION {
            go(Installer { java_ok: true, ..s }, Step::SetupInstallDir)
        } else {
            cancel(s, CancelReason::JavaUnavailable)
        },
        (Step::SkipJavaChecks, Event::TaskDone(_)) => go(s, Step::SetupInstallDir),
        (step, Event::TaskDone(ok)) => if !is_task_step(step) {
            (s, action_for(s.step))
        } else if ok {
            go(s, after_task(step))
        } else {
            cancel(s, CancelReason::TaskFailed)
        },
        _ => (s, action_for(s.step)),
    }
}

/// The state before anything has happened.
pub open spec fn initial(force_install: bool) -> Installer {
    Installer {
        step: Step::CheckTerminal,
        force_install,
        admin: false,
        agreed: false,
        java_ok: false,
    }
}

/// The state and last action after the installer, started with
/// `force_install`, has been given `events` in order.
pub open spec fn run(force_install: bool, events: Seq<Event>) -> (Installer, Action)
    decreases events.len(),
{
    if events.len() == 0 {
        (initial(force_install), Action::CheckTerminal)
    } else {
        step_spec(run(force_install, events.drop_last()).0, events.last())
    }
}

/// Whether `a` writes files or completes the installation.
pub open spec fn installs_anything(a: Action) -> bool {
    match a {
        Action::SetupInstallDir | Action::SaveJar
        | Action::SaveIcon | Action::CreateRunnerScript | Action::CreateUninstaller
        | Action::CreateAppLink | Action::Finish => true,
        _ => false,
    }
}

/// Whether `events` report a Java runtime of at least the minimum version.
pub open spec fn java_confirmed(events: Seq<Event>) -> bool {
    exists|i: int| 0 <= i < events.len() && (#[trigger] events[i] matches Event::JavaVersion(v) && v >= MIN_JAVA_VERSION)
}

/// Steps that come after the rights check passed.
pub open spec fn after_admin(step: Step) -> bool {
    match step {
        Step::CheckTerminal | Step::CheckAdmin | Step::Stopped => false,
        _ => true,
    }
}

/// Steps that come after the user agreed.
pub open spec fn after_consent(step: Step) -> bool {
    after_admin(step) && step != Step::AskToProceed
}

/// Steps that come after the Java checks (passed or skipped).
pub open spec fn after_java(step: Step) -> bool {
    match step {
        Step::SetupInstallDir | Step::SaveJar | Step::SaveIcon
        | Step::CreateRunnerScript | Step::CreateUninstaller | Step::CreateAppLink | Step::Finished => true,
        _ => false,
    }
}

/// What holds of the state `s` and last action `a` reached on `events`.
pub open spec fn run_consistent(force_install: bool, events: Seq<Event>, s: Installer, a: Action) -> bool {
    &&& s.force_install == force_install
    &&& s.admin ==> events.contains(Event::Admin(true))
    &&& s.agreed ==> events.contains(Event::Proceed(true))
    &&& s.java_ok ==> java_confirmed(events)
    &&& after_admin(s.step) ==> s.admin
    &&& after_consent(s.step) ==> s.agreed
    &&& after_java(s.step) ==> (s.force_install || s.java_ok)
    &&& s.step == Step::SkipJavaChecks ==> s.force_install
    &&& s.force_install ==> (s.step != Step::FindJava && s.step != Step::CheckJavaVersion)
    &&& installs_anything(a) ==> after_java(s.step)
    &&& (a == Action::FindJava || a == Action::CheckJavaVersion) ==> (s.step == Step::FindJava
        || s.step == Step::CheckJavaVersion)
}

proof fn lemma_run_consistent(force_install: bool, events: Seq<Event>)
    ensures
        run_consistent(force_install, events, run(force_install, events).0, run(force_install, events).1),
    decreases events.len(),
{
    if events.len() > 0 {
        let prev = events.drop_last();
        lemma_run_consistent(force_install, prev);
        let e = events.last();
        assert(events == prev.push(e));
        let s = run(force_install, prev).0;
        assert forall|x: Event| prev.contains(x) implies events.contains(x) by {
            let i = choose|i: int| 0 <= i < prev.len() && prev[i] == x;
            assert(events[i] == x);
        }
        if java_confirmed(prev) {
            let i = choose|i: int| 0 <= i < prev.len() && (#[trigger] prev[i] matches Event::JavaVersion(v) && v >= MIN_JAVA_VERSION);
            assert(events[i] == prev[i]);
        }
        assert(events[events.len() - 1] == e);
        if let Event::JavaVersion(v) = e {
            if v >= MIN_JAVA_VERSION {
                assert(java_confirmed(events));
            }
        }
        if e == Event::Admin(true) {
            assert(events.contains(Event::Admin(true)));
        }
        if e == Event::Proceed(true) {
            assert(events.contains(Event::Proceed(true)));
        }
    }
}

/// Nothing is written or completed unless the rights check
/// passed, the user agreed, and either a recent enough Java runtime was found
/// or the Java checks were skipped with `-f`.
pub proof fn lemma_installs_only_with_consent(force_install: bool, events: Seq<Event>)
    ensures
        installs_anything(run(force_install, events).1) ==> {
            &&& events.contains(Event::Admin(true))
            &&& events.contains(Event::Proceed(true))
            &&& (force_install || java_confirmed(events))
        },
{
    lemma_run_consistent(force_install, events);
}

/// With `-f` the installer never looks for Java or checks its version.
pub proof fn lemma_forced_install_skips_java(events: Seq<Event>)
    ensures
        run(true, events).1 != Action::FindJava,
        run(true, events).1 != Action::CheckJavaVersion,
{
    lemma_run_consistent(true, events);
}

/// Once the installation has stopped (cancelled, or handed over to a new
/// terminal), it stays stopped, whatever else is reported.
pub proof fn lemma_stopped_stays_stopped(force_install: bool, events: Seq<Event>, more: Seq<Event>)
    requires
        run(force_install, events).0.step == Step::Stopped,
    ensures
        run(force_install, events + more).0.step == Step::Stopped,
        more.len() > 0 ==> run(force_install, events + more).1 == Action::Nothing,
    decreases more.len(),
{
    if more.len() == 0 {
        assert(events + more =~= events);
    } else {
        lemma_stopped_stays_stopped(force_install, events, more.drop_last());
        assert((events + more).drop_last() =~= events + more.drop_last());
    }
}

/// Once the installation has finished, it stays finished and asks for
/// nothing more.
pub proof fn lemma_finished_stays_finished(force_install: bool, events: Seq<Event>, more: Seq<Event>)
    requires
        run(force_install, events).0.step == Step::Finished,
    ensures
        run(force_install, events + more).0.step == Step::Finished,
        more.len() > 0 ==> run(force_install, events + more).1 == Action::Nothing,
    decreases more.len(),
{
    if more.len() == 0 {
        assert(events + more =~= events);
    } else {
        lemma_finished_stays_finished(force_install, events, more.drop_last());
        assert((events + more).drop_last() =~= events + more.drop_last());
    }
}

/// At the Java-version check, any runtime of at least the minimum version is
/// accepted and the installation goes on to set up the install directory;
/// an older one stops it for want of Java.
pub proof fn lemma_java_version_decides(s: Installer, v: i32)
    requires
        s.step == Step::CheckJavaVersion,
    ensures
        v >= MIN_JAVA_VERSION ==> {
            &&& step_spec(s, Event::JavaVersion(v)).0.step == Step::SetupInstallDir
            &&& step_spec(s, Event::JavaVersion(v)).0.java_ok
            &&& step_spec(s, Event::JavaVersion(v)).1 == Action::SetupInstallDir
        },
        v < MIN_JAVA_VERSION ==> {
            &&& step_spec(s, Event::JavaVersion(v)).0.step == Step::Stopped
            &&& step_spec(s, Event::JavaVersion(v)).1 == Action::Cancel(CancelReason::JavaUnavailable)
        },
{
}

/// A normal run (in a terminal, with rights, agreed, paths found, Java
/// found) that reports Java `v` goes on to set up the install directory
/// exactly when `v` is at least the minimum version, and is cancelled
/// otherwise.
pub proof fn lemma_run_with_java_version(v: i32)
    ensures ({
        let events = seq![
            Event::InTerminal(true),
            Event::Admin(true),
            Event::Proceed(true),
            Event::PathsFound(true),
            Event::JavaFound(true),
            Event::JavaVersion(v),
        ];
        &&& v >= MIN_JAVA_VERSION ==> run(false, events).1 == Action::SetupInstallDir
        &&& v < MIN_JAVA_VERSION ==> run(false, events).1 == Action::Cancel(CancelReason::JavaUnavailable)
    }),
{
    let events = seq![
        Event::InTerminal(true),
        Event::Admin(true),
        Event::Proceed(true),
        Event::PathsFound(true),
        Event::JavaFound(true),
        Event::JavaVersion(v),
    ];
    assert(events.take(0) =~= Seq::<Event>::empty());
    assert(events.take(1).drop_last() =~= events.take(0));
    assert(events.take(2).drop_last() =~= events.take(1));
    assert(events.take(3).drop_last() =~= events.take(2));
    assert(events.take(4).drop_last() =~= events.take(3));
    assert(events.take(5).drop_last() =~= events.take(4));
    assert(events.drop_last() =~= events.take(5));
    let i0 = initial(false);
    assert(run(false, events.take(0)).0 == i0);
    assert(events.take(1).last() == Event::InTerminal(true));
    let i1 = Installer { step: Step::CheckAdmin, ..i0 };
    assert(run(false, events.take(1)).0 == i1);
    assert(events.take(2).last() == Event::Admin(true));
    let i2 = Installer { step: Step::AskToProceed, admin: true, ..i1 };
    assert(run(false, events.take(2)).0 == i2);
    assert(events.take(3).last() == Event::Proceed(true));
    let i3 = Installer { step: Step::DeterminePaths, agreed: true, ..i2 };
    assert(run(false, events.take(3)).0 == i3);
    assert(events.take(4).last() == Event::PathsFound(true));
    let i4 = Installer { step: Step::FindJava, ..i3 };
    assert(run(false, events.take(4)).0 == i4);
    assert(events.take(5).last() == Event::JavaFound(true));
    assert(run(false, events.take(5)).0.step == Step::CheckJavaVersion);
    assert(events.last() == Event::JavaVersion(v));
    lemma_java_version_decides(run(false, events.take(5)).0, v);
}

impl Installer {
    /// A new installer and its first action; `force_install` skips the Java
    /// checks.
    pub fn start(force_install: bool) -> (res: (Installer, Action))
        ensures
            res == run(force_install, Seq::empty()),
    {
        (
            Installer {
                step: Step::CheckTerminal,
                force_install,
                admin: false,
                agreed: false,
                java_ok: false,
            },
            Action::CheckTerminal,
        )
    }

    fn action_for(step: Step) -> (res: Action)
        ensures
            res == action_for(step),
    {
        match step {
            Step::CheckTerminal => Action::CheckTerminal,
            Step::CheckAdmin => Action::CheckAdmin,
            Step::AskToProceed => Action::AskToProceed,
            Step::DeterminePaths => Action::DeterminePaths,
            Step::SkipJavaChecks => Action::ReportSkippedJavaChecks,
            Step::FindJava => Action::FindJava,
            Step::CheckJavaVersion => Action::CheckJavaVersion,
            Step::SetupInstallDir => Action::SetupInstallDir,
            Step::SaveJar => Action::SaveJar,
            Step::SaveIcon => Action::SaveIcon,
            Step::CreateRunnerScript => Action::CreateRunnerScript,
            Step::CreateUninstaller => Action::CreateUninstaller,
            Step::CreateAppLink => Action::CreateAppLink,
            Step::Finished => Action::Finish,
            Step::Stopped => Action::Nothing,
        }
    }

    fn go(&self, step: Step) -> (res: (Installer, Action))
        ensures
            res == go(*self, step),
    {
        (Installer { step, ..*self }, Self::action_for(step))
    }

    fn cancel(&self, reason: CancelReason) -> (res: (Installer, Action))
        ensures
            res == cancel(*self, reason),
    {
        (Installer { step: Step::Stopped, ..*self }, Action::Cancel(reason))
    }

    fn next_after_task(&self, ok: bool) -> (res: (Installer, Action))
        requires
            is_task_step(self.step),
            self.step != Step::SkipJavaChecks,
        ensures
            res == (if ok { go(*self, after_task(self.step)) } else { cancel(*self, CancelReason::TaskFailed) }),
    {
        if !ok {
            return self.cancel(CancelReason::TaskFailed);
        }
        let following = match self.step {
            Step::SetupInstallDir => Step::SaveJar,
            Step::SaveJar => Step::SaveIcon,
            Step::SaveIcon => Step::CreateRunnerScript,
            Step::CreateRunnerScript => Step::CreateUninstaller,
            Step::CreateUninstaller => if IS_CONSOLE_APP { Step::Finished } else { Step::CreateAppLink },
            _ => Step::Finished,
        };
        self.go(following)
    }

    /// Decides what follows `event`.
    pub fn next(&self, event: Event) -> (res: (Installer, Action))
        ensures
            res == step_spec(*self, event),
    {
        match (self.step, event) {
            (Step::Finished, _) | (Step::Stopped, _) => (*self, Action::Nothing),
            (Step::CheckTerminal, Event::InTerminal(tty)) => if tty {
                self.go(Step::CheckAdmin)
            } else {
                (Installer { step: Step::Stopped, ..*self }, Action::RelaunchInTerminal)
            },
            (Step::CheckAdmin, Event::Admin(ok)) => if ok {
                Installer { admin: true, ..*self }.go(Step::AskToProceed)
            } else {
                self.cancel(CancelReason::NotAdmin)
            },
            (Step::AskToProceed, Event::Proceed(yes)) => if yes {
                Installer { agreed: true, ..*self }.go(Step::DeterminePaths)
            } else {
                self.cancel(CancelReason::Declined)
            },
            (Step::DeterminePaths, Event::PathsFound(found)) => if !found {
                self.cancel(CancelReason::NoInstallPaths)
            } else if self.force_install {
                self.go(Step::SkipJavaChecks)
            } else {
                self.go(Step::FindJava)
            },
            (Step::FindJava, Event::JavaFound(found)) => if found {
                self.go(Step::CheckJavaVersion)
            } else {
                self.cancel(CancelReason::JavaUnavailable)
            },
            (Step::CheckJavaVersion, Event::JavaVersion(v)) => if v >= MIN_JAVA_VERSION {
                Installer { java_ok: true, ..*self }.go(Step::SetupInstallDir)
            } else {
                self.cancel(CancelReason::JavaUnavailable)
            },
            (Step::SkipJavaChecks, Event::TaskDone(_)) => self.go(Step::SetupInstallDir),
            (Step::SetupInstallDir, Event::TaskDone(ok))
            | (Step::SaveJar, Event::TaskDone(ok))
            | (Step::SaveIcon, Event::TaskDone(ok))
            | (Step::CreateRunnerScript, Event::TaskDone(ok))
            | (Step::CreateUninstaller, Event::TaskDone(ok))
            | (Step::CreateAppLink, Event::TaskDone(ok)) => self.next_after_task(ok),
            _ => (*self, Self::action_for(self.step)),
        }
    }
}

} // verus!

//! The dispatcher's decisions. The caller performs each action (probing for a
//! tool, spawning a process, printing) and hands the result back.
use vstd::prelude::*;
use vstd::string::*;

use crate::backend::{probe_next, probe_step, BackendTag, HostOs, ProbeStep};
use crate::command::{Parsed, ParsedView, Verb};
use crate::plan::{build_plans, plans_for, plans_view, CommandPlan, PlanView};

verus! {

/// A message the dispatcher prints instead of running anything.
#[derive(Clone, Copy, PartialEq, Eq, Structural, Debug)]
pub enum Notice {
    UnknownCommand,
    /// The verb's required argument is missing.
    Usage(Verb),
    NoBackend,
}

/// The next thing to do for one command line.
#[derive(Debug)]
pub enum Action {
    /// Test whether probe candidate `i` is on the search path, and ask again
    /// with the answer appended.
    Probe(usize),
    /// Run these processes in order.
    Run(Vec<CommandPlan>),
    Say(Notice),
    ShowHelp,
    Quit,
}

/// Mathematical form of `Action`.
pub enum ActionView {
    Probe(usize),
    Run(Seq<PlanView>),
    Say(Notice),
    ShowHelp,
    Quit,
}

impl View for Action {
    type V = ActionView;

    open spec fn view(&self) -> ActionView {
        match self {
            Action::Probe(i) => ActionView::Probe(*i),
            Action::Run(plans) => ActionView::Run(plans_view(plans@)),
            Action::Say(n) => ActionView::Say(*n),
            Action::ShowHelp => ActionView::ShowHelp,
            Action::Quit => ActionView::Quit,
        }
    }
}

/// The backend that clearing the screen uses: it needs no probe, only the
/// operating system.
pub open spec fn screen_backend(os: HostOs) -> BackendTag {
    if os == HostOs::Windows {
        BackendTag::WindowsNative
    } else {
        BackendTag::NotFound
    }
}

/// What to do for a parsed line, given the probe's answers so far and the
/// current directory. Only search, install and upgrade probe for a backend;
/// without one they print a notice and run nothing.
pub open spec fn action_for(p: ParsedView, os: HostOs, answers: Seq<bool>, cwd: Seq<char>) -> ActionView {
    match p {
        ParsedView::Unknown => ActionView::Say(Notice::UnknownCommand),
        ParsedView::Usage(v) => ActionView::Say(Notice::Usage(v)),
        ParsedView::Run(c) => match c.verb {
            Verb::Help => ActionView::ShowHelp,
            Verb::Quit => ActionView::Quit,
            Verb::ClearScreen => ActionView::Run(plans_for(c, cwd, screen_backend(os))),
            _ => match probe_next(os, answers) {
                ProbeStep::Check(i) => ActionView::Probe(i),
                ProbeStep::Decided(b) => if b == BackendTag::NotFound {
                    ActionView::Say(Notice::NoBackend)
                } else {
                    ActionView::Run(plans_for(c, cwd, b))
                },
            },
        },
    }
}

/// Decides the next action for a parsed line.
pub fn next_action(parsed: &Parsed, os: HostOs, answers: &Vec<bool>, cwd: &str) -> (r: Action)
    ensures
        r@ == action_for(parsed@, os, answers@, cwd@),
{
    match parsed {
        Parsed::Unknown => Action::Say(Notice::UnknownCommand),
        Parsed::Usage(v) => Action::Say(Notice::Usage(*v)),
        Parsed::Run(c) => match c.verb {
            Verb::Help => Action::ShowHelp,
            Verb::Quit => Action::Quit,
            Verb::ClearScreen => {
                let b = if os == HostOs::Windows {
                    BackendTag::WindowsNative
                } else {
                    BackendTag::NotFound
                };
                Action::Run(build_plans(c, cwd, b))
            },
            _ => match probe_step(os, answers) {
                ProbeStep::Check(i) => Action::Probe(i),
                ProbeStep::Decided(b) => {
                    if b == BackendTag::NotFound {
                        Action::Say(Notice::NoBackend)
                    } else {
                        Action::Run(build_plans(c, cwd, b))
                    }
                },
            },
        },
    }
}

/// The text of a notice.
pub open spec fn notice_spec(n: Notice) -> Seq<char> {
    match n {
        Notice::UnknownCommand => "Unknown command. Use -h for help."@,
        Notice::NoBackend => "No supported package manager found."@,
        Notice::Usage(Verb::Search) => "Usage: -f <search_term>"@,
        Notice::Usage(Verb::Install) => "Usage: -i <package_name> [/l<path>]"@,
        Notice::Usage(_) => "Usage: -u /a [/l<path>]  (all)  OR  -u <package> [/l<path>]"@,
    }
}

/// The text of a notice.
pub fn notice_text(n: Notice) -> (r: &'static str)
    ensures
        r@ == notice_spec(n),
{
    match n {
        Notice::UnknownCommand => "Unknown command. Use -h for help.",
        Notice::NoBackend => "No supported package manager found.",
        Notice::Usage(Verb::Search) => "Usage: -f <search_term>",
        Notice::Usage(Verb::Install) => "Usage: -i <package_name> [/l<path>]",
        Notice::Usage(_) => "Usage: -u /a [/l<path>]  (all)  OR  -u <package> [/l<path>]",
    }
}

/// How a spawned process ended.
#[derive(Clone, Copy, PartialEq, Eq, Structural, Debug)]
pub enum StepOutcome {
    /// It exited with this status code.
    Exited(i32),
    /// It ended without a status code (killed by a signal).
    NoCode,
    /// It could not be launched.
    LaunchFailed,
}

/// What to do once a process of a command's plans has ended.
#[derive(Clone, Copy, PartialEq, Eq, Structural, Debug)]
pub enum RunStep {
    /// Run the plan with this index.
    Start(usize),
    /// The command is over; in one-shot mode the program exits with this code.
    Done(i32),
}

/// The exit code that an outcome stands for: the process's own code, or 1 when
/// it has none.
pub open spec fn outcome_code(o: StepOutcome) -> i32 {
    match o {
        StepOutcome::Exited(c) => c,
        _ => 1,
    }
}

/// After plan `k` of `n` ended with `o`: a launch failure ends the command;
/// otherwise the next plan runs unless this was the last one, or it failed
/// and `abort_on_failure` is set. The command's code is that of the last
/// process that ran.
pub open spec fn after_spec(n: int, k: int, o: StepOutcome, abort_on_failure: bool) -> RunStep {
    let failed = o != StepOutcome::Exited(0);
    if o == StepOutcome::LaunchFailed || k + 1 >= n || (failed && abort_on_failure) {
        RunStep::Done(outcome_code(o))
    } else {
        RunStep::Start((k + 1) as usize)
    }
}

/// Decides what follows the end of plan `k` of `n`.
pub fn after_step(n: usize, k: usize, o: StepOutcome, abort_on_failure: bool) -> (r: RunStep)
    requires
        k < n,
    ensures
        r == after_spec(n as int, k as int, o, abort_on_failure),
{
    let code: i32 = match o {
        StepOutcome::Exited(c) => c,
        _ => 1,
    };
    let failed = match o {
        StepOutcome::Exited(c) => c != 0,
        _ => true,
    };
    let launch_failed = match o {
        StepOutcome::LaunchFailed => true,
        _ => false,
    };
    if launch_failed || k + 1 >= n || (failed && abort_on_failure) {
        RunStep::Done(code)
    } else {
        RunStep::Start(k + 1)
    }
}

/// The word that names a verb in a diagnostic.
pub open spec fn verb_word(v: Verb) -> Seq<char> {
    match v {
        Verb::Search => "search"@,
        Verb::Install => "install"@,
        Verb::Upgrade => "upgrade"@,
        Verb::UpgradeAll => "upgrade all"@,
        Verb::ClearScreen => "clear screen"@,
        Verb::Help => "help"@,
        Verb::Quit => "quit"@,
    }
}

fn verb_text(v: Verb) -> (r: &'static str)
    ensures
        r@ == verb_word(v),
{
    match v {
        Verb::Search => "search",
        Verb::Install => "install",
        Verb::Upgrade => "upgrade",
        Verb::UpgradeAll => "upgrade all",
        Verb::ClearScreen => "clear screen",
        Verb::Help => "help",
        Verb::Quit => "quit",
    }
}

/// The diagnostic printed when the program of a plan cannot be launched:
/// `failed to run <program> (<verb>)`.
pub fn launch_failure_text(program: &str, v: Verb) -> (r: String)
    ensures
        r@ == "failed to run "@ + program@ + " ("@ + verb_word(v) + ")"@,
{
    let mut s = String::from_str("failed to run ");
    s.append(program);
    s.append(" (");
    s.append(verb_text(v));
    s.append(")");
    s
}

} // verus!

//! The command builder: from a recognised command and a backend to the
//! argument vectors to run.
use vstd::prelude::*;
use vstd::string::*;

use crate::backend::{is_linux_backend, tool_name, tool_text, BackendTag};
use crate::command::{
    is_mutating, opt_location_view, Command, CommandView, LocationArg, LocationView, Verb,
    verb_is_mutating,
};

verus! {

/// One process to run: its argument vector (the program first), whether it
/// runs through the privilege-escalation helper, and the backend's name.
#[derive(Debug)]
pub struct CommandPlan {
    pub argv: Vec<String>,
    pub needs_privilege: bool,
    pub backend_name: String,
}

/// Mathematical form of `CommandPlan`.
pub struct PlanView {
    pub argv: Seq<Seq<char>>,
    pub needs_privilege: bool,
    pub backend_name: Seq<char>,
}

impl View for CommandPlan {
    type V = PlanView;

    open spec fn view(&self) -> PlanView {
        PlanView {
            argv: self.argv.deep_view(),
            needs_privilege: self.needs_privilege,
            backend_name: self.backend_name@,
        }
    }
}

pub open spec fn plans_view(v: Seq<CommandPlan>) -> Seq<PlanView> {
    v.map_values(|p: CommandPlan| p@)
}

/// The directory that a location option stands for.
pub open spec fn resolved(loc: Option<LocationView>, cwd: Seq<char>) -> Option<Seq<char>> {
    match loc {
        Some(LocationView::CurrentDir) => Some(cwd),
        Some(LocationView::Path(p)) => Some(p),
        None => None,
    }
}

/// The trailing `--location <dir>` of a Windows install or upgrade.
pub open spec fn location_args(loc: Option<Seq<char>>) -> Seq<Seq<char>> {
    match loc {
        Some(d) => seq!["--location"@, d],
        None => Seq::empty(),
    }
}

pub open spec fn search_argv(b: BackendTag, q: Seq<char>) -> Seq<Seq<char>> {
    match b {
        BackendTag::WindowsNative => seq!["winget"@, "search"@, q],
        BackendTag::Apt => seq!["apt"@, "search"@, q],
        BackendTag::Dnf => seq!["dnf"@, "search"@, q],
        _ => seq!["pacman"@, "-Ss"@, q],
    }
}

pub open spec fn install_argv(b: BackendTag, p: Seq<char>, loc: Option<Seq<char>>) -> Seq<Seq<char>> {
    match b {
        BackendTag::WindowsNative => seq!["winget"@, "install"@, p] + location_args(loc),
        BackendTag::Apt => seq!["sudo"@, "apt"@, "install"@, "-y"@, p],
        BackendTag::Dnf => seq!["sudo"@, "dnf"@, "install"@, "-y"@, p],
        _ => seq!["sudo"@, "pacman"@, "-S"@, "--noconfirm"@, p],
    }
}

pub open spec fn upgrade_argv(b: BackendTag, p: Seq<char>, loc: Option<Seq<char>>) -> Seq<Seq<char>> {
    match b {
        BackendTag::WindowsNative => seq!["winget"@, "upgrade"@, p] + location_args(loc),
        BackendTag::Apt => seq!["sudo"@, "apt"@, "install"@, "--only-upgrade"@, p],
        BackendTag::Dnf => seq!["sudo"@, "dnf"@, "upgrade"@, "-y"@, p],
        _ => seq!["sudo"@, "pacman"@, "-S"@, "--noconfirm"@, p],
    }
}

/// Upgrading everything: the one verb that takes two steps, on Apt.
pub open spec fn upgrade_all_argvs(b: BackendTag, loc: Option<Seq<char>>) -> Seq<Seq<Seq<char>>> {
    match b {
        BackendTag::WindowsNative => seq![seq!["winget"@, "upgrade"@, "--all"@] + location_args(loc)],
        BackendTag::Apt => seq![seq!["sudo"@, "apt"@, "update"@], seq!["sudo"@, "apt"@, "upgrade"@, "-y"@]],
        BackendTag::Dnf => seq![seq!["sudo"@, "dnf"@, "upgrade"@, "-y"@]],
        _ => seq![seq!["sudo"@, "pacman"@, "-Syu"@, "--noconfirm"@]],
    }
}

pub open spec fn clear_argv(b: BackendTag) -> Seq<Seq<char>> {
    if b == BackendTag::WindowsNative {
        seq!["cmd"@, "/C"@, "cls"@]
    } else {
        seq!["clear"@]
    }
}

/// The argument vectors of a command on a backend, in the order they run.
/// Help and quit run nothing; without a backend only clearing the screen runs.
pub open spec fn argvs_for(verb: Verb, target: Seq<char>, loc: Option<Seq<char>>, b: BackendTag) -> Seq<
    Seq<Seq<char>>,
> {
    match verb {
        Verb::Help | Verb::Quit => Seq::empty(),
        Verb::ClearScreen => seq![clear_argv(b)],
        _ => if b == BackendTag::NotFound {
            Seq::empty()
        } else {
            match verb {
                Verb::Search => seq![search_argv(b, target)],
                Verb::Install => seq![install_argv(b, target, loc)],
                Verb::Upgrade => seq![upgrade_argv(b, target, loc)],
                _ => upgrade_all_argvs(b, loc),
            }
        },
    }
}

/// Privilege is needed exactly for a mutating verb on a Linux backend.
pub open spec fn privileged(verb: Verb, b: BackendTag) -> bool {
    is_linux_backend(b) && is_mutating(verb)
}

pub open spec fn plan_of(verb: Verb, b: BackendTag, argv: Seq<Seq<char>>) -> PlanView {
    PlanView { argv, needs_privilege: privileged(verb, b), backend_name: tool_text(b) }
}

pub open spec fn target_text(c: CommandView) -> Seq<char> {
    match c.target {
        Some(t) => t,
        None => Seq::empty(),
    }
}

/// The plans that the builder makes for a command, with `cwd` the directory
/// that a bare `/l` stands for.
pub open spec fn plans_for(c: CommandView, cwd: Seq<char>, b: BackendTag) -> Seq<PlanView> {
    argvs_for(c.verb, target_text(c), resolved(c.location, cwd), b).map_values(
        |argv: Seq<Seq<char>>| plan_of(c.verb, b, argv),
    )
}

fn push_word(v: &mut Vec<String>, w: &str)
    ensures
        final(v).deep_view() == old(v).deep_view().push(w@),
{
    let ghost before = v.deep_view();
    v.push(String::from_str(w));
    assert(v.deep_view() =~= before.push(w@));
}

fn words2(a: &str, b: &str) -> (r: Vec<String>)
    ensures
        r.deep_view() == seq![a@, b@],
{
    let mut v: Vec<String> = Vec::new();
    assert(v.deep_view() =~= Seq::<Seq<char>>::empty());
    push_word(&mut v, a);
    push_word(&mut v, b);
    assert(v.deep_view() =~= seq![a@, b@]);
    v
}

fn words3(a: &str, b: &str, c: &str) -> (r: Vec<String>)
    ensures
        r.deep_view() == seq![a@, b@, c@],
{
    let mut v = words2(a, b);
    push_word(&mut v, c);
    assert(v.deep_view() =~= seq![a@, b@, c@]);
    v
}

fn words4(a: &str, b: &str, c: &str, d: &str) -> (r: Vec<String>)
    ensures
        r.deep_view() == seq![a@, b@, c@, d@],
{
    let mut v = words3(a, b, c);
    push_word(&mut v, d);
    assert(v.deep_view() =~= seq![a@, b@, c@, d@]);
    v
}

fn words5(a: &str, b: &str, c: &str, d: &str, e: &str) -> (r: Vec<String>)
    ensures
        r.deep_view() == seq![a@, b@, c@, d@, e@],
{
    let mut v = words4(a, b, c, d);
    push_word(&mut v, e);
    assert(v.deep_view() =~= seq![a@, b@, c@, d@, e@]);
    v
}

fn push_location(v: &mut Vec<String>, loc: &Option<String>)
    ensures
        final(v).deep_view() == old(v).deep_view() + location_args(
            match loc {
                Some(d) => Some(d@),
                None => None,
            },
        ),
{
    match loc {
        Some(d) => {
            let ghost before = v.deep_view();
            push_word(v, "--location");
            push_word(v, d.as_str());
            assert(v.deep_view() =~= before + seq!["--location"@, d@]);
        },
        None => {
            assert(v.deep_view() =~= v.deep_view() + Seq::<Seq<char>>::empty());
        },
    }
}

/// The directory that a location option stands for, with `cwd` the current
/// directory.
pub fn resolve_location(loc: &Option<LocationArg>, cwd: &str) -> (r: Option<String>)
    ensures
        (match r {
            Some(d) => Some(d@),
            None => None,
        }) == resolved(opt_location_view(*loc), cwd@),
{
    match loc {
        Some(LocationArg::CurrentDir) => Some(String::from_str(cwd)),
        Some(LocationArg::Path(p)) => Some(p.clone()),
        None => None,
    }
}

fn search_args(b: BackendTag, q: &str) -> (r: Vec<String>)
    ensures
        r.deep_view() == search_argv(b, q@),
{
    match b {
        BackendTag::WindowsNative => words3("winget", "search", q),
        BackendTag::Apt => words3("apt", "search", q),
        BackendTag::Dnf => words3("dnf", "search", q),
        _ => words3("pacman", "-Ss", q),
    }
}

fn install_args(b: BackendTag, p: &str, loc: &Option<String>) -> (r: Vec<String>)
    ensures
        r.deep_view() == install_argv(
            b,
            p@,
            match loc {
                Some(d) => Some(d@),
                None => None,
            },
        ),
{
    match b {
        BackendTag::WindowsNative => {
            let mut v = words3("winget", "install", p);
            push_location(&mut v, loc);
            v
        },
        BackendTag::Apt => words5("sudo", "apt", "install", "-y", p),
        BackendTag::Dnf => words5("sudo", "dnf", "install", "-y", p),
        _ => words5("sudo", "pacman", "-S", "--noconfirm", p),
    }
}

fn upgrade_args(b: BackendTag, p: &str, loc: &Option<String>) -> (r: Vec<String>)
    ensures
        r.deep_view() == upgrade_argv(
            b,
            p@,
            match loc {
                Some(d) => Some(d@),
                None => None,
            },
        ),
{
    match b {
        BackendTag::WindowsNative => {
            let mut v = words3("winget", "upgrade", p);
            push_location(&mut v, loc);
            v
        },
        BackendTag::Apt => words5("sudo", "apt", "install", "--only-upgrade", p),
        BackendTag::Dnf => words5("sudo", "dnf", "upgrade", "-y", p),
        _ => words5("sudo", "pacman", "-S", "--noconfirm", p),
    }
}

fn clear_args(b: BackendTag) -> (r: Vec<String>)
    ensures
        r.deep_view() == clear_argv(b),
{
    if b == BackendTag::WindowsNative {
        words3("cmd", "/C", "cls")
    } else {
        let mut v: Vec<String> = Vec::new();
        assert(v.deep_view() =~= Seq::<Seq<char>>::empty());
        push_word(&mut v, "clear");
        assert(v.deep_view() =~= seq!["clear"@]);
        v
    }
}

fn make_plan(verb: Verb, b: BackendTag, argv: Vec<String>) -> (r: CommandPlan)
    ensures
        r@ == plan_of(verb, b, argv.deep_view()),
{
    let needs_privilege = match b {
        BackendTag::Apt | BackendTag::Dnf | BackendTag::Pacman => verb_is_mutating(verb),
        _ => false,
    };
    CommandPlan { argv, needs_privilege, backend_name: String::from_str(tool_name(b)) }
}

fn push_plan(plans: &mut Vec<CommandPlan>, verb: Verb, b: BackendTag, argv: Vec<String>)
    ensures
        plans_view(final(plans)@) == plans_view(old(plans)@).push(plan_of(verb, b, argv.deep_view())),
{
    let p = make_plan(verb, b, argv);
    plans.push(p);
    assert(plans_view(plans@) =~= plans_view(old(plans)@).push(plan_of(verb, b, argv.deep_view())));
}

/// Builds the processes to run for `cmd` on backend `b`, in order; `cwd` is
/// the directory that a bare `/l` stands for.
pub fn build_plans(cmd: &Command, cwd: &str, b: BackendTag) -> (r: Vec<CommandPlan>)
    ensures
        plans_view(r@) == plans_for(cmd@, cwd@, b),
{
    let ghost c = cmd@;
    let ghost argvs = argvs_for(c.verb, target_text(c), resolved(c.location, cwd@), b);
    let mut plans: Vec<CommandPlan> = Vec::new();
    assert(plans_view(plans@) =~= Seq::<PlanView>::empty());
    let target: &str = match &cmd.target {
        Some(t) => t.as_str(),
        None => {
            proof {
                reveal_strlit("");
            }
            ""
        },
    };
    assert(target@ == target_text(c));
    let loc = resolve_location(&cmd.location, cwd);
    let verb = cmd.verb;
    match verb {
        Verb::Help | Verb::Quit => {},
        Verb::ClearScreen => push_plan(&mut plans, verb, b, clear_args(b)),
        _ => {
            if b != BackendTag::NotFound {
                match verb {
                    Verb::Search => push_plan(&mut plans, verb, b, search_args(b, target)),
                    Verb::Install => push_plan(&mut plans, verb, b, install_args(b, target, &loc)),
                    Verb::Upgrade => push_plan(&mut plans, verb, b, upgrade_args(b, target, &loc)),
                    _ => {
                        match b {
                            BackendTag::WindowsNative => {
                                let mut v = words3("winget", "upgrade", "--all");
                                push_location(&mut v, &loc);
                                push_plan(&mut plans, verb, b, v);
                            },
                            BackendTag::Apt => {
                                push_plan(&mut plans, verb, b, words3("sudo", "apt", "update"));
                                push_plan(&mut plans, verb, b, words4("sudo", "apt", "upgrade", "-y"));
                            },
                            BackendTag::Dnf => push_plan(
                                &mut plans,
                                verb,
                                b,
                                words4("sudo", "dnf", "upgrade", "-y"),
                            ),
                            _ => push_plan(
                                &mut plans,
                                verb,
                                b,
                                words4("sudo", "pacman", "-Syu", "--noconfirm"),
                            ),
                        }
                    },
                }
            }
        },
    }
    assert(plans_view(plans@) =~= plans_for(c, cwd@, b));
    plans
}

/// Builder purity: the plans depend on the command, the current directory and
/// the backend alone, so equal inputs give equal argument vectors and equal
/// privilege flags.
pub proof fn lemma_builder_pure(
    c1: CommandView,
    cwd1: Seq<char>,
    b1: BackendTag,
    c2: CommandView,
    cwd2: Seq<char>,
    b2: BackendTag,
)
    requires
        c1 == c2,
        cwd1 == cwd2,
        b1 == b2,
    ensures
        plans_for(c1, cwd1, b1).len() == plans_for(c2, cwd2, b2).len(),
        forall|i: int|
            0 <= i < plans_for(c1, cwd1, b1).len() ==> {
                &&& #[trigger] plans_for(c1, cwd1, b1)[i].argv == plans_for(c2, cwd2, b2)[i].argv
                &&& plans_for(c1, cwd1, b1)[i].needs_privilege == plans_for(
                    c2,
                    cwd2,
                    b2,
                )[i].needs_privilege
            },
{
}

/// Privilege: every plan runs through `sudo` exactly when the backend is a
/// Linux one and the verb installs or upgrades; then `sudo` is its program.
pub proof fn lemma_privilege(c: CommandView, cwd: Seq<char>, b: BackendTag)
    ensures
        forall|i: int|
            0 <= i < plans_for(c, cwd, b).len() ==> {
                &&& #[trigger] plans_for(c, cwd, b)[i].needs_privilege == (is_linux_backend(b)
                    && is_mutating(c.verb))
                &&& plans_for(c, cwd, b)[i].needs_privilege ==> plans_for(c, cwd, b)[i].argv[0]
                    == "sudo"@
            },
{
}

/// Plans run the probed tool: for every verb but clearing the screen, each
/// argument vector starts with the backend's program, or with `sudo` followed
/// by it when privilege is needed.
pub proof fn lemma_plan_program(c: CommandView, cwd: Seq<char>, b: BackendTag)
    requires
        c.verb != Verb::ClearScreen,
    ensures
        forall|i: int|
            0 <= i < plans_for(c, cwd, b).len() ==> {
                let p = #[trigger] plans_for(c, cwd, b)[i];
                &&& b != BackendTag::NotFound
                &&& p.backend_name == tool_text(b)
                &&& if p.needs_privilege {
                    p.argv.len() > 1 && p.argv[0] == "sudo"@ && p.argv[1] == tool_text(b)
                } else {
                    p.argv.len() > 0 && p.argv[0] == tool_text(b)
                }
            },
{
}

/// Whether an argument vector carries a flag that keeps the backend from
/// prompting.
pub open spec fn non_interactive(argv: Seq<Seq<char>>) -> bool {
    argv.contains("-y"@) || argv.contains("--noconfirm"@) || argv.contains("--only-upgrade"@)
}

/// Non-interactive mutations: on a Linux backend every plan of an install or
/// upgrade passes `-y`, `--noconfirm` or `--only-upgrade`. The refresh step
/// (`sudo apt update`) that opens an Apt upgrade of everything has none, so
/// that command is left out.
pub proof fn lemma_non_interactive(c: CommandView, cwd: Seq<char>, b: BackendTag)
    requires
        is_linux_backend(b),
        is_mutating(c.verb),
        !(b == BackendTag::Apt && c.verb == Verb::UpgradeAll),
    ensures
        plans_for(c, cwd, b).len() == 1,
        forall|i: int|
            0 <= i < plans_for(c, cwd, b).len() ==> non_interactive(
                #[trigger] plans_for(c, cwd, b)[i].argv,
            ),
{
    let argv = plans_for(c, cwd, b)[0].argv;
    if c.verb == Verb::UpgradeAll {
        assert(argv[3] == "-y"@ || argv[3] == "--noconfirm"@);
    } else if b == BackendTag::Apt && c.verb == Verb::Upgrade {
        assert(argv[3] == "--only-upgrade"@);
    } else {
        assert(argv[3] == "-y"@ || argv[3] == "--noconfirm"@);
    }
}

/// Location scoping: off Windows the location option changes nothing in the
/// plans; on Windows a given location ends the single argument vector with
/// `--location <dir>`, and without one `--location` is not passed.
pub proof fn lemma_location_scope(c: CommandView, cwd: Seq<char>, b: BackendTag, loc: Option<LocationView>)
    ensures
        b != BackendTag::WindowsNative ==> plans_for(c, cwd, b) == plans_for(
            CommandView { location: loc, ..c },
            cwd,
            b,
        ),
        b == BackendTag::WindowsNative && is_mutating(c.verb) ==> {
            let argv = plans_for(c, cwd, b)[0].argv;
            &&& plans_for(c, cwd, b).len() == 1
            &&& match resolved(c.location, cwd) {
                Some(d) => argv.len() >= 2 && argv[argv.len() - 2] == "--location"@ && argv.last() == d,
                None => argv.len() == 3,
            }
        },
{
}

} // verus!

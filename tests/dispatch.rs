use spiv::backend::{candidate_name, probe_step, tool_name, BackendTag, HostOs, ProbeStep};
use spiv::command::{parse, parse_input, parse_line, Command, LocationArg, Parsed, Verb};
use spiv::dispatch::{
    after_step, launch_failure_text, next_action, notice_text, Action, Notice, RunStep,
    StepOutcome,
};
use spiv::plan::{build_plans, resolve_location, CommandPlan};
use spiv::text::{same_text, starts_with, tokenize};

fn command_of(line: &str) -> Command {
    match parse_line(line) {
        Parsed::Run(c) => c,
        other => panic!("not a command: {:?}", other),
    }
}

fn argvs(plans: &[CommandPlan]) -> Vec<Vec<String>> {
    plans.iter().map(|p| p.argv.clone()).collect()
}

fn strings(words: &[&str]) -> Vec<String> {
    words.iter().map(|w| w.to_string()).collect()
}

fn plans_for_line(line: &str, b: BackendTag) -> Vec<CommandPlan> {
    build_plans(&command_of(line), "/home/user", b)
}

#[test]
fn search_on_apt() {
    let plans = plans_for_line("-f firefox", BackendTag::Apt);
    assert_eq!(argvs(&plans), vec![strings(&["apt", "search", "firefox"])]);
    assert!(!plans[0].needs_privilege);
    assert_eq!(plans[0].backend_name, "apt");
}

#[test]
fn install_on_pacman() {
    let plans = plans_for_line("-i vim", BackendTag::Pacman);
    assert_eq!(argvs(&plans), vec![strings(&["sudo", "pacman", "-S", "--noconfirm", "vim"])]);
    assert!(plans[0].needs_privilege);
}

#[test]
fn upgrade_all_on_apt_is_two_steps() {
    let plans = plans_for_line("-u /a", BackendTag::Apt);
    assert_eq!(
        argvs(&plans),
        vec![strings(&["sudo", "apt", "update"]), strings(&["sudo", "apt", "upgrade", "-y"])]
    );
    assert!(plans.iter().all(|p| p.needs_privilege));
}

#[test]
fn upgrade_package_on_dnf() {
    let plans = plans_for_line("-u firefox", BackendTag::Dnf);
    assert_eq!(argvs(&plans), vec![strings(&["sudo", "dnf", "upgrade", "-y", "firefox"])]);
}

#[test]
fn install_with_location_on_windows() {
    let plans = plans_for_line("-i notepadpp /l/tmp/apps", BackendTag::WindowsNative);
    assert_eq!(
        argvs(&plans),
        vec![strings(&["winget", "install", "notepadpp", "--location", "/tmp/apps"])]
    );
    assert!(!plans[0].needs_privilege);
}

#[test]
fn upgrade_all_without_backend_says_so() {
    let parsed = parse_line("-u /a");
    let answers = vec![false, false, false];
    match next_action(&parsed, HostOs::Unix, &answers, "/home/user") {
        Action::Say(n) => {
            assert_eq!(n, Notice::NoBackend);
            assert!(notice_text(n).contains("No supported package manager found."));
        }
        other => panic!("expected a notice, got {:?}", other),
    }
}

#[test]
fn parse_results_cover_every_line() {
    let lines = [
        "", "   ", "-x", "foo bar", "-f", "-i", "-u", "-f q", "-i p", "-u /a", "-u p", "-c", "-h",
        "-q", "-i p /l", "-u /l/x", "-u p /lq", "-c extra",
    ];
    for line in lines.iter() {
        match parse_line(line) {
            Parsed::Run(c) => {
                let needs_target =
                    matches!(c.verb, Verb::Search | Verb::Install | Verb::Upgrade);
                assert_eq!(c.target.is_some(), needs_target, "line {:?}", line);
                if c.location.is_some() {
                    assert!(matches!(c.verb, Verb::Install | Verb::Upgrade | Verb::UpgradeAll));
                }
            }
            Parsed::Usage(v) => {
                assert!(matches!(v, Verb::Search | Verb::Install | Verb::Upgrade));
            }
            Parsed::Unknown => {}
        }
    }
}

#[test]
fn unknown_and_usage_outcomes() {
    assert!(matches!(parse_line(""), Parsed::Unknown));
    assert!(matches!(parse_line("install vim"), Parsed::Unknown));
    assert!(matches!(parse_line("-F x"), Parsed::Unknown));
    assert!(matches!(parse_line("-f"), Parsed::Usage(Verb::Search)));
    assert!(matches!(parse_line("-i"), Parsed::Usage(Verb::Install)));
    assert!(matches!(parse_line("-u"), Parsed::Usage(Verb::Upgrade)));
    assert_eq!(notice_text(Notice::UnknownCommand), "Unknown command. Use -h for help.");
    assert_eq!(notice_text(Notice::Usage(Verb::Search)), "Usage: -f <search_term>");
    assert_eq!(notice_text(Notice::Usage(Verb::Install)), "Usage: -i <package_name> [/l<path>]");
    assert_eq!(
        notice_text(Notice::Usage(Verb::Upgrade)),
        "Usage: -u /a [/l<path>]  (all)  OR  -u <package> [/l<path>]"
    );
}

#[test]
fn location_tokens() {
    let c = command_of("-i vim /l");
    assert!(matches!(c.location, Some(LocationArg::CurrentDir)));
    assert_eq!(resolve_location(&c.location, "/work"), Some("/work".to_string()));
    let c = command_of("-i vim /lC:\\apps");
    assert_eq!(resolve_location(&c.location, "/work"), Some("C:\\apps".to_string()));
    let c = command_of("-i vim other");
    assert!(c.location.is_none());
    let c = command_of("-u /l/opt");
    assert_eq!(c.verb, Verb::UpgradeAll);
    assert_eq!(resolve_location(&c.location, "/work"), Some("/opt".to_string()));
}

#[test]
fn one_shot_tokens_parse_like_a_line() {
    let toks = strings(&["-i", "notepadpp", "/l/tmp/apps"]);
    let c = match parse(&toks) {
        Parsed::Run(c) => c,
        other => panic!("{:?}", other),
    };
    assert_eq!(c.verb, Verb::Install);
    assert_eq!(c.target.as_deref(), Some("notepadpp"));
}

#[test]
fn tokenizer_splits_on_whitespace() {
    assert_eq!(tokenize("  -i\tvim  /l/x \n"), strings(&["-i", "vim", "/l/x"]));
    assert_eq!(tokenize(""), Vec::<String>::new());
    assert_eq!(tokenize(" \t "), Vec::<String>::new());
    assert_eq!(tokenize("é ü"), strings(&["é", "ü"]));
}

#[test]
fn text_helpers() {
    assert!(same_text("-f", "-f"));
    assert!(!same_text("-f", "-fx"));
    assert!(starts_with("/lpath", "/l"));
    assert!(!starts_with("/", "/l"));
}

#[test]
fn probe_order_and_determinism() {
    assert_eq!(probe_step(HostOs::Windows, &vec![]), ProbeStep::Decided(BackendTag::WindowsNative));
    assert_eq!(probe_step(HostOs::Unix, &vec![]), ProbeStep::Check(0));
    assert_eq!(probe_step(HostOs::Unix, &vec![false]), ProbeStep::Check(1));
    assert_eq!(probe_step(HostOs::Unix, &vec![true]), ProbeStep::Decided(BackendTag::Apt));
    assert_eq!(probe_step(HostOs::Unix, &vec![false, true]), ProbeStep::Decided(BackendTag::Dnf));
    assert_eq!(
        probe_step(HostOs::Unix, &vec![false, false, true]),
        ProbeStep::Decided(BackendTag::Pacman)
    );
    assert_eq!(
        probe_step(HostOs::Unix, &vec![false, false, false]),
        ProbeStep::Decided(BackendTag::NotFound)
    );
    // the same answers give the same backend, however far the probe went
    assert_eq!(probe_step(HostOs::Unix, &vec![true, true, false]), probe_step(HostOs::Unix, &vec![true]));
    assert_eq!(candidate_name(0), "apt");
    assert_eq!(candidate_name(1), "dnf");
    assert_eq!(candidate_name(2), "pacman");
    assert_eq!(tool_name(BackendTag::WindowsNative), "winget");
}

#[test]
fn builder_is_pure() {
    for b in [BackendTag::WindowsNative, BackendTag::Apt, BackendTag::Dnf, BackendTag::Pacman] {
        let first = plans_for_line("-i vim /l/x", b);
        let second = plans_for_line("-i vim /l/x", b);
        assert_eq!(argvs(&first), argvs(&second));
        assert_eq!(first[0].needs_privilege, second[0].needs_privilege);
    }
}

#[test]
fn privilege_only_for_linux_mutations() {
    let lines = ["-f q", "-i p", "-u p", "-u /a", "-c"];
    let backends =
        [BackendTag::WindowsNative, BackendTag::Apt, BackendTag::Dnf, BackendTag::Pacman];
    for line in lines.iter() {
        for b in backends.iter() {
            let verb = command_of(line).verb;
            let expected = *b != BackendTag::WindowsNative
                && matches!(verb, Verb::Install | Verb::Upgrade | Verb::UpgradeAll);
            for p in plans_for_line(line, *b) {
                assert_eq!(p.needs_privilege, expected, "{} on {:?}", line, b);
                if p.needs_privilege {
                    assert_eq!(p.argv[0], "sudo");
                }
            }
        }
    }
}

#[test]
fn linux_mutations_never_prompt() {
    for line in ["-i p", "-u p", "-u /a"].iter() {
        for b in [BackendTag::Apt, BackendTag::Dnf, BackendTag::Pacman].iter() {
            let plans = plans_for_line(line, *b);
            let last = plans.last().unwrap();
            assert!(
                last.argv.iter().any(|a| a == "-y" || a == "--noconfirm" || a == "--only-upgrade"),
                "{} on {:?}",
                line,
                b
            );
        }
    }
}

#[test]
fn location_only_on_windows() {
    for b in [BackendTag::Apt, BackendTag::Dnf, BackendTag::Pacman].iter() {
        assert_eq!(
            argvs(&plans_for_line("-i vim /l/tmp/x", *b)),
            argvs(&plans_for_line("-i vim", *b))
        );
        assert_eq!(
            argvs(&plans_for_line("-u /a /l/tmp/x", *b)),
            argvs(&plans_for_line("-u /a", *b))
        );
    }
    assert_eq!(
        argvs(&plans_for_line("-u /a /l", BackendTag::WindowsNative)),
        vec![strings(&["winget", "upgrade", "--all", "--location", "/home/user"])]
    );
    assert_eq!(
        argvs(&plans_for_line("-u vim /l/x", BackendTag::WindowsNative)),
        vec![strings(&["winget", "upgrade", "vim", "--location", "/x"])]
    );
}

#[test]
fn rest_of_the_table() {
    let cases: [(&str, BackendTag, &[&str]); 9] = [
        ("-f q", BackendTag::WindowsNative, &["winget", "search", "q"]),
        ("-f q", BackendTag::Dnf, &["dnf", "search", "q"]),
        ("-f q", BackendTag::Pacman, &["pacman", "-Ss", "q"]),
        ("-i p", BackendTag::Apt, &["sudo", "apt", "install", "-y", "p"]),
        ("-i p", BackendTag::Dnf, &["sudo", "dnf", "install", "-y", "p"]),
        ("-u p", BackendTag::Apt, &["sudo", "apt", "install", "--only-upgrade", "p"]),
        ("-u p", BackendTag::Pacman, &["sudo", "pacman", "-S", "--noconfirm", "p"]),
        ("-u /a", BackendTag::Dnf, &["sudo", "dnf", "upgrade", "-y"]),
        ("-u /a", BackendTag::Pacman, &["sudo", "pacman", "-Syu", "--noconfirm"]),
    ];
    for (line, b, expected) in cases.iter() {
        assert_eq!(argvs(&plans_for_line(line, *b)), vec![strings(expected)], "{} on {:?}", line, b);
    }
    assert_eq!(argvs(&plans_for_line("-c", BackendTag::WindowsNative)), vec![strings(&["cmd", "/C", "cls"])]);
    assert_eq!(argvs(&plans_for_line("-c", BackendTag::NotFound)), vec![strings(&["clear"])]);
    assert!(plans_for_line("-h", BackendTag::Apt).is_empty());
    assert!(plans_for_line("-i p", BackendTag::NotFound).is_empty());
}

#[test]
fn dispatcher_steps() {
    let parsed = parse_line("-i vim");
    assert!(matches!(next_action(&parsed, HostOs::Unix, &vec![], "/"), Action::Probe(0)));
    assert!(matches!(next_action(&parsed, HostOs::Unix, &vec![false], "/"), Action::Probe(1)));
    match next_action(&parsed, HostOs::Unix, &vec![false, true], "/") {
        Action::Run(plans) => {
            assert_eq!(argvs(&plans), vec![strings(&["sudo", "dnf", "install", "-y", "vim"])])
        }
        other => panic!("{:?}", other),
    }
    match next_action(&parse_line("-c"), HostOs::Unix, &vec![], "/") {
        Action::Run(plans) => assert_eq!(argvs(&plans), vec![strings(&["clear"])]),
        other => panic!("{:?}", other),
    }
    assert!(matches!(next_action(&parse_line("-h"), HostOs::Unix, &vec![], "/"), Action::ShowHelp));
    assert!(matches!(next_action(&parse_line("-q"), HostOs::Unix, &vec![], "/"), Action::Quit));
    assert!(matches!(
        next_action(&parse_line("-z"), HostOs::Unix, &vec![], "/"),
        Action::Say(Notice::UnknownCommand)
    ));
    assert!(matches!(
        next_action(&parse_line("-i"), HostOs::Windows, &vec![], "/"),
        Action::Say(Notice::Usage(Verb::Install))
    ));
    assert!(matches!(parse_input(None), Parsed::Run(Command { verb: Verb::Quit, .. })));
    assert!(matches!(parse_input(Some("-h")), Parsed::Run(Command { verb: Verb::Help, .. })));
}

#[test]
fn after_each_process() {
    assert_eq!(after_step(2, 0, StepOutcome::Exited(0), true), RunStep::Start(1));
    assert_eq!(after_step(2, 0, StepOutcome::Exited(100), true), RunStep::Done(100));
    assert_eq!(after_step(2, 0, StepOutcome::Exited(100), false), RunStep::Start(1));
    assert_eq!(after_step(2, 1, StepOutcome::Exited(3), false), RunStep::Done(3));
    assert_eq!(after_step(1, 0, StepOutcome::Exited(0), false), RunStep::Done(0));
    assert_eq!(after_step(2, 0, StepOutcome::LaunchFailed, false), RunStep::Done(1));
    assert_eq!(after_step(2, 0, StepOutcome::NoCode, true), RunStep::Done(1));
    assert_eq!(after_step(2, 0, StepOutcome::NoCode, false), RunStep::Start(1));
    assert_eq!(launch_failure_text("sudo", Verb::Install), "failed to run sudo (install)");
    assert_eq!(launch_failure_text("winget", Verb::UpgradeAll), "failed to run winget (upgrade all)");
}

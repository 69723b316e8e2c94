//! The command-line grammar: one verb flag, a primary argument, and an
//! optional location token.
use vstd::prelude::*;
use vstd::string::*;

use crate::text::{has_prefix, same_text, starts_with, tokenize, tokens};

verus! {

/// What the user asked for.
#[derive(Clone, Copy, PartialEq, Eq, Structural, Debug)]
pub enum Verb {
    Search,
    Install,
    Upgrade,
    UpgradeAll,
    ClearScreen,
    Help,
    Quit,
}

/// The verbs that change the installed set of packages.
pub open spec fn is_mutating(v: Verb) -> bool {
    v == Verb::Install || v == Verb::Upgrade || v == Verb::UpgradeAll
}

/// The verbs that name a package or a query.
pub open spec fn takes_target(v: Verb) -> bool {
    v == Verb::Search || v == Verb::Install || v == Verb::Upgrade
}

/// The verbs that accept a location option.
pub open spec fn takes_location(v: Verb) -> bool {
    is_mutating(v)
}

/// Executable form of `is_mutating`.
pub fn verb_is_mutating(v: Verb) -> (r: bool)
    ensures
        r == is_mutating(v),
{
    match v {
        Verb::Install | Verb::Upgrade | Verb::UpgradeAll => true,
        _ => false,
    }
}

/// The location option as written: `/l` alone means the current directory,
/// `/l<path>` names a directory.
#[derive(Debug)]
pub enum LocationArg {
    CurrentDir,
    Path(String),
}

/// Mathematical form of `LocationArg`.
pub enum LocationView {
    CurrentDir,
    Path(Seq<char>),
}

impl View for LocationArg {
    type V = LocationView;

    open spec fn view(&self) -> LocationView {
        match self {
            LocationArg::CurrentDir => LocationView::CurrentDir,
            LocationArg::Path(p) => LocationView::Path(p@),
        }
    }
}

/// A recognised command: the verb with its target and options.
#[derive(Debug)]
pub struct Command {
    pub verb: Verb,
    pub target: Option<String>,
    pub location: Option<LocationArg>,
}

/// Mathematical form of `Command`.
pub struct CommandView {
    pub verb: Verb,
    pub target: Option<Seq<char>>,
    pub location: Option<LocationView>,
}

pub open spec fn opt_text_view(o: Option<String>) -> Option<Seq<char>> {
    match o {
        Some(s) => Some(s@),
        None => None,
    }
}

pub open spec fn opt_location_view(o: Option<LocationArg>) -> Option<LocationView> {
    match o {
        Some(l) => Some(l@),
        None => None,
    }
}

impl View for Command {
    type V = CommandView;

    open spec fn view(&self) -> CommandView {
        CommandView {
            verb: self.verb,
            target: opt_text_view(self.target),
            location: opt_location_view(self.location),
        }
    }
}

/// The outcome of parsing one command line.
#[derive(Debug)]
pub enum Parsed {
    /// A recognised verb with all that it needs.
    Run(Command),
    /// A recognised verb whose required argument is missing.
    Usage(Verb),
    /// No recognised verb flag.
    Unknown,
}

/// Mathematical form of `Parsed`.
pub enum ParsedView {
    Run(CommandView),
    Usage(Verb),
    Unknown,
}

impl View for Parsed {
    type V = ParsedView;

    open spec fn view(&self) -> ParsedView {
        match self {
            Parsed::Run(c) => ParsedView::Run(c@),
            Parsed::Usage(v) => ParsedView::Usage(*v),
            Parsed::Unknown => ParsedView::Unknown,
        }
    }
}

/// The meaning of an optional location token: `/l` is the current directory,
/// `/l<path>` is `<path>`, anything else is no location.
pub open spec fn location_of(tok: Option<Seq<char>>) -> Option<LocationView> {
    match tok {
        Some(t) => if t == "/l"@ {
            Some(LocationView::CurrentDir)
        } else if has_prefix(t, "/l"@) {
            Some(LocationView::Path(t.subrange("/l"@.len() as int, t.len() as int)))
        } else {
            None
        },
        None => None,
    }
}

pub open spec fn token_at(toks: Seq<Seq<char>>, i: int) -> Option<Seq<char>> {
    if 0 <= i < toks.len() {
        Some(toks[i])
    } else {
        None
    }
}

pub open spec fn run(verb: Verb, target: Option<Seq<char>>, location: Option<LocationView>) -> ParsedView {
    ParsedView::Run(CommandView { verb, target, location })
}

/// What a list of tokens means. The first token is the verb flag, the second
/// the primary argument, the third an optional location; later tokens are
/// ignored. For `-u`, a primary argument that is itself a location token means
/// upgrading everything into that location.
pub open spec fn parse_tokens(toks: Seq<Seq<char>>) -> ParsedView {
    let arg = token_at(toks, 1);
    let extra = token_at(toks, 2);
    if toks.len() == 0 {
        ParsedView::Unknown
    } else if toks[0] == "-f"@ {
        match arg {
            Some(q) => run(Verb::Search, Some(q), None),
            None => ParsedView::Usage(Verb::Search),
        }
    } else if toks[0] == "-i"@ {
        match arg {
            Some(p) => run(Verb::Install, Some(p), location_of(extra)),
            None => ParsedView::Usage(Verb::Install),
        }
    } else if toks[0] == "-u"@ {
        match arg {
            Some(a) => if has_prefix(a, "/l"@) {
                run(Verb::UpgradeAll, None, location_of(arg))
            } else if a == "/a"@ {
                run(Verb::UpgradeAll, None, location_of(extra))
            } else {
                run(Verb::Upgrade, Some(a), location_of(extra))
            },
            None => ParsedView::Usage(Verb::Upgrade),
        }
    } else if toks[0] == "-c"@ {
        run(Verb::ClearScreen, None, None)
    } else if toks[0] == "-h"@ {
        run(Verb::Help, None, None)
    } else if toks[0] == "-q"@ {
        run(Verb::Quit, None, None)
    } else {
        ParsedView::Unknown
    }
}

/// Reads an optional location token.
pub fn parse_location(tok: Option<&str>) -> (r: Option<LocationArg>)
    ensures
        opt_location_view(r) == location_of(
            match tok {
                Some(t) => Some(t@),
                None => None,
            },
        ),
{
    match tok {
        Some(t) => {
            if same_text(t, "/l") {
                Some(LocationArg::CurrentDir)
            } else if starts_with(t, "/l") {
                proof {
                    reveal_strlit("/l");
                }
                let n = t.unicode_len();
                Some(LocationArg::Path(String::from_str(t.substring_char(2, n))))
            } else {
                None
            }
        },
        None => None,
    }
}

/// The verb flags of the grammar.
pub open spec fn is_verb_flag(t: Seq<char>) -> bool {
    t == "-f"@ || t == "-i"@ || t == "-u"@ || t == "-c"@ || t == "-h"@ || t == "-q"@
}

/// A command whose verb has exactly the arguments it needs: a target for
/// search, install and upgrade and for nothing else, and a location only on
/// the verbs that accept one.
pub open spec fn well_formed(c: CommandView) -> bool {
    &&& (c.target is Some <==> takes_target(c.verb))
    &&& (c.location is Some ==> takes_location(c.verb))
}

/// Parsing totality: every token list is exactly one of a recognised command
/// with all its arguments filled in, a usage message for a recognised verb
/// whose argument is missing, or an unknown command.
pub proof fn lemma_parse_total(toks: Seq<Seq<char>>)
    ensures
        match parse_tokens(toks) {
            ParsedView::Run(c) => toks.len() > 0 && is_verb_flag(toks[0]) && well_formed(c),
            ParsedView::Usage(v) => toks.len() == 1 && is_verb_flag(toks[0]) && takes_target(v),
            ParsedView::Unknown => toks.len() == 0 || !is_verb_flag(toks[0]),
        },
{
}

/// Parses a command given as separate tokens (program arguments, or a line
/// already split).
pub fn parse(toks: &Vec<String>) -> (r: Parsed)
    ensures
        r@ == parse_tokens(toks.deep_view()),
{
    let ghost tv = toks.deep_view();
    let n = toks.len();
    assert(tv.len() == n);
    if n == 0 {
        return Parsed::Unknown;
    }
    let flag = toks[0].as_str();
    assert(flag@ == tv[0]);
    let arg: Option<&str> = if n > 1 {
        Some(toks[1].as_str())
    } else {
        None
    };
    let extra: Option<&str> = if n > 2 {
        Some(toks[2].as_str())
    } else {
        None
    };
    assert(n > 1 ==> arg.unwrap()@ == tv[1]);
    assert(n > 2 ==> extra.unwrap()@ == tv[2]);
    if same_text(flag, "-f") {
        match arg {
            Some(q) => Parsed::Run(
                Command { verb: Verb::Search, target: Some(String::from_str(q)), location: None },
            ),
            None => Parsed::Usage(Verb::Search),
        }
    } else if same_text(flag, "-i") {
        match arg {
            Some(p) => Parsed::Run(
                Command {
                    verb: Verb::Install,
                    target: Some(String::from_str(p)),
                    location: parse_location(extra),
                },
            ),
            None => Parsed::Usage(Verb::Install),
        }
    } else if same_text(flag, "-u") {
        match arg {
            Some(a) => {
                if starts_with(a, "/l") {
                    Parsed::Run(
                        Command { verb: Verb::UpgradeAll, target: None, location: parse_location(arg) },
                    )
                } else if same_text(a, "/a") {
                    Parsed::Run(
                        Command {
                            verb: Verb::UpgradeAll,
                            target: None,
                            location: parse_location(extra),
                        },
                    )
                } else {
                    Parsed::Run(
                        Command {
                            verb: Verb::Upgrade,
                            target: Some(String::from_str(a)),
                            location: parse_location(extra),
                        },
                    )
                }
            },
            None => Parsed::Usage(Verb::Upgrade),
        }
    } else if same_text(flag, "-c") {
        Parsed::Run(Command { verb: Verb::ClearScreen, target: None, location: None })
    } else if same_text(flag, "-h") {
        Parsed::Run(Command { verb: Verb::Help, target: None, location: None })
    } else if same_text(flag, "-q") {
        Parsed::Run(Command { verb: Verb::Quit, target: None, location: None })
    } else {
        Parsed::Unknown
    }
}

/// Parses one line typed at the interactive prompt.
pub fn parse_line(line: &str) -> (r: Parsed)
    ensures
        r@ == parse_tokens(tokens(line@)),
{
    let toks = tokenize(line);
    parse(&toks)
}

/// What one read of the interactive prompt means: end of input quits, as
/// `-q` does; a line is parsed.
pub fn parse_input(line: Option<&str>) -> (r: Parsed)
    ensures
        r@ == match line {
            Some(l) => parse_tokens(tokens(l@)),
            None => run(Verb::Quit, None, None),
        },
{
    match line {
        Some(l) => parse_line(l),
        None => Parsed::Run(Command { verb: Verb::Quit, target: None, location: None }),
    }
}

} // verus!

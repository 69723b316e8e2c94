//! Choosing the package-manager backend from the host's operating system and
//! from which candidate tools resolve on the search path.
use vstd::prelude::*;

verus! {

/// The operating-system family of the host.
#[derive(Clone, Copy, PartialEq, Eq, Structural, Debug)]
pub enum HostOs {
    Windows,
    Unix,
}

/// The package manager chosen for the host.
#[derive(Clone, Copy, PartialEq, Eq, Structural, Debug)]
pub enum BackendTag {
    WindowsNative,
    Apt,
    Dnf,
    Pacman,
    /// No supported package manager is present.
    NotFound,
}

/// The backends that run through `sudo`.
pub open spec fn is_linux_backend(b: BackendTag) -> bool {
    b == BackendTag::Apt || b == BackendTag::Dnf || b == BackendTag::Pacman
}

/// How many tools a Unix host is probed for.
pub const CANDIDATE_COUNT: usize = 3;

/// The tools probed on a Unix host, in priority order.
pub open spec fn candidate(i: int) -> BackendTag {
    if i == 0 {
        BackendTag::Apt
    } else if i == 1 {
        BackendTag::Dnf
    } else {
        BackendTag::Pacman
    }
}

/// The executable that a backend runs.
pub open spec fn tool_text(b: BackendTag) -> Seq<char> {
    match b {
        BackendTag::WindowsNative => "winget"@,
        BackendTag::Apt => "apt"@,
        BackendTag::Dnf => "dnf"@,
        BackendTag::Pacman => "pacman"@,
        BackendTag::NotFound => Seq::empty(),
    }
}

/// What the probe does next.
#[derive(Clone, Copy, PartialEq, Eq, Structural, Debug)]
pub enum ProbeStep {
    /// Test whether the candidate with this index is present, and call again
    /// with the answer appended.
    Check(usize),
    /// The backend is chosen.
    Decided(BackendTag),
}

/// The first present candidate from index `i` on, among the answers known so far.
pub open spec fn scan_from(answers: Seq<bool>, i: int) -> ProbeStep
    decreases 3 - i,
{
    if i >= 3 || i < 0 {
        ProbeStep::Decided(BackendTag::NotFound)
    } else if i >= answers.len() {
        ProbeStep::Check(i as usize)
    } else if answers[i] {
        ProbeStep::Decided(candidate(i))
    } else {
        scan_from(answers, i + 1)
    }
}

/// The probe's next step given the answers so far, where `answers[i]` says
/// whether candidate `i` is present. Windows needs no probe.
pub open spec fn probe_next(os: HostOs, answers: Seq<bool>) -> ProbeStep {
    if os == HostOs::Windows {
        ProbeStep::Decided(BackendTag::WindowsNative)
    } else {
        scan_from(answers, 0)
    }
}

/// The backend of a host, given which of the candidates are present.
pub open spec fn backend_for(os: HostOs, apt: bool, dnf: bool, pacman: bool) -> BackendTag {
    if os == HostOs::Windows {
        BackendTag::WindowsNative
    } else if apt {
        BackendTag::Apt
    } else if dnf {
        BackendTag::Dnf
    } else if pacman {
        BackendTag::Pacman
    } else {
        BackendTag::NotFound
    }
}

/// Decides the probe's next step.
pub fn probe_step(os: HostOs, answers: &Vec<bool>) -> (r: ProbeStep)
    ensures
        r == probe_next(os, answers@),
{
    if os == HostOs::Windows {
        return ProbeStep::Decided(BackendTag::WindowsNative);
    }
    let mut i: usize = 0;
    while i < CANDIDATE_COUNT
        invariant
            i <= 3,
            CANDIDATE_COUNT == 3,
            os == HostOs::Unix,
            probe_next(os, answers@) == scan_from(answers@, 0),
            scan_from(answers@, 0) == scan_from(answers@, i as int),
        decreases 3 - i,
    {
        if i >= answers.len() {
            return ProbeStep::Check(i);
        }
        if answers[i] {
            return ProbeStep::Decided(candidate_tag(i));
        }
        i = i + 1;
    }
    ProbeStep::Decided(BackendTag::NotFound)
}

/// Executable form of `candidate`.
pub fn candidate_tag(i: usize) -> (r: BackendTag)
    ensures
        r == candidate(i as int),
{
    if i == 0 {
        BackendTag::Apt
    } else if i == 1 {
        BackendTag::Dnf
    } else {
        BackendTag::Pacman
    }
}

/// The executable that a backend runs (empty when there is none).
pub fn tool_name(b: BackendTag) -> (r: &'static str)
    ensures
        r@ == tool_text(b),
{
    match b {
        BackendTag::WindowsNative => "winget",
        BackendTag::Apt => "apt",
        BackendTag::Dnf => "dnf",
        BackendTag::Pacman => "pacman",
        BackendTag::NotFound => {
            proof {
                reveal_strlit("");
            }
            ""
        },
    }
}

/// The name of the tool that the probe should look for next.
pub fn candidate_name(i: usize) -> (r: &'static str)
    requires
        i < CANDIDATE_COUNT,
    ensures
        r@ == tool_text(candidate(i as int)),
{
    tool_name(candidate_tag(i))
}

/// Probe determinism: on a host with a fixed operating system and a fixed
/// search path, every decision the probe reaches (after asking about as many
/// candidates as it asked for) names the same backend, the one that the
/// host's set of present tools determines.
pub proof fn lemma_probe_deterministic(os: HostOs, present: Seq<bool>, k: int)
    requires
        present.len() == 3,
        0 <= k <= 3,
    ensures
        probe_next(os, present.take(k)) is Decided ==> probe_next(os, present.take(k))
            == ProbeStep::Decided(backend_for(os, present[0], present[1], present[2])),
        probe_next(os, present.take(k)) is Check ==> probe_next(os, present.take(k))
            == ProbeStep::Check(k as usize),
        probe_next(os, present) == ProbeStep::Decided(backend_for(os, present[0], present[1], present[2])),
{
    let a = present.take(k);
    assert(present.take(3) =~= present);
    reveal_with_fuel(scan_from, 4);
}

} // verus!

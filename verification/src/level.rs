use vstd::prelude::*;

verus! {

/// Severity of a host log record, ordered from most severe (`Error`) to
/// least severe (`Trace`).
#[derive(Clone, Copy, Debug, PartialEq, Eq, Structural)]
pub enum Level {
    Error,
    Warn,
    Info,
    Debug,
    Trace,
}

/// Severity scale of the monitoring service. It is coarser than the host
/// scale: the host's `Trace` has no counterpart of its own.
#[derive(Clone, Copy, Debug, PartialEq, Eq, Structural)]
pub enum SentryLevel {
    Debug,
    Info,
    Warning,
    Error,
}

/// Position of a level on the verbosity scale: 0 is the most severe level,
/// larger numbers are less severe.
pub open spec fn spec_verbosity(l: Level) -> int {
    match l {
        Level::Error => 0,
        Level::Warn => 1,
        Level::Info => 2,
        Level::Debug => 3,
        Level::Trace => 4,
    }
}

/// A record of severity `s` passes a threshold `t` when `s` is at least as
/// severe as `t`; the threshold is inclusive.
pub open spec fn spec_eligible(s: Level, t: Level) -> bool {
    spec_verbosity(s) <= spec_verbosity(t)
}

fn verbosity(l: Level) -> (r: u8)
    ensures
        r as int == spec_verbosity(l),
{
    match l {
        Level::Error => 0,
        Level::Warn => 1,
        Level::Info => 2,
        Level::Debug => 3,
        Level::Trace => 4,
    }
}

/// Decides whether a record of severity `s` is eligible for forwarding under
/// the threshold `t`.
pub fn eligible(s: Level, t: Level) -> (r: bool)
    ensures
        r == spec_eligible(s, t),
{
    verbosity(s) <= verbosity(t)
}

/// The fixed, total mapping from host severities to monitoring severities.
/// `Trace` collapses into `Debug`: the monitoring scale is deliberately
/// coarser, and the collapse is part of the contract.
pub open spec fn spec_level_mapping(l: Level) -> SentryLevel {
    match l {
        Level::Error => SentryLevel::Error,
        Level::Warn => SentryLevel::Warning,
        Level::Info => SentryLevel::Info,
        Level::Debug => SentryLevel::Debug,
        Level::Trace => SentryLevel::Debug,
    }
}

/// Maps a host severity to the monitoring severity it is reported under.
pub fn level_mapping(level: Level) -> (r: SentryLevel)
    ensures
        r == spec_level_mapping(level),
{
    match level {
        Level::Error => SentryLevel::Error,
        Level::Warn => SentryLevel::Warning,
        Level::Info => SentryLevel::Info,
        Level::Debug => SentryLevel::Debug,
        Level::Trace => SentryLevel::Debug,
    }
}

/// ASCII lowering of a single character; anything outside `A..Z` is kept.
pub open spec fn spec_lower_char(c: char) -> char {
    match c {
        'A' => 'a',
        'B' => 'b',
        'C' => 'c',
        'D' => 'd',
        'E' => 'e',
        'F' => 'f',
        'G' => 'g',
        'H' => 'h',
        'I' => 'i',
        'J' => 'j',
        'K' => 'k',
        'L' => 'l',
        'M' => 'm',
        'N' => 'n',
        'O' => 'o',
        'P' => 'p',
        'Q' => 'q',
        'R' => 'r',
        'S' => 's',
        'T' => 't',
        'U' => 'u',
        'V' => 'v',
        'W' => 'w',
        'X' => 'x',
        'Y' => 'y',
        'Z' => 'z',
        _ => c,
    }
}

/// ASCII lowering of a whole character sequence.
pub open spec fn spec_lower(s: Seq<char>) -> Seq<char> {
    s.map_values(|c: char| spec_lower_char(c))
}

fn lower_char(c: char) -> (r: char)
    ensures
        r == spec_lower_char(c),
{
    match c {
        'A' => 'a',
        'B' => 'b',
        'C' => 'c',
        'D' => 'd',
        'E' => 'e',
        'F' => 'f',
        'G' => 'g',
        'H' => 'h',
        'I' => 'i',
        'J' => 'j',
        'K' => 'k',
        'L' => 'l',
        'M' => 'm',
        'N' => 'n',
        'O' => 'o',
        'P' => 'p',
        'Q' => 'q',
        'R' => 'r',
        'S' => 's',
        'T' => 't',
        'U' => 'u',
        'V' => 'v',
        'W' => 'w',
        'X' => 'x',
        'Y' => 'y',
        'Z' => 'z',
        _ => c,
    }
}

/// True when `s`, lowered character by character, equals `t`.
pub(crate) fn eq_lower(s: &str, t: &str) -> (r: bool)
    ensures
        r == (spec_lower(s@) == t@),
{
    let n = s.unicode_len();
    if n != t.unicode_len() {
        assert(spec_lower(s@).len() == s@.len());
        assert(spec_lower(s@) != t@);
        return false;
    }
    let mut i: usize = 0;
    while i < n
        invariant
            n == s@.len(),
            n == t@.len(),
            i <= n,
            forall|j: int| 0 <= j < i ==> spec_lower(s@)[j] == t@[j],
        decreases n - i,
    {
        let c = lower_char(s.get_char(i));
        if c != t.get_char(i) {
            assert(spec_lower(s@)[i as int] != t@[i as int]);
            return false;
        }
        i = i + 1;
    }
    assert(spec_lower(s@) =~= t@);
    true
}

/// Parses the declarative name of a severity, as the configuration schema
/// writes it. The comparison ignores ASCII case; any other string is
/// rejected.
pub open spec fn spec_level_from_name(s: Seq<char>) -> Option<Level> {
    if spec_lower(s) == "error"@ {
        Some(Level::Error)
    } else if spec_lower(s) == "warn"@ {
        Some(Level::Warn)
    } else if spec_lower(s) == "info"@ {
        Some(Level::Info)
    } else if spec_lower(s) == "debug"@ {
        Some(Level::Debug)
    } else if spec_lower(s) == "trace"@ {
        Some(Level::Trace)
    } else {
        None
    }
}

/// Resolves a severity name from a declarative configuration document into
/// a [`Level`], ignoring ASCII case.
pub fn level_from_name(s: &str) -> (r: Option<Level>)
    ensures
        r == spec_level_from_name(s@),
{
    if eq_lower(s, "error") {
        Some(Level::Error)
    } else if eq_lower(s, "warn") {
        Some(Level::Warn)
    } else if eq_lower(s, "info") {
        Some(Level::Info)
    } else if eq_lower(s, "debug") {
        Some(Level::Debug)
    } else if eq_lower(s, "trace") {
        Some(Level::Trace)
    } else {
        None
    }
}

} // verus!

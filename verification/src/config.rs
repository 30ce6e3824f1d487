use vstd::prelude::*;

use crate::level::Level;
use crate::level::spec_level_from_name;
use crate::level::level_from_name;

verus! {

/// A value of a declarative configuration document, as far as this core
/// reads one: a piece of text, or a nested table of text settings.
#[derive(Debug)]
pub enum ConfigValue {
    Text(String),
    Nested(Vec<(String, String)>),
}

/// The declarative description of an encoder: the kind name under which the
/// host pipeline's registry resolves it. The kind's own settings are opaque
/// to this core and stay with the registry.
#[derive(Debug)]
pub struct EncoderConfig {
    pub kind: String,
}

/// The resolved declarative configuration of one adapter: the connection
/// target, the optional encoder description, and the severity threshold.
#[derive(Debug)]
pub struct SentryAppenderConfig {
    pub dsn: String,
    pub encoder: Option<EncoderConfig>,
    pub threshold: Level,
}

/// Why a declarative configuration document was rejected.
#[derive(Debug)]
pub enum ConfigError {
    /// A key outside the schema; the schema is strict and never ignores one.
    UnknownKey(String),
    /// A key given more than once.
    DuplicateKey(String),
    /// No `dsn` key.
    MissingDsn,
    /// The `dsn` value is not text.
    InvalidDsn,
    /// No `threshold` key.
    MissingThreshold,
    /// The `threshold` value is not text, or names no severity.
    InvalidThreshold,
    /// The `encoder` value is not a nested table.
    InvalidEncoder,
}

/// The keys the schema admits.
pub open spec fn known_key(k: Seq<char>) -> bool {
    k == "dsn"@ || k == "encoder"@ || k == "threshold"@
}

pub open spec fn all_keys_known(es: Seq<(String, ConfigValue)>) -> bool {
    forall|i: int| 0 <= i < es.len() ==> known_key((#[trigger] es[i]).0@)
}

pub open spec fn no_duplicate_keys(es: Seq<(String, ConfigValue)>) -> bool {
    forall|i: int, j: int|
        0 <= i < j < es.len() ==> (#[trigger] es[i]).0@ != (#[trigger] es[j]).0@
}

pub open spec fn has_key(es: Seq<(String, ConfigValue)>, k: Seq<char>) -> bool {
    exists|i: int| 0 <= i < es.len() && (#[trigger] es[i]).0@ == k
}

/// Every `dsn` entry carries text.
pub open spec fn dsn_entries_ok(es: Seq<(String, ConfigValue)>) -> bool {
    forall|i: int|
        0 <= i < es.len() && (#[trigger] es[i]).0@ == "dsn"@ ==> es[i].1 is Text
}

/// Every `threshold` entry carries text that names a severity.
pub open spec fn threshold_entries_ok(es: Seq<(String, ConfigValue)>) -> bool {
    forall|i: int|
        0 <= i < es.len() && (#[trigger] es[i]).0@ == "threshold"@ ==> (es[i].1 matches
            ConfigValue::Text(t) && spec_level_from_name(t@) is Some)
}

/// Every `encoder` entry carries a nested table.
pub open spec fn encoder_entries_ok(es: Seq<(String, ConfigValue)>) -> bool {
    forall|i: int|
        0 <= i < es.len() && (#[trigger] es[i]).0@ == "encoder"@ ==> es[i].1 is Nested
}

/// A well-formed document: only known keys, each at most once, `dsn` and
/// `threshold` present and valid, and any `encoder` a nested table.
pub open spec fn spec_wf(es: Seq<(String, ConfigValue)>) -> bool {
    &&& all_keys_known(es)
    &&& no_duplicate_keys(es)
    &&& has_key(es, "dsn"@)
    &&& dsn_entries_ok(es)
    &&& has_key(es, "threshold"@)
    &&& threshold_entries_ok(es)
    &&& encoder_entries_ok(es)
}

/// The encoder kind a nested table names: the text of its first `kind`
/// entry, or `pattern` where it has none.
pub open spec fn spec_kind_of(ps: Seq<(String, String)>, kind: Seq<char>) -> bool {
    if exists|i: int| 0 <= i < ps.len() && (#[trigger] ps[i]).0@ == "kind"@ {
        exists|i: int|
            0 <= i < ps.len() && (#[trigger] ps[i]).0@ == "kind"@ && (forall|j: int|
                0 <= j < i ==> (#[trigger] ps[j]).0@ != "kind"@) && kind == ps[i].1@
    } else {
        kind == "pattern"@
    }
}

/// What a successfully parsed configuration holds, entry by entry.
pub open spec fn ok_describes(es: Seq<(String, ConfigValue)>, cfg: SentryAppenderConfig) -> bool {
    &&& forall|i: int|
        0 <= i < es.len() && (#[trigger] es[i]).0@ == "dsn"@ ==> es[i].1 == ConfigValue::Text(
            cfg.dsn,
        )
    &&& forall|i: int|
        0 <= i < es.len() && (#[trigger] es[i]).0@ == "threshold"@ ==> (es[i].1 matches
            ConfigValue::Text(t) && spec_level_from_name(t@) == Some(cfg.threshold))
    &&& (cfg.encoder is Some <==> has_key(es, "encoder"@))
    &&& forall|i: int|
        0 <= i < es.len() && (#[trigger] es[i]).0@ == "encoder"@ ==> (es[i].1 matches
            ConfigValue::Nested(ps) && cfg.encoder matches Some(ec) && spec_kind_of(ps@, ec.kind@))
}

/// The exact circumstances under which each rejection is returned. The
/// causes are checked in this order: unknown keys, duplicates, `dsn`,
/// `threshold`, `encoder`.
pub open spec fn err_cause(es: Seq<(String, ConfigValue)>, e: ConfigError) -> bool {
    match e {
        ConfigError::UnknownKey(k) => !known_key(k@) && has_key(es, k@),
        ConfigError::DuplicateKey(k) => all_keys_known(es) && !no_duplicate_keys(es) && (exists|
            i: int,
            j: int,
        |
            0 <= i < j < es.len() && (#[trigger] es[i]).0@ == k@ && (#[trigger] es[j]).0@ == k@),
        ConfigError::MissingDsn => all_keys_known(es) && no_duplicate_keys(es) && !has_key(
            es,
            "dsn"@,
        ),
        ConfigError::InvalidDsn => all_keys_known(es) && no_duplicate_keys(es) && has_key(
            es,
            "dsn"@,
        ) && !dsn_entries_ok(es),
        ConfigError::MissingThreshold => all_keys_known(es) && no_duplicate_keys(es) && has_key(
            es,
            "dsn"@,
        ) && dsn_entries_ok(es) && !has_key(es, "threshold"@),
        ConfigError::InvalidThreshold => all_keys_known(es) && no_duplicate_keys(es) && has_key(
            es,
            "dsn"@,
        ) && dsn_entries_ok(es) && has_key(es, "threshold"@) && !threshold_entries_ok(es),
        ConfigError::InvalidEncoder => all_keys_known(es) && no_duplicate_keys(es) && has_key(
            es,
            "dsn"@,
        ) && dsn_entries_ok(es) && has_key(es, "threshold"@) && threshold_entries_ok(es)
            && !encoder_entries_ok(es),
    }
}

/// True when `a` and `b` spell the same characters.
fn str_eq(a: &str, b: &str) -> (r: bool)
    ensures
        r == (a@ == b@),
{
    let n = a.unicode_len();
    if n != b.unicode_len() {
        assert(a@ != b@);
        return false;
    }
    let mut i: usize = 0;
    while i < n
        invariant
            n == a@.len(),
            n == b@.len(),
            i <= n,
            forall|j: int| 0 <= j < i ==> a@[j] == b@[j],
        decreases n - i,
    {
        if a.get_char(i) != b.get_char(i) {
            return false;
        }
        i = i + 1;
    }
    assert(a@ =~= b@);
    true
}

impl SentryAppenderConfig {
    /// Parses a declarative configuration document, given as its key/value
    /// entries in order. The schema is strict: an unknown or repeated key
    /// is a configuration error, never silently ignored.
    pub fn from_entries(entries: &Vec<(String, ConfigValue)>) -> (r: Result<
        SentryAppenderConfig,
        ConfigError,
    >)
        ensures
            r is Ok <==> spec_wf(entries@),
            r matches Ok(cfg) ==> ok_describes(entries@, cfg),
            r matches Err(e) ==> err_cause(entries@, e),
    {
        let n = entries.len();

        // Only known keys.
        let mut i: usize = 0;
        while i < n
            invariant
                n == entries@.len(),
                i <= n,
                forall|j: int| 0 <= j < i ==> known_key((#[trigger] entries@[j]).0@),
            decreases n - i,
        {
            let k = entries[i].0.as_str();
            if !(str_eq(k, "dsn") || str_eq(k, "encoder") || str_eq(k, "threshold")) {
                return Err(ConfigError::UnknownKey(entries[i].0.clone()));
            }
            i = i + 1;
        }
        assert(all_keys_known(entries@));

        // No key twice.
        let mut i: usize = 0;
        while i < n
            invariant
                n == entries@.len(),
                i <= n,
                all_keys_known(entries@),
                forall|p: int, q: int|
                    0 <= p < q < i ==> (#[trigger] entries@[p]).0@ != (#[trigger] entries@[q]).0@,
            decreases n - i,
        {
            let mut j: usize = 0;
            while j < i
                invariant
                    n == entries@.len(),
                    i < n,
                    j <= i,
                    all_keys_known(entries@),
                    forall|p: int| 0 <= p < j ==> (#[trigger] entries@[p]).0@ != entries@[i as int].0@,
                decreases i - j,
            {
                if str_eq(entries[j].0.as_str(), entries[i].0.as_str()) {
                    let dup = entries[i].0.clone();
                    proof {
                        assert((entries@[j as int]).0@ == dup@ && (entries@[i as int]).0@ == dup@);
                        assert(!no_duplicate_keys(entries@));
                    }
                    return Err(ConfigError::DuplicateKey(dup));
                }
                j = j + 1;
            }
            i = i + 1;
        }
        assert(no_duplicate_keys(entries@));

        // The connection target.
        let mut dsn: Option<String> = None;
        let mut i: usize = 0;
        while i < n
            invariant
                n == entries@.len(),
                i <= n,
                all_keys_known(entries@),
                no_duplicate_keys(entries@),
                dsn matches Some(d) ==> exists|j: int|
                    0 <= j < entries@.len() && (#[trigger] entries@[j]).0@ == "dsn"@
                        && entries@[j].1 == ConfigValue::Text(d),
                dsn is None ==> forall|j: int| 0 <= j < i ==> (#[trigger] entries@[j]).0@ != "dsn"@,
                dsn_entries_ok(entries@.subrange(0, i as int)),
            decreases n - i,
        {
            if str_eq(entries[i].0.as_str(), "dsn") {
                match &entries[i].1 {
                    ConfigValue::Text(s) => {
                        dsn = Some(s.clone());
                    },
                    _ => {
                        assert(!dsn_entries_ok(entries@));
                        return Err(ConfigError::InvalidDsn);
                    },
                }
            }
            proof {
                assert(entries@.subrange(0, i + 1 as int) =~= entries@.subrange(0, i as int).push(
                    entries@[i as int],
                ));
            }
            i = i + 1;
        }
        proof {
            assert(entries@.subrange(0, n as int) =~= entries@);
        }
        let dsn = match dsn {
            Some(d) => {
                proof {
                    assert(has_key(entries@, "dsn"@));
                }
                d
            },
            None => {
                return Err(ConfigError::MissingDsn);
            },
        };

        // The severity threshold.
        let mut threshold: Option<Level> = None;
        let mut i: usize = 0;
        while i < n
            invariant
                n == entries@.len(),
                i <= n,
                all_keys_known(entries@),
                no_duplicate_keys(entries@),
                has_key(entries@, "dsn"@),
                dsn_entries_ok(entries@),
                threshold matches Some(t) ==> exists|j: int|
                    0 <= j < entries@.len() && (#[trigger] entries@[j]).0@ == "threshold"@
                        && (entries@[j].1 matches ConfigValue::Text(s) && spec_level_from_name(s@)
                        == Some(t)),
                threshold is None ==> forall|j: int|
                    0 <= j < i ==> (#[trigger] entries@[j]).0@ != "threshold"@,
                threshold_entries_ok(entries@.subrange(0, i as int)),
            decreases n - i,
        {
            if str_eq(entries[i].0.as_str(), "threshold") {
                match &entries[i].1 {
                    ConfigValue::Text(s) => {
                        match level_from_name(s.as_str()) {
                            Some(t) => {
                                threshold = Some(t);
                            },
                            None => {
                                assert(has_key(entries@, "threshold"@));
                                assert(!threshold_entries_ok(entries@));
                                return Err(ConfigError::InvalidThreshold);
                            },
                        }
                    },
                    _ => {
                        assert(has_key(entries@, "threshold"@));
                        assert(!threshold_entries_ok(entries@));
                        return Err(ConfigError::InvalidThreshold);
                    },
                }
            }
            proof {
                assert(entries@.subrange(0, i + 1 as int) =~= entries@.subrange(0, i as int).push(
                    entries@[i as int],
                ));
            }
            i = i + 1;
        }
        proof {
            assert(entries@.subrange(0, n as int) =~= entries@);
        }
        let threshold = match threshold {
            Some(t) => {
                proof {
                    assert(has_key(entries@, "threshold"@));
                }
                t
            },
            None => {
                return Err(ConfigError::MissingThreshold);
            },
        };

        // The optional encoder description.
        let mut encoder: Option<EncoderConfig> = None;
        let mut i: usize = 0;
        while i < n
            invariant
                n == entries@.len(),
                i <= n,
                all_keys_known(entries@),
                no_duplicate_keys(entries@),
                has_key(entries@, "dsn"@),
                dsn_entries_ok(entries@),
                has_key(entries@, "threshold"@),
                threshold_entries_ok(entries@),
                encoder matches Some(ec) ==> exists|j: int|
                    0 <= j < entries@.len() && (#[trigger] entries@[j]).0@ == "encoder"@
                        && (entries@[j].1 matches ConfigValue::Nested(ps) && spec_kind_of(
                        ps@,
                        ec.kind@,
                    )),
                encoder is None ==> forall|j: int|
                    0 <= j < i ==> (#[trigger] entries@[j]).0@ != "encoder"@,
                encoder_entries_ok(entries@.subrange(0, i as int)),
            decreases n - i,
        {
            if str_eq(entries[i].0.as_str(), "encoder") {
                match &entries[i].1 {
                    ConfigValue::Nested(ps) => {
                        let m = ps.len();
                        let mut kind: Option<String> = None;
                        let mut k: usize = 0;
                        while k < m
                            invariant
                                m == ps@.len(),
                                k <= m,
                                kind matches Some(s) ==> exists|a: int|
                                    0 <= a < ps@.len() && (#[trigger] ps@[a]).0@ == "kind"@ && (
                                    forall|b: int|
                                        0 <= b < a ==> (#[trigger] ps@[b]).0@ != "kind"@) && s@
                                        == ps@[a].1@,
                                kind is None ==> forall|a: int|
                                    0 <= a < k ==> (#[trigger] ps@[a]).0@ != "kind"@,
                            decreases m - k,
                        {
                            if kind.is_none() && str_eq(ps[k].0.as_str(), "kind") {
                                kind = Some(ps[k].1.clone());
                            }
                            k = k + 1;
                        }
                        let kind = match kind {
                            Some(s) => s,
                            None => "pattern".to_owned(),
                        };
                        encoder = Some(EncoderConfig { kind });
                    },
                    _ => {
                        assert(has_key(entries@, "encoder"@));
                        assert(!encoder_entries_ok(entries@));
                        return Err(ConfigError::InvalidEncoder);
                    },
                }
            }
            proof {
                assert(entries@.subrange(0, i + 1 as int) =~= entries@.subrange(0, i as int).push(
                    entries@[i as int],
                ));
            }
            i = i + 1;
        }
        proof {
            assert(entries@.subrange(0, n as int) =~= entries@);
        }

        let cfg = SentryAppenderConfig { dsn, encoder, threshold };
        proof {
            lemma_unique_key_entries(entries@);
        }
        Ok(cfg)
    }
}

/// Under unique keys, a property shown of one entry with a given key holds
/// of every entry with that key.
proof fn lemma_unique_key_entries(es: Seq<(String, ConfigValue)>)
    requires
        no_duplicate_keys(es),
    ensures
        forall|i: int, j: int|
            0 <= i < es.len() && 0 <= j < es.len() && (#[trigger] es[i]).0@ == (
            #[trigger] es[j]).0@ ==> i == j,
{
    assert forall|i: int, j: int|
        0 <= i < es.len() && 0 <= j < es.len() && (#[trigger] es[i]).0@ == (#[trigger] es[j]).0@
        implies i == j by {
        if i < j {
            assert((es[i]).0@ != (es[j]).0@);
        } else if j < i {
            assert((es[j]).0@ != (es[i]).0@);
        }
    }
}

} // verus!

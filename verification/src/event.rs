use vstd::prelude::*;

use crate::level::Level;
use crate::level::SentryLevel;
use crate::level::spec_level_mapping;
use crate::level::level_mapping;

verus! {

/// A host log record, as the logging pipeline hands it to the adapter:
/// a severity, the message payload, the target (logger name), and the
/// optional source location.
pub struct LogRecord {
    pub level: Level,
    pub message: String,
    pub target: String,
    pub file: Option<String>,
    pub line: Option<u32>,
    pub module: Option<String>,
}

/// A contextual value attached to a monitoring event: the service
/// distinguishes textual values from numeric ones.
#[derive(Debug, PartialEq, Eq)]
pub enum ExtraValue {
    Text(String),
    Number(u64),
}

/// A monitoring event, the payload handed to the monitoring client for one
/// forwarded record.
pub struct SentryEvent {
    pub level: SentryLevel,
    pub message: Option<String>,
    pub logger: Option<String>,
    pub extra: Vec<(String, ExtraValue)>,
    pub tags: Vec<(String, String)>,
}

/// The contextual entries owed to a record: `file` and `line` each appear
/// exactly when the record carries them, and nothing else appears.
pub open spec fn extra_matches(extra: Seq<(String, ExtraValue)>, rec: LogRecord) -> bool {
    match (rec.file, rec.line) {
        (Some(f), Some(l)) => extra.len() == 2
            && extra[0].0@ == "file"@ && extra[0].1 == ExtraValue::Text(f)
            && extra[1].0@ == "line"@ && extra[1].1 == ExtraValue::Number(l as u64),
        (Some(f), None) => extra.len() == 1
            && extra[0].0@ == "file"@ && extra[0].1 == ExtraValue::Text(f),
        (None, Some(l)) => extra.len() == 1
            && extra[0].0@ == "line"@ && extra[0].1 == ExtraValue::Number(l as u64),
        (None, None) => extra.len() == 0,
    }
}

/// The tag entries owed to a record: `module_path` appears exactly when the
/// record carries one, and nothing else appears.
pub open spec fn tags_match(tags: Seq<(String, String)>, rec: LogRecord) -> bool {
    match rec.module {
        Some(m) => tags.len() == 1 && tags[0].0@ == "module_path"@ && tags[0].1 == m,
        None => tags.len() == 0,
    }
}

/// The whole conversion contract: the event an eligible record with
/// rendered message `msg` must turn into.
pub open spec fn event_matches(ev: SentryEvent, rec: LogRecord, msg: Seq<char>) -> bool {
    &&& ev.level == spec_level_mapping(rec.level)
    &&& ev.message matches Some(m) && m@ == msg
    &&& ev.logger matches Some(l) && l == rec.target
    &&& extra_matches(ev.extra@, rec)
    &&& tags_match(ev.tags@, rec)
}

/// Converts an eligible record and its already-rendered message into
/// exactly one monitoring event. The message is used verbatim, the logger is
/// the record's target, and the optional source location is propagated only
/// where the record carries it.
pub fn to_event(rec: &LogRecord, msg: String) -> (ev: SentryEvent)
    ensures
        event_matches(ev, *rec, msg@),
        ev.message == Some(msg),
{
    let level = level_mapping(rec.level);

    let mut extra: Vec<(String, ExtraValue)> = Vec::new();
    if let Some(file) = &rec.file {
        extra.push(("file".to_owned(), ExtraValue::Text(file.clone())));
    }
    if let Some(line) = &rec.line {
        extra.push(("line".to_owned(), ExtraValue::Number(*line as u64)));
    }

    let mut tags: Vec<(String, String)> = Vec::new();
    if let Some(module) = &rec.module {
        tags.push(("module_path".to_owned(), module.clone()));
    }

    SentryEvent {
        level,
        message: Some(msg),
        logger: Some(rec.target.clone()),
        extra,
        tags,
    }
}

} // verus!

use vstd::prelude::*;

use crate::event::LogRecord;

verus! {

/// Failure to render a record's message into text, e.g. output that is not
/// valid text. It aborts the conversion of that one record and is surfaced to
/// the caller of `append`.
#[derive(Debug)]
pub struct EncodeError {
    pub detail: String,
}

/// The message-rendering capability: anything that can turn a record into
/// its message string. The rendering an implementation performs is captured
/// by `spec_render`; `None` stands for a record whose message the
/// implementation cannot render.
pub trait Encode {
    /// What this encoder renders a given record to, or `None` where
    /// rendering fails for that record. Unless an implementation says
    /// otherwise, it renders the record's bare message.
    open spec fn spec_render(&self, rec: LogRecord) -> Option<Seq<char>> {
        Some(rec.message@)
    }

    /// Renders the record's message; fails exactly where `spec_render`
    /// gives `None`.
    fn encode(&self, rec: &LogRecord) -> (r: Result<String, EncodeError>)
        ensures
            r matches Ok(s) ==> self.spec_render(*rec) matches Some(t) && s@ == t,
            r is Err <==> self.spec_render(*rec) is None,
    ;
}

/// The trivial passthrough encoder: it renders the bare message of the
/// record and nothing else, and never fails. It is what an adapter uses
/// when no encoder was configured.
pub struct MessageEncoder;

impl Encode for MessageEncoder {
    fn encode(&self, rec: &LogRecord) -> (r: Result<String, EncodeError>) {
        Ok(rec.message.clone())
    }
}

} // verus!

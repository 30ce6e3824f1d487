use vstd::prelude::*;

use crate::config::SentryAppenderConfig;
use crate::encode::Encode;
use crate::encode::EncodeError;
use crate::encode::MessageEncoder;
use crate::event::LogRecord;
use crate::event::SentryEvent;
use crate::event::event_matches;
use crate::event::to_event;
use crate::level::Level;
use crate::level::eligible;
use crate::level::spec_eligible;

verus! {

/// An adapter that turns host log records into monitoring events. Its
/// configuration — connection target, encoder, threshold — is immutable
/// once built; `encoder` left at `None` means the trivial passthrough
/// encoder.
pub struct SentryAppender<E> {
    pub dsn: String,
    pub encoder: Option<E>,
    pub threshold: Level,
}

/// The transient accumulator of adapter configuration. Every setter takes
/// the builder by value and hands it back; `build` consumes it, so a
/// builder can be built at most once.
pub struct SentryAppenderBuilder<E> {
    pub encoder: Option<E>,
    pub dsn: String,
    pub threshold: Option<Level>,
}

/// What the `encoder` setter leaves behind.
pub open spec fn spec_set_encoder<E, F>(
    b: SentryAppenderBuilder<E>,
    encoder: F,
) -> SentryAppenderBuilder<F> {
    SentryAppenderBuilder { encoder: Some(encoder), dsn: b.dsn, threshold: b.threshold }
}

/// What the `dsn_string` setter leaves behind.
pub open spec fn spec_set_dsn<E>(
    b: SentryAppenderBuilder<E>,
    dsn: String,
) -> SentryAppenderBuilder<E> {
    SentryAppenderBuilder { encoder: b.encoder, dsn, threshold: b.threshold }
}

/// What the `threshold` setter leaves behind.
pub open spec fn spec_set_threshold<E>(
    b: SentryAppenderBuilder<E>,
    threshold: Level,
) -> SentryAppenderBuilder<E> {
    SentryAppenderBuilder { encoder: b.encoder, dsn: b.dsn, threshold: Some(threshold) }
}

/// The adapter a builder resolves to: the threshold defaults to `Error`
/// and an unset encoder stays unset, which the adapter reads as the
/// passthrough encoder.
pub open spec fn spec_build<E>(b: SentryAppenderBuilder<E>) -> SentryAppender<E> {
    SentryAppender {
        dsn: b.dsn,
        encoder: b.encoder,
        threshold: match b.threshold {
            Some(t) => t,
            None => Level::Error,
        },
    }
}

impl SentryAppender<MessageEncoder> {
    /// A fresh builder: no encoder, empty connection target, no threshold.
    pub fn builder() -> (b: SentryAppenderBuilder<MessageEncoder>)
        ensures
            b.encoder is None,
            b.dsn@ == Seq::<char>::empty(),
            b.threshold is None,
    {
        SentryAppenderBuilder { encoder: None, dsn: String::new(), threshold: None }
    }
}

impl<E: Encode> SentryAppender<E> {
    /// What this adapter's configured encoder renders a record to: the
    /// custom encoder's rendering where one was set, the bare message
    /// otherwise.
    pub open spec fn spec_render(&self, rec: LogRecord) -> Option<Seq<char>> {
        match self.encoder {
            Some(e) => e.spec_render(rec),
            None => Some(rec.message@),
        }
    }

    /// One `append` call of the host pipeline. The threshold check is the
    /// first action: a record below the threshold yields `Ok(None)` and its
    /// message is never rendered. An eligible record is rendered by the
    /// configured encoder and yields exactly one event; a rendering failure
    /// is surfaced as the error of this one call.
    pub fn append(&self, rec: &LogRecord) -> (r: Result<Option<SentryEvent>, EncodeError>)
        ensures
            !spec_eligible(rec.level, self.threshold) ==> r matches Ok(None),
            spec_eligible(rec.level, self.threshold) ==> match self.spec_render(*rec) {
                Some(msg) => r matches Ok(Some(ev)) && event_matches(ev, *rec, msg),
                None => r is Err,
            },
    {
        if !eligible(rec.level, self.threshold) {
            return Ok(None);
        }
        let rendered = match &self.encoder {
            Some(e) => e.encode(rec),
            None => Ok(rec.message.clone()),
        };
        match rendered {
            Ok(msg) => Ok(Some(to_event(rec, msg))),
            Err(e) => Err(e),
        }
    }

    /// A no-op at this layer: any real flush semantics belong to the
    /// monitoring client.
    pub fn flush(&self) {
    }
}

impl<E: Encode> SentryAppenderBuilder<E> {
    /// Sets the message encoder, overwriting any prior choice.
    pub fn encoder<F: Encode>(self, encoder: F) -> (b: SentryAppenderBuilder<F>)
        ensures
            b == spec_set_encoder(self, encoder),
    {
        SentryAppenderBuilder { encoder: Some(encoder), dsn: self.dsn, threshold: self.threshold }
    }

    /// Sets the connection target, overwriting any prior value. The string
    /// is not validated here: an unusable target is the monitoring client's
    /// error to raise at initialization.
    pub fn dsn(self, dsn: &str) -> (b: SentryAppenderBuilder<E>)
        ensures
            b.encoder == self.encoder,
            b.dsn@ == dsn@,
            b.threshold == self.threshold,
    {
        SentryAppenderBuilder { encoder: self.encoder, dsn: dsn.to_owned(), threshold: self.threshold }
    }

    /// Sets the connection target from an owned string.
    pub fn dsn_string(self, dsn: String) -> (b: SentryAppenderBuilder<E>)
        ensures
            b == spec_set_dsn(self, dsn),
    {
        SentryAppenderBuilder { encoder: self.encoder, dsn, threshold: self.threshold }
    }

    /// Sets the severity threshold, overwriting any prior value.
    pub fn threshold(self, threshold: Level) -> (b: SentryAppenderBuilder<E>)
        ensures
            b == spec_set_threshold(self, threshold),
    {
        SentryAppenderBuilder { encoder: self.encoder, dsn: self.dsn, threshold: Some(threshold) }
    }

    /// The terminal build: resolves the defaults — threshold `Error`,
    /// encoder the passthrough — and produces the immutable adapter. It
    /// consumes the builder, so no second build can be made from the same
    /// accumulator.
    pub fn build(self) -> (a: SentryAppender<E>)
        ensures
            a == spec_build(self),
    {
        let threshold = match self.threshold {
            Some(t) => t,
            None => Level::Error,
        };
        SentryAppender { dsn: self.dsn, encoder: self.encoder, threshold }
    }
}

/// The declarative entry point for the adapter kind: it resolves a
/// configuration record, together with the encoder the host registry
/// resolved from the record's encoder description, into a ready adapter —
/// through the same build path as the programmatic builder.
#[derive(Clone, Copy, Debug, PartialEq, Eq, Hash, Default)]
pub struct SentryAppenderDeserializer;

impl SentryAppenderDeserializer {
    /// Populates a builder with the configuration record's target and
    /// threshold, and with `encoder` where the registry resolved one, then
    /// builds. `encoder` is the resolution of `config.encoder`: the caller
    /// passes `Some` exactly where the record described an encoder.
    pub fn deserialize<E: Encode>(
        &self,
        config: SentryAppenderConfig,
        encoder: Option<E>,
    ) -> (a: SentryAppender<E>)
        ensures
            a == spec_build(
                (SentryAppenderBuilder {
                    encoder,
                    dsn: config.dsn,
                    threshold: Some(config.threshold),
                }),
            ),
    {
        let b: SentryAppenderBuilder<E> = SentryAppenderBuilder {
            encoder: None,
            dsn: String::new(),
            threshold: None,
        };
        let b = match encoder {
            Some(e) => b.encoder(e),
            None => b,
        };
        let b = b.dsn_string(config.dsn);
        let b = b.threshold(config.threshold);
        b.build()
    }
}

/// An adapter built without a threshold defaults it to `Error`: a `Warn`
/// record is not eligible under such an adapter, an `Error` record is.
pub proof fn lemma_default_threshold<E>(b: SentryAppenderBuilder<E>)
    requires
        b.threshold is None,
    ensures
        spec_build(b).threshold == Level::Error,
        !spec_eligible(Level::Warn, spec_build(b).threshold),
        spec_eligible(Level::Error, spec_build(b).threshold),
{
}

/// An adapter built without an encoder renders exactly the record's bare
/// message, with no decoration.
pub proof fn lemma_default_encoder_renders_message<E: Encode>(
    b: SentryAppenderBuilder<E>,
    rec: LogRecord,
)
    requires
        b.encoder is None,
    ensures
        spec_build(b).spec_render(rec) == Some(rec.message@),
{
}

/// Declarative and programmatic construction agree: resolving a
/// configuration record yields the very adapter a fresh builder gives when
/// taken through `encoder` (where one is configured), `dsn_string` and
/// `threshold`, then `build`.
pub proof fn lemma_construction_equivalence<E: Encode>(
    b0: SentryAppenderBuilder<E>,
    config: SentryAppenderConfig,
    encoder: Option<E>,
)
    requires
        b0.encoder is None,
        b0.threshold is None,
    ensures
        ({
            let programmatic = match encoder {
                Some(e) => spec_build(
                    spec_set_threshold(spec_set_dsn(spec_set_encoder(b0, e), config.dsn), config.threshold),
                ),
                None => spec_build(spec_set_threshold(spec_set_dsn(b0, config.dsn), config.threshold)),
            };
            programmatic == spec_build(
                (SentryAppenderBuilder {
                    encoder,
                    dsn: config.dsn,
                    threshold: Some(config.threshold),
                }),
            )
        }),
{
}

} // verus!

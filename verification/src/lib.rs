//! Adapter core that forwards structured log records to an error-monitoring
//! service: a severity-threshold filter, a deterministic conversion from
//! records to monitoring events, and a builder/configuration layer that
//! constructs adapters programmatically or from a declarative document.
mod appender;
mod config;
mod encode;
mod event;
mod level;

pub use appender::SentryAppender;
pub use appender::SentryAppenderBuilder;
pub use appender::SentryAppenderDeserializer;
pub use appender::lemma_construction_equivalence;
pub use appender::lemma_default_encoder_renders_message;
pub use appender::lemma_default_threshold;
pub use appender::spec_build;
pub use appender::spec_set_dsn;
pub use appender::spec_set_encoder;
pub use appender::spec_set_threshold;
pub use config::ConfigError;
pub use config::ConfigValue;
pub use config::EncoderConfig;
pub use config::SentryAppenderConfig;
pub use config::all_keys_known;
pub use config::dsn_entries_ok;
pub use config::encoder_entries_ok;
pub use config::err_cause;
pub use config::has_key;
pub use config::known_key;
pub use config::no_duplicate_keys;
pub use config::ok_describes;
pub use config::spec_kind_of;
pub use config::spec_wf;
pub use config::threshold_entries_ok;
pub use encode::Encode;
pub use encode::EncodeError;
pub use encode::MessageEncoder;
pub use event::ExtraValue;
pub use event::LogRecord;
pub use event::SentryEvent;
pub use event::event_matches;
pub use event::extra_matches;
pub use event::tags_match;
pub use event::to_event;
pub use level::Level;
pub use level::SentryLevel;
pub use level::eligible;
pub use level::level_from_name;
pub use level::level_mapping;
pub use level::spec_eligible;
pub use level::spec_level_from_name;
pub use level::spec_level_mapping;
pub use level::spec_lower;
pub use level::spec_verbosity;

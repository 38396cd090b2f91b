//! A log-record sink that forwards log events to a Redis broker.
//!
//! Each record is fanned out to a set of pub/sub channels and/or a set of
//! append-only streams. Per dispatch, each configured encoder runs exactly
//! once, its output is reused across its whole name set, and the resulting
//! commands travel to the broker as one pipelined batch over the shared
//! connection. Delivery is fire-and-forget: a broker failure is reported on
//! a diagnostic side channel and never unwinds into the logging call site.
//!
//! The sink is configured through [`RedisLoggerConfigTemp`] — a builder
//! state whose steps overwrite their slot, validated into a
//! [`RedisLoggerConfig`] that owns the broker connection — and driven
//! through [`RedisLogger`]. Encoding strategies are pluggable via the
//! [`PubSubEncoder`] and [`StreamEncoder`] traits, with JSON and field-list
//! defaults.

mod broker;
mod config;
mod defaults;
mod digits;
mod encoders;
mod error;
mod json;
mod level;
mod logger;
mod record;

pub use broker::pipeline_appends;
pub use broker::pipeline_publishes;
pub use config::RedisLoggerConfig;
pub use config::RedisLoggerConfigBuilder;
pub use config::RedisLoggerConfigTemp;
pub use config::slot_len;
pub use config::validation_outcome;
pub use defaults::DefaultPubSubEncoder;
pub use defaults::DefaultStreamEncoder;
pub use defaults::opt_json_chars;
pub use defaults::opt_line_chars;
pub use defaults::opt_text_bytes;
pub use defaults::pubsub_json;
pub use defaults::stream_fields;
pub use digits::dec_chars;
pub use digits::dec_string;
pub use digits::digit_char;
pub use encoders::DummyPubSubEncoder;
pub use encoders::DummyStreamEncoder;
pub use encoders::PubSubEncoder;
pub use encoders::StreamEncoder;
pub use error::RedisLoggerConfigError;
pub use json::json_string_of;
pub use level::Level;
pub use level::LevelFilter;
pub use level::filter_rank;
pub use level::level_chars;
pub use level::level_enabled;
pub use level::level_rank;
pub use level::level_str;
pub use level::spec_level_enabled;
pub use logger::RedisLogger;
pub use logger::append_commands;
pub use logger::fill_appends;
pub use logger::fill_publishes;
pub use logger::lemma_batch_fanout;
pub use logger::publish_commands;
pub use record::LogRecord;
pub use record::LogRecordView;

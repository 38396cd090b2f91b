//! The dispatch engine: the log sink itself.
//!
//! A [`RedisLogger`] owns a validated configuration and a severity
//! threshold. Dispatching a record filters it by severity, invokes each
//! configured encoder exactly once, fills one pipelined batch with one
//! publish per channel and one append per stream — the encoder's single
//! output reused across the whole set — and submits the batch in a single
//! round trip. A failed submission is reported on the diagnostic side
//! channel and swallowed: dispatch returns normally, the sink's delivery
//! slots and threshold are untouched, and the next record is attempted as if
//! nothing had happened.

use vstd::prelude::*;

use crate::broker::pipe_new;
use crate::broker::pipe_publish;
use crate::broker::pipe_query;
use crate::broker::pipe_xadd;
use crate::broker::pipeline_appends;
use crate::broker::pipeline_publishes;
use crate::broker::report_dispatch_error;
use crate::config::RedisLoggerConfig;
use crate::encoders::PubSubEncoder;
use crate::encoders::StreamEncoder;
use crate::level::Level;
use crate::level::LevelFilter;
use crate::level::level_enabled;
use crate::level::spec_level_enabled;
use crate::record::LogRecord;

verus! {

/// The publish commands for one record: every channel in order, each
/// carrying the same already-encoded payload.
pub open spec fn publish_commands(channels: Seq<Seq<char>>, payload: Seq<u8>) -> Seq<
    (Seq<char>, Seq<u8>),
> {
    channels.map_values(|channel: Seq<char>| (channel, payload))
}

/// The append commands for one record: every stream in order, each carrying
/// the same already-encoded field list.
pub open spec fn append_commands(
    streams: Seq<Seq<char>>,
    fields: Seq<(Seq<char>, Seq<u8>)>,
) -> Seq<(Seq<char>, Seq<(Seq<char>, Seq<u8>)>)> {
    streams.map_values(|stream: Seq<char>| (stream, fields))
}

/// Law: the batch for one record holds exactly one publish command per
/// configured channel and exactly one append command per configured stream,
/// in order, and every one of them carries the one encoding produced for its
/// delivery mode.
pub proof fn lemma_batch_fanout(
    channels: Seq<Seq<char>>,
    payload: Seq<u8>,
    streams: Seq<Seq<char>>,
    fields: Seq<(Seq<char>, Seq<u8>)>,
)
    ensures
        publish_commands(channels, payload).len() == channels.len(),
        forall|i: int|
            0 <= i < channels.len() ==> publish_commands(channels, payload)[i] == (
            channels[i],
            payload,
            ),
        append_commands(streams, fields).len() == streams.len(),
        forall|i: int|
            0 <= i < streams.len() ==> append_commands(streams, fields)[i] == (
            streams[i],
            fields,
            ),
{
}

/// Adds one publish command per channel to the batch, every one carrying the
/// same payload: the pub/sub fan-out of one record costs one encoding and
/// `|channels|` commands, and touches no append command.
pub fn fill_publishes(pipeline: &mut redis::Pipeline, channels: &Vec<String>, payload: &Vec<u8>)
    ensures
        pipeline_publishes(*final(pipeline)) == pipeline_publishes(*old(pipeline))
            + publish_commands(channels.deep_view(), payload@),
        pipeline_appends(*final(pipeline)) == pipeline_appends(*old(pipeline)),
{
    let ghost base = pipeline_publishes(*pipeline);
    let ghost base_appends = pipeline_appends(*pipeline);
    for i in 0..channels.len()
        invariant
            pipeline_publishes(*pipeline) == base + publish_commands(
                channels.deep_view().take(i as int),
                payload@,
            ),
            pipeline_appends(*pipeline) == base_appends,
    {
        pipe_publish(pipeline, channels[i].as_str(), payload);
        proof {
            assert(channels.deep_view().take(i + 1) =~= channels.deep_view().take(i as int).push(
                channels[i as int]@,
            ));
            assert(publish_commands(channels.deep_view().take(i + 1), payload@)
                =~= publish_commands(channels.deep_view().take(i as int), payload@).push(
                (channels[i as int]@, payload@),
            ));
        }
    }
    proof {
        assert(channels.deep_view().take(channels.len() as int) =~= channels.deep_view());
    }
}

/// Adds one append command per stream to the batch, every one carrying the
/// same field list: the stream fan-out of one record costs one encoding and
/// `|streams|` commands, and touches no publish command.
pub fn fill_appends(
    pipeline: &mut redis::Pipeline,
    streams: &Vec<String>,
    fields: &Vec<(String, Vec<u8>)>,
)
    ensures
        pipeline_appends(*final(pipeline)) == pipeline_appends(*old(pipeline)) + append_commands(
            streams.deep_view(),
            fields.deep_view(),
        ),
        pipeline_publishes(*final(pipeline)) == pipeline_publishes(*old(pipeline)),
{
    let ghost base = pipeline_appends(*pipeline);
    let ghost base_publishes = pipeline_publishes(*pipeline);
    for i in 0..streams.len()
        invariant
            pipeline_appends(*pipeline) == base + append_commands(
                streams.deep_view().take(i as int),
                fields.deep_view(),
            ),
            pipeline_publishes(*pipeline) == base_publishes,
    {
        pipe_xadd(pipeline, streams[i].as_str(), fields);
        proof {
            assert(streams.deep_view().take(i + 1) =~= streams.deep_view().take(i as int).push(
                streams[i as int]@,
            ));
            assert(append_commands(streams.deep_view().take(i + 1), fields.deep_view())
                =~= append_commands(streams.deep_view().take(i as int), fields.deep_view()).push(
                (streams[i as int]@, fields.deep_view()),
            ));
        }
    }
    proof {
        assert(streams.deep_view().take(streams.len() as int) =~= streams.deep_view());
    }
}

/// The log sink: a severity threshold and the configuration it dispatches
/// through. It holds no other state, so no failure can latch it shut.
pub struct RedisLogger<PUBSUB, STREAM> where PUBSUB: PubSubEncoder, STREAM: StreamEncoder {
    /// The least severe level still dispatched.
    pub level: LevelFilter,
    /// The validated configuration, owning the broker connection.
    pub config: RedisLoggerConfig<PUBSUB, STREAM>,
}

impl<PUBSUB, STREAM> RedisLogger<PUBSUB, STREAM> where
    PUBSUB: PubSubEncoder,
    STREAM: StreamEncoder,
 {
    /// Boxes a sink with the given threshold and configuration.
    pub fn new(level: LevelFilter, config: RedisLoggerConfig<PUBSUB, STREAM>) -> (logger: Box<
        Self,
    >)
        ensures
            logger.level == level,
            logger.config == config,
    {
        Box::new(RedisLogger { level, config })
    }

    /// The sink's severity threshold.
    pub fn level(&self) -> (level: LevelFilter)
        ensures
            level == self.level,
    {
        self.level
    }

    /// True iff a record at `level` would be dispatched: iff `level` is at
    /// least as severe as the sink's threshold.
    pub fn enabled(&self, level: Level) -> (enabled: bool)
        ensures
            enabled == spec_level_enabled(level, self.level),
    {
        level_enabled(level, self.level)
    }

    /// Builds the one batch for `record`: each configured encoder is
    /// invoked exactly once here, and its single output is what every
    /// command of its delivery mode carries. The batch holds one publish
    /// per configured channel — all with one common payload — and one
    /// append per configured stream — all with one common field list — and
    /// nothing else.
    pub fn assemble_batch(&self, record: &LogRecord) -> (pipeline: redis::Pipeline)
        ensures
            match self.config.channels {
                Some(slot) => exists|payload: Seq<u8>|
                    pipeline_publishes(pipeline) == publish_commands(slot.0.deep_view(), payload),
                None => pipeline_publishes(pipeline) == Seq::<(Seq<char>, Seq<u8>)>::empty(),
            },
            match self.config.streams {
                Some(slot) => exists|fields: Seq<(Seq<char>, Seq<u8>)>|
                    pipeline_appends(pipeline) == append_commands(slot.0.deep_view(), fields),
                None => pipeline_appends(pipeline) == Seq::<
                    (Seq<char>, Seq<(Seq<char>, Seq<u8>)>),
                >::empty(),
            },
    {
        let mut pipeline = pipe_new();
        if let Some((channels, encoder)) = &self.config.channels {
            let payload = encoder.encode(record);
            fill_publishes(&mut pipeline, channels, &payload);
            proof {
                assert(pipeline_publishes(pipeline) =~= publish_commands(
                    channels.deep_view(),
                    payload@,
                ));
            }
        }
        if let Some((streams, encoder)) = &self.config.streams {
            let fields = encoder.encode(record);
            fill_appends(&mut pipeline, streams, &fields);
            proof {
                assert(pipeline_appends(pipeline) =~= append_commands(
                    streams.deep_view(),
                    fields.deep_view(),
                ));
            }
        }
        pipeline
    }

    /// Dispatches one record. A record below the threshold is dropped
    /// before any encoding. Otherwise each configured encoder runs exactly
    /// once, one batch is filled with one publish per channel and one append
    /// per stream — the single encoding reused across its whole set — and
    /// the batch goes to the broker in one round trip. A broker failure is
    /// reported on the diagnostic side channel and swallowed; the threshold
    /// and the delivery slots come out exactly as they went in, so a later
    /// record is dispatched as if this one had never been attempted.
    pub fn log(&mut self, record: &LogRecord)
        ensures
            final(self).level == old(self).level,
            final(self).config.channels == old(self).config.channels,
            final(self).config.streams == old(self).config.streams,
    {
        if !level_enabled(record.level, self.level) {
            return ;
        }
        let pipeline = self.assemble_batch(record);
        if let Err(error) = pipe_query(&pipeline, &mut self.config.connection) {
            report_dispatch_error(&error);
        }
    }

    /// Draining is a no-op: the sink buffers nothing between dispatches, so
    /// there is nothing to block on and nothing that can fail.
    pub fn flush(&self) {
    }
}

} // verus!

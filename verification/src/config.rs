//! Builder and validation for a sink configuration.
//!
//! A configuration is assembled in a [`RedisLoggerConfigTemp`]: three slots —
//! a connection descriptor, an optional (channel list, pub/sub encoder) pair
//! and an optional (stream list, stream encoder) pair — each of which a
//! builder step simply overwrites (last write wins). [`RedisLoggerConfigTemp::validate`]
//! decides the outcome: a connection must be present, at least one delivery
//! slot must be filled, and every supplied name list must be non-empty.
//!
//! [`RedisLoggerConfigBuilder`] offers one-shot constructors per delivery-mode
//! combination; each demands its name lists non-empty up front.

use vstd::prelude::*;

use crate::defaults::DefaultPubSubEncoder;
use crate::defaults::DefaultStreamEncoder;
use crate::encoders::DummyPubSubEncoder;
use crate::encoders::DummyStreamEncoder;
use crate::encoders::PubSubEncoder;
use crate::encoders::StreamEncoder;
use crate::error::RedisLoggerConfigError;

verus! {

/// The length of the name list in a delivery slot, when the slot is filled.
pub open spec fn slot_len<ENCODER>(slot: Option<(Vec<String>, ENCODER)>) -> Option<nat> {
    match slot {
        Some(pair) => Some(pair.0@.len()),
        None => None,
    }
}

/// The outcome [`RedisLoggerConfigTemp::validate`] owes, given whether a
/// connection is set and how long the supplied name lists are: no connection
/// is `ClientNotSet`; no delivery slot at all, or a slot with an empty name
/// list, is `ChannelNotSet`; everything else is valid.
pub open spec fn validation_outcome(
    connection_set: bool,
    channels: Option<nat>,
    streams: Option<nat>,
) -> Result<(), RedisLoggerConfigError> {
    if !connection_set {
        Err(RedisLoggerConfigError::ClientNotSet)
    } else if channels is None && streams is None {
        Err(RedisLoggerConfigError::ChannelNotSet)
    } else if (channels matches Some(n) && n == 0) || (streams matches Some(n) && n == 0) {
        Err(RedisLoggerConfigError::ChannelNotSet)
    } else {
        Ok(())
    }
}

/// A sink configuration under construction: the three slots, each filled by
/// the builder step that sets it, the last write winning.
#[derive(Debug)]
pub struct RedisLoggerConfigTemp<PUBSUB, STREAM> where PUBSUB: PubSubEncoder, STREAM: StreamEncoder {
    /// Descriptor of the broker connection to open.
    pub connection_str: Option<String>,
    /// The channels to publish to, with their encoder.
    pub channels: Option<(Vec<String>, PUBSUB)>,
    /// The streams to append to, with their encoder.
    pub streams: Option<(Vec<String>, STREAM)>,
}

impl<PUBSUB, STREAM> Default for RedisLoggerConfigTemp<PUBSUB, STREAM> where
    PUBSUB: PubSubEncoder,
    STREAM: StreamEncoder,
 {
    /// The empty builder state: no slot filled.
    fn default() -> (builder: Self)
        ensures
            builder.connection_str is None,
            builder.channels is None,
            builder.streams is None,
    {
        RedisLoggerConfigTemp { connection_str: None, channels: None, streams: None }
    }
}

impl<PUBSUB, STREAM> RedisLoggerConfigTemp<PUBSUB, STREAM> where
    PUBSUB: PubSubEncoder,
    STREAM: StreamEncoder,
 {
    /// Fills all three slots at once.
    pub fn new(
        connection_str: String,
        channels: Option<(Vec<String>, PUBSUB)>,
        streams: Option<(Vec<String>, STREAM)>,
    ) -> (builder: Self)
        ensures
            builder.connection_str == Some(connection_str),
            builder.channels == channels,
            builder.streams == streams,
    {
        RedisLoggerConfigTemp { connection_str: Some(connection_str), channels, streams }
    }

    /// Sets the connection descriptor, replacing any earlier one. The other
    /// slots keep their values.
    pub fn set_connection_str(self, connection_str: String) -> (builder: Self)
        ensures
            builder.connection_str == Some(connection_str),
            builder.channels == self.channels,
            builder.streams == self.streams,
    {
        RedisLoggerConfigTemp { connection_str: Some(connection_str), ..self }
    }

    /// Sets the pub/sub slot, replacing any earlier channel list and encoder
    /// entirely: only this call's values remain. The other slots keep their
    /// values.
    pub fn set_channels(self, channels: Vec<String>, encoder: PUBSUB) -> (builder: Self)
        ensures
            builder.channels == Some((channels, encoder)),
            builder.connection_str == self.connection_str,
            builder.streams == self.streams,
    {
        RedisLoggerConfigTemp { channels: Some((channels, encoder)), ..self }
    }

    /// Sets the stream slot, replacing any earlier stream list and encoder
    /// entirely: only this call's values remain. The other slots keep their
    /// values.
    pub fn set_streams(self, streams: Vec<String>, encoder: STREAM) -> (builder: Self)
        ensures
            builder.streams == Some((streams, encoder)),
            builder.connection_str == self.connection_str,
            builder.channels == self.channels,
    {
        RedisLoggerConfigTemp { streams: Some((streams, encoder)), ..self }
    }

    /// Checks the builder state, in order: a connection descriptor must be
    /// set (else `ClientNotSet`); at least one delivery slot must be filled,
    /// and no filled slot may carry an empty name list (else
    /// `ChannelNotSet`).
    pub fn validate(&self) -> (outcome: Result<(), RedisLoggerConfigError>)
        ensures
            outcome == validation_outcome(
                self.connection_str is Some,
                slot_len(self.channels),
                slot_len(self.streams),
            ),
    {
        if self.connection_str.is_none() {
            return Err(RedisLoggerConfigError::ClientNotSet);
        }
        let channels_missing = self.channels.is_none();
        let streams_missing = self.streams.is_none();
        if channels_missing && streams_missing {
            return Err(RedisLoggerConfigError::ChannelNotSet);
        }
        let channels_empty = match &self.channels {
            Some(pair) => pair.0.len() == 0,
            None => false,
        };
        let streams_empty = match &self.streams {
            Some(pair) => pair.0.len() == 0,
            None => false,
        };
        if channels_empty || streams_empty {
            return Err(RedisLoggerConfigError::ChannelNotSet);
        }
        Ok(())
    }
}

/// One-shot constructors for a builder state, one per delivery-mode
/// combination. Each demands its name lists non-empty up front; the
/// slot-by-slot path through [`RedisLoggerConfigTemp`] reports the same
/// condition as a typed error instead.
#[derive(Debug)]
#[non_exhaustive]
pub struct RedisLoggerConfigBuilder {}

impl RedisLoggerConfigBuilder {
    /// A builder state that publishes to `channels` with `encoder`, and to no
    /// stream.
    pub fn with_pubsub<PUBSUB>(
        connection_str: String,
        channels: Vec<String>,
        encoder: PUBSUB,
    ) -> (builder: RedisLoggerConfigTemp<PUBSUB, DummyStreamEncoder>) where PUBSUB: PubSubEncoder
        requires
            channels@.len() > 0,
        ensures
            builder.connection_str == Some(connection_str),
            builder.channels == Some((channels, encoder)),
            builder.streams is None,
    {
        RedisLoggerConfigTemp::new(connection_str, Some((channels, encoder)), None)
    }

    /// A builder state that appends to `streams` with `encoder`, and to no
    /// pub/sub channel.
    pub fn with_streams<STREAM>(
        connection_str: String,
        streams: Vec<String>,
        encoder: STREAM,
    ) -> (builder: RedisLoggerConfigTemp<DummyPubSubEncoder, STREAM>) where STREAM: StreamEncoder
        requires
            streams@.len() > 0,
        ensures
            builder.connection_str == Some(connection_str),
            builder.channels is None,
            builder.streams == Some((streams, encoder)),
    {
        RedisLoggerConfigTemp::new(connection_str, None, Some((streams, encoder)))
    }

    /// A builder state that publishes to `channels` with the default JSON
    /// encoder, and to no stream.
    pub fn with_pubsub_default(connection_str: String, channels: Vec<String>) -> (builder:
        RedisLoggerConfigTemp<DefaultPubSubEncoder, DummyStreamEncoder>)
        requires
            channels@.len() > 0,
        ensures
            builder.connection_str == Some(connection_str),
            builder.channels matches Some(slot) && slot.0 == channels,
            builder.streams is None,
    {
        RedisLoggerConfigTemp::new(
            connection_str,
            Some((channels, DefaultPubSubEncoder::new())),
            None,
        )
    }

    /// A builder state that appends to `streams` with the default field-list
    /// encoder, and to no pub/sub channel.
    pub fn with_streams_default(connection_str: String, streams: Vec<String>) -> (builder:
        RedisLoggerConfigTemp<DummyPubSubEncoder, DefaultStreamEncoder>)
        requires
            streams@.len() > 0,
        ensures
            builder.connection_str == Some(connection_str),
            builder.channels is None,
            builder.streams matches Some(slot) && slot.0 == streams,
    {
        RedisLoggerConfigTemp::new(
            connection_str,
            None,
            Some((streams, DefaultStreamEncoder::new())),
        )
    }

    /// A builder state that both publishes to `channels` and appends to
    /// `streams`, each with its default encoder.
    pub fn with_pubsub_and_streams_default(
        connection_str: String,
        channels: Vec<String>,
        streams: Vec<String>,
    ) -> (builder: RedisLoggerConfigTemp<DefaultPubSubEncoder, DefaultStreamEncoder>)
        requires
            channels@.len() > 0,
            streams@.len() > 0,
        ensures
            builder.connection_str == Some(connection_str),
            builder.channels matches Some(slot) && slot.0 == channels,
            builder.streams matches Some(slot) && slot.0 == streams,
    {
        RedisLoggerConfigTemp::new(
            connection_str,
            Some((channels, DefaultPubSubEncoder::new())),
            Some((streams, DefaultStreamEncoder::new())),
        )
    }

    /// A builder state that both publishes to `channels` and appends to
    /// `streams`.
    pub fn with_pubsub_and_streams<PUBSUB, STREAM>(
        connection_str: String,
        channels: Vec<String>,
        pubsub_encoder: PUBSUB,
        streams: Vec<String>,
        stream_encoder: STREAM,
    ) -> (builder: RedisLoggerConfigTemp<PUBSUB, STREAM>) where
        PUBSUB: PubSubEncoder,
        STREAM: StreamEncoder,

        requires
            channels@.len() > 0,
            streams@.len() > 0,
        ensures
            builder.connection_str == Some(connection_str),
            builder.channels == Some((channels, pubsub_encoder)),
            builder.streams == Some((streams, stream_encoder)),
    {
        RedisLoggerConfigTemp::new(
            connection_str,
            Some((channels, pubsub_encoder)),
            Some((streams, stream_encoder)),
        )
    }
}

/// A validated, immutable sink configuration. It owns the broker connection
/// for the sink's whole lifetime, and the delivery slots the sink fans out
/// to; it is never changed after construction.
pub struct RedisLoggerConfig<PUBSUB, STREAM> where PUBSUB: PubSubEncoder, STREAM: StreamEncoder {
    /// The open broker connection the sink submits over.
    pub connection: redis::Connection,
    /// The channels to publish to, with their encoder.
    pub channels: Option<(Vec<String>, PUBSUB)>,
    /// The streams to append to, with their encoder.
    pub streams: Option<(Vec<String>, STREAM)>,
}

impl<PUBSUB, STREAM> RedisLoggerConfig<PUBSUB, STREAM> where
    PUBSUB: PubSubEncoder,
    STREAM: StreamEncoder,
 {
    /// Validity of a configuration: at least one delivery slot is filled,
    /// and no filled slot carries an empty name list.
    pub open spec fn wf(self) -> bool {
        validation_outcome(true, slot_len(self.channels), slot_len(self.streams)) is Ok
    }

    /// Builds a configuration around an already-open broker connection.
    /// Succeeds exactly when at least one delivery slot is filled and no
    /// filled slot carries an empty name list; anything else is
    /// `ChannelNotSet`, so an invalid configuration is never instantiated.
    pub fn new(
        connection: redis::Connection,
        channels: Option<(Vec<String>, PUBSUB)>,
        streams: Option<(Vec<String>, STREAM)>,
    ) -> (outcome: Result<Self, RedisLoggerConfigError>)
        ensures
            outcome is Ok <==> validation_outcome(
                true,
                slot_len(channels),
                slot_len(streams),
            ) is Ok,
            outcome matches Ok(config) ==> config.wf() && config.connection == connection
                && config.channels == channels && config.streams == streams,
            outcome matches Err(error) ==> error == RedisLoggerConfigError::ChannelNotSet,
    {
        let channels_missing = channels.is_none();
        let streams_missing = streams.is_none();
        if channels_missing && streams_missing {
            return Err(RedisLoggerConfigError::ChannelNotSet);
        }
        let channels_empty = match &channels {
            Some(pair) => pair.0.len() == 0,
            None => false,
        };
        let streams_empty = match &streams {
            Some(pair) => pair.0.len() == 0,
            None => false,
        };
        if channels_empty || streams_empty {
            return Err(RedisLoggerConfigError::ChannelNotSet);
        }
        Ok(RedisLoggerConfig { connection, channels, streams })
    }
}

} // verus!

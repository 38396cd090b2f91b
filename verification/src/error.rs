//! Typed errors of the sink's configuration surface.
//!
//! Configuration errors are returned, never panicked over, so that a caller
//! can decide fallback behaviour before the sink is wired into a logging
//! facade. Failures of the broker client and of logger registration are
//! carried along in their own variants.

use vstd::prelude::*;

verus! {

/// Error type of logger registration in the log facade crate.
#[verifier::external_type_specification]
#[verifier::external_body]
pub struct ExSetLoggerError(log::SetLoggerError);

/// The ways configuring a sink can fail.
#[derive(Debug)]
pub enum RedisLoggerConfigError {
    /// No broker connection was supplied.
    ClientNotSet,
    /// Neither a pub/sub channel nor a stream was supplied, or a supplied
    /// list was empty.
    ChannelNotSet,
    /// The broker client failed: opening the connection, or a command.
    RedisError(redis::RedisError),
    /// Registering the sink as the global logger failed.
    SetLoggerError(log::SetLoggerError),
}

impl RedisLoggerConfigError {
    /// A short description of the kind of failure.
    pub fn message(&self) -> (text: &'static str)
        ensures
            *self is ClientNotSet ==> text@ == "Redis client not set"@,
            *self is ChannelNotSet ==> text@
                == "Channels not set. Set at least one pub/sub channel and/or one stream name."@,
            *self is RedisError ==> text@ == "Error handling Redis"@,
            *self is SetLoggerError ==> text@ == "Error initializing logger"@,
    {
        match self {
            RedisLoggerConfigError::ClientNotSet => "Redis client not set",
            RedisLoggerConfigError::ChannelNotSet => "Channels not set. Set at least one pub/sub channel and/or one stream name.",
            RedisLoggerConfigError::RedisError(_) => "Error handling Redis",
            RedisLoggerConfigError::SetLoggerError(_) => "Error initializing logger",
        }
    }
}

impl PartialEq for RedisLoggerConfigError {
    /// Two errors are equal when they are the same kind of failure; the
    /// carried broker or registration error does not enter the comparison.
    fn eq(&self, other: &Self) -> (same: bool) {
        match (self, other) {
            (RedisLoggerConfigError::ClientNotSet, RedisLoggerConfigError::ClientNotSet) => true,
            (RedisLoggerConfigError::ChannelNotSet, RedisLoggerConfigError::ChannelNotSet) => true,
            (RedisLoggerConfigError::RedisError(_), RedisLoggerConfigError::RedisError(_)) => true,
            (
                RedisLoggerConfigError::SetLoggerError(_),
                RedisLoggerConfigError::SetLoggerError(_),
            ) => true,
            _ => false,
        }
    }
}

impl vstd::std_specs::cmp::PartialEqSpecImpl for RedisLoggerConfigError {
    open spec fn obeys_eq_spec() -> bool {
        true
    }

    open spec fn eq_spec(&self, other: &Self) -> bool {
        match (self, other) {
            (RedisLoggerConfigError::ClientNotSet, RedisLoggerConfigError::ClientNotSet) => true,
            (RedisLoggerConfigError::ChannelNotSet, RedisLoggerConfigError::ChannelNotSet) => true,
            (RedisLoggerConfigError::RedisError(_), RedisLoggerConfigError::RedisError(_)) => true,
            (
                RedisLoggerConfigError::SetLoggerError(_),
                RedisLoggerConfigError::SetLoggerError(_),
            ) => true,
            _ => false,
        }
    }
}

impl From<redis::RedisError> for RedisLoggerConfigError {
    /// Wraps a broker client error.
    fn from(error: redis::RedisError) -> (wrapped: Self)
        ensures
            wrapped == RedisLoggerConfigError::RedisError(error),
    {
        RedisLoggerConfigError::RedisError(error)
    }
}

impl vstd::std_specs::convert::FromSpecImpl<redis::RedisError> for RedisLoggerConfigError {
    open spec fn obeys_from_spec() -> bool {
        true
    }

    open spec fn from_spec(error: redis::RedisError) -> Self {
        RedisLoggerConfigError::RedisError(error)
    }
}

impl From<log::SetLoggerError> for RedisLoggerConfigError {
    /// Wraps a logger registration error.
    fn from(error: log::SetLoggerError) -> (wrapped: Self)
        ensures
            wrapped == RedisLoggerConfigError::SetLoggerError(error),
    {
        RedisLoggerConfigError::SetLoggerError(error)
    }
}

impl vstd::std_specs::convert::FromSpecImpl<log::SetLoggerError> for RedisLoggerConfigError {
    open spec fn obeys_from_spec() -> bool {
        true
    }

    open spec fn from_spec(error: log::SetLoggerError) -> Self {
        RedisLoggerConfigError::SetLoggerError(error)
    }
}

} // verus!

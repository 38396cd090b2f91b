//! The two encoding strategies a sink can be configured with.
//!
//! A [`PubSubEncoder`] turns a record into one opaque byte payload, published
//! verbatim to every configured channel. A [`StreamEncoder`] turns a record
//! into an ordered list of named byte fields, appended verbatim to every
//! configured stream. Both must be total: encoding never fails, absent
//! optional fields map to a defined placeholder. Implementations must not
//! mutate the record and must be callable from many threads at once.

use vstd::prelude::*;

use crate::record::LogRecord;

verus! {

/// Strategy for encoding a record into the single byte payload published to
/// each pub/sub channel.
pub trait PubSubEncoder: Send + Sync + Sized {
    /// Encodes the given record into a byte vector.
    fn encode(&self, record: &LogRecord) -> Vec<u8>;
}

/// Strategy for encoding a record into the ordered list of (field name, byte
/// value) pairs appended to each stream. Field names must be unique.
pub trait StreamEncoder: Send + Sync + Sized {
    /// Encodes the given record into field-name/value pairs.
    fn encode(&self, record: &LogRecord) -> Vec<(String, Vec<u8>)>;
}

/// Placeholder for the pub/sub slot of a configuration that only writes to
/// streams. A sink never invokes it: the slot it fills is absent.
#[derive(Debug)]
pub struct DummyPubSubEncoder {}

impl PubSubEncoder for DummyPubSubEncoder {
    /// Returns an empty payload. A configuration without channels never
    /// calls this.
    fn encode(&self, record: &LogRecord) -> (payload: Vec<u8>)
        ensures
            payload@ == Seq::<u8>::empty(),
    {
        Vec::new()
    }
}

/// Placeholder for the stream slot of a configuration that only publishes to
/// channels. A sink never invokes it: the slot it fills is absent.
#[derive(Debug)]
pub struct DummyStreamEncoder {}

impl StreamEncoder for DummyStreamEncoder {
    /// Returns an empty field list. A configuration without streams never
    /// calls this.
    fn encode(&self, record: &LogRecord) -> (fields: Vec<(String, Vec<u8>)>)
        ensures
            fields@ == Seq::<(String, Vec<u8>)>::empty(),
    {
        Vec::new()
    }
}

} // verus!

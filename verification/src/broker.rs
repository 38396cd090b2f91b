//! Trusted boundary to the Redis client crate.
//!
//! The sink drives the broker through a pipelined command buffer: verified
//! code fills the buffer one command at a time and submits it in a single
//! round trip. What the buffer holds is modelled by two uninterpreted names,
//! [`pipeline_publishes`] and [`pipeline_appends`]; each wrapper below states
//! how the call it makes moves them.

use std::io::Write;
use vstd::prelude::*;

verus! {

/// Connection handle of the Redis client crate. Opaque to the sink: it is
/// carried through the configuration and handed to [`pipe_query`].
#[verifier::external_type_specification]
#[verifier::external_body]
pub struct ExConnection(redis::Connection);

/// Pipelined command buffer of the Redis client crate.
#[verifier::external_type_specification]
#[verifier::external_body]
pub struct ExPipeline(redis::Pipeline);

/// Error type of the Redis client crate.
#[verifier::external_type_specification]
#[verifier::external_body]
pub struct ExRedisError(redis::RedisError);

/// The publish commands a pipeline buffer holds, in order: channel name and
/// payload of each.
pub uninterp spec fn pipeline_publishes(pipeline: redis::Pipeline) -> Seq<(Seq<char>, Seq<u8>)>;

/// The stream-append commands a pipeline buffer holds, in order: stream name
/// and field list of each.
pub uninterp spec fn pipeline_appends(pipeline: redis::Pipeline) -> Seq<
    (Seq<char>, Seq<(Seq<char>, Seq<u8>)>),
>;

/// Relies on redis::pipe: a fresh pipeline buffer holds no command.
#[verifier::external_body]
pub(crate) fn pipe_new() -> (pipeline: redis::Pipeline)
    ensures
        pipeline_publishes(pipeline) == Seq::<(Seq<char>, Seq<u8>)>::empty(),
        pipeline_appends(pipeline) == Seq::<(Seq<char>, Seq<(Seq<char>, Seq<u8>)>)>::empty(),
{
    redis::pipe()
}

/// Relies on redis::Pipeline::publish: adds one PUBLISH command carrying
/// `payload` to `channel` at the end of the buffer, leaving the commands
/// already there as they were.
#[verifier::external_body]
pub(crate) fn pipe_publish(pipeline: &mut redis::Pipeline, channel: &str, payload: &Vec<u8>)
    ensures
        pipeline_publishes(*final(pipeline)) == pipeline_publishes(*old(pipeline)).push(
            (channel@, payload@),
        ),
        pipeline_appends(*final(pipeline)) == pipeline_appends(*old(pipeline)),
{
    pipeline.publish(channel, payload.as_slice());
}

/// Relies on redis::Pipeline::xadd: adds one XADD command appending `fields`
/// to `stream` under a broker-assigned entry identifier at the end of the
/// buffer, leaving the commands already there as they were.
#[verifier::external_body]
pub(crate) fn pipe_xadd(
    pipeline: &mut redis::Pipeline,
    stream: &str,
    fields: &Vec<(String, Vec<u8>)>,
)
    ensures
        pipeline_appends(*final(pipeline)) == pipeline_appends(*old(pipeline)).push(
            (stream@, fields.deep_view()),
        ),
        pipeline_publishes(*final(pipeline)) == pipeline_publishes(*old(pipeline)),
{
    pipeline.xadd(stream, "*", fields.as_slice());
}

/// Relies on redis::Pipeline::query: submits the whole buffer as one request
/// over `connection` and returns the broker's verdict. The outcome depends
/// on the broker and the network; nothing is promised of it, and the
/// connection's state afterwards is unknown. The call returns instead of
/// panicking on failure.
#[verifier::external_body]
pub(crate) fn pipe_query(
    pipeline: &redis::Pipeline,
    connection: &mut redis::Connection,
) -> Result<(), redis::RedisError> {
    pipeline.query::<()>(connection)
}

/// Diagnostic side channel of the dispatch path. Relies on the writeln macro
/// over std::io::Stderr: renders the broker error with its own display form
/// and writes one line to standard error. A failure to write is ignored.
#[verifier::external_body]
pub(crate) fn report_dispatch_error(error: &redis::RedisError) {
    let _ = writeln!(std::io::stderr(), "Error logging to Redis: {error}");
}

} // verus!

//! The requests that the sink sends to the remote log API and what it reads
//! back from it, as plain values.
use vstd::prelude::*;
use crate::config::CloudwatchLogsSinkConfig;
use crate::encode::InputLogEvent;

verus! {

/// A failure of a call to the remote log API (rusoto's `RusotoError`),
/// carried through as it came.
#[verifier::external_type_specification]
#[verifier::external_body]
#[verifier::reject_recursive_types(E)]
pub struct ExRusotoError<E>(rusoto_core::RusotoError<E>);

/// A failure that the remote side reports for a describe call.
#[verifier::external_type_specification]
#[verifier::external_body]
pub struct ExDescribeLogStreamsError(rusoto_logs::DescribeLogStreamsError);

/// A failure that the remote side reports for a write.
#[verifier::external_type_specification]
#[verifier::external_body]
pub struct ExPutLogEventsError(rusoto_logs::PutLogEventsError);

/// What a describe call tells of one stream.
#[derive(Debug)]
pub struct StreamInfo {
    pub log_stream_name: Option<String>,
    pub upload_sequence_token: Option<String>,
}

/// A describe call for the streams of a group whose name starts with a prefix.
#[derive(Debug)]
pub struct DescribeRequest {
    pub log_group_name: String,
    pub log_stream_name_prefix: String,
    /// At most this many streams come back.
    pub limit: i64,
}

/// One write of records to a stream, gated by a sequence token.
#[derive(Debug)]
pub struct PutRequest {
    pub log_events: Vec<InputLogEvent>,
    pub sequence_token: Option<String>,
    pub log_group_name: String,
    pub log_stream_name: String,
}

/// The describe call that finds the configured stream: at most one stream,
/// of the configured group, whose name starts with the configured name.
pub open spec fn finds_stream(r: DescribeRequest, config: CloudwatchLogsSinkConfig) -> bool {
    &&& r.limit == 1
    &&& r.log_group_name@ == config.group_name@
    &&& r.log_stream_name_prefix@ == config.stream_name@
}

/// The describe call that finds the configured stream.
pub fn describe_request_for(config: &CloudwatchLogsSinkConfig) -> (r: DescribeRequest)
    ensures
        finds_stream(r, *config),
{
    DescribeRequest {
        log_group_name: config.group_name.clone(),
        log_stream_name_prefix: config.stream_name.clone(),
        limit: 1,
    }
}

} // verus!

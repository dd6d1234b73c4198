//! The startup probe that checks that the configured stream exists.
use vstd::prelude::*;
use crate::config::CloudwatchLogsSinkConfig;
use rusoto_core::RusotoError;
use rusoto_logs::DescribeLogStreamsError;
use crate::sequencer::describe_error_text;
use crate::remote::{describe_request_for, finds_stream, DescribeRequest, StreamInfo};

verus! {

/// Why the startup probe failed.
#[derive(Debug)]
pub enum HealthcheckError {
    /// The describe call failed.
    DescribeFailed(RusotoError<DescribeLogStreamsError>),
    /// The describe call found no stream, or a stream without a name.
    NoStreamsFound,
    /// The stream found has another name than the configured one (its name
    /// only starts with it).
    StreamNameMismatch { got: String, expected: String },
}

impl HealthcheckError {
    /// A description of the failure for people.
    pub fn message(&self) -> (r: String)
        ensures
            self is DescribeFailed ==> r@.len() >= 27 && r@.take(27) == "DescribeLogStreams failed: "@,
            self is NoStreamsFound ==> r@ == "No streams found"@,
            self matches HealthcheckError::StreamNameMismatch { got, expected } ==> r@
                == "Stream returned is not the same as the one passed in got: "@ + got@
                + ", expected: "@ + expected@,
    {
        proof { reveal_strlit("DescribeLogStreams failed: "); }
        match self {
            HealthcheckError::DescribeFailed(e) => {
                let mut m = "DescribeLogStreams failed: ".to_string();
                let t = describe_error_text(e);
                m.append(t.as_str());
                assert(m@.take(27) =~= "DescribeLogStreams failed: "@);
                m
            },
            HealthcheckError::NoStreamsFound => "No streams found".to_string(),
            HealthcheckError::StreamNameMismatch { got, expected } => {
                let mut m = "Stream returned is not the same as the one passed in got: ".to_string();
                m.append(got.as_str());
                m.append(", expected: ");
                m.append(expected.as_str());
                m
            },
        }
    }
}

/// What the probe makes of a describe call that had `outcome`, for the
/// configured stream name `expected`.
pub open spec fn health_result(
    expected: String,
    outcome: Result<Option<Vec<StreamInfo>>, RusotoError<DescribeLogStreamsError>>,
) -> Result<(), HealthcheckError> {
    match outcome {
        Err(e) => Err(HealthcheckError::DescribeFailed(e)),
        Ok(None) => Err(HealthcheckError::NoStreamsFound),
        Ok(Some(v)) => if v.len() == 0 {
            Err(HealthcheckError::NoStreamsFound)
        } else {
            match v[0].log_stream_name {
                None => Err(HealthcheckError::NoStreamsFound),
                Some(name) => if name@ == expected@ {
                    Ok(())
                } else {
                    Err(HealthcheckError::StreamNameMismatch { got: name, expected })
                },
            }
        },
    }
}

/// The describe call of the startup probe.
pub fn healthcheck_request(config: &CloudwatchLogsSinkConfig) -> (r: DescribeRequest)
    ensures
        finds_stream(r, *config),
{
    describe_request_for(config)
}

/// Judges the describe call of the startup probe: it passes only where the
/// first stream found has exactly the configured name.
pub fn healthcheck(
    config: &CloudwatchLogsSinkConfig,
    outcome: Result<Option<Vec<StreamInfo>>, RusotoError<DescribeLogStreamsError>>,
) -> (r: Result<(), HealthcheckError>)
    ensures
        r == health_result(config.stream_name, outcome),
{
    let expected = config.stream_name.clone();
    match outcome {
        Err(e) => Err(HealthcheckError::DescribeFailed(e)),
        Ok(None) => Err(HealthcheckError::NoStreamsFound),
        Ok(Some(streams)) => {
            if streams.len() == 0 {
                Err(HealthcheckError::NoStreamsFound)
            } else {
                let mut streams = streams;
                let first = streams.remove(0);
                match first.log_stream_name {
                    None => Err(HealthcheckError::NoStreamsFound),
                    Some(name) => if name == expected {
                        Ok(())
                    } else {
                        Err(HealthcheckError::StreamNameMismatch { got: name, expected })
                    },
                }
            }
        },
    }
}

} // verus!

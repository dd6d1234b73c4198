//! The write sequencer: it finds a stream's sequence token, lets exactly one
//! write be in flight at a time, and learns the next token from each write.
//!
//! The sequencer makes no call itself. Its owner polls it for readiness,
//! issues the describe calls it asks for and reports their outcomes, sends
//! the write requests it builds, and reports what the completion slot of the
//! write in flight yields.
use vstd::prelude::*;
use crate::config::{region_resolves, CloudwatchLogsSinkConfig};
use crate::encode::{encode_log_now, record_body, record_time, InputLogEvent};
use crate::event::LogEvent;
use rusoto_core::RusotoError;
use rusoto_logs::{DescribeLogStreamsError, PutLogEventsError};
use crate::remote::{describe_request_for, finds_stream, DescribeRequest, PutRequest, StreamInfo};

verus! {

/// Where the sequencer stands.
#[derive(Debug)]
pub enum State {
    /// The token is unknown and no describe call is out.
    Idle,
    /// A describe call is out.
    Describing,
    /// The token is known and no write is out.
    Ready(Option<String>),
    /// A write is out.
    Writing,
}

/// What a readiness poll tells the owner.
#[derive(Debug)]
pub enum Readiness {
    /// A batch may be accepted now.
    Ready,
    /// Wait for the describe call or the write that is out.
    Pending,
    /// Issue this describe call, then report its outcome.
    Describe(DescribeRequest),
}

/// What the completion slot of the write in flight yields.
#[derive(Debug)]
pub enum SlotOutcome {
    /// The write succeeded; its response names the next token.
    Delivered(Option<String>),
    /// The slot was closed before a value was put in it: the write's future
    /// was dropped before it resolved.
    Closed,
}

/// Why a readiness check or a write failed.
#[derive(Debug)]
pub enum CloudwatchError {
    /// The write failed.
    Put(RusotoError<PutLogEventsError>),
    /// The describe call failed.
    Describe(RusotoError<DescribeLogStreamsError>),
    /// The describe call found no stream.
    NoStreamsFound,
    /// The sequencer was gone when the write's outcome was handed to it.
    ServiceDropped,
}

/// Relies on rusoto's `Display` for `RusotoError`: a description of a failed write.
#[verifier::external_body]
fn put_error_text(e: &RusotoError<PutLogEventsError>) -> (r: String) {
    e.to_string()
}

/// Relies on rusoto's `Display` for `RusotoError`: a description of a failed describe call.
#[verifier::external_body]
pub(crate) fn describe_error_text(e: &RusotoError<DescribeLogStreamsError>) -> (r: String) {
    e.to_string()
}

impl CloudwatchError {
    /// A description of the error for people: a fixed text, or for a remote
    /// failure a fixed prefix and the failure's own description.
    pub fn message(&self) -> (r: String)
        ensures
            self is Put ==> r@.len() >= 22 && r@.take(22) == "CloudwatchError::Put: "@,
            self is Describe ==> r@.len() >= 27 && r@.take(27) == "CloudwatchError::Describe: "@,
            self is NoStreamsFound ==> r@ == "CloudwatchError: No Streams Found"@,
            self is ServiceDropped ==> r@
                == "CloudwatchError: The service was dropped while there was a request in flight."@,
    {
        proof {
            reveal_strlit("CloudwatchError::Put: ");
            reveal_strlit("CloudwatchError::Describe: ");
        }
        match self {
            CloudwatchError::Put(e) => {
                let mut m = "CloudwatchError::Put: ".to_string();
                let t = put_error_text(e);
                m.append(t.as_str());
                assert(m@.take(22) =~= "CloudwatchError::Put: "@);
                m
            },
            CloudwatchError::Describe(e) => {
                let mut m = "CloudwatchError::Describe: ".to_string();
                let t = describe_error_text(e);
                m.append(t.as_str());
                assert(m@.take(27) =~= "CloudwatchError::Describe: "@);
                m
            },
            CloudwatchError::NoStreamsFound => "CloudwatchError: No Streams Found".to_string(),
            CloudwatchError::ServiceDropped => {
                "CloudwatchError: The service was dropped while there was a request in flight.".to_string()
            },
        }
    }
}

impl From<RusotoError<PutLogEventsError>> for CloudwatchError {
    fn from(e: RusotoError<PutLogEventsError>) -> (r: Self)
        ensures
            r == CloudwatchError::Put(e),
    {
        CloudwatchError::Put(e)
    }
}

impl vstd::std_specs::convert::FromSpecImpl<RusotoError<PutLogEventsError>> for CloudwatchError {
    open spec fn obeys_from_spec() -> bool {
        true
    }

    open spec fn from_spec(e: RusotoError<PutLogEventsError>) -> Self {
        CloudwatchError::Put(e)
    }
}

impl From<RusotoError<DescribeLogStreamsError>> for CloudwatchError {
    fn from(e: RusotoError<DescribeLogStreamsError>) -> (r: Self)
        ensures
            r == CloudwatchError::Describe(e),
    {
        CloudwatchError::Describe(e)
    }
}

impl vstd::std_specs::convert::FromSpecImpl<RusotoError<DescribeLogStreamsError>> for CloudwatchError {
    open spec fn obeys_from_spec() -> bool {
        true
    }

    open spec fn from_spec(e: RusotoError<DescribeLogStreamsError>) -> Self {
        CloudwatchError::Describe(e)
    }
}

/// Whether a batch may be accepted in state `s`.
pub open spec fn accept_allowed(s: State) -> bool {
    s is Ready
}

/// The state after a readiness poll.
pub open spec fn after_poll(s: State) -> State {
    match s {
        State::Idle => State::Describing,
        _ => s,
    }
}

/// The state after a batch was accepted, whatever the state before: a write is out.
pub open spec fn after_accept() -> State {
    State::Writing
}

/// The state after `n` readiness polls with nothing reported in between.
pub open spec fn after_polls(s: State, n: nat) -> State
    decreases n,
{
    if n == 0 {
        s
    } else {
        after_poll(after_polls(s, (n - 1) as nat))
    }
}

/// The token that a write accepted in state `s` carries.
pub open spec fn token_of(s: State) -> Option<String> {
    match s {
        State::Ready(t) => t,
        _ => None,
    }
}

/// The state after a describe call returned `streams`.
pub open spec fn after_describe(streams: Option<Seq<StreamInfo>>) -> State {
    match streams {
        Some(v) => if v.len() > 0 {
            State::Ready(v[0].upload_sequence_token)
        } else {
            State::Idle
        },
        None => State::Idle,
    }
}

/// The state after the completion slot of the write in flight yielded `o`.
pub open spec fn after_slot(o: SlotOutcome) -> State {
    match o {
        SlotOutcome::Delivered(t) => State::Ready(t),
        SlotOutcome::Closed => State::Idle,
    }
}

/// What a describe call that had `outcome` makes of a readiness check.
pub open spec fn describe_result(outcome: Result<Option<Vec<StreamInfo>>, RusotoError<DescribeLogStreamsError>>) -> Result<(), CloudwatchError> {
    match outcome {
        Ok(Some(v)) => if v.len() > 0 {
            Ok(())
        } else {
            Err(CloudwatchError::NoStreamsFound)
        },
        Ok(None) => Err(CloudwatchError::NoStreamsFound),
        Err(e) => Err(CloudwatchError::Describe(e)),
    }
}

/// What whoever awaits a write's future sees: the remote failure `put`, else
/// whether the sequencer was there to take the response.
pub open spec fn write_result(put: Result<(), RusotoError<PutLogEventsError>>, delivered: bool) -> Result<(), CloudwatchError> {
    match put {
        Err(e) => Err(CloudwatchError::Put(e)),
        Ok(_) => if delivered {
            Ok(())
        } else {
            Err(CloudwatchError::ServiceDropped)
        },
    }
}

/// Whether `r` is the record of `e` under `config`, read at some instant.
pub open spec fn encodes(config: CloudwatchLogsSinkConfig, e: LogEvent, r: InputLogEvent) -> bool {
    &&& exists|now: i64| r.timestamp == record_time(e.fields@, now)
    &&& r.message@ == record_body(config.encoding, e.fields@)
}

/// The sequencer of writes to one configured stream.
#[derive(Debug)]
pub struct CloudwatchLogsSvc {
    state: State,
    config: CloudwatchLogsSinkConfig,
}

impl CloudwatchLogsSvc {
    /// The state of the sequencer.
    pub closed spec fn state_of(&self) -> State {
        self.state
    }

    /// The configuration of the sequencer.
    pub closed spec fn config_of(&self) -> CloudwatchLogsSinkConfig {
        self.config
    }

    /// A sequencer for `config` that knows no token yet. It fails where the
    /// configuration does not say where to connect.
    pub fn new(config: CloudwatchLogsSinkConfig) -> (r: Result<Self, String>)
        ensures
            r is Ok <==> region_resolves(config),
            r matches Ok(svc) ==> svc.state_of() is Idle && svc.config_of() == config,
            config.endpoint is None && config.region is None ==>
                (r matches Err(m) && m@ == "Must set either region or endpoint"@),
    {
        match config.check_region() {
            Err(m) => Err(m),
            Ok(()) => Ok(CloudwatchLogsSvc { state: State::Idle, config }),
        }
    }

    /// The state of the sequencer.
    pub fn state(&self) -> (r: &State)
        ensures
            *r == self.state_of(),
    {
        &self.state
    }

    /// The configuration of the sequencer.
    pub fn config(&self) -> (r: &CloudwatchLogsSinkConfig)
        ensures
            *r == self.config_of(),
    {
        &self.config
    }

    /// Whether a batch may be accepted now.
    pub fn is_ready(&self) -> (r: bool)
        ensures
            r == accept_allowed(self.state_of()),
    {
        match self.state {
            State::Ready(_) => true,
            _ => false,
        }
    }

    /// The record of `log`; an event without a timestamp gets the current time.
    pub fn encode_log(&self, log: LogEvent) -> (r: InputLogEvent)
        requires
            log.wf(),
        ensures
            encodes(self.config_of(), log, r),
    {
        encode_log_now(self.config.encoding, log)
    }

    /// The describe call that finds the configured stream.
    fn describe_stream(&self) -> (r: DescribeRequest)
        ensures
            finds_stream(r, self.config_of()),
    {
        describe_request_for(&self.config)
    }

    /// The write of `events`, encoded, to the configured stream with `sequence_token`.
    fn put_logs(&self, sequence_token: Option<String>, events: Vec<LogEvent>) -> (r: PutRequest)
        requires
            forall|i: int| 0 <= i < events.len() ==> (#[trigger] events@[i]).wf(),
        ensures
            r.sequence_token == sequence_token,
            r.log_group_name@ == self.config_of().group_name@,
            r.log_stream_name@ == self.config_of().stream_name@,
            r.log_events.len() == events.len(),
            forall|i: int| 0 <= i < events.len() ==>
                encodes(self.config_of(), events@[i], #[trigger] r.log_events@[i]),
    {
        let ghost all = events@;
        let mut events = events;
        let mut log_events: Vec<InputLogEvent> = Vec::new();
        while events.len() > 0
            invariant
                log_events.len() + events.len() == all.len(),
                forall|i: int| 0 <= i < all.len() ==> (#[trigger] all[i]).wf(),
                events@ == all.subrange(log_events.len() as int, all.len() as int),
                forall|i: int| 0 <= i < log_events.len() ==>
                    encodes(self.config_of(), all[i], #[trigger] log_events@[i]),
            decreases events.len(),
        {
            assert(events@[0] == all[log_events.len() as int]);
            let e = events.remove(0);
            let r = self.encode_log(e);
            log_events.push(r);
            assert(events@ =~= all.subrange(log_events.len() as int, all.len() as int));
        }
        PutRequest {
            log_events,
            sequence_token,
            log_group_name: self.config.group_name.clone(),
            log_stream_name: self.config.stream_name.clone(),
        }
    }

    /// Checks whether a batch may be accepted. From `Idle` it asks for the
    /// describe call that finds the token; while a describe call or a write
    /// is out it asks the owner to wait for that outcome.
    pub fn poll_ready(&mut self) -> (r: Readiness)
        ensures
            final(self).state_of() == after_poll(old(self).state_of()),
            final(self).config_of() == old(self).config_of(),
            r is Ready <==> accept_allowed(old(self).state_of()),
            r is Pending <==> (old(self).state_of() is Describing || old(self).state_of() is Writing),
            r is Describe <==> old(self).state_of() is Idle,
            r matches Readiness::Describe(d) ==> finds_stream(d, old(self).config_of()),
    {
        match self.state {
            State::Idle => {
                let d = self.describe_stream();
                self.state = State::Describing;
                Readiness::Describe(d)
            },
            State::Describing => Readiness::Pending,
            State::Ready(_) => Readiness::Ready,
            State::Writing => Readiness::Pending,
        }
    }

    /// Takes the outcome of the describe call that is out: the streams it
    /// found, or its failure. The first stream's token makes the
    /// sequencer ready; on a failure the sequencer goes back to `Idle`, so
    /// that the next poll describes the stream again.
    pub fn describe_done(&mut self, outcome: Result<Option<Vec<StreamInfo>>, RusotoError<DescribeLogStreamsError>>) -> (r: Result<(), CloudwatchError>)
        requires
            old(self).state_of() is Describing,
        ensures
            final(self).config_of() == old(self).config_of(),
            final(self).state_of() == match outcome {
                Ok(Some(v)) => after_describe(Some(v@)),
                _ => State::Idle,
            },
            r == describe_result(outcome),
    {
        match outcome {
            Ok(Some(streams)) => {
                if streams.len() > 0 {
                    let mut streams = streams;
                    let first = streams.remove(0);
                    self.state = State::Ready(first.upload_sequence_token);
                    Ok(())
                } else {
                    self.state = State::Idle;
                    Err(CloudwatchError::NoStreamsFound)
                }
            },
            Ok(None) => {
                self.state = State::Idle;
                Err(CloudwatchError::NoStreamsFound)
            },
            Err(e) => {
                self.state = State::Idle;
                Err(CloudwatchError::from(e))
            },
        }
    }

    /// Takes what the completion slot of the write in flight yielded. A
    /// delivered response makes its next token current; a slot closed
    /// without a value sends the sequencer back to `Idle`, to find the token
    /// anew.
    pub fn write_observed(&mut self, slot: SlotOutcome)
        requires
            old(self).state_of() is Writing,
        ensures
            final(self).state_of() == after_slot(slot),
            final(self).config_of() == old(self).config_of(),
    {
        self.state = match slot {
            SlotOutcome::Delivered(t) => State::Ready(t),
            SlotOutcome::Closed => State::Idle,
        };
    }

    /// Accepts a batch: takes the current token and builds the one write that
    /// carries every event of the batch, encoded, with that token.
    pub fn call(&mut self, events: Vec<LogEvent>) -> (r: PutRequest)
        requires
            accept_allowed(old(self).state_of()),
            forall|i: int| 0 <= i < events.len() ==> (#[trigger] events@[i]).wf(),
        ensures
            final(self).state_of() == after_accept(),
            final(self).config_of() == old(self).config_of(),
            r.sequence_token == token_of(old(self).state_of()),
            r.log_group_name@ == old(self).config_of().group_name@,
            r.log_stream_name@ == old(self).config_of().stream_name@,
            r.log_events.len() == events.len(),
            forall|i: int| 0 <= i < events.len() ==>
                encodes(old(self).config_of(), events@[i], #[trigger] r.log_events@[i]),
    {
        let mut taken = State::Writing;
        std::mem::swap(&mut self.state, &mut taken);
        let token = match taken {
            State::Ready(t) => t,
            _ => None,
        };
        self.put_logs(token, events)
    }
}

/// The outcome of a write, as whoever awaits its future sees it: the remote
/// failure, else whether the sequencer was still there to take the response.
pub fn write_outcome(put: Result<(), RusotoError<PutLogEventsError>>, delivered: bool) -> (r: Result<(), CloudwatchError>)
    ensures
        r == write_result(put, delivered),
{
    match put {
        Err(e) => Err(CloudwatchError::from(e)),
        Ok(()) => if delivered {
            Ok(())
        } else {
            Err(CloudwatchError::ServiceDropped)
        },
    }
}

} // verus!

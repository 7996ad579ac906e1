use vstd::prelude::*;
use crate::codec::{create_read_request, extract_response_value, read_request_frame, response_value};

verus! {

/// Delay, in milliseconds, between a finished lookup and the next read
/// request.
pub const POLL_DELAY_MS: u32 = 100;

/// The decimal digits of `n`, as ASCII bytes, most significant first.
pub open spec fn decimal(n: nat) -> Seq<u8>
    decreases n,
{
    if n < 10 {
        seq![(48 + n) as u8]
    } else {
        decimal(n / 10).push((48 + n % 10) as u8)
    }
}

/// The ASCII text `API Error: ` that starts every failed lookup's message.
pub open spec fn api_error_prefix() -> Seq<u8> {
    seq![65u8, 80u8, 73u8, 32u8, 69u8, 114u8, 114u8, 111u8, 114u8, 58u8, 32u8]
}

/// How a downstream lookup ended.
#[derive(Debug)]
pub enum LookupOutcome {
    /// The service answered with success; the record, as text.
    Record(Vec<u8>),
    /// The service answered with a non-success status and its reason text.
    Status { status: u16, status_text: Vec<u8> },
    /// The call failed (network, decoding); a description of the failure.
    Failed(Vec<u8>),
}

/// The text published for a lookup: the record itself, or a message that
/// starts with `API Error: ` and holds the status and its reason, or the
/// failure's description.
pub open spec fn lookup_text(o: LookupOutcome) -> Seq<u8> {
    match o {
        LookupOutcome::Record(t) => t@,
        LookupOutcome::Status { status, status_text } => api_error_prefix() + decimal(
            status as nat,
        ) + seq![32u8] + status_text@,
        LookupOutcome::Failed(d) => api_error_prefix() + d@,
    }
}

/// Where the poll cycle stands.
#[derive(Debug, Clone, Copy, PartialEq, Eq, Structural)]
pub enum PollState {
    Connecting,
    AwaitingResponse,
    AwaitingLookup,
    Waiting,
    Stopped,
}

/// What happened since the last step.
#[derive(Debug)]
pub enum PollEvent {
    Opened,
    Response(Vec<u8>),
    ResponseUnreadable,
    LookupDone(LookupOutcome),
    DelayElapsed,
    SendFailed,
}

/// An error that stops the cycle and is reported.
#[derive(Debug, Clone, Copy, PartialEq, Eq, Structural)]
pub enum PollError {
    TooShort,
    Unreadable,
    SendFailed,
}

/// What the caller is to do next.
#[derive(Debug, PartialEq, Eq)]
pub enum PollAction {
    /// Send this request frame.
    SendRequest(Vec<u8>),
    /// Publish the register value, then look it up at `url`.
    PublishAndLookup { value: u16, url: Vec<u8> },
    /// Publish the lookup's text, then wait `delay_ms` milliseconds.
    PublishLookupAndWait { text: Vec<u8>, delay_ms: u32 },
    /// Report the error; the cycle has stopped.
    ReportError(PollError),
    /// Nothing to do.
    Nothing,
}

/// The client's poll cycle: one request in flight at a time, each response
/// followed by a lookup of its value, each lookup by a delay and the next
/// request.
pub struct PollCycle {
    state: PollState,
    lookup_base: Vec<u8>,
}

/// Appends the decimal digits of `n`.
pub fn push_decimal(out: &mut Vec<u8>, n: u32)
    ensures
        final(out)@ == old(out)@ + decimal(n as nat),
    decreases n,
{
    if n >= 10 {
        push_decimal(out, n / 10);
    }
    out.push((48 + n % 10) as u8);
    assert(final(out)@ =~= old(out)@ + decimal(n as nat));
}

/// Appends all of `src`.
fn push_all(out: &mut Vec<u8>, src: &[u8])
    ensures
        final(out)@ == old(out)@ + src@,
{
    let ghost start = out@;
    let mut i: usize = 0;
    while i < src.len()
        invariant
            i <= src@.len(),
            out@ == start + src@.subrange(0, i as int),
        decreases src@.len() - i,
    {
        out.push(src[i]);
        i = i + 1;
        assert(out@ =~= start + src@.subrange(0, i as int));
    }
    assert(src@.subrange(0, src@.len() as int) =~= src@);
}

/// The address of the lookup for `id`: the service's base address
/// followed by the id in decimal.
pub fn lookup_url(base: &[u8], id: u16) -> (r: Vec<u8>)
    ensures
        r@ == base@ + decimal(id as nat),
{
    let mut r: Vec<u8> = Vec::new();
    push_all(&mut r, base);
    push_decimal(&mut r, id as u32);
    assert(r@ =~= base@ + decimal(id as nat));
    r
}

/// The text to publish for a lookup's outcome.
pub fn lookup_message(o: LookupOutcome) -> (r: Vec<u8>)
    ensures
        r@ == lookup_text(o),
{
    match o {
        LookupOutcome::Record(t) => t,
        LookupOutcome::Status { status, status_text } => {
            let mut r = vec![65u8, 80, 73, 32, 69, 114, 114, 111, 114, 58, 32];
            assert(r@ =~= api_error_prefix());
            push_decimal(&mut r, status as u32);
            r.push(32u8);
            push_all(&mut r, status_text.as_slice());
            assert(r@ =~= api_error_prefix() + decimal(status as nat) + seq![32u8] + status_text@);
            r
        },
        LookupOutcome::Failed(d) => {
            let mut r = vec![65u8, 80, 73, 32, 69, 114, 114, 111, 114, 58, 32];
            assert(r@ =~= api_error_prefix());
            push_all(&mut r, d.as_slice());
            r
        },
    }
}

impl PollCycle {
    /// The state of the cycle.
    pub closed spec fn state_spec(&self) -> PollState {
        self.state
    }

    /// The base address that lookups are made at.
    pub closed spec fn lookup_base_spec(&self) -> Seq<u8> {
        self.lookup_base@
    }

    /// A cycle that waits for the transport, with lookups made at
    /// `lookup_base` followed by the polled value.
    pub fn new(lookup_base: Vec<u8>) -> (c: PollCycle)
        ensures
            c.state_spec() == PollState::Connecting,
            c.lookup_base_spec() == lookup_base@,
    {
        PollCycle { state: PollState::Connecting, lookup_base }
    }

    /// The state of the cycle.
    pub fn state(&self) -> (r: PollState)
        ensures
            r == self.state_spec(),
    {
        self.state
    }

    /// Takes one event and says what to do. The transport's readiness and
    /// each elapsed delay send a read request; a response of at least
    /// eleven bytes has its value published and looked up, a shorter one
    /// stops the cycle with `TooShort`; every finished lookup, failed or
    /// not, is published and followed by the delay; a failed send or an
    /// unreadable response stops the cycle. An event that does not fit the
    /// state changes nothing.
    pub fn step(&mut self, ev: PollEvent) -> (r: PollAction)
        ensures
            final(self).lookup_base_spec() == old(self).lookup_base_spec(),
            match (old(self).state_spec(), ev) {
                (PollState::Connecting, PollEvent::Opened)
                | (PollState::Waiting, PollEvent::DelayElapsed) => {
                    &&& final(self).state_spec() == PollState::AwaitingResponse
                    &&& r is SendRequest
                    &&& r->SendRequest_0@ == read_request_frame()
                },
                (PollState::AwaitingResponse, PollEvent::Response(b)) => match response_value(b@) {
                    Some(v) => {
                        &&& final(self).state_spec() == PollState::AwaitingLookup
                        &&& r is PublishAndLookup
                        &&& r->PublishAndLookup_value == v
                        &&& r->PublishAndLookup_url@ == old(self).lookup_base_spec() + decimal(v as nat)
                    },
                    None => {
                        &&& final(self).state_spec() == PollState::Stopped
                        &&& r == PollAction::ReportError(PollError::TooShort)
                    },
                },
                (PollState::AwaitingResponse, PollEvent::ResponseUnreadable) => {
                    &&& final(self).state_spec() == PollState::Stopped
                    &&& r == PollAction::ReportError(PollError::Unreadable)
                },
                (PollState::AwaitingLookup, PollEvent::LookupDone(o)) => {
                    &&& final(self).state_spec() == PollState::Waiting
                    &&& r is PublishLookupAndWait
                    &&& r->PublishLookupAndWait_text@ == lookup_text(o)
                    &&& r->PublishLookupAndWait_delay_ms == POLL_DELAY_MS
                },
                (s, PollEvent::SendFailed) => {
                    &&& final(self).state_spec() == PollState::Stopped
                    &&& r == if s == PollState::Stopped {
                        PollAction::Nothing
                    } else {
                        PollAction::ReportError(PollError::SendFailed)
                    }
                },
                _ => {
                    &&& final(self).state_spec() == old(self).state_spec()
                    &&& r == PollAction::Nothing
                },
            },
    {
        match (self.state, ev) {
            (PollState::Connecting, PollEvent::Opened) | (
                PollState::Waiting,
                PollEvent::DelayElapsed,
            ) => {
                self.state = PollState::AwaitingResponse;
                PollAction::SendRequest(create_read_request())
            },
            (PollState::AwaitingResponse, PollEvent::Response(b)) => {
                match extract_response_value(b.as_slice()) {
                    Some(v) => {
                        self.state = PollState::AwaitingLookup;
                        let url = lookup_url(self.lookup_base.as_slice(), v);
                        PollAction::PublishAndLookup { value: v, url }
                    },
                    None => {
                        self.state = PollState::Stopped;
                        PollAction::ReportError(PollError::TooShort)
                    },
                }
            },
            (PollState::AwaitingResponse, PollEvent::ResponseUnreadable) => {
                self.state = PollState::Stopped;
                PollAction::ReportError(PollError::Unreadable)
            },
            (PollState::AwaitingLookup, PollEvent::LookupDone(o)) => {
                self.state = PollState::Waiting;
                PollAction::PublishLookupAndWait { text: lookup_message(o), delay_ms: POLL_DELAY_MS }
            },
            (s, PollEvent::SendFailed) => {
                if s == PollState::Stopped {
                    PollAction::Nothing
                } else {
                    self.state = PollState::Stopped;
                    PollAction::ReportError(PollError::SendFailed)
                }
            },
            _ => PollAction::Nothing,
        }
    }
}

} // verus!

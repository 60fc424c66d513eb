//! Probe sessions: the stimulus each probe sends, the rules that classify
//! server events into verdicts, and the per-session state machine. A session
//! is pure state: the caller opens the connection, transmits the bytes the
//! machine asks for, reads protocol events, and feeds everything back as
//! plain values.

use vstd::prelude::*;

verus! {

/// ASCII byte values used in stimulus lines and tags.
pub const BYTE_A: u8 = 65;
pub const BYTE_G: u8 = 71;
pub const BYTE_I: u8 = 73;
pub const BYTE_L: u8 = 76;
pub const BYTE_N: u8 = 78;
pub const BYTE_O: u8 = 79;
pub const BYTE_P: u8 = 80;
pub const BYTE_SPACE: u8 = 32;
pub const BYTE_CR: u8 = 13;
pub const BYTE_LF: u8 = 10;
pub const BYTE_LBRACE: u8 = 123;
pub const BYTE_RBRACE: u8 = 125;

/// Severity kind of a final status response.
#[derive(Clone, Copy, Debug, PartialEq, Eq, Structural)]
pub enum StatusKind {
    /// The command succeeded.
    Okay,
    /// The command failed.
    No,
    /// The command was malformed (protocol-syntax error).
    Bad,
}

/// One protocol event, as the framing engine reports it, reduced to the
/// plain values that classification reads: the responding tag's bytes and
/// the status kind.
#[derive(Debug, PartialEq, Eq)]
pub enum ProbeEvent {
    /// The server's initial greeting.
    Greeting,
    /// The previously submitted command has been fully transmitted.
    CommandAcknowledged,
    /// A final status carrying the correlation tag it answers.
    TaggedStatus { tag: Vec<u8>, kind: StatusKind },
    /// A final status carrying no correlation tag.
    UntaggedStatus { kind: StatusKind },
    /// The server announced that it is closing the connection.
    BoundaryTermination,
    /// The server is ready to receive previously declared bulk data.
    ContinuationRequest,
    /// Anything else the server volunteered.
    OtherData,
}

/// Classification recorded by the tag-character enumeration probe.
#[derive(Clone, Copy, Debug, PartialEq, Eq, Structural)]
pub enum AllowedResult {
    /// The sent tag came back byte-for-byte intact.
    Reflected,
    /// A tagged status arrived, but its tag differs from the sent one.
    ReflectedBroken,
    /// The server answered with an untagged protocol-syntax-error status.
    Bad,
    /// The server announced connection termination.
    Bye,
    /// The session failed before a terminal event (transport or protocol
    /// error, or no connection at all).
    Error,
}

/// Outcome of one probe session.
#[derive(Clone, Copy, Debug, PartialEq, Eq, Structural)]
pub enum Verdict {
    /// Bisection probes: the candidate was tolerated (`true`) or refused.
    Decision(bool),
    /// Enumeration probe: the classification for one byte value.
    Classified(AllowedResult),
}

/// The fixed correlation tag of the max-literal probe, where the tag is not
/// under test: the single letter `A`.
pub open spec fn literal_probe_tag() -> Seq<u8> {
    seq![BYTE_A]
}

/// Classification table of the max-literal probe: a continuation request
/// means the declared length was tolerated; a final status under the
/// probe's fixed tag, or a connection-termination status, means it was
/// refused; everything else keeps the session reading.
pub open spec fn literal_class(e: ProbeEvent) -> Option<bool> {
    match e {
        ProbeEvent::ContinuationRequest => Some(true),
        ProbeEvent::TaggedStatus { tag, .. } => if tag@ == literal_probe_tag() {
            Some(false)
        } else {
            None
        },
        ProbeEvent::BoundaryTermination => Some(false),
        _ => None,
    }
}

/// Classification table of the max-tag probe: a final status echoing the
/// sent tag exactly means the tag was tolerated; connection termination, or
/// an untagged status marked as a protocol-syntax error, means it was
/// refused; everything else keeps the session reading.
pub open spec fn tag_class(sent: Seq<u8>, e: ProbeEvent) -> Option<bool> {
    match e {
        ProbeEvent::TaggedStatus { tag, .. } => if tag@ == sent {
            Some(true)
        } else {
            None
        },
        ProbeEvent::BoundaryTermination => Some(false),
        ProbeEvent::UntaggedStatus { kind } => if kind is Bad {
            Some(false)
        } else {
            None
        },
        _ => None,
    }
}

/// Classification table of the enumeration probe: any tagged final status
/// is terminal and is `Reflected` exactly when its tag equals the sent
/// bytes; an untagged protocol-syntax-error status, and connection
/// termination, are terminal; everything else keeps the session reading.
pub open spec fn allowed_class(sent: Seq<u8>, e: ProbeEvent) -> Option<AllowedResult> {
    match e {
        ProbeEvent::TaggedStatus { tag, .. } => Some(
            if tag@ == sent {
                AllowedResult::Reflected
            } else {
                AllowedResult::ReflectedBroken
            },
        ),
        ProbeEvent::UntaggedStatus { kind } => if kind is Bad {
            Some(AllowedResult::Bad)
        } else {
            None
        },
        ProbeEvent::BoundaryTermination => Some(AllowedResult::Bye),
        _ => None,
    }
}

/// Byte-for-byte comparison of two byte strings.
pub fn bytes_eq(a: &Vec<u8>, b: &Vec<u8>) -> (r: bool)
    ensures
        r == (a@ == b@),
{
    if a.len() != b.len() {
        return false;
    }
    let mut i: usize = 0;
    while i < a.len()
        invariant
            i <= a@.len(),
            a@.len() == b@.len(),
            forall|j: int| 0 <= j < i ==> a@[j] == b@[j],
        decreases a@.len() - i,
    {
        if a[i] != b[i] {
            return false;
        }
        i += 1;
    }
    proof {
        assert(a@ =~= b@);
    }
    true
}

/// Decimal representation of `n`, most significant digit first, as ASCII
/// digit bytes, with no leading zeros (a lone `0` for zero).
pub open spec fn dec_rep(n: nat) -> Seq<u8>
    decreases n,
{
    if n < 10 {
        seq![(48 + n) as u8]
    } else {
        dec_rep(n / 10).push((48 + n % 10) as u8)
    }
}

/// Append the decimal digits of `n`.
fn push_dec(n: u64, out: &mut Vec<u8>)
    ensures
        final(out)@ == old(out)@ + dec_rep(n as nat),
    decreases n,
{
    if n < 10 {
        out.push(48 + n as u8);
        proof {
            assert(out@ =~= old(out)@ + dec_rep(n as nat));
        }
    } else {
        push_dec(n / 10, out);
        out.push(48 + (n % 10) as u8);
        proof {
            assert(out@ =~= old(out)@ + dec_rep(n as nat));
        }
    }
}

/// The raw stimulus line of the max-literal probe: a login request under
/// the fixed tag that declares a literal of `n` bytes and stops there.
pub open spec fn literal_stimulus(n: u64) -> Seq<u8> {
    seq![BYTE_A, BYTE_SPACE, BYTE_L, BYTE_O, BYTE_G, BYTE_I, BYTE_N, BYTE_SPACE, BYTE_LBRACE] + dec_rep(n as nat) + seq![
        BYTE_RBRACE,
        BYTE_CR,
        BYTE_LF,
    ]
}

/// Build the max-literal stimulus line for candidate `n`.
pub fn build_literal_stimulus(n: u64) -> (r: Vec<u8>)
    ensures
        r@ == literal_stimulus(n),
{
    let mut v: Vec<u8> = Vec::new();
    v.push(BYTE_A);
    v.push(BYTE_SPACE);
    v.push(BYTE_L);
    v.push(BYTE_O);
    v.push(BYTE_G);
    v.push(BYTE_I);
    v.push(BYTE_N);
    v.push(BYTE_SPACE);
    v.push(BYTE_LBRACE);
    proof {
        assert(v@ =~= seq![BYTE_A, BYTE_SPACE, BYTE_L, BYTE_O, BYTE_G, BYTE_I, BYTE_N, BYTE_SPACE, BYTE_LBRACE]);
    }
    push_dec(n, &mut v);
    v.push(BYTE_RBRACE);
    v.push(BYTE_CR);
    v.push(BYTE_LF);
    proof {
        assert(v@ =~= literal_stimulus(n));
    }
    v
}

/// The tag under test in the max-tag probe: `n` repetitions of the letter
/// `A`.
pub open spec fn repeat_tag(n: nat) -> Seq<u8> {
    Seq::new(n, |i: int| BYTE_A)
}

/// Build the max-tag probe's tag for candidate length `n`.
pub fn build_repeat_tag(n: u64) -> (r: Vec<u8>)
    requires
        n <= usize::MAX,
    ensures
        r@ == repeat_tag(n as nat),
{
    let len: usize = n as usize;
    let mut v: Vec<u8> = Vec::new();
    let mut i: usize = 0;
    while i < len
        invariant
            i <= len,
            v@.len() == i,
            forall|j: int| 0 <= j < i ==> v@[j] == BYTE_A,
        decreases len - i,
    {
        v.push(BYTE_A);
        i += 1;
    }
    proof {
        assert(v@ =~= repeat_tag(n as nat));
    }
    v
}

/// The two tag bytes under test in the enumeration probe: the letter `A`
/// followed by the byte value itself.
pub open spec fn allowed_tag_bytes(b: u8) -> Seq<u8> {
    seq![BYTE_A, b]
}

/// Build the enumeration probe's tag for byte value `b`.
pub fn build_allowed_tag(b: u8) -> (r: Vec<u8>)
    ensures
        r@ == allowed_tag_bytes(b),
{
    let mut v: Vec<u8> = Vec::new();
    v.push(BYTE_A);
    v.push(b);
    proof {
        assert(v@ =~= allowed_tag_bytes(b));
    }
    v
}

/// The raw stimulus line of the enumeration probe: the two-byte tag under
/// test, then a no-op request.
pub open spec fn allowed_stimulus(b: u8) -> Seq<u8> {
    allowed_tag_bytes(b) + seq![BYTE_SPACE, BYTE_N, BYTE_O, BYTE_O, BYTE_P, BYTE_CR, BYTE_LF]
}

/// Build the enumeration probe's stimulus line for byte value `b`.
pub fn build_allowed_stimulus(b: u8) -> (r: Vec<u8>)
    ensures
        r@ == allowed_stimulus(b),
{
    let mut v: Vec<u8> = Vec::new();
    v.push(BYTE_A);
    v.push(b);
    v.push(BYTE_SPACE);
    v.push(BYTE_N);
    v.push(BYTE_O);
    v.push(BYTE_O);
    v.push(BYTE_P);
    v.push(BYTE_CR);
    v.push(BYTE_LF);
    proof {
        assert(v@ =~= allowed_stimulus(b));
    }
    v
}

/// Which probe a session runs, with the candidate value under test.
#[derive(Clone, Copy, Debug, PartialEq, Eq, Structural)]
pub enum ProbeKind {
    /// Declare a literal of `candidate` bytes; see whether the server asks
    /// for the data.
    MaxLiteral { candidate: u64 },
    /// Send a no-op under a tag of `length` repeated letters; see whether
    /// the server echoes it.
    MaxTag { length: u64 },
    /// Send a no-op under a two-byte tag ending in `byte`; record how the
    /// server reflects it.
    AllowedTag { byte: u8 },
}

/// The correlation tag a probe sends: fixed for the max-literal probe, the
/// value under test for the other two.
pub open spec fn sent_tag(p: ProbeKind) -> Seq<u8> {
    match p {
        ProbeKind::MaxLiteral { .. } => literal_probe_tag(),
        ProbeKind::MaxTag { length } => repeat_tag(length as nat),
        ProbeKind::AllowedTag { byte } => allowed_tag_bytes(byte),
    }
}

/// The verdict recorded when a session fails before reaching a terminal
/// classification (no connection, transport error, malformed reply):
/// bisection probes fold every failure into a rejection, the enumeration
/// probe records it as `Error`. A server crash is thus indistinguishable
/// from an active refusal; this conflation is deliberate and documented.
pub open spec fn failure_verdict(p: ProbeKind) -> Verdict {
    match p {
        ProbeKind::AllowedTag { .. } => Verdict::Classified(AllowedResult::Error),
        _ => Verdict::Decision(false),
    }
}

/// Classification dispatch: what a probe concludes from one event, if
/// anything.
pub open spec fn probe_class(p: ProbeKind, e: ProbeEvent) -> Option<Verdict> {
    match p {
        ProbeKind::MaxLiteral { .. } => match literal_class(e) {
            Some(b) => Some(Verdict::Decision(b)),
            None => None,
        },
        ProbeKind::MaxTag { length } => match tag_class(repeat_tag(length as nat), e) {
            Some(b) => Some(Verdict::Decision(b)),
            None => None,
        },
        ProbeKind::AllowedTag { byte } => match allowed_class(allowed_tag_bytes(byte), e) {
            Some(c) => Some(Verdict::Classified(c)),
            None => None,
        },
    }
}

/// Protocol phase of a probe session.
#[derive(Clone, Copy, Debug, PartialEq, Eq, Structural)]
pub enum Phase {
    /// A fresh connection is being opened.
    Connecting,
    /// Reading events until the server's greeting arrives; other events
    /// before the greeting are tolerated and ignored.
    AwaitingGreeting,
    /// The stimulus has just been handed to the caller for transmission.
    StimulusSent,
    /// Reading events until one classifies as terminal.
    AwaitingVerdict,
    /// The session is over; the verdict is available.
    Done(Verdict),
}

/// What the caller observed while carrying out the last action.
#[derive(Debug, PartialEq, Eq)]
pub enum SessionInput {
    /// The connection attempt succeeded.
    Connected,
    /// The connection attempt failed.
    ConnectFailed,
    /// The next protocol event arrived.
    Event(ProbeEvent),
    /// The transport or the framing engine reported an error.
    TransportFailed,
}

/// What the caller must do next for the session. After `SendRaw` or
/// `EnqueueNoop` the caller transmits the stimulus and then, exactly as
/// after `AwaitEvent`, feeds back the next event or a transport failure.
#[derive(Clone, Copy, Debug, PartialEq, Eq, Structural)]
pub enum SessionAction {
    /// Open a fresh connection to the target.
    Connect,
    /// Read the next protocol event.
    AwaitEvent,
    /// Write the session's raw stimulus line to the transport.
    SendRaw,
    /// Submit a well-formed no-op command under the session's tag.
    EnqueueNoop,
    /// Nothing remains: read the verdict.
    Halt,
}

/// Which inputs a phase can be fed: a connection outcome while connecting,
/// an event or a transport failure while reading, nothing once done.
pub open spec fn admits(ph: Phase, input: SessionInput) -> bool {
    match ph {
        Phase::Connecting => input is Connected || input is ConnectFailed,
        Phase::Done(..) => false,
        _ => input is Event || input is TransportFailed,
    }
}

/// The phase a session moves to on one input.
pub open spec fn next_phase(p: ProbeKind, ph: Phase, input: SessionInput) -> Phase
    recommends
        admits(ph, input),
{
    match input {
        SessionInput::Connected => Phase::AwaitingGreeting,
        SessionInput::ConnectFailed => Phase::Done(failure_verdict(p)),
        SessionInput::TransportFailed => Phase::Done(failure_verdict(p)),
        SessionInput::Event(e) => match ph {
            Phase::AwaitingGreeting => if e is Greeting {
                Phase::StimulusSent
            } else {
                Phase::AwaitingGreeting
            },
            Phase::StimulusSent => match probe_class(p, e) {
                Some(v) => Phase::Done(v),
                None => Phase::AwaitingVerdict,
            },
            Phase::AwaitingVerdict => match probe_class(p, e) {
                Some(v) => Phase::Done(v),
                None => Phase::AwaitingVerdict,
            },
            _ => ph,
        },
    }
}

/// The action owed for a phase: each phase asks for exactly one thing.
/// Entering `StimulusSent` asks for the one-time transmission of the
/// stimulus, structured for the max-tag probe and raw for the other two.
pub open spec fn action_for(p: ProbeKind, ph: Phase) -> SessionAction {
    match ph {
        Phase::Connecting => SessionAction::Connect,
        Phase::AwaitingGreeting => SessionAction::AwaitEvent,
        Phase::StimulusSent => if p is MaxTag {
            SessionAction::EnqueueNoop
        } else {
            SessionAction::SendRaw
        },
        Phase::AwaitingVerdict => SessionAction::AwaitEvent,
        Phase::Done(..) => SessionAction::Halt,
    }
}

/// One probe session: which probe it runs, the protocol phase reached, and
/// the tag bytes the stimulus carries (fixed at construction).
#[derive(Debug)]
pub struct ProbeSession {
    probe: ProbeKind,
    phase: Phase,
    sent: Vec<u8>,
}

impl ProbeSession {
    /// The probe this session runs.
    pub closed spec fn probe(&self) -> ProbeKind {
        self.probe
    }

    /// The protocol phase reached so far.
    pub closed spec fn phase(&self) -> Phase {
        self.phase
    }

    /// The stored tag bytes are exactly the tag the probe sends, and a
    /// max-tag probe's length fits the address space (the tag is
    /// materialized as a byte string).
    pub closed spec fn well_formed(&self) -> bool {
        &&& self.sent@ == sent_tag(self.probe)
        &&& (self.probe matches ProbeKind::MaxTag { length } ==> length <= usize::MAX)
    }

    /// Start a session for one probe. The session begins by asking the
    /// caller to connect.
    pub fn new(probe: ProbeKind) -> (s: Self)
        requires
            probe matches ProbeKind::MaxTag { length } ==> length <= usize::MAX,
        ensures
            s.well_formed(),
            s.probe() == probe,
            s.phase() is Connecting,
    {
        let sent: Vec<u8> = match probe {
            ProbeKind::MaxLiteral { .. } => build_literal_tag(),
            ProbeKind::MaxTag { length } => build_repeat_tag(length),
            ProbeKind::AllowedTag { byte } => build_allowed_tag(byte),
        };
        ProbeSession { probe, phase: Phase::Connecting, sent }
    }

    /// The action the session currently owes, a function of the phase.
    pub fn action(&self) -> (act: SessionAction)
        ensures
            act == action_for(self.probe(), self.phase()),
    {
        match self.phase {
            Phase::Connecting => SessionAction::Connect,
            Phase::AwaitingGreeting => SessionAction::AwaitEvent,
            Phase::StimulusSent => match self.probe {
                ProbeKind::MaxTag { .. } => SessionAction::EnqueueNoop,
                _ => SessionAction::SendRaw,
            },
            Phase::AwaitingVerdict => SessionAction::AwaitEvent,
            Phase::Done(..) => SessionAction::Halt,
        }
    }

    /// The correlation tag this session's stimulus carries.
    pub fn tag_bytes(&self) -> (r: &Vec<u8>)
        requires
            self.well_formed(),
        ensures
            r@ == sent_tag(self.probe()),
    {
        &self.sent
    }

    /// The raw stimulus line for the probes that transmit one (`SendRaw`);
    /// the max-tag probe submits a structured command instead.
    pub fn stimulus_line(&self) -> (r: Vec<u8>)
        requires
            self.well_formed(),
            !(self.probe() is MaxTag),
        ensures
            self.probe() matches ProbeKind::MaxLiteral { candidate } ==> r@ == literal_stimulus(
                candidate,
            ),
            self.probe() matches ProbeKind::AllowedTag { byte } ==> r@ == allowed_stimulus(byte),
    {
        match self.probe {
            ProbeKind::MaxLiteral { candidate } => build_literal_stimulus(candidate),
            ProbeKind::AllowedTag { byte } => build_allowed_stimulus(byte),
            ProbeKind::MaxTag { .. } => Vec::new(),
        }
    }

    /// Feed one observation in; the session moves one phase and answers
    /// with the next action owed.
    pub fn step(&mut self, input: SessionInput) -> (act: SessionAction)
        requires
            old(self).well_formed(),
            admits(old(self).phase(), input),
        ensures
            final(self).well_formed(),
            final(self).probe() == old(self).probe(),
            final(self).phase() == next_phase(old(self).probe(), old(self).phase(), input),
            act == action_for(old(self).probe(), final(self).phase()),
    {
        match input {
            SessionInput::Connected => {
                self.phase = Phase::AwaitingGreeting;
            },
            SessionInput::ConnectFailed => {
                self.phase = Phase::Done(self.failure());
            },
            SessionInput::TransportFailed => {
                self.phase = Phase::Done(self.failure());
            },
            SessionInput::Event(e) => match self.phase {
                Phase::AwaitingGreeting => {
                    if matches!(e, ProbeEvent::Greeting) {
                        self.phase = Phase::StimulusSent;
                    }
                },
                Phase::StimulusSent | Phase::AwaitingVerdict => {
                    match self.classify(&e) {
                        Some(v) => {
                            self.phase = Phase::Done(v);
                        },
                        None => {
                            self.phase = Phase::AwaitingVerdict;
                        },
                    }
                },
                _ => {},
            },
        }
        self.action()
    }

    /// The session's outcome, present exactly once the session is done.
    pub fn verdict(&self) -> (r: Option<Verdict>)
        ensures
            r is Some <==> self.phase() is Done,
            self.phase() matches Phase::Done(v) ==> r == Some(v),
    {
        match self.phase {
            Phase::Done(v) => Some(v),
            _ => None,
        }
    }

    /// The verdict recorded for a failed session.
    fn failure(&self) -> (r: Verdict)
        ensures
            r == failure_verdict(self.probe()),
    {
        match self.probe {
            ProbeKind::AllowedTag { .. } => Verdict::Classified(AllowedResult::Error),
            _ => Verdict::Decision(false),
        }
    }

    /// Classify one event for this session's probe.
    fn classify(&self, e: &ProbeEvent) -> (r: Option<Verdict>)
        requires
            self.well_formed(),
        ensures
            r == probe_class(self.probe(), *e),
    {
        match self.probe {
            ProbeKind::MaxLiteral { .. } => match classify_literal_event(e) {
                Some(b) => Some(Verdict::Decision(b)),
                None => None,
            },
            ProbeKind::MaxTag { .. } => match classify_tag_event(&self.sent, e) {
                Some(b) => Some(Verdict::Decision(b)),
                None => None,
            },
            ProbeKind::AllowedTag { .. } => match classify_allowed_event(&self.sent, e) {
                Some(c) => Some(Verdict::Classified(c)),
                None => None,
            },
        }
    }
}

/// The fixed max-literal tag, as bytes.
fn build_literal_tag() -> (r: Vec<u8>)
    ensures
        r@ == literal_probe_tag(),
{
    let mut v: Vec<u8> = Vec::new();
    v.push(BYTE_A);
    proof {
        assert(v@ =~= literal_probe_tag());
    }
    v
}

/// Classify one event for the max-literal probe.
pub fn classify_literal_event(e: &ProbeEvent) -> (r: Option<bool>)
    ensures
        r == literal_class(*e),
{
    match e {
        ProbeEvent::ContinuationRequest => Some(true),
        ProbeEvent::TaggedStatus { tag, .. } => {
            let fixed = build_literal_tag();
            if bytes_eq(tag, &fixed) {
                Some(false)
            } else {
                None
            }
        },
        ProbeEvent::BoundaryTermination => Some(false),
        _ => None,
    }
}

/// Classify one event for the max-tag probe with sent tag `sent`.
pub fn classify_tag_event(sent: &Vec<u8>, e: &ProbeEvent) -> (r: Option<bool>)
    ensures
        r == tag_class(sent@, *e),
{
    match e {
        ProbeEvent::TaggedStatus { tag, .. } => {
            if bytes_eq(tag, sent) {
                Some(true)
            } else {
                None
            }
        },
        ProbeEvent::BoundaryTermination => Some(false),
        ProbeEvent::UntaggedStatus { kind } => {
            if matches!(kind, StatusKind::Bad) {
                Some(false)
            } else {
                None
            }
        },
        _ => None,
    }
}

/// Classify one event for the enumeration probe with sent tag `sent`.
pub fn classify_allowed_event(sent: &Vec<u8>, e: &ProbeEvent) -> (r: Option<AllowedResult>)
    ensures
        r == allowed_class(sent@, *e),
{
    match e {
        ProbeEvent::TaggedStatus { tag, .. } => {
            if bytes_eq(tag, sent) {
                Some(AllowedResult::Reflected)
            } else {
                Some(AllowedResult::ReflectedBroken)
            }
        },
        ProbeEvent::UntaggedStatus { kind } => {
            if matches!(kind, StatusKind::Bad) {
                Some(AllowedResult::Bad)
            } else {
                None
            }
        },
        ProbeEvent::BoundaryTermination => Some(AllowedResult::Bye),
        _ => None,
    }
}

} // verus!

//! The frames of the control-plane protocol, what they are answered with, and when to connect
//! again.

use super::transport::TransportConfig;
use super::{AgentCommand, AgentResponse, QueueError};
use crate::text;
use rand::RngExt;
use vstd::arithmetic::power2::{lemma2_to64, lemma_pow2_strictly_increases, pow2};
use vstd::prelude::*;

verus! {

/// Protocol version advertised in the `Hello` frame.
pub const PROTOCOL_VERSION: &'static str = "2026-06-29";

/// Upper bound of the reconnect backoff, in milliseconds.
pub const MAX_RECONNECT_DELAY: u64 = 60_000;

/// Upper bound of the random part of a reconnect delay, in milliseconds.
pub const MAX_JITTER: u64 = 1_000;

/// Configuration of the outbound control-plane connection.
#[derive(Debug, Clone)]
pub struct WebSocketAgentConfig {
    /// Where to connect, and with what.
    pub transport: TransportConfig,
    /// Names this host to the control plane.
    pub host_id: String,
    /// Connect again when a session ends.
    pub reconnect: bool,
}

/// A frame of the control-plane protocol.
///
/// The agent sends `Hello`, `Response`, `Pong` and `Error`, and expects `Command` and `Ping`.
#[derive(Debug)]
pub enum TransportFrame {
    /// Opens a session.
    Hello {
        /// Names the host.
        host_id: String,
        /// Version of the agent.
        agent_version: String,
        /// Version of the protocol.
        protocol_version: String,
        /// Name of the host, if it has one.
        hostname: Option<String>,
        /// Operating system.
        os: String,
        /// Processor architecture.
        arch: String,
    },
    /// Carries a command to the agent.
    Command {
        /// The command.
        command: AgentCommand,
    },
    /// Carries the response to a command.
    Response {
        /// The response.
        response: AgentResponse,
    },
    /// Asks for a sign of life.
    Ping {
        /// Names the request.
        id: Option<String>,
        /// When it was sent.
        sent_at: Option<String>,
    },
    /// Gives a sign of life.
    Pong {
        /// The name of the request.
        id: Option<String>,
        /// When the request was sent.
        sent_at: Option<String>,
    },
    /// Tells that something went wrong.
    Error {
        /// What it was.
        error: String,
    },
}

/// What a frame asks the agent to do.
#[derive(Debug)]
pub enum FrameAction {
    /// Hand the command to the modules.
    Dispatch(AgentCommand),
    /// Send the frame.
    Reply(TransportFrame),
}

/// How the outcome of a command is told.
#[derive(Debug)]
pub struct DispatchReply {
    /// The frame to send.
    pub frame: TransportFrame,
    /// Why the session ends once the frame is sent, if it does.
    pub end: Option<SessionError>,
}

/// Why a session failed.
#[derive(Debug, Clone, Copy, PartialEq, Eq, Structural)]
pub enum SessionError {
    /// A message could not be read.
    ReadFailed,
    /// A message is not a frame.
    InvalidFrame,
    /// Commands do not get to the modules any more.
    QueueClosed,
}

/// The message that tells an operator of `error`.
pub open spec fn session_error_text(error: SessionError) -> Seq<char> {
    match error {
        SessionError::ReadFailed => "failed to read websocket message"@,
        SessionError::InvalidFrame => "invalid websocket frame JSON"@,
        SessionError::QueueClosed => "dispatch queue closed"@,
    }
}

impl SessionError {
    /// The message that tells an operator of the error.
    pub fn message(&self) -> (res: String)
        ensures
            res@ == session_error_text(*self),
    {
        match self {
            SessionError::ReadFailed => "failed to read websocket message".to_owned(),
            SessionError::InvalidFrame => "invalid websocket frame JSON".to_owned(),
            SessionError::QueueClosed => "dispatch queue closed".to_owned(),
        }
    }
}

/// The frame is an `Error` with this text.
pub open spec fn is_error(frame: TransportFrame, text: Seq<char>) -> bool {
    frame matches TransportFrame::Error { error } && error@ == text
}

/// The action is what `frame` asks for: a command is dispatched, a ping is answered with a
/// pong that repeats it, and any other frame is answered with an error.
pub open spec fn answers(action: FrameAction, frame: TransportFrame) -> bool {
    match frame {
        TransportFrame::Command { command } => action == FrameAction::Dispatch(command),
        TransportFrame::Ping { id, sent_at } => action == FrameAction::Reply(
            TransportFrame::Pong { id, sent_at },
        ),
        _ => action matches FrameAction::Reply(reply) && is_error(
            reply,
            "unsupported frame from control plane"@,
        ),
    }
}

/// The reply tells the outcome of a command: a response is sent as it is, a full queue is
/// reported, and a closed one is reported and ends the session.
pub open spec fn tells(reply: DispatchReply, outcome: Result<AgentResponse, QueueError>) -> bool {
    match outcome {
        Ok(response) => reply.frame == (TransportFrame::Response { response }) && reply.end is None,
        Err(QueueError::Full) => is_error(
            reply.frame,
            "Tetra command queue is full; retry after backoff"@,
        ) && reply.end is None,
        Err(QueueError::Closed) => is_error(reply.frame, "Tetra command queue is unavailable"@)
            && reply.end == Some(SessionError::QueueClosed),
    }
}

/// The frame introduces a host with these particulars, in the version of the protocol that the
/// agent speaks.
pub open spec fn is_hello(
    frame: TransportFrame,
    id: Seq<char>,
    version: Seq<char>,
    name: Option<String>,
    system: Seq<char>,
    processor: Seq<char>,
) -> bool {
    &&& frame matches TransportFrame::Hello {
        host_id,
        agent_version,
        protocol_version,
        hostname,
        os,
        arch,
    }
    &&& host_id@ == id
    &&& agent_version@ == version
    &&& protocol_version@ == "2026-06-29"@
    &&& hostname == name
    &&& os@ == system
    &&& arch@ == processor
}

impl TransportFrame {
    /// The frame that opens a session.
    pub fn hello(
        host_id: &str,
        agent_version: &str,
        hostname: Option<String>,
        os: &str,
        arch: &str,
    ) -> (res: Self)
        ensures
            is_hello(res, host_id@, agent_version@, hostname, os@, arch@),
    {
        TransportFrame::Hello {
            host_id: host_id.to_owned(),
            agent_version: agent_version.to_owned(),
            protocol_version: PROTOCOL_VERSION.to_owned(),
            hostname,
            os: os.to_owned(),
            arch: arch.to_owned(),
        }
    }

    /// What the frame asks the agent to do.
    pub fn handle(self) -> (res: FrameAction)
        ensures
            answers(res, self),
    {
        match self {
            TransportFrame::Command { command } => FrameAction::Dispatch(command),
            TransportFrame::Ping { id, sent_at } => FrameAction::Reply(
                TransportFrame::Pong { id, sent_at },
            ),
            TransportFrame::Hello { .. }
            | TransportFrame::Response { .. }
            | TransportFrame::Pong { .. }
            | TransportFrame::Error { .. } => FrameAction::Reply(
                TransportFrame::Error { error: "unsupported frame from control plane".to_owned() },
            ),
        }
    }
}

/// How to tell the outcome of a command.
pub fn dispatch_reply(outcome: Result<AgentResponse, QueueError>) -> (res: DispatchReply)
    ensures
        tells(res, outcome),
{
    match outcome {
        Ok(response) => DispatchReply { frame: TransportFrame::Response { response }, end: None },
        Err(QueueError::Full) => DispatchReply {
            frame: TransportFrame::Error {
                error: "Tetra command queue is full; retry after backoff".to_owned(),
            },
            end: None,
        },
        Err(QueueError::Closed) => DispatchReply {
            frame: TransportFrame::Error {
                error: "Tetra command queue is unavailable".to_owned(),
            },
            end: Some(SessionError::QueueClosed),
        },
    }
}

/// The name to show for a host with these values of `HOSTNAME` and `COMPUTERNAME`: the first
/// that is set, unless it is blank.
pub open spec fn shown_name(from_host: Option<String>, from_computer: Option<String>) -> Option<
    String,
> {
    let name = if from_host is Some {
        from_host
    } else {
        from_computer
    };
    match name {
        Some(value) if text::trimmed(value@).len() > 0 => Some(value),
        _ => None,
    }
}

/// Best-effort host name for the `Hello` frame, from the values of `HOSTNAME` and
/// `COMPUTERNAME`.
pub fn hostname(from_host: Option<String>, from_computer: Option<String>) -> (res: Option<String>)
    ensures
        res == shown_name(from_host, from_computer),
{
    let name = match from_host {
        Some(value) => Some(value),
        None => from_computer,
    };
    match name {
        Some(value) => {
            if text::trim(value.as_str()).is_empty() {
                None
            } else {
                Some(value)
            }
        },
        None => None,
    }
}

/// The reconnect backoff after so many failures in a row, in seconds: it doubles with each, up
/// to a minute.
pub open spec fn backoff_seconds(attempt: u32) -> nat {
    if pow2(attempt as nat) <= 60 {
        pow2(attempt as nat)
    } else {
        60
    }
}

/// The reconnect delay after so many failures in a row with this random part, in milliseconds,
/// as far as it can be counted.
pub open spec fn delay_of(attempt: u32, jitter: u64) -> int {
    if backoff_seconds(attempt) * 1000 + jitter <= u64::MAX {
        backoff_seconds(attempt) * 1000 + jitter
    } else {
        u64::MAX as int
    }
}

/// The reconnect delay after so many failures in a row with this random part, in milliseconds,
/// as far as it can be counted.
pub fn delay_with_jitter(attempt: u32, jitter: u64) -> (res: u64)
    ensures
        res == delay_of(attempt, jitter),
{
    let mut base: u64 = 1;
    let mut doubled: u32 = 0;
    let exponent: u32 = if attempt < 6 {
        attempt
    } else {
        6
    };
    proof {
        lemma2_to64();
    }
    while doubled < exponent
        invariant
            doubled <= exponent <= 6,
            base == pow2(doubled as nat),
            base <= 64,
        decreases exponent - doubled,
    {
        proof {
            lemma2_to64();
        }
        base = base * 2;
        doubled = doubled + 1;
    }
    proof {
        if attempt > 6 {
            lemma_pow2_strictly_increases(6, attempt as nat);
        }
    }
    let delay: u64 = base * 1000;
    let capped: u64 = if delay < MAX_RECONNECT_DELAY {
        delay
    } else {
        MAX_RECONNECT_DELAY
    };
    if jitter <= u64::MAX - capped {
        capped + jitter
    } else {
        u64::MAX
    }
}

/// `rand::RngExt::random_range` of the generator of the thread: some number up to `limit`. Which
/// one is left to chance.
#[verifier::external_body]
fn random_up_to(limit: u64) -> (res: u64)
    ensures
        res <= limit,
{
    rand::rng().random_range(0..=limit)
}

/// The reconnect delay after so many failures in a row, in milliseconds: exponential backoff
/// with up to a second of random jitter.
pub fn reconnect_delay(attempt: u32) -> (res: u64)
    ensures
        backoff_seconds(attempt) * 1000 <= res <= backoff_seconds(attempt) * 1000 + 1000,
{
    delay_with_jitter(attempt, random_up_to(MAX_JITTER))
}

/// What to do when a session has ended.
#[derive(Debug, Clone, Copy, PartialEq, Eq, Structural)]
pub enum NextSession {
    /// End with the outcome of the session.
    Stop,
    /// Connect again after a delay.
    Retry,
}

/// What to do when a session has ended, for an agent that connects again or does not.
pub open spec fn what_next(reconnect: bool) -> NextSession {
    if reconnect {
        NextSession::Retry
    } else {
        NextSession::Stop
    }
}

/// The reconnects of an agent.
#[derive(Debug)]
pub struct Reconnects {
    reconnect: bool,
    attempt: u32,
}

impl Reconnects {
    /// Whether sessions that end are followed by others.
    pub closed spec fn reconnect(&self) -> bool {
        self.reconnect
    }

    /// How many sessions have failed in a row, as far as that can be counted.
    pub closed spec fn attempt(&self) -> u32 {
        self.attempt
    }

    /// The reconnects of an agent that has not connected yet.
    pub fn new(reconnect: bool) -> (res: Self)
        ensures
            res.reconnect() == reconnect,
            res.attempt() == 0,
    {
        Reconnects { reconnect, attempt: 0 }
    }

    /// Takes note of the end of a session and says what to do.
    pub fn session_ended(&mut self, failed: bool) -> (res: NextSession)
        ensures
            final(self).reconnect() == old(self).reconnect(),
            res == what_next(old(self).reconnect()),
            !old(self).reconnect() ==> final(self).attempt() == old(self).attempt(),
            old(self).reconnect() ==> final(self).attempt() == next_attempt(
                old(self).attempt(),
                failed,
            ),
    {
        if !self.reconnect {
            return NextSession::Stop;
        }
        if failed {
            if self.attempt < u32::MAX {
                self.attempt = self.attempt + 1;
            }
        } else {
            self.attempt = 0;
        }
        NextSession::Retry
    }

    /// How long to wait before the next session, in milliseconds.
    pub fn delay(&self) -> (res: u64)
        ensures
            backoff_seconds(self.attempt()) * 1000 <= res <= backoff_seconds(self.attempt()) * 1000
                + 1000,
    {
        reconnect_delay(self.attempt)
    }
}

/// The count of failures in a row after one more session.
pub open spec fn next_attempt(attempt: u32, failed: bool) -> u32 {
    if !failed {
        0
    } else if attempt < u32::MAX {
        (attempt + 1) as u32
    } else {
        attempt
    }
}

/// The count of failures in a row after sessions that ended like this, `true` being a failure.
pub open spec fn attempt_after(failures: Seq<bool>) -> u32
    decreases failures.len(),
{
    if failures.len() == 0 {
        0
    } else {
        next_attempt(attempt_after(failures.drop_last()), failures.last())
    }
}

/// How many sessions at the end of `failures` failed.
pub open spec fn failures_in_a_row(failures: Seq<bool>) -> nat
    decreases failures.len(),
{
    if failures.len() == 0 || !failures.last() {
        0
    } else {
        failures_in_a_row(failures.drop_last()) + 1
    }
}

/// The backoff goes by the failures since the last session that ended well.
pub proof fn law_attempt_counts_failures_in_a_row(failures: Seq<bool>)
    ensures
        attempt_after(failures) == if failures_in_a_row(failures) <= u32::MAX {
            failures_in_a_row(failures) as int
        } else {
            u32::MAX as int
        },
    decreases failures.len(),
{
    if failures.len() > 0 {
        law_attempt_counts_failures_in_a_row(failures.drop_last());
    }
}

/// The backoff starts at a second, never shrinks with one more failure, and never exceeds a
/// minute.
pub proof fn law_backoff(attempt: u32)
    ensures
        backoff_seconds(0) == 1,
        1 <= backoff_seconds(attempt) <= 60,
        attempt < u32::MAX ==> backoff_seconds(attempt) <= backoff_seconds((attempt + 1) as u32)
            <= 2 * backoff_seconds(attempt),
{
    lemma2_to64();
    if attempt < u32::MAX {
        vstd::arithmetic::power2::lemma_pow2_unfold((attempt + 1) as nat);
    }
    if attempt > 0 {
        lemma_pow2_strictly_increases(0, attempt as nat);
    }
}

/// A host introduces itself with exactly its particulars, and in the one version of the protocol.
pub proof fn law_hello(
    frame: TransportFrame,
    id: Seq<char>,
    version: Seq<char>,
    name: Option<String>,
    system: Seq<char>,
    processor: Seq<char>,
)
    requires
        is_hello(frame, id, version, name, system, processor),
    ensures
        frame is Hello,
        frame->host_id@ == id,
        frame->agent_version@ == version,
        frame->protocol_version@ == "2026-06-29"@,
        frame->hostname == name,
        frame->os@ == system,
        frame->arch@ == processor,
{
}

/// The backoff starts at a second and doubles with each failure, until it would exceed a minute.
pub proof fn law_backoff_doubles(attempt: u32)
    requires
        attempt < u32::MAX,
    ensures
        backoff_seconds(0) == 1,
        2 * backoff_seconds(attempt) <= 60 ==> backoff_seconds((attempt + 1) as u32) == 2
            * backoff_seconds(attempt),
        2 * backoff_seconds(attempt) > 60 ==> backoff_seconds((attempt + 1) as u32) == 60,
{
    lemma2_to64();
    vstd::arithmetic::power2::lemma_pow2_unfold((attempt + 1) as nat);
    if attempt > 0 {
        lemma_pow2_strictly_increases(0, attempt as nat);
    }
}

/// Jitter comes on top of the backoff, one millisecond for one, and the delay without any is the
/// backoff.
pub proof fn law_delay(attempt: u32, jitter: u64)
    requires
        jitter <= MAX_JITTER,
    ensures
        delay_of(attempt, 0) == 1000 * backoff_seconds(attempt),
        delay_of(attempt, jitter) - delay_of(attempt, 0) == jitter,
        1000 <= delay_of(attempt, jitter) <= MAX_RECONNECT_DELAY + MAX_JITTER,
        MAX_RECONNECT_DELAY == 60_000 && MAX_JITTER == 1_000,
{
    law_backoff(attempt);
}

/// A session is followed by another exactly if the agent connects again, however it ended.
pub proof fn law_reconnects(reconnect: bool, attempt: u32)
    ensures
        what_next(reconnect) is Retry <==> reconnect,
        what_next(reconnect) is Stop <==> !reconnect,
        next_attempt(attempt, false) == 0,
        attempt < u32::MAX ==> next_attempt(attempt, true) == attempt + 1,
{
}

/// The name that is shown is that of `HOSTNAME` if it is set and that of `COMPUTERNAME`
/// otherwise, exactly as it is, unless there is nothing in it but white space.
pub proof fn law_shown_name(from_host: Option<String>, from_computer: Option<String>)
    ensures
        from_host matches Some(name) ==> shown_name(from_host, from_computer) == if text::all_space(
            name@,
        ) {
            None::<String>
        } else {
            Some(name)
        },
        from_host is None ==> (from_computer matches Some(name) ==> shown_name(
            from_host,
            from_computer,
        ) == if text::all_space(name@) {
            None::<String>
        } else {
            Some(name)
        }),
        from_host is None && from_computer is None ==> shown_name(from_host, from_computer) is None,
{
    if let Some(name) = from_host {
        text::law_blank(name@);
    } else if let Some(name) = from_computer {
        text::law_blank(name@);
    }
}

/// An error frame tells its text and nothing else.
pub proof fn law_error_frames(frame: TransportFrame, text: Seq<char>)
    ensures
        is_error(frame, text) <==> frame is Error && frame->error@ == text,
{
}

/// A frame asks for one thing only: a command to be dispatched as it is, a ping to be repeated,
/// and any other frame to be turned down.
pub proof fn law_answers(action: FrameAction, frame: TransportFrame)
    requires
        answers(action, frame),
    ensures
        frame matches TransportFrame::Command { command } ==> action == FrameAction::Dispatch(
            command,
        ),
        frame matches TransportFrame::Ping { id, sent_at } ==> action == FrameAction::Reply(
            TransportFrame::Pong { id, sent_at },
        ),
        frame is Hello || frame is Response || frame is Pong || frame is Error ==> (
        action matches FrameAction::Reply(reply) && reply is Error && reply->error@
            == "unsupported frame from control plane"@),
{
}

/// The outcome of a command is told as it is, and only a closed queue ends the session.
pub proof fn law_outcomes(reply: DispatchReply, outcome: Result<AgentResponse, QueueError>)
    requires
        tells(reply, outcome),
    ensures
        outcome matches Ok(response) ==> reply.frame == (TransportFrame::Response { response }),
        outcome is Err ==> reply.frame is Error,
        outcome == Err::<AgentResponse, QueueError>(QueueError::Full) ==> reply.frame->error@
            == "Tetra command queue is full; retry after backoff"@,
        outcome == Err::<AgentResponse, QueueError>(QueueError::Closed) ==> reply.frame->error@
            == "Tetra command queue is unavailable"@,
        reply.end is Some <==> outcome == Err::<AgentResponse, QueueError>(QueueError::Closed),
        reply.end matches Some(error) ==> error == SessionError::QueueClosed,
{
}

} // verus!

//! One session with the control plane, as a machine that is driven step by step.
//!
//! A session names the one [`SessionAction`] to take next. Whoever drives it takes that action
//! and reports what came of it as a [`SessionEvent`]. A frame that cannot be sent is not
//! reported: the drive ends there.

use super::websocket::{
    answers, dispatch_reply, is_error, is_hello, tells, DispatchReply, FrameAction, SessionError,
    TransportFrame,
};
use super::{AgentCommand, AgentResponse, QueueError};
use vstd::prelude::*;

verus! {

/// What came over the socket.
#[derive(Debug)]
pub enum SocketEvent {
    /// A text or binary message that is a frame.
    Frame(TransportFrame),
    /// A text or binary message that is no frame.
    InvalidFrame,
    /// A ping of the WebSocket protocol.
    Ping(Vec<u8>),
    /// A pong of the WebSocket protocol.
    Pong,
    /// A raw frame of the WebSocket protocol.
    RawFrame,
    /// The control plane closed the socket.
    Close,
    /// A message could not be read.
    ReadFailed,
    /// No more messages will come.
    EndOfStream,
}

/// What to do next.
#[derive(Debug)]
pub enum SessionAction {
    /// Send a frame; report `Sent`.
    Send(TransportFrame),
    /// Send a pong of the WebSocket protocol with this payload; report `Sent`.
    Echo(Vec<u8>),
    /// Wait for what comes over the socket; report it as `Received`.
    Read,
    /// Hand the command to the modules; report the outcome as `Dispatched`.
    Dispatch(AgentCommand),
    /// End the session with success.
    Finish,
    /// End the session with an error.
    Abort(SessionError),
}

/// What came of an action.
#[derive(Debug)]
pub enum SessionEvent {
    /// It was sent.
    Sent,
    /// This came over the socket.
    Received(SocketEvent),
    /// The modules answered, or the command did not get to them.
    Dispatched(Result<AgentResponse, QueueError>),
}

/// What a session waits for.
#[derive(Debug, Clone, Copy)]
pub enum Stage {
    /// Something is being sent, after which the session fails if there is an error here.
    Sending(Option<SessionError>),
    /// Something is to come over the socket.
    Reading,
    /// A command is with the modules.
    Dispatching,
    /// The session is over.
    Over,
}

/// The event is one that a session at this stage waits for.
pub open spec fn awaits(stage: Stage, event: SessionEvent) -> bool {
    match event {
        SessionEvent::Sent => stage is Sending,
        SessionEvent::Received(_) => stage is Reading,
        SessionEvent::Dispatched(_) => stage is Dispatching,
    }
}

/// What follows on what came over the socket: a frame is answered, a ping is echoed, and the
/// session ends when the socket does.
pub open spec fn takes(received: SocketEvent, after: Stage, action: SessionAction) -> bool {
    match received {
        SocketEvent::Frame(frame) => match action {
            SessionAction::Dispatch(command) => after is Dispatching && answers(
                FrameAction::Dispatch(command),
                frame,
            ),
            SessionAction::Send(reply) => after == Stage::Sending(None) && answers(
                FrameAction::Reply(reply),
                frame,
            ),
            _ => false,
        },
        SocketEvent::InvalidFrame => after is Over && action == SessionAction::Abort(
            SessionError::InvalidFrame,
        ),
        SocketEvent::Ping(payload) => after == Stage::Sending(None) && action
            == SessionAction::Echo(payload),
        SocketEvent::Pong => after is Reading && action is Read,
        SocketEvent::RawFrame => after is Reading && action is Read,
        SocketEvent::Close => after is Over && action is Finish,
        SocketEvent::ReadFailed => after is Over && action == SessionAction::Abort(
            SessionError::ReadFailed,
        ),
        SocketEvent::EndOfStream => after is Over && action is Finish,
    }
}

/// From the stage `before`, `event` leads to the stage `after` and asks for `action`.
pub open spec fn leads(
    before: Stage,
    event: SessionEvent,
    after: Stage,
    action: SessionAction,
) -> bool {
    match (before, event) {
        (Stage::Sending(None), SessionEvent::Sent) => after is Reading && action is Read,
        (Stage::Sending(Some(error)), SessionEvent::Sent) => after is Over && action
            == SessionAction::Abort(error),
        (Stage::Reading, SessionEvent::Received(received)) => takes(received, after, action),
        (Stage::Dispatching, SessionEvent::Dispatched(outcome)) => {
            &&& action is Send
            &&& after is Sending
            &&& tells(DispatchReply { frame: action->Send_0, end: after->Sending_0 }, outcome)
        },
        _ => false,
    }
}

/// One session with the control plane.
#[derive(Debug)]
pub struct Session {
    stage: Stage,
}

impl Session {
    /// What the session waits for.
    pub closed spec fn stage(&self) -> Stage {
        self.stage
    }

    /// Opens a session, for which a host introduces itself.
    pub fn open(
        host_id: &str,
        agent_version: &str,
        hostname: Option<String>,
        os: &str,
        arch: &str,
    ) -> (res: (Self, SessionAction))
        ensures
            res.0.stage() == Stage::Sending(None),
            res.1 matches SessionAction::Send(frame) && is_hello(
                frame,
                host_id@,
                agent_version@,
                hostname,
                os@,
                arch@,
            ),
    {
        let hello = TransportFrame::hello(host_id, agent_version, hostname, os, arch);
        (Session { stage: Stage::Sending(None) }, SessionAction::Send(hello))
    }

    /// Takes note of what came of the last action and says what to do next; nothing if the
    /// session does not wait for such an event.
    pub fn advance(&mut self, event: SessionEvent) -> (res: Option<SessionAction>)
        ensures
            match res {
                Some(action) => leads(old(self).stage(), event, final(self).stage(), action),
                None => !awaits(old(self).stage(), event) && final(self).stage() == old(
                    self,
                ).stage(),
            },
    {
        match (self.stage, event) {
            (Stage::Sending(None), SessionEvent::Sent) => {
                self.stage = Stage::Reading;
                Some(SessionAction::Read)
            },
            (Stage::Sending(Some(error)), SessionEvent::Sent) => {
                self.stage = Stage::Over;
                Some(SessionAction::Abort(error))
            },
            (Stage::Reading, SessionEvent::Received(received)) => Some(self.take(received)),
            (Stage::Dispatching, SessionEvent::Dispatched(outcome)) => {
                let reply = dispatch_reply(outcome);
                self.stage = Stage::Sending(reply.end);
                Some(SessionAction::Send(reply.frame))
            },
            _ => None,
        }
    }

    fn take(&mut self, received: SocketEvent) -> (res: SessionAction)
        ensures
            takes(received, final(self).stage(), res),
    {
        match received {
            SocketEvent::Frame(frame) => match frame.handle() {
                FrameAction::Dispatch(command) => {
                    self.stage = Stage::Dispatching;
                    SessionAction::Dispatch(command)
                },
                FrameAction::Reply(reply) => {
                    self.stage = Stage::Sending(None);
                    SessionAction::Send(reply)
                },
            },
            SocketEvent::InvalidFrame => {
                self.stage = Stage::Over;
                SessionAction::Abort(SessionError::InvalidFrame)
            },
            SocketEvent::Ping(payload) => {
                self.stage = Stage::Sending(None);
                SessionAction::Echo(payload)
            },
            SocketEvent::Pong | SocketEvent::RawFrame => {
                self.stage = Stage::Reading;
                SessionAction::Read
            },
            SocketEvent::Close | SocketEvent::EndOfStream => {
                self.stage = Stage::Over;
                SessionAction::Finish
            },
            SocketEvent::ReadFailed => {
                self.stage = Stage::Over;
                SessionAction::Abort(SessionError::ReadFailed)
            },
        }
    }
}

/// The course of a session: the events that were taken note of, the stages around them, and
/// the actions that were asked for at those stages, the first of which says hello.
pub open spec fn is_course(
    stages: Seq<Stage>,
    actions: Seq<SessionAction>,
    events: Seq<SessionEvent>,
) -> bool {
    &&& stages.len() == events.len() + 1
    &&& actions.len() == events.len() + 1
    &&& stages[0] == Stage::Sending(None)
    &&& actions[0] matches SessionAction::Send(frame) && frame is Hello
    &&& forall|i: int|
        0 <= i < events.len() ==> leads(
            stages[i],
            #[trigger] events[i],
            stages[i + 1],
            actions[i + 1],
        )
}

/// A session says hello first, and never again; otherwise it sends no other frames than
/// `Response`, `Pong` and `Error`.
pub proof fn law_sent_frames(
    stages: Seq<Stage>,
    actions: Seq<SessionAction>,
    events: Seq<SessionEvent>,
    i: int,
)
    requires
        is_course(stages, actions, events),
        0 <= i < actions.len(),
    ensures
        actions[i] matches SessionAction::Send(frame) ==> if i == 0 {
            frame is Hello
        } else {
            frame is Response || frame is Pong || frame is Error
        },
{
    if i > 0 {
        assert(leads(stages[i - 1], events[i - 1], stages[i], actions[i]));
    }
}

/// A command is dispatched only when it has come over the socket, and the outcome is told
/// before anything else is read.
pub proof fn law_commands_are_answered(
    stages: Seq<Stage>,
    actions: Seq<SessionAction>,
    events: Seq<SessionEvent>,
    i: int,
)
    requires
        is_course(stages, actions, events),
        0 <= i < actions.len(),
        actions[i] is Dispatch,
    ensures
        i > 0,
        events[i - 1] == SessionEvent::Received(
            SocketEvent::Frame(TransportFrame::Command { command: actions[i]->Dispatch_0 }),
        ),
        i < events.len() ==> {
            &&& events[i] is Dispatched
            &&& actions[i + 1] is Send
            &&& events[i]->Dispatched_0 matches Ok(response) ==> actions[i + 1]->Send_0 == (
            TransportFrame::Response { response })
            &&& events[i]->Dispatched_0 is Err ==> actions[i + 1]->Send_0 is Error
        },
{
    assert(leads(stages[i - 1], events[i - 1], stages[i], actions[i]));
    if i < events.len() {
        assert(leads(stages[i], events[i], stages[i + 1], actions[i + 1]));
    }
}

/// A session that fails because commands do not get to the modules any more has told the
/// control plane so.
pub proof fn law_closed_queue_is_told(
    stages: Seq<Stage>,
    actions: Seq<SessionAction>,
    events: Seq<SessionEvent>,
    i: int,
)
    requires
        is_course(stages, actions, events),
        0 <= i < actions.len(),
        actions[i] == SessionAction::Abort(SessionError::QueueClosed),
    ensures
        i >= 2,
        events[i - 2] == SessionEvent::Dispatched(Err(QueueError::Closed)),
        actions[i - 1] matches SessionAction::Send(frame) && is_error(
            frame,
            "Tetra command queue is unavailable"@,
        ),
{
    assert(leads(stages[i - 1], events[i - 1], stages[i], actions[i]));
    assert(i >= 2);
    assert(leads(stages[i - 2], events[i - 2], stages[i - 1], actions[i - 1]));
}

/// A frame that the control plane should not send is answered with an error, and does not end
/// the session.
pub proof fn law_unsupported_frames_are_rejected(
    stages: Seq<Stage>,
    actions: Seq<SessionAction>,
    events: Seq<SessionEvent>,
    i: int,
    frame: TransportFrame,
)
    requires
        is_course(stages, actions, events),
        0 <= i < events.len(),
        events[i] == SessionEvent::Received(SocketEvent::Frame(frame)),
        frame is Hello || frame is Response || frame is Pong || frame is Error,
    ensures
        actions[i + 1] matches SessionAction::Send(reply) && is_error(
            reply,
            "unsupported frame from control plane"@,
        ),
        i + 1 < events.len() ==> actions[i + 2] is Read,
{
    assert(leads(stages[i], events[i], stages[i + 1], actions[i + 1]));
    if i + 1 < events.len() {
        assert(leads(stages[i + 1], events[i + 1], stages[i + 2], actions[i + 2]));
    }
}

/// A session ends with success exactly when the socket was closed or no more messages come.
pub proof fn law_success_is_the_end_of_the_socket(
    stages: Seq<Stage>,
    actions: Seq<SessionAction>,
    events: Seq<SessionEvent>,
    i: int,
)
    requires
        is_course(stages, actions, events),
        0 <= i < events.len(),
    ensures
        actions[i + 1] is Finish <==> (events[i] == SessionEvent::Received(SocketEvent::Close)
            || events[i] == SessionEvent::Received(SocketEvent::EndOfStream)),
{
    assert(leads(stages[i], events[i], stages[i + 1], actions[i + 1]));
}

/// How many frames were to be sent.
pub open spec fn frames_sent(actions: Seq<SessionAction>) -> nat
    decreases actions.len(),
{
    if actions.len() == 0 {
        0
    } else {
        frames_sent(actions.drop_last()) + if actions.last() is Send {
            1nat
        } else {
            0nat
        }
    }
}

/// How many frames came over the socket.
pub open spec fn frames_received(events: Seq<SessionEvent>) -> nat
    decreases events.len(),
{
    if events.len() == 0 {
        0
    } else {
        frames_received(events.drop_last()) + if events.last() matches SessionEvent::Received(
            received,
        ) && received is Frame {
            1nat
        } else {
            0nat
        }
    }
}

/// Every frame that came is answered with one frame: besides the hello, as many were to be sent
/// as came, and one less while a command is with the modules.
pub proof fn law_one_reply_to_each_frame(
    stages: Seq<Stage>,
    actions: Seq<SessionAction>,
    events: Seq<SessionEvent>,
    i: int,
)
    requires
        is_course(stages, actions, events),
        0 <= i < actions.len(),
    ensures
        frames_sent(actions.take(i + 1)) + (if stages[i] is Dispatching {
            1nat
        } else {
            0nat
        }) == 1 + frames_received(events.take(i)),
        actions[i] is Read ==> frames_sent(actions.take(i + 1)) == 1 + frames_received(
            events.take(i),
        ),
    decreases i,
{
    assert(actions.take(i + 1).drop_last() =~= actions.take(i));
    if i > 0 {
        law_one_reply_to_each_frame(stages, actions, events, i - 1);
        assert(leads(stages[i - 1], events[i - 1], stages[i], actions[i]));
        assert(events.take(i).drop_last() =~= events.take(i - 1));
    } else {
        assert(actions.take(0).len() == 0);
        assert(events.take(0).len() == 0);
    }
}

/// A session ends when it says so, and only then: what it asks for last is the only thing that
/// can end it.
pub proof fn law_end_is_last(
    stages: Seq<Stage>,
    actions: Seq<SessionAction>,
    events: Seq<SessionEvent>,
    i: int,
)
    requires
        is_course(stages, actions, events),
        0 <= i < actions.len(),
        actions[i] is Finish || actions[i] is Abort,
    ensures
        i == events.len(),
{
    assert(leads(stages[i - 1], events[i - 1], stages[i], actions[i]));
    if i < events.len() {
        assert(leads(stages[i], events[i], stages[i + 1], actions[i + 1]));
    }
}

/// Every command that comes over the socket is handed to the modules as it is, whatever it is
/// for.
pub proof fn law_every_command_is_dispatched(
    stages: Seq<Stage>,
    actions: Seq<SessionAction>,
    events: Seq<SessionEvent>,
    i: int,
    command: AgentCommand,
)
    requires
        is_course(stages, actions, events),
        0 <= i < events.len(),
        events[i] == SessionEvent::Received(
            SocketEvent::Frame(TransportFrame::Command { command }),
        ),
    ensures
        actions[i + 1] == SessionAction::Dispatch(command),
{
    assert(leads(stages[i], events[i], stages[i + 1], actions[i + 1]));
}

/// Every ping is answered with what came in it: one of the protocol of the agent with a pong
/// that repeats it, one of the WebSocket protocol with its payload.
pub proof fn law_every_ping_is_answered(
    stages: Seq<Stage>,
    actions: Seq<SessionAction>,
    events: Seq<SessionEvent>,
    i: int,
)
    requires
        is_course(stages, actions, events),
        0 <= i < events.len(),
    ensures
        events[i] matches SessionEvent::Received(
            SocketEvent::Frame(TransportFrame::Ping { id, sent_at }),
        ) ==> actions[i + 1] == SessionAction::Send(TransportFrame::Pong { id, sent_at }),
        events[i] matches SessionEvent::Received(SocketEvent::Ping(payload)) ==> actions[i + 1]
            == SessionAction::Echo(payload),
{
    assert(leads(stages[i], events[i], stages[i + 1], actions[i + 1]));
}

/// Every outcome of a command is told: a response as it is, a full queue so that the control
/// plane may try again, a closed one as such.
pub proof fn law_every_outcome_is_told(
    stages: Seq<Stage>,
    actions: Seq<SessionAction>,
    events: Seq<SessionEvent>,
    i: int,
)
    requires
        is_course(stages, actions, events),
        0 <= i < events.len(),
        events[i] is Dispatched,
    ensures
        actions[i + 1] matches SessionAction::Send(frame) && match events[i]->Dispatched_0 {
            Ok(response) => frame == (TransportFrame::Response { response }),
            Err(QueueError::Full) => is_error(
                frame,
                "Tetra command queue is full; retry after backoff"@,
            ),
            Err(QueueError::Closed) => is_error(frame, "Tetra command queue is unavailable"@),
        },
{
    assert(leads(stages[i], events[i], stages[i + 1], actions[i + 1]));
}

/// Once something is sent, the session reads on, unless it told that commands do not get to the
/// modules any more: then it fails for that reason.
pub proof fn law_session_reads_on(
    stages: Seq<Stage>,
    actions: Seq<SessionAction>,
    events: Seq<SessionEvent>,
    i: int,
)
    requires
        is_course(stages, actions, events),
        0 <= i < events.len(),
        events[i] is Sent,
    ensures
        if i > 0 && events[i - 1] == SessionEvent::Dispatched(Err(QueueError::Closed)) {
            actions[i + 1] == SessionAction::Abort(SessionError::QueueClosed)
        } else {
            actions[i + 1] is Read
        },
{
    assert(leads(stages[i], events[i], stages[i + 1], actions[i + 1]));
    if i > 0 {
        assert(leads(stages[i - 1], events[i - 1], stages[i], actions[i]));
    }
}

/// What needs no answer is passed over, and what cannot be read ends the session with the error
/// that says so.
pub proof fn law_other_messages(
    stages: Seq<Stage>,
    actions: Seq<SessionAction>,
    events: Seq<SessionEvent>,
    i: int,
)
    requires
        is_course(stages, actions, events),
        0 <= i < events.len(),
    ensures
        events[i] == SessionEvent::Received(SocketEvent::Pong) || events[i]
            == SessionEvent::Received(SocketEvent::RawFrame) ==> actions[i + 1] is Read,
        events[i] == SessionEvent::Received(SocketEvent::InvalidFrame) ==> actions[i + 1]
            == SessionAction::Abort(SessionError::InvalidFrame),
        events[i] == SessionEvent::Received(SocketEvent::ReadFailed) ==> actions[i + 1]
            == SessionAction::Abort(SessionError::ReadFailed),
        actions[i + 1] is Abort ==> {
            ||| events[i] == SessionEvent::Received(SocketEvent::InvalidFrame)
            ||| events[i] == SessionEvent::Received(SocketEvent::ReadFailed)
            ||| events[i] is Sent
        },
{
    assert(leads(stages[i], events[i], stages[i + 1], actions[i + 1]));
}

/// A session waits for what comes of the action that it asked for, whatever that may be, and for
/// nothing else.
pub proof fn law_session_awaits_what_it_asked_for(
    stages: Seq<Stage>,
    actions: Seq<SessionAction>,
    events: Seq<SessionEvent>,
    event: SessionEvent,
)
    requires
        is_course(stages, actions, events),
    ensures
        awaits(stages.last(), event) <==> match actions.last() {
            SessionAction::Send(_) => event is Sent,
            SessionAction::Echo(_) => event is Sent,
            SessionAction::Read => event is Received,
            SessionAction::Dispatch(_) => event is Dispatched,
            SessionAction::Finish => false,
            SessionAction::Abort(_) => false,
        },
{
    let last = events.len() as int;
    if last > 0 {
        assert(leads(stages[last - 1], events[last - 1], stages[last], actions[last]));
    }
}

} // verus!

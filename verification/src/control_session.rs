//! The ControlPort client's session: when to connect, when to
//! authenticate, and when a command may be sent.
//!
//! A client holds at most one connection and authenticates it once. A command
//! on an unauthenticated client first connects (if needed) and authenticates;
//! a failed authentication drops the connection so that the next command
//! starts afresh. `ControlSession` makes these decisions; the caller opens
//! the connection, prepares the `AUTHENTICATE` command, and exchanges frames,
//! reporting each result.
use vstd::prelude::*;
use vstd::string::*;

use crate::control::{
    check_command_frame, command_reply_outcome, is_single_line, join_lines, no_connection_error,
    ControlErrorView, TorControlError, TorControlReply,
};

verus! {

/// What a session operation is for.
#[derive(Debug, Clone, PartialEq, Eq)]
pub enum Goal {
    /// Authenticate the connection, opening it if needed; a failed
    /// authentication keeps the connection.
    Authenticate,
    /// Connect and authenticate as needed; a failed authentication drops the
    /// connection.
    Connect,
    /// Send this command, connecting and authenticating first as needed.
    Command(String),
}

/// The abstract goal.
pub enum GoalView {
    Authenticate,
    Connect,
    Command(Seq<char>),
}

impl View for Goal {
    type V = GoalView;

    open spec fn view(&self) -> GoalView {
        match self {
            Goal::Authenticate => GoalView::Authenticate,
            Goal::Connect => GoalView::Connect,
            Goal::Command(c) => GoalView::Command(c@),
        }
    }
}

/// Where a session operation is.
#[derive(Debug)]
pub enum SessionStage {
    /// No operation in progress.
    Ready,
    /// Waiting for the connection to open.
    Opening(Goal),
    /// Waiting for the `AUTHENTICATE` command to be prepared.
    PreparingAuth(Goal),
    /// Waiting for the reply to `AUTHENTICATE`.
    Authenticating(Goal),
    /// Waiting for the reply to the command.
    Sending,
}

/// The abstract stage.
pub enum StageView {
    Ready,
    Opening(GoalView),
    PreparingAuth(GoalView),
    Authenticating(GoalView),
    Sending,
}

impl View for SessionStage {
    type V = StageView;

    open spec fn view(&self) -> StageView {
        match self {
            SessionStage::Ready => StageView::Ready,
            SessionStage::Opening(g) => StageView::Opening(g@),
            SessionStage::PreparingAuth(g) => StageView::PreparingAuth(g@),
            SessionStage::Authenticating(g) => StageView::Authenticating(g@),
            SessionStage::Sending => StageView::Sending,
        }
    }
}

/// Work the session asks its caller to do.
#[derive(Debug)]
pub enum SessionEffect {
    /// Open the connection; report `Opened`.
    Open,
    /// Prepare the `AUTHENTICATE` command (reading the cookie if needed);
    /// report `AuthPrepared`.
    PrepareAuth,
    /// Write this frame and read the reply; report `Exchanged`.
    Exchange(String),
    /// The operation is over: the reply to the command (`None` for a goal
    /// without command), or the error.
    Finish(Result<Option<TorControlReply>, TorControlError>),
}

/// A reply by its view.
pub type ReplyView = (u16, Seq<Seq<char>>);

/// The abstract effect.
pub enum EffectView {
    Open,
    PrepareAuth,
    Exchange(Seq<char>),
    Finish(Result<Option<ReplyView>, ControlErrorView>),
}

impl View for SessionEffect {
    type V = EffectView;

    open spec fn view(&self) -> EffectView {
        match self {
            SessionEffect::Open => EffectView::Open,
            SessionEffect::PrepareAuth => EffectView::PrepareAuth,
            SessionEffect::Exchange(frame) => EffectView::Exchange(frame@),
            SessionEffect::Finish(Ok(Some(reply))) => EffectView::Finish(Ok(Some(reply@))),
            SessionEffect::Finish(Ok(None)) => EffectView::Finish(Ok(None)),
            SessionEffect::Finish(Err(e)) => EffectView::Finish(Err(e@)),
        }
    }
}

/// A result the caller reports.
#[derive(Debug)]
pub enum SessionInput {
    /// Opening the connection finished.
    Opened(Result<(), TorControlError>),
    /// Preparing `AUTHENTICATE` finished.
    AuthPrepared(Result<String, TorControlError>),
    /// A frame was written and its reply read, or this failed.
    Exchanged(Result<TorControlReply, TorControlError>),
}

/// The abstract input.
pub enum InputView {
    Opened(Result<(), ControlErrorView>),
    AuthPrepared(Result<Seq<char>, ControlErrorView>),
    Exchanged(Result<ReplyView, ControlErrorView>),
}

impl View for SessionInput {
    type V = InputView;

    open spec fn view(&self) -> InputView {
        match self {
            SessionInput::Opened(Ok(())) => InputView::Opened(Ok(())),
            SessionInput::Opened(Err(e)) => InputView::Opened(Err(e@)),
            SessionInput::AuthPrepared(Ok(c)) => InputView::AuthPrepared(Ok(c@)),
            SessionInput::AuthPrepared(Err(e)) => InputView::AuthPrepared(Err(e@)),
            SessionInput::Exchanged(Ok(r)) => InputView::Exchanged(Ok(r@)),
            SessionInput::Exchanged(Err(e)) => InputView::Exchanged(Err(e@)),
        }
    }
}

/// The abstract session: whether a connection is open, whether it is
/// authenticated, and the stage of the operation in progress.
pub struct SessionView {
    pub connected: bool,
    pub authenticated: bool,
    pub stage: StageView,
}

/// The states a session can be in: only an open connection is
/// authenticated; authentication is prepared and awaited on an open,
/// unauthenticated connection; opening happens without a connection; a
/// command is awaited on an open connection.
pub open spec fn session_wf(s: SessionView) -> bool {
    &&& s.authenticated ==> s.connected
    &&& match s.stage {
        StageView::Opening(_) => !s.connected && !s.authenticated,
        StageView::PreparingAuth(_) => s.connected && !s.authenticated,
        StageView::Authenticating(_) => s.connected && !s.authenticated,
        StageView::Sending => s.connected,
        StageView::Ready => true,
    }
}

/// The error for a frame that spans lines.
pub open spec fn frame_error() -> ControlErrorView {
    ControlErrorView::MalformedResponse {
        message: "commands must be single-line ControlPort frames"@,
    }
}

/// The error for a command without a connection.
pub open spec fn no_connection() -> ControlErrorView {
    ControlErrorView::MalformedResponse { message: "no active ControlPort connection"@ }
}

/// What a command's reply means: the reply on a success code, else a
/// command failure with the code and the joined lines.
pub open spec fn command_outcome(r: Result<ReplyView, ControlErrorView>) -> Result<
    ReplyView,
    ControlErrorView,
> {
    match r {
        Ok(reply) => if 200 <= reply.0 < 300 {
            Ok(reply)
        } else {
            Err(ControlErrorView::CommandFailed { code: reply.0, message: join_lines(reply.1) })
        },
        Err(e) => Err(e),
    }
}

/// What the reply to `AUTHENTICATE` means: a command failure is an
/// authentication failure.
pub open spec fn auth_outcome(r: Result<ReplyView, ControlErrorView>) -> Result<(), ControlErrorView> {
    match command_outcome(r) {
        Ok(_) => Ok(()),
        Err(ControlErrorView::CommandFailed { code, message }) => Err(
            ControlErrorView::AuthenticationFailed { code, message },
        ),
        Err(e) => Err(e),
    }
}

/// Sending a command on the current connection.
pub open spec fn send_now(s: SessionView, command: Seq<char>) -> (SessionView, EffectView) {
    if !s.connected {
        (SessionView { stage: StageView::Ready, ..s }, EffectView::Finish(Err(no_connection())))
    } else if !is_single_line(command) {
        (SessionView { stage: StageView::Ready, ..s }, EffectView::Finish(Err(frame_error())))
    } else {
        (SessionView { stage: StageView::Sending, ..s }, EffectView::Exchange(command))
    }
}

/// Starting authentication: open first when there is no connection.
pub open spec fn start_auth(s: SessionView, goal: GoalView) -> (SessionView, EffectView) {
    if !s.connected {
        (SessionView { stage: StageView::Opening(goal), ..s }, EffectView::Open)
    } else {
        (SessionView { stage: StageView::PreparingAuth(goal), ..s }, EffectView::PrepareAuth)
    }
}

/// After a successful authentication: send the command, if any.
pub open spec fn auth_succeeded(s: SessionView, goal: GoalView) -> (SessionView, EffectView) {
    let s2 = SessionView { authenticated: true, ..s };
    match goal {
        GoalView::Command(c) => send_now(s2, c),
        _ => (SessionView { stage: StageView::Ready, ..s2 }, EffectView::Finish(Ok(None))),
    }
}

/// After a failed authentication: the connection is dropped unless the goal
/// was to authenticate only.
pub open spec fn auth_failed(s: SessionView, goal: GoalView, e: ControlErrorView) -> (
    SessionView,
    EffectView,
) {
    let s2 = if goal is Authenticate {
        s
    } else {
        SessionView { connected: false, authenticated: false, ..s }
    };
    (SessionView { stage: StageView::Ready, ..s2 }, EffectView::Finish(Err(e)))
}

/// Starting an operation on a ready session.
pub open spec fn begin_step(s: SessionView, goal: GoalView) -> (SessionView, EffectView) {
    if s.authenticated {
        match goal {
            GoalView::Command(c) => send_now(s, c),
            _ => (SessionView { stage: StageView::Ready, ..s }, EffectView::Finish(Ok(None))),
        }
    } else {
        start_auth(s, goal)
    }
}

/// The next session and effect after a reported result; `None` when the
/// stage does not wait for it.
pub open spec fn session_step(s: SessionView, input: InputView) -> Option<(SessionView, EffectView)> {
    match (s.stage, input) {
        (StageView::Opening(goal), InputView::Opened(Ok(_))) => Some(
            (
                SessionView {
                    connected: true,
                    authenticated: false,
                    stage: StageView::PreparingAuth(goal),
                },
                EffectView::PrepareAuth,
            ),
        ),
        (StageView::Opening(_), InputView::Opened(Err(e))) => Some(
            (SessionView { stage: StageView::Ready, ..s }, EffectView::Finish(Err(e))),
        ),
        (StageView::PreparingAuth(goal), InputView::AuthPrepared(Ok(frame))) => Some(
            if is_single_line(frame) {
                (SessionView { stage: StageView::Authenticating(goal), ..s }, EffectView::Exchange(frame))
            } else {
                auth_failed(s, goal, frame_error())
            },
        ),
        (StageView::PreparingAuth(goal), InputView::AuthPrepared(Err(e))) => Some(
            auth_failed(s, goal, e),
        ),
        (StageView::Authenticating(goal), InputView::Exchanged(r)) => Some(
            match auth_outcome(r) {
                Ok(_) => auth_succeeded(s, goal),
                Err(e) => auth_failed(s, goal, e),
            },
        ),
        (StageView::Sending, InputView::Exchanged(r)) => Some(
            (
                SessionView { stage: StageView::Ready, ..s },
                EffectView::Finish(
                    match command_outcome(r) {
                        Ok(reply) => Ok(Some(reply)),
                        Err(e) => Err(e),
                    },
                ),
            ),
        ),
        _ => None,
    }
}

/// The state of a ControlPort client's session.
#[derive(Debug)]
pub struct ControlSession {
    connected: bool,
    authenticated: bool,
    stage: SessionStage,
}

impl View for ControlSession {
    type V = SessionView;

    closed spec fn view(&self) -> SessionView {
        SessionView {
            connected: self.connected,
            authenticated: self.authenticated,
            stage: self.stage@,
        }
    }
}

/// The error of a command on a session, by its view.
proof fn lemma_no_connection_view(e: TorControlError)
    requires
        crate::control::is_malformed(e, "no active ControlPort connection"@),
    ensures
        e@ == no_connection(),
{
}

impl ControlSession {
    /// The session is always in one of the states of `session_wf`.
    #[verifier::type_invariant]
    closed spec fn inv(self) -> bool {
        session_wf(self@)
    }

    /// A session without a connection.
    pub fn new() -> (s: Self)
        ensures
            s@ == (SessionView { connected: false, authenticated: false, stage: StageView::Ready }),
    {
        ControlSession { connected: false, authenticated: false, stage: SessionStage::Ready }
    }

    /// Whether no operation is in progress.
    pub fn is_ready(&self) -> (b: bool)
        ensures
            b == (self@.stage is Ready),
    {
        matches!(self.stage, SessionStage::Ready)
    }

    /// Whether a connection is open.
    pub fn is_connected(&self) -> (b: bool)
        ensures
            b == self@.connected,
    {
        self.connected
    }

    /// Whether the connection is authenticated (and so open).
    pub fn is_authenticated(&self) -> (b: bool)
        ensures
            b == self@.authenticated,
            b ==> self@.connected,
    {
        proof {
            use_type_invariant(self);
        }
        self.authenticated
    }

    /// The outcome of sending `command` now: an exchange when connected and
    /// the frame is a single line, an error otherwise.
    fn send_now(&mut self, command: String) -> (e: SessionEffect)
        requires
            old(self).authenticated ==> old(self).connected,
        ensures
            (final(self)@, e@) == send_now(old(self)@, command@),
            final(self).authenticated == old(self).authenticated,
            final(self).connected == old(self).connected,
    {
        if !self.connected {
            self.stage = SessionStage::Ready;
            let e = no_connection_error();
            proof {
                lemma_no_connection_view(e);
            }
            return SessionEffect::Finish(Err(e));
        }
        match check_command_frame(command.as_str()) {
            Ok(()) => {
                self.stage = SessionStage::Sending;
                SessionEffect::Exchange(command)
            },
            Err(e) => {
                self.stage = SessionStage::Ready;
                SessionEffect::Finish(Err(e))
            },
        }
    }

    /// Starts an operation.
    pub fn begin(&mut self, goal: Goal) -> (e: SessionEffect)
        requires
            old(self)@.stage is Ready,
        ensures
            (final(self)@, e@) == begin_step(old(self)@, goal@),
    {
        proof {
            use_type_invariant(&*self);
        }
        if self.authenticated {
            match goal {
                Goal::Command(c) => self.send_now(c),
                _ => {
                    self.stage = SessionStage::Ready;
                    SessionEffect::Finish(Ok(None))
                },
            }
        } else if !self.connected {
            self.stage = SessionStage::Opening(goal);
            SessionEffect::Open
        } else {
            self.stage = SessionStage::PreparingAuth(goal);
            SessionEffect::PrepareAuth
        }
    }

    fn fail_auth(&mut self, goal: Goal, e: TorControlError) -> (r: SessionEffect)
        requires
            old(self).authenticated ==> old(self).connected,
            old(self)@.stage is Ready,
        ensures
            (final(self)@, r@) == auth_failed(old(self)@, goal@, e@),
            final(self).authenticated ==> final(self).connected,
    {
        if !matches!(goal, Goal::Authenticate) {
            self.authenticated = false;
            self.connected = false;
        }
        self.stage = SessionStage::Ready;
        SessionEffect::Finish(Err(e))
    }

    /// Takes the reported result of the step in progress and returns what to
    /// do next; `None` when no step was waiting for it (nothing changes then).
    pub fn on_input(&mut self, input: SessionInput) -> (r: Option<SessionEffect>)
        ensures
            match session_step(old(self)@, input@) {
                Some((next, effect)) => final(self)@ == next && (r matches Some(e) && e@ == effect),
                None => final(self)@ == old(self)@ && r is None,
            },
    {
        proof {
            use_type_invariant(&*self);
        }
        let mut stage = SessionStage::Ready;
        std::mem::swap(&mut stage, &mut self.stage);
        match (stage, input) {
            (SessionStage::Opening(goal), SessionInput::Opened(Ok(()))) => {
                self.connected = true;
                self.authenticated = false;
                self.stage = SessionStage::PreparingAuth(goal);
                Some(SessionEffect::PrepareAuth)
            },
            (SessionStage::Opening(_), SessionInput::Opened(Err(e))) => {
                Some(SessionEffect::Finish(Err(e)))
            },
            (SessionStage::PreparingAuth(goal), SessionInput::AuthPrepared(Ok(frame))) => {
                match check_command_frame(frame.as_str()) {
                    Ok(()) => {
                        self.stage = SessionStage::Authenticating(goal);
                        Some(SessionEffect::Exchange(frame))
                    },
                    Err(e) => Some(self.fail_auth(goal, e)),
                }
            },
            (SessionStage::PreparingAuth(goal), SessionInput::AuthPrepared(Err(e))) => {
                Some(self.fail_auth(goal, e))
            },
            (SessionStage::Authenticating(goal), SessionInput::Exchanged(r)) => {
                let outcome = match r {
                    Ok(reply) => command_reply_outcome(reply),
                    Err(e) => Err(e),
                };
                match outcome {
                    Ok(_) => {
                        self.authenticated = true;
                        match goal {
                            Goal::Command(c) => Some(self.send_now(c)),
                            _ => Some(SessionEffect::Finish(Ok(None))),
                        }
                    },
                    Err(TorControlError::CommandFailed { code, message }) => {
                        Some(self.fail_auth(goal, TorControlError::AuthenticationFailed { code, message }))
                    },
                    Err(e) => Some(self.fail_auth(goal, e)),
                }
            },
            (SessionStage::Sending, SessionInput::Exchanged(r)) => {
                let outcome = match r {
                    Ok(reply) => command_reply_outcome(reply),
                    Err(e) => Err(e),
                };
                match outcome {
                    Ok(reply) => Some(SessionEffect::Finish(Ok(Some(reply)))),
                    Err(e) => Some(SessionEffect::Finish(Err(e))),
                }
            },
            (stage, _) => {
                self.stage = stage;
                None
            },
        }
    }
}

/// Every step keeps the session in a valid state; in particular only an
/// open connection is ever authenticated.
pub proof fn lemma_session_stays_valid(s: SessionView, input: InputView, goal: GoalView)
    requires
        session_wf(s),
    ensures
        session_step(s, input) matches Some((n, _)) ==> session_wf(n),
        s.stage is Ready ==> session_wf(begin_step(s, goal).0),
{
}

/// A command is written only on an authenticated connection.
pub proof fn lemma_commands_only_after_authentication(
    s: SessionView,
    input: InputView,
    goal: GoalView,
)
    requires
        session_wf(s),
    ensures
        session_step(s, input) matches Some((n, EffectView::Exchange(_))) ==> (n.stage is Sending
            ==> n.authenticated && n.connected),
        s.stage is Ready ==> (begin_step(s, goal).1 is Exchange ==> begin_step(s, goal).0.stage is Sending
            && s.authenticated && s.connected),
{
}

/// A failed authentication while connecting (or before a command) leaves no
/// connection behind, so the next operation reconnects.
pub proof fn lemma_failed_authentication_drops_connection(
    s: SessionView,
    goal: GoalView,
    r: Result<ReplyView, ControlErrorView>,
)
    requires
        session_wf(s),
        s.stage == StageView::Authenticating(goal),
        !(goal is Authenticate),
        auth_outcome(r) is Err,
    ensures
        session_step(s, InputView::Exchanged(r)) matches Some((n, EffectView::Finish(Err(e)))) && !n.connected
            && !n.authenticated && n.stage is Ready && Err::<(), ControlErrorView>(e) == auth_outcome(r),
{
}

} // verus!

//! The supervisor's state machine.
//!
//! A supervisor is either stopped (it holds no worker handle) or running (it
//! holds the handle of the one worker it launched). The operations decide;
//! the host performs the process work they ask for and hands the outcome
//! back: `start` asks for a launch, `launched` records its outcome, `stop`
//! and `restart` give up the handle to be terminated, and `stop_outcome` and
//! `restart_outcome` turn the termination's outcome into the reply.

use vstd::prelude::*;
use crate::decimal::{dec_chars, decimal};
use crate::message::{LaunchError, Message, SidecarError};

verus! {

/// What the host must do to carry out `start`.
#[derive(Debug)]
pub enum StartStep {
    /// A worker is running already: reply with the message, launch nothing.
    Done(Message),
    /// Launch the worker with these arguments, then report through `launched`.
    Launch(Vec<String>),
}

/// What the host must do to carry out `stop` or `restart`.
#[derive(Debug)]
pub enum StopStep<C> {
    /// No worker is running: reply with the message.
    Done(Message),
    /// Terminate the worker's descendants and then the worker behind this
    /// handle, and report through `stop_outcome` or `restart_outcome`.
    Terminate(C),
}

/// The arguments the worker is launched with: `--port <port>`.
pub open spec fn launch_args(port: u16) -> Seq<Seq<char>> {
    seq!["--port"@, dec_chars(port as nat)]
}

/// The reply of `start` once the launch's outcome is known.
pub open spec fn launch_reply<C>(port: u16, outcome: Result<C, LaunchError>) -> Result<Message, SidecarError> {
    match outcome {
        Ok(_) => Ok(Message::Started(port)),
        Err(e) => Err(SidecarError::Launch(e)),
    }
}

/// The reply of `stop` once the termination's outcome is known.
pub open spec fn stop_reply(kill: Result<(), String>) -> Result<Message, SidecarError> {
    match kill {
        Ok(_) => Ok(Message::Stopped),
        Err(e) => Err(SidecarError::Stop(e)),
    }
}

/// The reply of `restart` once the outcome of its stop is known: it never
/// launches, so it fails either way.
pub open spec fn restart_reply(stopped: Result<Message, SidecarError>) -> Result<Message, SidecarError> {
    match stopped {
        Ok(_) => Err(SidecarError::RestartUnsupported),
        Err(e) => Err(e),
    }
}

/// One request to the supervisor, with the outcome of the launch that a
/// start may ask for.
pub enum Request<C> {
    /// A start, with what the launch gives if one is asked for.
    Start(Result<C, LaunchError>),
    /// A stop.
    Stop,
    /// A restart.
    Restart,
}

/// Supervises one worker process bound to a fixed port. `C` is the handle
/// of a launched worker, used only to terminate it.
pub struct SidecarManager<C> {
    child: Option<C>,
    port: u16,
}

impl<C> SidecarManager<C> {
    /// The handle of the running worker, if any.
    pub closed spec fn handle(&self) -> Option<C> {
        self.child
    }

    /// The port the worker binds.
    pub closed spec fn spec_port(&self) -> u16 {
        self.port
    }

    pub open spec fn is_running_spec(&self) -> bool {
        self.handle() is Some
    }

    /// The supervisor with no worker and the same port.
    pub closed spec fn cleared(&self) -> Self {
        SidecarManager { child: None, port: self.port }
    }

    /// The supervisor after a launch with this outcome, from the stopped state.
    pub closed spec fn after_launch(&self, outcome: Result<C, LaunchError>) -> Self {
        match outcome {
            Ok(c) => SidecarManager { child: Some(c), port: self.port },
            Err(_) => *self,
        }
    }

    /// The supervisor after a whole `start`: unchanged while running.
    pub open spec fn after_start(&self, outcome: Result<C, LaunchError>) -> Self {
        if self.is_running_spec() {
            *self
        } else {
            self.after_launch(outcome)
        }
    }

    /// What `stop` asks for.
    pub open spec fn stop_step_spec(&self) -> StopStep<C> {
        match self.handle() {
            Some(c) => StopStep::Terminate(c),
            None => StopStep::Done(Message::NotRunning),
        }
    }

    /// The supervisor after one request.
    pub open spec fn after_request(&self, req: Request<C>) -> Self {
        match req {
            Request::Start(outcome) => self.after_start(outcome),
            Request::Stop => self.cleared(),
            Request::Restart => self.cleared(),
        }
    }

    /// The supervisor after a sequence of requests, in order.
    pub open spec fn after_requests(&self, reqs: Seq<Request<C>>) -> Self
        decreases reqs.len(),
    {
        if reqs.len() == 0 {
            *self
        } else {
            self.after_request(reqs[0]).after_requests(reqs.drop_first())
        }
    }

    /// A stopped supervisor for the given port.
    pub fn new(port: u16) -> (r: Self)
        ensures
            r.handle() is None,
            r.spec_port() == port,
    {
        SidecarManager { child: None, port }
    }

    /// The port the worker binds, whether or not it runs.
    pub fn port(&self) -> (r: u16)
        ensures
            r == self.spec_port(),
    {
        self.port
    }

    /// Whether a worker is running.
    pub fn is_running(&self) -> (r: bool)
        ensures
            r == self.is_running_spec(),
    {
        self.child.is_some()
    }

    /// Decides what starting asks for: nothing while a worker runs, else a
    /// launch with `--port <port>`.
    pub fn start(&self) -> (r: StartStep)
        ensures
            self.is_running_spec() ==> r == StartStep::Done(Message::AlreadyRunning),
            !self.is_running_spec() ==> (r matches StartStep::Launch(args)
                && args@.map_values(|a: String| a@) == launch_args(self.spec_port())),
    {
        if self.child.is_some() {
            StartStep::Done(Message::AlreadyRunning)
        } else {
            let args = vec![String::from_str("--port"), decimal(self.port as u64)];
            assert(args@.map_values(|a: String| a@) =~= launch_args(self.port));
            StartStep::Launch(args)
        }
    }

    /// Records the outcome of the launch that `start` asked for, and replies.
    pub fn launched(&mut self, outcome: Result<C, LaunchError>) -> (r: Result<Message, SidecarError>)
        requires
            !old(self).is_running_spec(),
        ensures
            *final(self) == old(self).after_launch(outcome),
            *final(self) == old(self).after_start(outcome),
            final(self).is_running_spec() <==> outcome is Ok,
            outcome matches Ok(c) ==> final(self).handle() == Some(c),
            final(self).spec_port() == old(self).spec_port(),
            r == launch_reply(old(self).spec_port(), outcome),
    {
        match outcome {
            Ok(c) => {
                self.child = Some(c);
                Ok(Message::Started(self.port))
            },
            Err(e) => Err(SidecarError::Launch(e)),
        }
    }

    /// Gives up the running worker's handle, if any, for termination; the
    /// supervisor is stopped from here on.
    pub fn stop(&mut self) -> (r: StopStep<C>)
        ensures
            r == old(self).stop_step_spec(),
            *final(self) == old(self).cleared(),
            *final(self) == old(self).after_request(Request::Stop),
            !final(self).is_running_spec(),
            final(self).spec_port() == old(self).spec_port(),
    {
        match self.child.take() {
            Some(c) => StopStep::Terminate(c),
            None => StopStep::Done(Message::NotRunning),
        }
    }

    /// Stops the worker as `stop` does; `restart_outcome` then gives the reply.
    pub fn restart(&mut self) -> (r: StopStep<C>)
        ensures
            r == old(self).stop_step_spec(),
            *final(self) == old(self).after_request(Request::Restart),
            !final(self).is_running_spec(),
            final(self).spec_port() == old(self).spec_port(),
    {
        self.stop()
    }
}

/// The reply of `stop` once the termination of the worker was attempted.
pub fn stop_outcome(kill: Result<(), String>) -> (r: Result<Message, SidecarError>)
    ensures
        r == stop_reply(kill),
{
    match kill {
        Ok(()) => Ok(Message::Stopped),
        Err(e) => Err(SidecarError::Stop(e)),
    }
}

/// The reply of `restart` once its stop is done.
pub fn restart_outcome(stopped: Result<Message, SidecarError>) -> (r: Result<Message, SidecarError>)
    ensures
        r == restart_reply(stopped),
        r is Err,
{
    match stopped {
        Ok(_) => Err(SidecarError::RestartUnsupported),
        Err(e) => Err(e),
    }
}

/// Any number of starts while a worker runs leaves the supervisor exactly as
/// it was, so each of them finds the worker running and launches nothing.
pub proof fn lemma_starts_while_running<C>(m: SidecarManager<C>, outcomes: Seq<Result<C, LaunchError>>)
    requires
        m.is_running_spec(),
    ensures
        m.after_requests(outcomes.map_values(|o: Result<C, LaunchError>| Request::Start(o))) == m,
    decreases outcomes.len(),
{
    let reqs = outcomes.map_values(|o: Result<C, LaunchError>| Request::Start(o));
    if outcomes.len() > 0 {
        let rest = outcomes.drop_first();
        assert(reqs.drop_first() =~= rest.map_values(|o: Result<C, LaunchError>| Request::Start(o)));
        lemma_starts_while_running(m, rest);
    }
}

/// A stop right after a stop finds no worker, asks for no termination and
/// leaves the supervisor as the first stop left it.
pub proof fn lemma_stop_twice<C>(m: SidecarManager<C>)
    ensures
        m.after_request(Request::Stop).stop_step_spec() == StopStep::<C>::Done(Message::NotRunning),
        m.after_request(Request::Stop).after_request(Request::Stop) == m.after_request(Request::Stop),
{
}

/// No sequence of starts, stops and restarts changes the port.
pub proof fn lemma_port_fixed<C>(m: SidecarManager<C>, reqs: Seq<Request<C>>)
    ensures
        m.after_requests(reqs).spec_port() == m.spec_port(),
    decreases reqs.len(),
{
    if reqs.len() > 0 {
        lemma_port_fixed(m.after_request(reqs[0]), reqs.drop_first());
    }
}

/// A start whose launch fails leaves a stopped supervisor stopped and
/// unchanged: a following stop has nothing to terminate, and a following
/// start asks for a launch again.
pub proof fn lemma_launch_error_stays_stopped<C>(m: SidecarManager<C>, e: LaunchError)
    requires
        !m.is_running_spec(),
    ensures
        m.after_start(Err(e)) == m,
        !m.after_start(Err(e)).is_running_spec(),
        m.after_start(Err(e)).stop_step_spec() == StopStep::<C>::Done(Message::NotRunning),
        launch_reply::<C>(m.spec_port(), Err(e)) == Err::<Message, SidecarError>(SidecarError::Launch(e)),
{
}

} // verus!

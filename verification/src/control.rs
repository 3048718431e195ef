//! The control plane: the order in which a device is brought up and taken
//! down.
//!
//! A session decides; the program around it acts. The session hands out one
//! action at a time, the program carries it out against the object store or
//! the kernel and reports what came of it as an event, and the session
//! answers with the next action. No operation is tried twice. A failure
//! before the device exists ends the session at once; a failure after that
//! forces the shutdown of the device, and the session then ends with the
//! failure that caused it.

use vstd::prelude::*;
use crate::device::{
    create_ublk_ctrl, ctrl_params, CtrlParams, Device, DeviceState, Geometry, DEFAULT_MAX_IO_BYTES,
    DEFAULT_QUEUE_COUNT, DEFAULT_QUEUE_DEPTH,
};
use crate::error::{ControlError, Failure, FetchError};

verus! {

/// What a session is for.
#[derive(Clone, Copy, Debug, PartialEq, Eq, Structural)]
pub enum Command {
    /// Load the content, then create, configure, start and serve a device,
    /// and stop and delete it when serving ends.
    Add,
    /// Look up a device and delete it.
    Del,
}

/// The operation whose outcome a session waits for.
#[derive(Clone, Copy, Debug, PartialEq, Eq, Structural)]
pub enum Phase {
    Loading,
    Opening,
    Configuring,
    Starting,
    Serving,
    Stopping,
    Deleting,
    Finished,
}

impl Phase {
    /// The place of the phase in the order of a session.
    pub open spec fn rank(self) -> nat {
        match self {
            Phase::Loading => 0,
            Phase::Opening => 1,
            Phase::Configuring => 2,
            Phase::Starting => 3,
            Phase::Serving => 4,
            Phase::Stopping => 5,
            Phase::Deleting => 6,
            Phase::Finished => 7,
        }
    }
}

/// How a session ended.
#[derive(Clone, Copy, Debug, PartialEq, Eq, Structural)]
pub enum Outcome {
    /// Everything that was asked for was done.
    Done,
    /// The device to delete does not exist. Nothing was done, and nothing
    /// is wrong.
    NotFound,
    /// The session failed.
    Failed(Failure),
}

/// What the program is to do next.
#[derive(Clone, Copy, Debug, PartialEq, Eq, Structural)]
pub enum Action {
    /// Fetch the content; answer with `Loaded` or `FetchFailed`.
    LoadContent,
    /// Open the control handle; answer with `Opened` or `Failed`.
    Open(CtrlParams),
    /// Hand the geometry to the kernel; answer with `Done` or `Failed`.
    Configure(Geometry),
    /// Start the device; answer with `Done` or `Failed`.
    Start,
    /// Run the queues until they return; answer with `Done`, or with
    /// `Failed` where their wait call failed.
    Serve,
    /// Stop the device; answer with `Done` or `Failed`.
    Stop,
    /// Delete the device; answer with `Done` or `Failed`.
    Delete,
    /// Nothing is left to do.
    Finish(Outcome),
}

/// What came of the last action.
#[derive(Clone, Copy, Debug, PartialEq, Eq, Structural)]
pub enum Event {
    /// The content is in memory; the object store declared this size.
    Loaded(u64),
    /// The content could not be fetched.
    FetchFailed(FetchError),
    /// The control handle is open, for the device with this id.
    Opened(i32),
    /// The operation succeeded.
    Done,
    /// The kernel refused the operation with this code.
    Failed(i32),
}

/// A session on one device.
#[derive(Clone, Copy, Debug, PartialEq, Eq)]
pub struct Session {
    pub command: Command,
    pub phase: Phase,
    /// The id that was asked for; -1 on `Add` lets the kernel pick one.
    pub requested_id: i32,
    /// The declared size of the content, once it is loaded.
    pub content_size: u64,
    /// The device, once its control handle is open.
    pub device: Option<Device>,
    /// The first failure, if there was one.
    pub failure: Option<Failure>,
}

impl Session {
    /// The session at its start.
    pub open spec fn initial(command: Command, requested_id: i32) -> Session {
        Session {
            command,
            phase: if command == Command::Add {
                Phase::Loading
            } else {
                Phase::Opening
            },
            requested_id,
            content_size: 0,
            device: None,
            failure: None,
        }
    }

    /// How the session ends, given the failure it holds. A missing device is
    /// no failure of a deletion.
    pub open spec fn outcome(self) -> Outcome {
        match self.failure {
            None => Outcome::Done,
            Some(f) => if self.command == Command::Del && f == Failure::Control(
                ControlError::NotFound,
            ) {
                Outcome::NotFound
            } else {
                Outcome::Failed(f)
            },
        }
    }

    /// The session with `f` recorded, unless an earlier failure is.
    pub open spec fn with_failure(self, f: Failure) -> Session {
        Session {
            failure: match self.failure {
                Some(first) => Some(first),
                None => Some(f),
            },
            ..self
        }
    }

    /// The session after the event, where the event is the success that the
    /// phase waits for and the device allows the step; else the failure
    /// that the event amounts to.
    pub open spec fn attempt(self, event: Event) -> Result<(Session, Action), Failure> {
        match (self.phase, event) {
            (Phase::Loading, Event::Loaded(size)) => Ok(
                (
                    Session { phase: Phase::Opening, content_size: size, ..self },
                    Action::Open(ctrl_params(self.requested_id, true)),
                ),
            ),
            (Phase::Loading, Event::FetchFailed(e)) => Err(Failure::Fetch(e)),
            (Phase::Opening, Event::Opened(id)) => {
                let dev = Device::created(
                    id,
                    DEFAULT_QUEUE_COUNT,
                    DEFAULT_QUEUE_DEPTH,
                    DEFAULT_MAX_IO_BYTES,
                );
                if self.command == Command::Add {
                    Ok(
                        (
                            Session { phase: Phase::Configuring, device: Some(dev), ..self },
                            Action::Configure(
                                Geometry::for_device(self.content_size, DEFAULT_MAX_IO_BYTES),
                            ),
                        ),
                    )
                } else {
                    Ok(
                        (
                            Session { phase: Phase::Deleting, device: Some(dev), ..self },
                            Action::Delete,
                        ),
                    )
                }
            },
            (Phase::Loading, Event::Failed(_)) => Err(Failure::Control(ControlError::InvalidState)),
            (_, Event::Failed(code)) => Err(Failure::Control(ControlError::of_code(code))),
            (_, Event::Done) => match self.device {
                None => Err(Failure::Control(ControlError::InvalidState)),
                Some(dev) => match self.phase {
                    Phase::Configuring => match dev.try_configure(self.content_size) {
                        Ok(d) => Ok(
                            (
                                Session { phase: Phase::Starting, device: Some(d), ..self },
                                Action::Start,
                            ),
                        ),
                        Err(e) => Err(Failure::Control(e)),
                    },
                    Phase::Starting => match dev.try_start() {
                        Ok(d) => Ok(
                            (
                                Session { phase: Phase::Serving, device: Some(d), ..self },
                                Action::Serve,
                            ),
                        ),
                        Err(e) => Err(Failure::Control(e)),
                    },
                    Phase::Serving => match dev.try_stop() {
                        Ok(d) => Ok(
                            (
                                Session { phase: Phase::Stopping, device: Some(d), ..self },
                                Action::Stop,
                            ),
                        ),
                        Err(e) => Err(Failure::Control(e)),
                    },
                    Phase::Stopping => match dev.try_finish_stop() {
                        Ok(d) => Ok(
                            (
                                Session { phase: Phase::Deleting, device: Some(d), ..self },
                                Action::Delete,
                            ),
                        ),
                        Err(e) => Err(Failure::Control(e)),
                    },
                    Phase::Deleting => match dev.try_delete() {
                        Ok(d) => {
                            let end = Session { phase: Phase::Finished, device: Some(d), ..self };
                            Ok((end, Action::Finish(end.outcome())))
                        },
                        Err(e) => Err(Failure::Control(e)),
                    },
                    _ => Err(Failure::Control(ControlError::InvalidState)),
                },
            },
            _ => Err(Failure::Control(ControlError::InvalidState)),
        }
    }

    /// The session after a failure. Before the device exists, and when its
    /// deletion fails, the session ends. A device that exists but does not
    /// run yet is deleted; a device that runs is stopped and then deleted.
    pub open spec fn abort(self, f: Failure) -> (Session, Action) {
        let failed = self.with_failure(f);
        match self.phase {
            Phase::Configuring | Phase::Starting | Phase::Stopping => (
                Session { phase: Phase::Deleting, ..failed },
                Action::Delete,
            ),
            Phase::Serving => (
                Session {
                    phase: Phase::Stopping,
                    device: match self.device {
                        Some(dev) => match dev.try_stop() {
                            Ok(d) => Some(d),
                            Err(_) => Some(dev),
                        },
                        None => None,
                    },
                    ..failed
                },
                Action::Stop,
            ),
            _ => {
                let end = Session { phase: Phase::Finished, ..failed };
                (end, Action::Finish(end.outcome()))
            },
        }
    }

    /// The session after an event, and the action that answers it. A
    /// session that has finished stays as it is.
    pub open spec fn next(self, event: Event) -> (Session, Action) {
        if self.phase == Phase::Finished {
            (self, Action::Finish(self.outcome()))
        } else {
            match self.attempt(event) {
                Ok(step) => step,
                Err(f) => self.abort(f),
            }
        }
    }

    /// The state that a session is in while nothing went against the order
    /// of things: the device is there from `Configuring` on, in each phase
    /// it is in the state from which the awaited operation leads on, and
    /// once configured it has the size and the geometry of the content.
    pub open spec fn wf(self) -> bool {
        match self.phase {
            Phase::Loading => {
                &&& self.command == Command::Add
                &&& self.device is None
                &&& self.failure is None
            },
            Phase::Opening => {
                &&& self.device is None
                &&& self.failure is None
            },
            Phase::Configuring => {
                &&& self.command == Command::Add
                &&& self.failure is None
                &&& self.device matches Some(d)
                &&& d.state == DeviceState::Created
            },
            Phase::Starting => {
                &&& self.command == Command::Add
                &&& self.failure is None
                &&& self.device matches Some(d)
                &&& d.state == DeviceState::Configured
                &&& d.dev_size_bytes == self.content_size
                &&& d.geometry == Geometry::for_device(d.dev_size_bytes, d.max_io_bytes)
            },
            Phase::Serving => {
                &&& self.command == Command::Add
                &&& self.failure is None
                &&& self.device matches Some(d)
                &&& d.state == DeviceState::Running
                &&& d.dev_size_bytes == self.content_size
                &&& d.geometry == Geometry::for_device(d.dev_size_bytes, d.max_io_bytes)
            },
            Phase::Stopping => {
                &&& self.device matches Some(d)
                &&& d.state == DeviceState::Stopping
            },
            Phase::Deleting => {
                &&& self.device matches Some(d)
                &&& d.try_delete() is Ok
            },
            Phase::Finished => true,
        }
    }

    /// The session after a run of events.
    pub open spec fn run(self, events: Seq<Event>) -> Session
        decreases events.len(),
    {
        if events.len() == 0 {
            self
        } else {
            self.run(events.drop_last()).next(events.last()).0
        }
    }

    /// How the session has ended, once it has.
    pub fn result(&self) -> (r: Option<Outcome>)
        ensures
            r == if self.phase == Phase::Finished {
                Some(self.outcome())
            } else {
                None
            },
    {
        match self.phase {
            Phase::Finished => Some(self.outcome_now()),
            _ => None,
        }
    }

    fn outcome_now(&self) -> (o: Outcome)
        ensures
            o == self.outcome(),
    {
        match self.failure {
            None => Outcome::Done,
            Some(Failure::Control(ControlError::NotFound)) => match self.command {
                Command::Del => Outcome::NotFound,
                Command::Add => Outcome::Failed(Failure::Control(ControlError::NotFound)),
            },
            Some(f) => Outcome::Failed(f),
        }
    }

    fn record(&mut self, f: Failure)
        ensures
            *final(self) == old(self).with_failure(f),
    {
        match self.failure {
            Some(_) => {},
            None => {
                self.failure = Some(f);
            },
        }
    }

    fn fail(&mut self, f: Failure) -> (action: Action)
        ensures
            (*final(self), action) == old(self).abort(f),
    {
        let phase = self.phase;
        self.record(f);
        match phase {
            Phase::Configuring | Phase::Starting | Phase::Stopping => {
                self.phase = Phase::Deleting;
                Action::Delete
            },
            Phase::Serving => {
                self.phase = Phase::Stopping;
                match self.device {
                    Some(dev) => {
                        let mut dev = dev;
                        let _ = dev.stop();
                        self.device = Some(dev);
                    },
                    None => {},
                }
                Action::Stop
            },
            _ => {
                self.phase = Phase::Finished;
                Action::Finish(self.outcome_now())
            },
        }
    }

    fn advance(&mut self, event: Event) -> (r: Result<Action, Failure>)
        ensures
            match old(self).attempt(event) {
                Ok(step) => r == Ok::<Action, Failure>(step.1) && *final(self) == step.0,
                Err(f) => r == Err::<Action, Failure>(f) && *final(self) == *old(self),
            },
    {
        match (self.phase, event) {
            (Phase::Loading, Event::Loaded(size)) => {
                self.phase = Phase::Opening;
                self.content_size = size;
                Ok(Action::Open(create_ublk_ctrl(self.requested_id, true)))
            },
            (Phase::Loading, Event::FetchFailed(e)) => Err(Failure::Fetch(e)),
            (Phase::Opening, Event::Opened(id)) => {
                let dev = Device::create(
                    id,
                    DEFAULT_QUEUE_COUNT,
                    DEFAULT_QUEUE_DEPTH,
                    DEFAULT_MAX_IO_BYTES,
                );
                self.device = Some(dev);
                match self.command {
                    Command::Add => {
                        self.phase = Phase::Configuring;
                        Ok(Action::Configure(Geometry::new(self.content_size, DEFAULT_MAX_IO_BYTES)))
                    },
                    Command::Del => {
                        self.phase = Phase::Deleting;
                        Ok(Action::Delete)
                    },
                }
            },
            (Phase::Loading, Event::Failed(_)) => Err(Failure::Control(ControlError::InvalidState)),
            (_, Event::Failed(code)) => Err(Failure::Control(ControlError::from_code(code))),
            (phase, Event::Done) => {
                let mut dev = match self.device {
                    Some(dev) => dev,
                    None => {
                        return Err(Failure::Control(ControlError::InvalidState));
                    },
                };
                let (stepped, then, action) = match phase {
                    Phase::Configuring => (
                        dev.configure(self.content_size),
                        Phase::Starting,
                        Action::Start,
                    ),
                    Phase::Starting => (dev.start(), Phase::Serving, Action::Serve),
                    Phase::Serving => (dev.stop(), Phase::Stopping, Action::Stop),
                    Phase::Stopping => (dev.finish_stop(), Phase::Deleting, Action::Delete),
                    Phase::Deleting => (dev.delete(), Phase::Finished, Action::Finish(Outcome::Done)),
                    _ => {
                        return Err(Failure::Control(ControlError::InvalidState));
                    },
                };
                match stepped {
                    Ok(()) => {
                        self.phase = then;
                        self.device = Some(dev);
                        match then {
                            Phase::Finished => Ok(Action::Finish(self.outcome_now())),
                            _ => Ok(action),
                        }
                    },
                    Err(e) => Err(Failure::Control(e)),
                }
            },
            _ => Err(Failure::Control(ControlError::InvalidState)),
        }
    }

    /// Takes the outcome of the last action and says what to do next.
    pub fn on_event(&mut self, event: Event) -> (action: Action)
        ensures
            (*final(self), action) == old(self).next(event),
            old(self).wf() ==> final(self).wf(),
    {
        proof {
            if self.wf() {
                lemma_next_keeps_wf(*self, event);
            }
        }
        match self.phase {
            Phase::Finished => Action::Finish(self.outcome_now()),
            _ => match self.advance(event) {
                Ok(action) => action,
                Err(f) => self.fail(f),
            },
        }
    }
}

/// Starts a session that adds a device: the content is loaded first. Where
/// no id is given, the kernel is left to pick one.
pub fn test_add(dev_id: Option<i32>) -> (start: (Session, Action))
    ensures
        start.0 == Session::initial(
            Command::Add,
            match dev_id {
                Some(id) => id,
                None => -1i32,
            },
        ),
        start.1 == Action::LoadContent,
        start.0.wf(),
{
    let requested_id: i32 = match dev_id {
        Some(id) => id,
        None => -1,
    };
    (
        Session {
            command: Command::Add,
            phase: Phase::Loading,
            requested_id,
            content_size: 0,
            device: None,
            failure: None,
        },
        Action::LoadContent,
    )
}

/// Starts a session that deletes the device `dev_id`: its control handle is
/// looked up, not created. Where the device does not exist the session ends
/// with `Outcome::NotFound`.
pub fn test_del(dev_id: i32) -> (start: (Session, Action))
    ensures
        start.0 == Session::initial(Command::Del, dev_id),
        start.1 == Action::Open(ctrl_params(dev_id, false)),
        start.0.wf(),
{
    (
        Session {
            command: Command::Del,
            phase: Phase::Opening,
            requested_id: dev_id,
            content_size: 0,
            device: None,
            failure: None,
        },
        Action::Open(create_ublk_ctrl(dev_id, false)),
    )
}

/// A session that is in order stays in order, whatever the event.
pub proof fn lemma_next_keeps_wf(s: Session, event: Event)
    requires
        s.wf(),
    ensures
        s.next(event).0.wf(),
{
}

/// Every event moves a session on to a later phase until it has finished;
/// a finished session stays finished. The device, once it is there, keeps
/// its identity and never goes back to an earlier state.
pub proof fn lemma_next_moves_forward(s: Session, event: Event)
    requires
        s.wf(),
    ensures
        s.phase != Phase::Finished ==> s.phase.rank() < s.next(event).0.phase.rank(),
        s.phase == Phase::Finished ==> s.next(event).0 == s,
        s.next(event).0.command == s.command,
        s.next(event).0.requested_id == s.requested_id,
        s.device matches Some(before) ==> ({
            &&& s.next(event).0.device matches Some(after)
            &&& after.id == before.id
            &&& before.state.rank() <= after.state.rank()
        }),
{
}

/// Whatever the events, a session in order has finished after seven of
/// them.
pub proof fn lemma_run_finishes(s: Session, events: Seq<Event>)
    requires
        s.wf(),
    ensures
        s.run(events).wf(),
        s.run(events).phase.rank() >= if s.phase.rank() + events.len() <= 7 {
            s.phase.rank() + events.len()
        } else {
            7
        },
        events.len() >= 7 ==> s.run(events).phase == Phase::Finished,
    decreases events.len(),
{
    if events.len() > 0 {
        lemma_run_finishes(s, events.drop_last());
        let before = s.run(events.drop_last());
        lemma_next_keeps_wf(before, events.last());
        lemma_next_moves_forward(before, events.last());
    }
}

/// The queues are run only on a device that is running, and that device was
/// configured with the geometry of the loaded content.
pub proof fn lemma_serves_a_configured_device(s: Session, event: Event)
    requires
        s.wf(),
        s.next(event).1 == Action::Serve,
    ensures
        ({
            &&& s.next(event).0.device matches Some(dev)
            &&& dev.state == DeviceState::Running
            &&& dev.dev_size_bytes == s.content_size
            &&& dev.geometry == Geometry::for_device(s.content_size, dev.max_io_bytes)
        }),
{
}

/// No device is opened before the content is there: while the content is
/// loaded, every event but its arrival ends the session in failure, with
/// no device.
pub proof fn lemma_no_device_without_content(s: Session, event: Event)
    requires
        s.wf(),
        s.phase == Phase::Loading,
        !(event is Loaded),
    ensures
        s.next(event).0.phase == Phase::Finished,
        s.next(event).0.device is None,
        s.next(event).1 matches Action::Finish(Outcome::Failed(_)),
        event matches Event::FetchFailed(e) ==> s.next(event).1 == Action::Finish(
            Outcome::Failed(Failure::Fetch(e)),
        ),
{
}

/// Deleting a device that does not exist is no failure: where the kernel
/// says so, at the lookup or at the deletion, the session ends with
/// `NotFound`.
pub proof fn lemma_del_of_absent_device(dev_id: i32, code: i32, opened_id: i32)
    requires
        ControlError::of_code(code) == ControlError::NotFound,
    ensures
        Session::initial(Command::Del, dev_id).next(Event::Failed(code)).1 == Action::Finish(
            Outcome::NotFound,
        ),
        Session::initial(Command::Del, dev_id).next(Event::Opened(opened_id)).1 == Action::Delete,
        Session::initial(Command::Del, dev_id).next(Event::Opened(opened_id)).0.next(
            Event::Failed(code),
        ).1 == Action::Finish(Outcome::NotFound),
{
}

} // verus!

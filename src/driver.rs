use vstd::prelude::*;

use crate::fps::{ticked_fps, ticked_state, ticks_between, FpsCounter};

verus! {

/// The life of an application run.
#[derive(Clone, Copy, Debug, PartialEq, Eq, Hash, Structural)]
pub enum Phase {
    Uninitialized,
    Created,
    Running,
    Stopped,
}

/// What the driver waits for next.
#[derive(Clone, Copy, Debug, PartialEq, Eq, Hash, Structural)]
pub enum Step {
    /// The engine context to be built.
    Build,
    /// The answer of the application's `on_create`.
    Create,
    /// A timer reading, at the start of an iteration.
    Tick,
    /// The frame to be presented and the input snapshot refreshed.
    Present,
    /// The application's answer to the next pending event, or the end of the queue.
    Dispatch,
    /// The answer of the application's `on_update`.
    Update,
    /// Nothing: the run is over.
    Done,
}

/// The phase that a step belongs to.
pub open spec fn phase_of(s: Step) -> Phase {
    match s {
        Step::Build => Phase::Uninitialized,
        Step::Create => Phase::Created,
        Step::Done => Phase::Stopped,
        _ => Phase::Running,
    }
}

/// What the platform layer reports to the driver. An application hook answers
/// `Ok(true)` to go on, `Ok(false)` to stop, or an error; an event hook answers whether it
/// handled the event.
pub enum Report<E> {
    /// The engine context is built, and the frame clock started.
    Built(FpsCounter),
    /// The engine context could not be built.
    BuildFailed(E),
    /// `on_create` answered.
    Created(Result<bool, E>),
    /// The timer read `now`.
    Ticked(u64),
    /// The frame is presented and the input snapshot refreshed.
    Presented,
    /// `on_event` answered for a pending event; `quit` tells whether it was a request to
    /// quit.
    Event { answer: Result<bool, E>, quit: bool },
    /// No event is pending any more.
    Drained,
    /// `on_update` answered.
    Updated(Result<bool, E>),
}

/// What the platform layer is to do next.
pub enum Action<E> {
    CallOnCreate,
    ReadTimer,
    /// Put the frame rate in the window title when there is one, present the frame, and
    /// refresh the input snapshot.
    Present { fps: Option<u64> },
    /// Hand the next pending event to `on_event`, or report that none is left.
    PollEvent,
    /// Call `on_update` with the time since the previous frame, in timer ticks.
    CallOnUpdate { elapsed: u64 },
    /// Tear the engine down and return this result.
    Finish(Result<(), E>),
    /// The report does not fit what the driver waits for; nothing changed.
    OutOfOrder,
}

/// The application loop, as a state machine. Each iteration reads the timer, presents
/// the previous frame and refreshes input, hands every pending event to the application,
/// then calls its per-frame update. A hook that asks to stop or fails ends the run at
/// once; an unhandled request to quit ends it once the events of that iteration are
/// dispatched, before the update.
pub struct Driver {
    step: Step,
    clock: Option<FpsCounter>,
    quit: bool,
    elapsed: u64,
}

impl Driver {
    #[verifier::type_invariant]
    spec fn inv(self) -> bool {
        (self.step == Step::Create || phase_of(self.step) == Phase::Running) ==> self.clock is Some
    }

    pub closed spec fn step_spec(&self) -> Step {
        self.step
    }

    /// The frame clock, once the engine is built.
    pub closed spec fn clock_spec(&self) -> Option<FpsCounter> {
        self.clock
    }

    /// Whether an unhandled request to quit came in this iteration.
    pub closed spec fn quit_spec(&self) -> bool {
        self.quit
    }

    /// Timer ticks between the previous iteration and this one.
    pub closed spec fn elapsed_spec(&self) -> u64 {
        self.elapsed
    }

    /// A driver that waits for the engine to be built.
    pub fn new() -> (d: Driver)
        ensures
            d.step_spec() == Step::Build,
            d.clock_spec() is None,
            !d.quit_spec(),
    {
        Driver { step: Step::Build, clock: None, quit: false, elapsed: 0 }
    }

    pub fn step(&self) -> (s: Step)
        ensures
            s == self.step_spec(),
    {
        self.step
    }

    pub fn phase(&self) -> (p: Phase)
        ensures
            p == phase_of(self.step_spec()),
    {
        match self.step {
            Step::Build => Phase::Uninitialized,
            Step::Create => Phase::Created,
            Step::Done => Phase::Stopped,
            _ => Phase::Running,
        }
    }

    /// Takes one report and says what to do next.
    pub fn advance<E>(&mut self, report: Report<E>) -> (a: Action<E>)
        ensures
            ({
                let s = old(self).step_spec();
                match report {
                    Report::Built(c) => if s == Step::Build {
                        &&& final(self).step_spec() == Step::Create
                        &&& final(self).clock_spec() == Some(c)
                        &&& a is CallOnCreate
                    } else {
                        unchanged(*old(self), *final(self), a)
                    },
                    Report::BuildFailed(e) => if s == Step::Build {
                        finished(*final(self), a, Err(e))
                    } else {
                        unchanged(*old(self), *final(self), a)
                    },
                    Report::Created(r) => if s == Step::Create {
                        match r {
                            Ok(true) => final(self).step_spec() == Step::Tick && a is ReadTimer
                                && final(self).clock_spec() == old(self).clock_spec(),
                            Ok(false) => finished(*final(self), a, Ok(())),
                            Err(e) => finished(*final(self), a, Err(e)),
                        }
                    } else {
                        unchanged(*old(self), *final(self), a)
                    },
                    Report::Ticked(now) => if s == Step::Tick {
                        let c = old(self).clock_spec().unwrap();
                        &&& final(self).step_spec() == Step::Present
                        &&& final(self).elapsed_spec() == ticks_between(c.last_spec(), now)
                        &&& final(self).clock_spec() is Some
                        &&& ticked_state(c, final(self).clock_spec().unwrap(), now)
                        &&& a == Action::<E>::Present { fps: ticked_fps(c, now) }
                    } else {
                        unchanged(*old(self), *final(self), a)
                    },
                    Report::Presented => if s == Step::Present {
                        &&& final(self).step_spec() == Step::Dispatch
                        &&& !final(self).quit_spec()
                        &&& final(self).elapsed_spec() == old(self).elapsed_spec()
                        &&& final(self).clock_spec() == old(self).clock_spec()
                        &&& a is PollEvent
                    } else {
                        unchanged(*old(self), *final(self), a)
                    },
                    Report::Event { answer, quit } => if s == Step::Dispatch {
                        match answer {
                            Ok(handled) => {
                                &&& final(self).step_spec() == Step::Dispatch
                                &&& final(self).quit_spec() == (old(self).quit_spec() || (!handled
                                    && quit))
                                &&& final(self).elapsed_spec() == old(self).elapsed_spec()
                                &&& final(self).clock_spec() == old(self).clock_spec()
                                &&& a is PollEvent
                            },
                            Err(e) => finished(*final(self), a, Err(e)),
                        }
                    } else {
                        unchanged(*old(self), *final(self), a)
                    },
                    Report::Drained => if s == Step::Dispatch {
                        if old(self).quit_spec() {
                            finished(*final(self), a, Ok(()))
                        } else {
                            &&& final(self).step_spec() == Step::Update
                            &&& final(self).clock_spec() == old(self).clock_spec()
                            &&& a == Action::<E>::CallOnUpdate { elapsed: old(self).elapsed_spec() }
                        }
                    } else {
                        unchanged(*old(self), *final(self), a)
                    },
                    Report::Updated(r) => if s == Step::Update {
                        match r {
                            Ok(true) => final(self).step_spec() == Step::Tick && a is ReadTimer
                                && final(self).clock_spec() == old(self).clock_spec(),
                            Ok(false) => finished(*final(self), a, Ok(())),
                            Err(e) => finished(*final(self), a, Err(e)),
                        }
                    } else {
                        unchanged(*old(self), *final(self), a)
                    },
                }
            }),
    {
        proof {
            use_type_invariant(&*self);
        }
        match report {
            Report::Built(c) => {
                if self.step == Step::Build {
                    self.clock = Some(c);
                    self.step = Step::Create;
                    Action::CallOnCreate
                } else {
                    Action::OutOfOrder
                }
            },
            Report::BuildFailed(e) => {
                if self.step == Step::Build {
                    self.stop();
                    Action::Finish(Err(e))
                } else {
                    Action::OutOfOrder
                }
            },
            Report::Created(r) => {
                if self.step == Step::Create {
                    self.after_hook(r)
                } else {
                    Action::OutOfOrder
                }
            },
            Report::Ticked(now) => {
                if self.step == Step::Tick {
                    let mut c = self.clock.unwrap();
                    let t = c.tick(now);
                    self.step = Step::Present;
                    self.clock = Some(c);
                    self.elapsed = t.elapsed;
                    Action::Present { fps: t.fps }
                } else {
                    Action::OutOfOrder
                }
            },
            Report::Presented => {
                if self.step == Step::Present {
                    self.step = Step::Dispatch;
                    self.quit = false;
                    Action::PollEvent
                } else {
                    Action::OutOfOrder
                }
            },
            Report::Event { answer, quit } => {
                if self.step == Step::Dispatch {
                    match answer {
                        Ok(handled) => {
                            if !handled && quit {
                                self.quit = true;
                            }
                            Action::PollEvent
                        },
                        Err(e) => {
                            self.stop();
                            Action::Finish(Err(e))
                        },
                    }
                } else {
                    Action::OutOfOrder
                }
            },
            Report::Drained => {
                if self.step == Step::Dispatch {
                    if self.quit {
                        self.stop();
                        Action::Finish(Ok(()))
                    } else {
                        self.step = Step::Update;
                        Action::CallOnUpdate { elapsed: self.elapsed }
                    }
                } else {
                    Action::OutOfOrder
                }
            },
            Report::Updated(r) => {
                if self.step == Step::Update {
                    self.after_hook(r)
                } else {
                    Action::OutOfOrder
                }
            },
        }
    }

    /// Goes on to the next iteration on `Ok(true)`; otherwise ends the run.
    fn after_hook<E>(&mut self, r: Result<bool, E>) -> (a: Action<E>)
        requires
            old(self).step_spec() == Step::Create || old(self).step_spec() == Step::Update,
            old(self).clock_spec() is Some,
        ensures
            match r {
                Ok(true) => final(self).step_spec() == Step::Tick && a is ReadTimer
                    && final(self).clock_spec() == old(self).clock_spec(),
                Ok(false) => finished(*final(self), a, Ok(())),
                Err(e) => finished(*final(self), a, Err(e)),
            },
    {
        match r {
            Ok(true) => {
                self.step = Step::Tick;
                Action::ReadTimer
            },
            Ok(false) => {
                self.stop();
                Action::Finish(Ok(()))
            },
            Err(e) => {
                self.stop();
                Action::Finish(Err(e))
            },
        }
    }

    fn stop(&mut self)
        ensures
            final(self).step_spec() == Step::Done,
    {
        self.step = Step::Done;
    }
}

/// The driver has stopped with action `a`, which finishes the run with `result`.
pub open spec fn finished<E>(d: Driver, a: Action<E>, result: Result<(), E>) -> bool {
    &&& d.step_spec() == Step::Done
    &&& a == Action::<E>::Finish(result)
}

/// A report that did not fit left the driver as it was.
pub open spec fn unchanged<E>(before: Driver, after: Driver, a: Action<E>) -> bool {
    &&& after == before
    &&& a is OutOfOrder
}

} // verus!

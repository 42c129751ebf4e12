//! The decisions of the worker that drives a machine frame by frame: which
//! commands change what, when the machine runs, and what the host hears.
//! The worker's clock, channels and sleeping belong to the host.

use vstd::prelude::*;

use crate::hardware::{Chip8, Error, KeyEvent};

verus! {

/// A command from the host to the worker.
#[derive(Debug, Clone)]
pub enum ToMachine {
    /// A key transition, applied at the next frame that runs.
    Input(u8, KeyEvent),
    /// Replace the machine (a new ROM or a reset) and forget the error.
    ResetMachine(Chip8),
    Pause(bool),
    /// Run one instruction, also while paused.
    Step,
    /// Instructions per frame.
    SetIpf(u32),
    Exit,
}

/// What the host's audio does this frame.
#[derive(Debug, Clone, Copy, PartialEq, Eq, Structural)]
pub enum AudioStatus {
    /// Render the pattern for one frame.
    Play,
    /// Keep the phase, render nothing.
    Paused,
    /// Silence: reset the phase.
    Reset,
}

/// The worker's state between frames.
pub struct Session {
    pub machine: Option<Chip8>,
    /// The error that stopped the machine, if any.
    pub error: Option<Error>,
    pub paused: bool,
    pub ipf: u32,
    /// Key transitions received since the last frame.
    pub inputs: Vec<(u8, KeyEvent)>,
}

impl Session {
    pub open spec fn wf(&self) -> bool {
        self.machine matches Some(m) ==> m.wf()
    }

    /// Whether the next frame runs the machine.
    pub open spec fn running(&self) -> bool {
        self.machine is Some && !self.paused && self.error is None
    }

    pub open spec fn spec_audio_status(&self) -> AudioStatus {
        let sounding = self.machine matches Some(m) && m.cpu.st > 0;
        if sounding && !self.paused {
            AudioStatus::Play
        } else if sounding {
            AudioStatus::Paused
        } else {
            AudioStatus::Reset
        }
    }

    /// Whether `t` is this session after a single step: the machine, if it
    /// runs, executes one tick; an error stops it.
    pub open spec fn stepped_to(&self, t: &Session) -> bool {
        &&& (t.machine is Some <==> self.machine is Some)
        &&& if self.machine is Some && self.error is None {
            crate::semantics::spec_tick(
                self.machine->Some_0@,
                t.machine->Some_0@,
                match t.error {
                    Some(e) => Err::<bool, Error>(e),
                    None => Ok::<bool, Error>(false),
                },
            ) || (t.error is None && crate::semantics::spec_tick(
                self.machine->Some_0@,
                t.machine->Some_0@,
                Ok::<bool, Error>(true),
            ))
        } else {
            t.machine == self.machine && t.error == self.error
        }
    }

    /// No machine yet, running `ipf` instructions per frame once one comes.
    pub fn new(ipf: u32) -> (r: Session)
        ensures
            r.wf(),
            r.machine is None,
            r.error is None,
            !r.paused,
            r.ipf == ipf,
            r.inputs@.len() == 0,
    {
        Session { machine: None, error: None, paused: false, ipf, inputs: Vec::new() }
    }

    /// What the host's audio does this frame.
    pub fn audio_status(&self) -> (r: AudioStatus)
        ensures
            r == self.spec_audio_status(),
    {
        let sounding = match &self.machine {
            Some(m) => m.sound_active(),
            None => false,
        };
        if sounding && !self.paused {
            AudioStatus::Play
        } else if sounding {
            AudioStatus::Paused
        } else {
            AudioStatus::Reset
        }
    }

    /// The error to report with this frame: only while its machine is kept.
    pub fn reported_error(&self) -> (r: Option<Error>)
        ensures
            r == if self.machine is Some { self.error } else { None },
    {
        match &self.machine {
            Some(_) => self.error,
            None => None,
        }
    }

    /// After a frame was reported, a machine that failed is dropped.
    pub fn drop_failed_machine(&mut self)
        requires
            old(self).wf(),
        ensures
            final(self).wf(),
            final(self).error == old(self).error,
            final(self).paused == old(self).paused,
            final(self).ipf == old(self).ipf,
            final(self).inputs@ == old(self).inputs@,
            old(self).error is Some ==> final(self).machine is None,
            old(self).error is None ==> final(self).machine == old(self).machine,
    {
        if self.error.is_some() {
            self.machine = None;
        }
    }

    /// Applies one command; returns `false` when the worker should stop.
    pub fn handle(&mut self, message: ToMachine) -> (keep_running: bool)
        requires
            old(self).wf(),
            message matches ToMachine::ResetMachine(m) ==> m.wf(),
        ensures
            final(self).wf(),
            keep_running == !((message is Exit)),
            message matches ToMachine::Input(key, event) ==> final(self).inputs@ == old(self).inputs@.push((key, event)),
            !(message is Input) ==> final(self).inputs@ == old(self).inputs@,
            !((message is Pause)) ==> final(self).paused == old(self).paused,
            message matches ToMachine::Pause(p) ==> final(self).paused == p,
            !((message is SetIpf)) ==> final(self).ipf == old(self).ipf,
            message matches ToMachine::SetIpf(n) ==> final(self).ipf == n,
            message matches ToMachine::ResetMachine(m) ==> final(self).machine == Some(m) && final(self).error is None,
            !((message is ResetMachine)) && !((message is Step)) ==> final(self).machine == old(self).machine
                && final(self).error == old(self).error,
            (message is Step) ==> old(self).stepped_to(final(self)),
    {
        match message {
            ToMachine::Input(key, event) => {
                self.inputs.push((key, event));
                true
            },
            ToMachine::ResetMachine(m) => {
                self.machine = Some(m);
                self.error = None;
                true
            },
            ToMachine::Pause(p) => {
                self.paused = p;
                true
            },
            ToMachine::Step => {
                if self.error.is_none() {
                    let mut taken: Option<Chip8> = None;
                    core::mem::swap(&mut taken, &mut self.machine);
                    match taken {
                        Some(mut m) => {
                            let ghost before = m;
                            assert(old(self).machine == Some(before));
                            let res = m.tick();
                            assert(crate::semantics::spec_tick(before@, m@, res));
                            match res {
                                Err(e) => {
                                    self.error = Some(e);
                                },
                                Ok(_) => {},
                            }
                            self.machine = Some(m);
                            proof {
                                let mapped = match self.error {
                                    Some(e) => Err::<bool, Error>(e),
                                    None => Ok::<bool, Error>(false),
                                };
                                match res {
                                    Err(e) => assert(mapped == res),
                                    Ok(b) => {
                                        if b {
                                            assert(res == Ok::<bool, Error>(true));
                                        } else {
                                            assert(mapped == res);
                                        }
                                    },
                                }
                            }
                        },
                        None => {},
                    }
                }
                true
            },
            ToMachine::SetIpf(n) => {
                self.ipf = n;
                true
            },
            ToMachine::Exit => false,
        }
    }

    /// The error after a frame that returned `r`: a failure replaces it.
    pub open spec fn error_after(old_error: Option<Error>, r: Result<bool, Error>) -> Option<Error> {
        match r {
            Err(e) => Some(e),
            Ok(_) => old_error,
        }
    }

    /// The frame's work: when the machine runs, the key transitions received
    /// since the last frame are applied in order (keys above 15 are
    /// ignored), the timers tick and up to `ipf` instructions run; an error
    /// stops the machine. The received transitions are used up either way.
    pub fn run_frame(&mut self)
        requires
            old(self).wf(),
        ensures
            final(self).wf(),
            final(self).inputs@.len() == 0,
            final(self).paused == old(self).paused,
            final(self).ipf == old(self).ipf,
            !old(self).running() ==> final(self).machine == old(self).machine && final(self).error
                == old(self).error,
            old(self).running() ==> final(self).machine is Some && exists|
                trace: Seq<crate::hardware::MachineView>,
                results: Seq<Result<bool, Error>>,
                r: Result<bool, Error>,
            |
                #[trigger] crate::semantics::frame_run(
                    crate::semantics::timers_ticked(
                        crate::semantics::inputs_applied(old(self).machine->Some_0@, old(self).inputs@),
                    ),
                    final(self).machine->Some_0@,
                    old(self).ipf,
                    r,
                    trace,
                    results,
                ) && final(self).error == Session::error_after(old(self).error, r),
    {
        let mut inputs: Vec<(u8, KeyEvent)> = Vec::new();
        core::mem::swap(&mut inputs, &mut self.inputs);
        if self.paused || self.error.is_some() {
            return;
        }
        let mut taken: Option<Chip8> = None;
        core::mem::swap(&mut taken, &mut self.machine);
        match taken {
            Some(mut m) => {
                let ghost start = m@;
                let mut k: usize = 0;
                while k < inputs.len()
                    invariant
                        m.wf(),
                        k <= inputs@.len(),
                        m@ == crate::semantics::inputs_applied(start, inputs@.take(k as int)),
                    decreases inputs.len() - k,
                {
                    let (key, event) = inputs[k];
                    if key < 16 {
                        m.event(key, event);
                    }
                    proof {
                        assert(inputs@.take(k as int + 1).drop_last() =~= inputs@.take(k as int));
                    }
                    k = k + 1;
                }
                proof {
                    assert(inputs@.take(k as int) =~= inputs@);
                }
                let ghost applied = m@;
                m.tick_timers();
                let ghost ticked = m@;
                let res = m.tick_many(self.ipf);
                match res {
                    Err(e) => {
                        self.error = Some(e);
                    },
                    Ok(_) => {},
                }
                self.machine = Some(m);
                proof {
                    let (trace, results) = choose|trace: Seq<crate::hardware::MachineView>, results: Seq<Result<bool, Error>>|
                        #[trigger] crate::semantics::frame_run(ticked, m@, self.ipf, res, trace, results);
                    assert(crate::semantics::frame_run(ticked, self.machine->Some_0@, self.ipf, res, trace, results));
                    assert(self.error == Session::error_after(old(self).error, res));
                }
            },
            None => {},
        }
    }
}

} // verus!

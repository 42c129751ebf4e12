//! What each instruction does to the machine, stated over the machine's
//! view.

use vstd::prelude::*;

use crate::hardware::{spec_bcd, CpuView, Error, Keypad, MachineView};
use crate::instruction::{Instruction, InstructionSet};
use crate::model::Quirks;
use crate::screen::UnsupportedScreenOperation;

verus! {

/// The big-endian word at `addr`, when both its bytes are in memory.
pub open spec fn word_at(memory: Seq<u8>, addr: u16) -> Option<u16> {
    if (addr as int) + 1 < memory.len() {
        Some((memory[addr as int] as int * 256 + memory[addr as int + 1] as int) as u16)
    } else {
        None
    }
}

/// The error for a range of memory that does not fit.
pub open spec fn range_error(start: u16, offset: int, inclusive: bool, memory: Seq<u8>) -> Error {
    Error::InvalidMemoryRange {
        start,
        offset: offset as usize,
        inclusive,
        memory_size: memory.len() as usize,
    }
}

/// `memory` with `data` written from `start`.
pub open spec fn write_at(memory: Seq<u8>, start: int, data: Seq<u8>) -> Seq<u8> {
    Seq::new(
        memory.len(),
        |a: int|
            if start <= a < start + data.len() {
                data[a - start]
            } else {
                memory[a]
            },
    )
}

/// The distance between two register numbers.
pub open spec fn distance(x: u8, y: u8) -> int {
    if x <= y {
        y - x
    } else {
        x - y
    }
}

/// `v0`–`vX` loaded from `source` (the rest unchanged).
pub open spec fn load_prefix(v: Seq<u8>, x: u8, source: Seq<u8>) -> Seq<u8> {
    Seq::new(16, |r: int| if r <= x { source[r] } else { v[r] })
}

impl MachineView {
    pub open spec fn quirks(&self) -> Quirks {
        self.model.spec_quirks()
    }

    pub open spec fn instruction_set(&self) -> InstructionSet {
        self.model.spec_instruction_set()
    }

    pub open spec fn reg(&self, x: u8) -> u8 {
        self.cpu.v[x as int]
    }

    /// This machine with another CPU.
    pub open spec fn with_cpu(&self, cpu: CpuView) -> MachineView {
        MachineView { cpu, ..*self }
    }

    /// This machine with register `x` set to `val`.
    pub open spec fn with_reg(&self, x: u8, val: u8) -> MachineView {
        self.with_cpu(CpuView { v: self.cpu.v.update(x as int, val), ..self.cpu })
    }

    /// This machine with another program counter.
    pub open spec fn with_pc(&self, pc: u16) -> MachineView {
        self.with_cpu(CpuView { pc, ..self.cpu })
    }

    /// This machine with another address register.
    pub open spec fn with_i(&self, i: u16) -> MachineView {
        self.with_cpu(CpuView { i, ..self.cpu })
    }

    /// This machine with the instruction rewound, to run again next tick.
    pub open spec fn rewound(&self) -> MachineView {
        self.with_pc(self.cpu.pc.wrapping_sub(2))
    }

    /// Whether `t` differs from this machine at most in its screen.
    pub open spec fn only_screen_changed(&self, t: MachineView) -> bool {
        t == MachineView { screen: t.screen, ..*self }
    }

    /// Whether `t` differs from this machine at most in its screen and `vF`,
    /// and `vF` holds `collided`.
    pub open spec fn drew(&self, t: MachineView, collided: int) -> bool {
        &&& t == MachineView { screen: t.screen, cpu: CpuView { v: self.cpu.v.update(15, collided as u8), ..self.cpu }, ..*self }
        &&& 0 <= collided < 256
    }

    /// The program counter after a skip whose condition is `cond`; on
    /// XO-CHIP a skipped `F000` takes its operand word with it.
    pub open spec fn skip_target(&self, cond: bool) -> Result<u16, Error> {
        if !cond {
            Ok(self.cpu.pc)
        } else if self.instruction_set() == InstructionSet::XoChip {
            match word_at(self.memory, self.cpu.pc) {
                None => Err(range_error(self.cpu.pc, 2, false, self.memory)),
                Some(w) => Ok(
                    if w == 0xF000 {
                        self.cpu.pc.wrapping_add(2).wrapping_add(2)
                    } else {
                        self.cpu.pc.wrapping_add(2)
                    },
                ),
            }
        } else {
            Ok(self.cpu.pc.wrapping_add(2))
        }
    }

    /// Whether a draw at the current resolution waits for the vertical blank
    /// that has not come yet.
    pub open spec fn draw_must_wait(&self) -> bool {
        self.quirks().draw_wait_for_vblank.spec_wait(self.screen.spec_hires()) && !self.vblank
    }

    /// A byte-per-row draw of `len` bytes per plane from `i`.
    pub open spec fn draw_small(&self, t: MachineView, r: Result<bool, Error>, x: u8, y: u8, len: int) -> bool {
        let bytes = len * self.screen.spec_num_active_planes();
        if self.cpu.i as int + bytes > self.memory.len() {
            r == Err::<bool, Error>(range_error(self.cpu.i, bytes, false, self.memory)) && t == *self
        } else {
            &&& r == Ok::<bool, Error>(false)
            &&& self.drew(t, t.cpu.v[15] as int)
            &&& self.screen.drawn_to(
                &t.screen,
                self.reg(x),
                self.reg(y),
                self.memory.subrange(self.cpu.i as int, self.cpu.i as int + bytes),
                t.cpu.v[15] == 1,
            )
            &&& t.cpu.v[15] <= 1
        }
    }
}

/// Whether `t` and `r` are a possible outcome of executing `instr` on `s`,
/// whose program counter already points past the instruction. Every error
/// leaves the machine as it was.
pub open spec fn spec_execute(s: MachineView, t: MachineView, instr: Instruction, r: Result<bool, Error>) -> bool {
    let q = s.quirks();
    let ok = Ok::<bool, Error>(false);
    match instr {
        Instruction::ExitIfAllowed => t == s && r == if q.graceful_exit_on_0000 {
            Ok::<bool, Error>(true)
        } else {
            Err(Error::InvalidInstruction(0))
        },
        Instruction::ScrollDown(n) => if s.screen is CosmacVip {
            t == s && r == Err::<bool, Error>(Error::UnsupportedScreenOperation(UnsupportedScreenOperation::ScrollDown))
        } else {
            r == ok && s.only_screen_changed(t) && s.screen.scrolled_down_to(&t.screen, n)
        },
        Instruction::ScrollUp(n) => if !(s.screen is XoChip) {
            t == s && r == Err::<bool, Error>(Error::UnsupportedScreenOperation(UnsupportedScreenOperation::ScrollUp))
        } else {
            r == ok && s.only_screen_changed(t) && s.screen.scrolled_up_to(&t.screen, n)
        },
        Instruction::Clear => r == ok && s.only_screen_changed(t) && s.screen.cleared_to(&t.screen),
        Instruction::Return => if s.cpu.sp == 0 {
            t == s && r == Err::<bool, Error>(Error::StackEmpty)
        } else {
            r == ok && t == s.with_cpu(CpuView { pc: s.cpu.stack[s.cpu.sp as int], sp: (s.cpu.sp - 1) as u8, ..s.cpu })
        },
        Instruction::ScrollRight => if s.screen is CosmacVip {
            t == s && r == Err::<bool, Error>(Error::UnsupportedScreenOperation(UnsupportedScreenOperation::ScrollRight))
        } else {
            r == ok && s.only_screen_changed(t) && s.screen.scrolled_right_to(&t.screen)
        },
        Instruction::ScrollLeft => if s.screen is CosmacVip {
            t == s && r == Err::<bool, Error>(Error::UnsupportedScreenOperation(UnsupportedScreenOperation::ScrollLeft))
        } else {
            r == ok && s.only_screen_changed(t) && s.screen.scrolled_left_to(&t.screen)
        },
        Instruction::Exit => r == Ok::<bool, Error>(true) && t == s,
        Instruction::Lores | Instruction::Hires => {
            let hires = instr is Hires;
            if s.screen is CosmacVip {
                t == s && r == Err::<bool, Error>(Error::UnsupportedScreenOperation(UnsupportedScreenOperation::HiresMode))
            } else {
                &&& r == ok
                &&& s.only_screen_changed(t)
                &&& if q.clear_screen_on_mode_switch {
                    exists|mid: crate::screen::DynamicScreen| s.screen.hires_set_to(&mid, hires) && mid.cleared_to(&t.screen)
                } else {
                    s.screen.hires_set_to(&t.screen, hires)
                }
            }
        },
        Instruction::Jump(nnn) => r == ok && t == s.with_pc(nnn),
        Instruction::Call(nnn) => if s.cpu.sp == 15 {
            t == s && r == Err::<bool, Error>(Error::StackFull)
        } else {
            r == ok && t == s.with_cpu(CpuView {
                sp: (s.cpu.sp + 1) as u8,
                stack: s.cpu.stack.update(s.cpu.sp + 1, s.cpu.pc),
                pc: nnn,
                ..s.cpu
            })
        },
        Instruction::SkipIfEqualImm(x, nn) => skips(s, t, r, s.reg(x) == nn),
        Instruction::SkipIfNotEqualImm(x, nn) => skips(s, t, r, s.reg(x) != nn),
        Instruction::SkipIfEqual(x, y) => skips(s, t, r, s.reg(x) == s.reg(y)),
        Instruction::SkipIfNotEqual(x, y) => skips(s, t, r, s.reg(x) != s.reg(y)),
        Instruction::SkipIfKey(x) => skips(s, t, r, crate::hardware::key_held(s.keypad.keys, (s.reg(x) % 16) as u16)),
        Instruction::SkipIfNotKey(x) => skips(s, t, r, !crate::hardware::key_held(s.keypad.keys, (s.reg(x) % 16) as u16)),
        Instruction::SaveRange(x, y) => {
            let d = distance(x, y);
            if s.cpu.i as int + d >= s.memory.len() {
                t == s && r == Err::<bool, Error>(range_error(s.cpu.i, d, true, s.memory))
            } else {
                r == ok && t == MachineView {
                    memory: write_at(
                        s.memory,
                        s.cpu.i as int,
                        Seq::new((d + 1) as nat, |k: int| if x <= y { s.cpu.v[x + k] } else { s.cpu.v[x - k] }),
                    ),
                    ..s
                }
            }
        },
        Instruction::LoadRange(x, y) => {
            let d = distance(x, y);
            if s.cpu.i as int + d >= s.memory.len() {
                t == s && r == Err::<bool, Error>(range_error(s.cpu.i, d, true, s.memory))
            } else {
                r == ok && t == s.with_cpu(CpuView {
                    v: Seq::new(
                        16,
                        |k: int|
                            if (x <= k <= y) || (y <= k <= x) {
                                s.memory[s.cpu.i as int + distance(k as u8, x)]
                            } else {
                                s.cpu.v[k]
                            },
                    ),
                    ..s.cpu
                })
            }
        },
        Instruction::LoadImm(x, nn) => r == ok && t == s.with_reg(x, nn),
        Instruction::AddImm(x, nn) => r == ok && t == s.with_reg(x, s.reg(x).wrapping_add(nn)),
        Instruction::Move(x, y) => r == ok && t == s.with_reg(x, s.reg(y)),
        Instruction::Or(x, y) => r == ok && t == bitwise_result(s, x, s.reg(x) | s.reg(y)),
        Instruction::And(x, y) => r == ok && t == bitwise_result(s, x, s.reg(x) & s.reg(y)),
        Instruction::Xor(x, y) => r == ok && t == bitwise_result(s, x, s.reg(x) ^ s.reg(y)),
        Instruction::Add(x, y) => r == ok && t == s.with_reg(x, s.reg(x).wrapping_add(s.reg(y))).with_reg(
            15,
            if s.reg(x) as int + s.reg(y) as int > 255 { 1 } else { 0 },
        ),
        Instruction::Sub(x, y) => r == ok && t == s.with_reg(x, s.reg(x).wrapping_sub(s.reg(y))).with_reg(
            15,
            if s.reg(x) >= s.reg(y) { 1 } else { 0 },
        ),
        Instruction::SubFrom(x, y) => r == ok && t == s.with_reg(x, s.reg(y).wrapping_sub(s.reg(x))).with_reg(
            15,
            if s.reg(y) >= s.reg(x) { 1 } else { 0 },
        ),
        Instruction::ShiftRight(x, y) => {
            let src = if q.bitshift_use_y { s.reg(y) } else { s.reg(x) };
            r == ok && t == s.with_reg(x, src / 2).with_reg(15, src % 2)
        },
        Instruction::ShiftLeft(x, y) => {
            let src = if q.bitshift_use_y { s.reg(y) } else { s.reg(x) };
            r == ok && t == s.with_reg(x, ((src as int * 2) % 256) as u8).with_reg(15, src / 128)
        },
        Instruction::SetIndex(nnn) => r == ok && t == s.with_i(nnn),
        Instruction::JumpOffset(x, nnn) => r == ok && t == s.with_pc(
            (nnn + if q.jump_v0_use_vx { s.reg(x) } else { s.reg(0) }) as u16,
        ),
        Instruction::Random(x, nn) => r == ok && exists|b: u8| t == s.with_reg(x, b & nn),
        Instruction::Draw(x, y, n) => if s.draw_must_wait() {
            r == ok && t == s.rewound()
        } else {
            s.draw_small(t, r, x, y, n as int)
        },
        Instruction::DrawLarge(x, y) => if s.draw_must_wait() {
            r == ok && t == s.rewound()
        } else if q.lores_draw_large_as_small && !s.screen.spec_hires() {
            s.draw_small(t, r, x, y, 16)
        } else {
            let bytes = 32 * s.screen.spec_num_active_planes();
            if s.cpu.i as int + bytes > s.memory.len() {
                t == s && r == Err::<bool, Error>(range_error(s.cpu.i, bytes, false, s.memory))
            } else if !s.screen.supports_large_sprite() {
                t == s && r == Err::<bool, Error>(Error::UnsupportedScreenOperation(s.screen.large_sprite_error()))
            } else {
                &&& r == ok
                &&& s.drew(t, t.cpu.v[15] as int)
                &&& s.screen.drawn_large_to(
                    &t.screen,
                    s.reg(x),
                    s.reg(y),
                    s.memory.subrange(s.cpu.i as int, s.cpu.i as int + bytes),
                    t.cpu.v[15],
                )
            }
        },
        Instruction::LongIndex => match word_at(s.memory, s.cpu.pc) {
            None => t == s && r == Err::<bool, Error>(range_error(s.cpu.pc, 2, false, s.memory)),
            Some(w) => r == ok && t == s.with_cpu(CpuView { pc: s.cpu.pc.wrapping_add(2), i: w, ..s.cpu }),
        },
        Instruction::SetPlanes(x) => if !(s.screen is XoChip) {
            t == s && r == Err::<bool, Error>(Error::UnsupportedScreenOperation(UnsupportedScreenOperation::SetPlanes))
        } else {
            r == ok && s.only_screen_changed(t) && s.screen.planes_set_to(&t.screen, x)
        },
        Instruction::LoadAudio => if s.cpu.i as int + 16 > s.memory.len() {
            t == s && r == Err::<bool, Error>(range_error(s.cpu.i, 16, false, s.memory))
        } else {
            r == ok && t == MachineView { audio_pattern: s.memory.subrange(s.cpu.i as int, s.cpu.i as int + 16), ..s }
        },
        Instruction::GetDelay(x) => r == ok && t == s.with_reg(x, s.cpu.dt),
        Instruction::WaitKey(x) => r == ok && if !s.keypad.waiting {
            t == MachineView { keypad: Keypad { waiting: true, event: None, ..s.keypad }, ..s.rewound() }
        } else {
            match s.keypad.event {
                None => t == s.rewound(),
                Some(k) => t == MachineView { keypad: Keypad { waiting: false, event: None, ..s.keypad }, ..s.with_reg(x, k) },
            }
        },
        Instruction::SetDelay(x) => r == ok && t == s.with_cpu(CpuView { dt: s.reg(x), ..s.cpu }),
        Instruction::SetSound(x) => r == ok && t == s.with_cpu(CpuView { st: s.reg(x), ..s.cpu }),
        Instruction::AddIndex(x) => r == ok && t == s.with_i(s.cpu.i.wrapping_add(s.reg(x) as u16)),
        Instruction::FontChar(x) => r == ok && t == s.with_i(((s.reg(x) % 16) * 5) as u16),
        Instruction::BigFontChar(x) => r == ok && t == s.with_i(((s.reg(x) % 16) * 10 + 80) as u16),
        Instruction::Bcd(x) => if s.cpu.i as int + 3 > s.memory.len() {
            t == s && r == Err::<bool, Error>(range_error(s.cpu.i, 3, false, s.memory))
        } else {
            r == ok && t == MachineView { memory: write_at(s.memory, s.cpu.i as int, spec_bcd(s.reg(x))), ..s }
        },
        Instruction::SetPitch(x) => r == ok && t == MachineView { pitch: s.reg(x), ..s },
        Instruction::Store(x) => if s.cpu.i as int + x as int >= s.memory.len() {
            t == s && r == Err::<bool, Error>(range_error(s.cpu.i, x as int, true, s.memory))
        } else {
            r == ok && t == MachineView {
                memory: write_at(s.memory, s.cpu.i as int, s.cpu.v.take(x + 1)),
                ..s.with_i(slice_index_after(s, x))
            }
        },
        Instruction::Load(x) => if s.cpu.i as int + x as int >= s.memory.len() {
            t == s && r == Err::<bool, Error>(range_error(s.cpu.i, x as int, true, s.memory))
        } else {
            r == ok && t == s.with_cpu(CpuView {
                v: load_prefix(s.cpu.v, x, s.memory.subrange(s.cpu.i as int, s.memory.len() as int)),
                i: slice_index_after(s, x),
                ..s.cpu
            })
        },
        Instruction::SaveFlags(x) => r == ok && t == MachineView { rpl: load_prefix(s.rpl, x, s.cpu.v), ..s },
        Instruction::LoadFlags(x) => r == ok && t == s.with_cpu(CpuView { v: load_prefix(s.cpu.v, x, s.rpl), ..s.cpu }),
    }
}

/// The outcome of a skip whose condition is `cond`.
pub open spec fn skips(s: MachineView, t: MachineView, r: Result<bool, Error>, cond: bool) -> bool {
    match s.skip_target(cond) {
        Err(e) => t == s && r == Err::<bool, Error>(e),
        Ok(pc) => r == Ok::<bool, Error>(false) && t == s.with_pc(pc),
    }
}

/// A bitwise operation's result in `vX`, with `vF` cleared where the quirk says.
pub open spec fn bitwise_result(s: MachineView, x: u8, val: u8) -> MachineView {
    if s.quirks().bitwise_reset_flag {
        s.with_reg(x, val).with_reg(15, 0)
    } else {
        s.with_reg(x, val)
    }
}

/// The address register after `Fx55` or `Fx65` moved `v0`–`vX`.
pub open spec fn slice_index_after(s: MachineView, x: u8) -> u16 {
    if s.quirks().inc_i_on_slice {
        s.cpu.i.wrapping_add(x as u16).wrapping_add(1)
    } else {
        s.cpu.i
    }
}

/// Whether `t` and `r` are a possible outcome of one tick on `s`: fetch the
/// word at `pc`, move past it, decode it for the model's instruction set and
/// execute it. Every error leaves the machine as it was.
#[verifier::opaque]
pub open spec fn spec_tick(s: MachineView, t: MachineView, r: Result<bool, Error>) -> bool {
    match word_at(s.memory, s.cpu.pc) {
        None => t == s && r == Err::<bool, Error>(range_error(s.cpu.pc, 2, false, s.memory)),
        Some(w) => match crate::instruction::spec_decode(w, s.instruction_set()) {
            None => t == s && r == Err::<bool, Error>(Error::InvalidInstruction(w)),
            Some(ins) => {
                let a = s.with_pc(s.cpu.pc.wrapping_add(2));
                if r is Err {
                    t == s && spec_execute(a, a, ins, r)
                } else {
                    spec_execute(a, t, ins, r)
                }
            },
        },
    }
}

/// The state a tick of a frame starts from: the first from `trace[0]`, the
/// later ones after the vertical blank was lowered.
pub open spec fn frame_start(trace: Seq<MachineView>, k: int) -> MachineView {
    if k == 0 {
        trace[0]
    } else {
        MachineView { vblank: false, ..trace[k] }
    }
}

/// Whether `trace` and `results` record a run of ticks: tick `k` goes from
/// `frame_start(trace, k)` to `trace[k + 1]` with result `results[k]`, and
/// every tick but the last returned `Ok(false)`.
pub open spec fn ticks_recorded(trace: Seq<MachineView>, results: Seq<Result<bool, Error>>) -> bool {
    &&& trace.len() == results.len() + 1
    &&& forall|k: int|
        0 <= k < results.len() ==> spec_tick(frame_start(trace, k), trace[k + 1], #[trigger] results[k])
    &&& forall|k: int| 0 <= k < results.len() - 1 ==> #[trigger] results[k] == Ok::<bool, Error>(false)
}

/// Whether `t` and `r` are the outcome of a frame of up to `count` ticks
/// from `s`, as recorded by `trace` and `results`: no tick runs when
/// `count` is 0; otherwise the run stops at the first tick that does not
/// return `Ok(false)` and returns its result, and the vertical blank is
/// lowered once the first tick returned `Ok(false)`.
pub open spec fn frame_run(
    s: MachineView,
    t: MachineView,
    count: u32,
    r: Result<bool, Error>,
    trace: Seq<MachineView>,
    results: Seq<Result<bool, Error>>,
) -> bool {
    let n = results.len() as int;
    &&& ticks_recorded(trace, results)
    &&& trace[0] == s
    &&& n <= count
    &&& count == 0 ==> n == 0 && r == Ok::<bool, Error>(false) && t == s
    &&& count > 0 ==> {
        &&& 1 <= n
        &&& r == results[n - 1]
        &&& r == Ok::<bool, Error>(false) ==> n == count
        &&& t == if n == 1 && r != Ok::<bool, Error>(false) {
            trace[1]
        } else {
            frame_start(trace, n)
        }
    }
}

/// The machine after the key transition `(key, event)`, resolved against
/// the model's `key_wait_trigger`.
pub open spec fn key_applied(m: MachineView, key: u8, event: crate::hardware::KeyEvent) -> MachineView {
    MachineView { keypad: crate::hardware::keypad_after(m.keypad, key, event, m.quirks().key_wait_trigger), ..m }
}

/// The machine after the key transitions `inputs`, in order; keys above 15
/// are ignored.
pub open spec fn inputs_applied(m: MachineView, inputs: Seq<(u8, crate::hardware::KeyEvent)>) -> MachineView
    decreases inputs.len(),
{
    if inputs.len() == 0 {
        m
    } else {
        let prev = inputs_applied(m, inputs.drop_last());
        let (key, event) = inputs.last();
        if key < 16 {
            key_applied(prev, key, event)
        } else {
            prev
        }
    }
}

/// The machine at a frame boundary: both timers count down towards zero and
/// the vertical blank is raised.
pub open spec fn timers_ticked(m: MachineView) -> MachineView {
    MachineView {
        cpu: CpuView {
            dt: if m.cpu.dt > 0 { (m.cpu.dt - 1) as u8 } else { 0 },
            st: if m.cpu.st > 0 { (m.cpu.st - 1) as u8 } else { 0 },
            ..m.cpu
        },
        vblank: true,
        ..m
    }
}

} // verus!

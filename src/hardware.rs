//! The interpreter: CPU state, memory, keypad and the fetch–decode–execute
//! loop.

use rand::{Rng, SeedableRng};
use rand_xoshiro::Xoshiro256PlusPlus;
use vstd::prelude::*;

use crate::instruction::{decode, Instruction, InstructionSet};
use crate::semantics::{range_error, spec_execute, spec_tick, word_at};
use crate::model::{DynamicModel, Quirks};
use crate::screen::{DynamicScreen, Palette, UnsupportedScreenOperation, Color};

verus! {

#[verifier::external_type_specification]
#[verifier::external_body]
pub struct ExXoshiro256PlusPlus(Xoshiro256PlusPlus);

/// Relies on the derived `Clone` of xoshiro256++, which copies a machine's
/// generator along with the machine.
pub assume_specification[ <Xoshiro256PlusPlus as Clone>::clone ](rng: &Xoshiro256PlusPlus) -> Xoshiro256PlusPlus;

/// Relies on rand_core's `SeedableRng::seed_from_u64` for xoshiro256++: a
/// generator determined by the seed.
#[verifier::external_body]
fn rng_from_seed(seed: u64) -> Xoshiro256PlusPlus {
    Xoshiro256PlusPlus::seed_from_u64(seed)
}

/// Relies on rand_core's `SeedableRng::try_from_os_rng`: a generator seeded
/// by the operating system, or nothing where it has no entropy to give.
#[verifier::external_body]
fn rng_from_os() -> Option<Xoshiro256PlusPlus> {
    Xoshiro256PlusPlus::try_from_os_rng().ok()
}

/// Relies on rand's `Rng::random::<u8>`: a uniformly drawn byte.
#[verifier::external_body]
fn random_byte(rng: &mut Xoshiro256PlusPlus) -> u8 {
    rng.random::<u8>()
}

/// A key transition.
#[derive(Debug, Clone, Copy, PartialEq, Eq, Structural)]
pub enum KeyEvent {
    Press,
    Release,
}

impl KeyEvent {
    /// The transition's name.
    pub fn name(&self) -> &'static str {
        match self {
            KeyEvent::Press => "Press",
            KeyEvent::Release => "Release",
        }
    }
}

/// A fatal interpreter error.
#[derive(Debug, Clone, Copy, PartialEq, Eq, Structural)]
pub enum Error {
    /// An opcode that is unknown, or belongs to a later instruction set.
    InvalidInstruction(u16),
    /// A return with nothing on the stack.
    StackEmpty,
    /// A call with the stack full.
    StackFull,
    /// A memory access past the end of memory: `offset` bytes from `start`
    /// (one more when `inclusive`).
    InvalidMemoryRange { start: u16, offset: usize, inclusive: bool, memory_size: usize },
    /// A screen operation the display does not support.
    UnsupportedScreenOperation(UnsupportedScreenOperation),
}

/// The sixteen five-byte glyphs of the low-resolution font.
pub open spec fn lores_font() -> Seq<u8> {
    seq![
        0xF0, 0x90, 0x90, 0x90, 0xF0, 0x20, 0x60, 0x20, 0x20, 0x70,
        0xF0, 0x10, 0xF0, 0x80, 0xF0, 0xF0, 0x10, 0xF0, 0x10, 0xF0,
        0x90, 0x90, 0xF0, 0x10, 0x10, 0xF0, 0x80, 0xF0, 0x10, 0xF0,
        0xF0, 0x80, 0xF0, 0x90, 0xF0, 0xF0, 0x10, 0x20, 0x40, 0x40,
        0xF0, 0x90, 0xF0, 0x90, 0xF0, 0xF0, 0x90, 0xF0, 0x10, 0xF0,
        0xF0, 0x90, 0xF0, 0x90, 0x90, 0xE0, 0x90, 0xE0, 0x90, 0xE0,
        0xF0, 0x80, 0x80, 0x80, 0xF0, 0xE0, 0x90, 0x90, 0x90, 0xE0,
        0xF0, 0x80, 0xF0, 0x80, 0xF0, 0xF0, 0x80, 0xF0, 0x80, 0x80,
    ]
}

/// The sixteen ten-byte glyphs of the high-resolution font.
pub open spec fn hires_font() -> Seq<u8> {
    seq![
        0x3C, 0x7E, 0x66, 0x66, 0x6E, 0x76, 0x66, 0x66, 0x7E, 0x3C,
        0x0C, 0x1C, 0x3C, 0x6C, 0x0C, 0x0C, 0x0C, 0x0C, 0x7E, 0x7E,
        0x3C, 0x7E, 0x66, 0x06, 0x0E, 0x1C, 0x38, 0x70, 0x7E, 0x7E,
        0x3C, 0x7E, 0x66, 0x06, 0x1C, 0x1C, 0x06, 0x66, 0x7E, 0x3C,
        0x6C, 0x6C, 0x6C, 0x6C, 0x7E, 0x7E, 0x0C, 0x0C, 0x0C, 0x0C,
        0x7C, 0x7C, 0x60, 0x60, 0x7C, 0x3E, 0x06, 0x66, 0x7E, 0x3C,
        0x3C, 0x7E, 0x66, 0x60, 0x7C, 0x7E, 0x66, 0x66, 0x7E, 0x3C,
        0x7E, 0x7E, 0x06, 0x0E, 0x0C, 0x18, 0x18, 0x30, 0x30, 0x30,
        0x3C, 0x7E, 0x66, 0x66, 0x3C, 0x3C, 0x66, 0x66, 0x7E, 0x3C,
        0x3C, 0x7E, 0x66, 0x66, 0x7E, 0x3E, 0x06, 0x66, 0x7E, 0x3C,
        0x3C, 0x7E, 0x66, 0x66, 0x7E, 0x7E, 0x66, 0x66, 0x66, 0x66,
        0x7C, 0x7E, 0x66, 0x66, 0x7C, 0x7C, 0x66, 0x66, 0x7E, 0x7C,
        0x3C, 0x7E, 0x66, 0x66, 0x60, 0x60, 0x66, 0x66, 0x7E, 0x3C,
        0x7C, 0x7E, 0x66, 0x66, 0x66, 0x66, 0x66, 0x66, 0x7E, 0x7C,
        0x7E, 0x7E, 0x60, 0x60, 0x78, 0x78, 0x60, 0x60, 0x7E, 0x7E,
        0x7E, 0x7E, 0x60, 0x60, 0x78, 0x78, 0x60, 0x60, 0x60, 0x60,
    ]
}

/// The address of the low-resolution font.
pub const FONT_ADDRESS: u16 = 0;

/// The address of the high-resolution font, right after the low-resolution one.
pub const HIRES_FONT_ADDRESS: u16 = 80;

/// Where programs are loaded and start.
pub const PROGRAM_START: u16 = 0x200;

/// The audio pattern a machine starts with.
pub open spec fn default_audio_pattern() -> Seq<u8> {
    seq![0x00, 0x7F, 0xC0, 0x1F, 0xF0, 0x1F, 0xC0, 0x7F, 0x00, 0x7F, 0xC0, 0x1F, 0xF0, 0x1F, 0xC0, 0x7F]
}

/// The memory of a fresh machine: both fonts at the bottom and the program
/// from `PROGRAM_START`, cut off at the end of memory.
pub open spec fn initial_memory(size: int, rom: Seq<u8>) -> Seq<u8> {
    Seq::new(
        size as nat,
        |a: int|
            if a < 80 {
                lores_font()[a]
            } else if a < 240 {
                hires_font()[a - 80]
            } else if 0x200 <= a < 0x200 + rom.len() {
                rom[a - 0x200]
            } else {
                0u8
            },
    )
}

/// The three decimal digits of `x`, most significant first.
pub open spec fn spec_bcd(x: u8) -> Seq<u8> {
    seq![x / 100, x / 10 % 10, x % 10]
}

/// The decimal digits of `x`.
pub fn bcd(x: u8) -> (r: [u8; 3])
    ensures
        r@ == spec_bcd(x),
{
    let r = [x / 100, x / 10 % 10, x % 10];
    assert(r@ =~= spec_bcd(x));
    r
}

/// The keypad: sixteen keys and the key transition `Fx0A` waits for.
#[derive(Debug, Clone, Copy, PartialEq, Eq, Structural)]
pub struct Keypad {
    /// Bit `k` is set while key `k` is held.
    pub keys: u16,
    /// An `Fx0A` has begun waiting.
    pub waiting: bool,
    /// The lowest key whose awaited transition was seen while waiting.
    pub event: Option<u8>,
}

/// Whether key `k` is held in the mask `keys`.
pub open spec fn key_held(keys: u16, k: u16) -> bool {
    (keys >> k) & 1 == 1
}

/// The keypad after `key` went down or up, with `trigger` the transition
/// that `Fx0A` waits for: the key's bit follows the transition, and a real
/// transition of the awaited kind keeps the lowest such key.
pub open spec fn keypad_after(kp: Keypad, key: u8, event: KeyEvent, trigger: KeyEvent) -> Keypad {
    let bit = 1u16 << (key as u16);
    let was_held = key_held(kp.keys, key as u16);
    let edge = was_held != (event == KeyEvent::Press);
    Keypad {
        keys: if event == KeyEvent::Press { kp.keys | bit } else { kp.keys & !bit },
        waiting: kp.waiting,
        event: if edge && event == trigger {
            match kp.event {
                Some(e) => Some(if e < key { e } else { key }),
                None => Some(key),
            }
        } else {
            kp.event
        },
    }
}

impl Keypad {
    pub open spec fn wf(&self) -> bool {
        self.event matches Some(k) ==> k < 16
    }

    /// No key held, nothing awaited.
    pub fn new() -> (r: Keypad)
        ensures
            r.keys == 0,
            !r.waiting,
            r.event is None,
    {
        Keypad { keys: 0, waiting: false, event: None }
    }

    /// Records that `key` went down or up. A real transition of the kind
    /// `trigger` keeps, as the awaited key, the lowest key seen so far.
    pub fn event(&mut self, key: u8, event: KeyEvent, trigger: KeyEvent)
        requires
            key < 16,
            old(self).wf(),
        ensures
            final(self).wf(),
            *final(self) == keypad_after(*old(self), key, event, trigger),
            final(self).waiting == old(self).waiting,
            forall|k: u16|
                k < 16 ==> #[trigger] key_held(final(self).keys, k) == if k == key as u16 {
                    event == KeyEvent::Press
                } else {
                    key_held(old(self).keys, k)
                },
            final(self).event == if key_held(old(self).keys, key as u16) != (event == KeyEvent::Press)
                && event == trigger {
                match old(self).event {
                    Some(e) => Some(if e < key { e } else { key }),
                    None => Some(key),
                }
            } else {
                old(self).event
            },
    {
        let bit: u16 = 1u16 << (key as u16);
        let was_pressed = self.keys & bit != 0;
        let old_keys = self.keys;
        let record = match event {
            KeyEvent::Press => {
                self.keys = self.keys | bit;
                !was_pressed
            },
            KeyEvent::Release => {
                self.keys = self.keys & !bit;
                was_pressed
            },
        };
        let new_keys = self.keys;
        proof {
            let key16 = key as u16;
            assert(was_pressed == key_held(old_keys, key16)) by (bit_vector)
                requires
                    key16 < 16,
                    bit == 1u16 << key16,
                    was_pressed == (old_keys & bit != 0),
            ;
            if event == KeyEvent::Press {
                assert(forall|k: u16|
                    k < 16 ==> #[trigger] key_held(new_keys, k) == if k == key16 { true } else { key_held(old_keys, k) })
                    by (bit_vector)
                    requires
                        key16 < 16,
                        bit == 1u16 << key16,
                        new_keys == old_keys | bit,
                ;
            } else {
                assert(forall|k: u16|
                    k < 16 ==> #[trigger] key_held(new_keys, k) == if k == key16 { false } else { key_held(old_keys, k) })
                    by (bit_vector)
                    requires
                        key16 < 16,
                        bit == 1u16 << key16,
                        new_keys == old_keys & !bit,
                ;
            }
        }
        if record && event == trigger {
            let lowest = match self.event {
                Some(e) => if e < key { e } else { key },
                None => key,
            };
            self.event = Some(lowest);
        }
    }

    /// The wait of `Fx0A`: the first call starts waiting and forgets earlier
    /// transitions; later calls return the awaited key once one was seen,
    /// clearing both the wait and the key.
    pub fn test_event(&mut self) -> (r: Option<u8>)
        requires
            old(self).wf(),
        ensures
            final(self).wf(),
            final(self).keys == old(self).keys,
            old(self).waiting && old(self).event is Some ==> r == old(self).event && !final(self).waiting
                && final(self).event is None,
            old(self).waiting && old(self).event is None ==> r is None && *final(self) == *old(self),
            !old(self).waiting ==> r is None && final(self).waiting && final(self).event is None,
            r matches Some(k) ==> k < 16,
    {
        if self.waiting {
            match self.event {
                Some(key) => {
                    self.waiting = false;
                    self.event = None;
                    Some(key)
                },
                None => None,
            }
        } else {
            self.waiting = true;
            self.event = None;
            None
        }
    }

    /// Whether the key named by the low nibble of `key` is held.
    pub fn is_pressed(&self, key: u8) -> (r: bool)
        ensures
            r == key_held(self.keys, (key % 16) as u16),
    {
        let k = (key % 16) as u16;
        let keys = self.keys;
        let r = keys & (1u16 << k) != 0;
        proof {
            assert(r == key_held(keys, k)) by (bit_vector)
                requires
                    k < 16,
                    r == (keys & (1u16 << k) != 0),
            ;
        }
        r
    }
}

/// The registers, timers, program counter and return stack.
#[derive(Debug, Clone, Copy)]
pub struct Cpu {
    /// The general registers `v0`–`vF`; `vF` doubles as a flag.
    pub v: [u8; 16],
    /// The address register.
    pub i: u16,
    /// The delay timer.
    pub dt: u8,
    /// The sound timer.
    pub st: u8,
    pub pc: u16,
    /// The number of return addresses on the stack; `stack[sp]` is the top.
    pub sp: u8,
    pub stack: [u16; 16],
}

/// The CPU as values.
pub ghost struct CpuView {
    pub v: Seq<u8>,
    pub i: u16,
    pub dt: u8,
    pub st: u8,
    pub pc: u16,
    pub sp: u8,
    pub stack: Seq<u16>,
}

impl View for Cpu {
    type V = CpuView;

    open spec fn view(&self) -> CpuView {
        CpuView { v: self.v@, i: self.i, dt: self.dt, st: self.st, pc: self.pc, sp: self.sp, stack: self.stack@ }
    }
}

impl Cpu {
    pub open spec fn wf(&self) -> bool {
        self.sp < 16
    }

    /// Cleared registers with the program counter at `PROGRAM_START`.
    pub fn new() -> (r: Cpu)
        ensures
            r.wf(),
            r.pc == 0x200,
            r.sp == 0,
            r.i == 0,
            r.dt == 0,
            r.st == 0,
            forall|k: int| 0 <= k < 16 ==> r.v@[k] == 0 && r.stack@[k] == 0,
    {
        Cpu { v: [0u8; 16], i: 0, dt: 0, st: 0, pc: 0x200, sp: 0, stack: [0u16; 16] }
    }

    pub fn get_v(&self, reg: u8) -> (r: u8)
        requires
            reg < 16,
        ensures
            r == self.v@[reg as int],
    {
        self.v[reg as usize]
    }

    pub fn set_v(&mut self, reg: u8, val: u8)
        requires
            reg < 16,
        ensures
            final(self)@ == (CpuView { v: old(self)@.v.update(reg as int, val), ..old(self)@ }),
    {
        self.v[reg as usize] = val;
    }

    /// Pushes the program counter; fails, changing nothing, when the stack
    /// is full.
    pub fn push_stack(&mut self) -> (r: Result<(), Error>)
        requires
            old(self).wf(),
        ensures
            final(self).wf(),
            old(self).sp == 15 ==> r == Err::<(), Error>(Error::StackFull) && *final(self) == *old(self),
            old(self).sp != 15 ==> r is Ok && final(self)@ == (CpuView {
                sp: (old(self).sp + 1) as u8,
                stack: old(self)@.stack.update(old(self).sp + 1, old(self).pc),
                ..old(self)@
            }),
    {
        if self.sp == 15 {
            return Err(Error::StackFull);
        }
        self.sp = self.sp + 1;
        self.stack[self.sp as usize] = self.pc;
        Ok(())
    }

    /// Pops the top return address into the program counter; fails,
    /// changing nothing, when the stack is empty.
    pub fn pop_stack(&mut self) -> (r: Result<(), Error>)
        requires
            old(self).wf(),
        ensures
            final(self).wf(),
            old(self).sp == 0 ==> r == Err::<(), Error>(Error::StackEmpty) && *final(self) == *old(self),
            old(self).sp != 0 ==> r is Ok && final(self)@ == (CpuView {
                pc: old(self)@.stack[old(self).sp as int],
                sp: (old(self).sp - 1) as u8,
                ..old(self)@
            }),
    {
        if self.sp == 0 {
            return Err(Error::StackEmpty);
        }
        self.pc = self.stack[self.sp as usize];
        self.sp = self.sp - 1;
        Ok(())
    }

    /// Moves to the next instruction.
    pub fn inc_pc(&mut self)
        ensures
            final(self)@ == (CpuView { pc: old(self).pc.wrapping_add(2), ..old(self)@ }),
    {
        self.pc = self.pc.wrapping_add(2);
    }

    /// Moves back to the previous instruction.
    pub fn dec_pc(&mut self)
        ensures
            final(self)@ == (CpuView { pc: old(self).pc.wrapping_sub(2), ..old(self)@ }),
    {
        self.pc = self.pc.wrapping_sub(2);
    }
}

/// The whole machine as values (the random generator left out).
pub ghost struct MachineView {
    pub model: DynamicModel,
    pub keypad: Keypad,
    pub cpu: CpuView,
    pub memory: Seq<u8>,
    pub screen: DynamicScreen,
    pub vblank: bool,
    pub rpl: Seq<u8>,
    pub pitch: u8,
    pub audio_pattern: Seq<u8>,
}

/// Whether `screen` is the display that belongs to `model`.
pub open spec fn screen_fits_model(model: DynamicModel, screen: DynamicScreen) -> bool {
    match (model, screen) {
        (DynamicModel::CosmacVip(_), DynamicScreen::CosmacVip(_)) => true,
        (DynamicModel::LegacySuperChip(_), DynamicScreen::LegacySuperChip(_)) => true,
        (DynamicModel::ModernSuperChip(_), DynamicScreen::ModernSuperChip(_)) => true,
        (DynamicModel::XoChip(_), DynamicScreen::XoChip(_)) => true,
        _ => false,
    }
}

/// A CHIP-8 machine of one of the four models.
#[derive(Debug, Clone)]
pub struct Chip8 {
    pub model: DynamicModel,
    pub keypad: Keypad,
    pub cpu: Cpu,
    pub memory: Vec<u8>,
    pub screen: DynamicScreen,
    /// The generator behind `Cxnn`.
    pub rng: Xoshiro256PlusPlus,
    /// Raised at each frame boundary, lowered after the first tick of a frame.
    pub vblank: bool,
    /// The persistent flag registers of `Fx75` and `Fx85`.
    pub rpl: [u8; 16],
    pub pitch: u8,
    pub audio_pattern: [u8; 16],
}

/// The machine behind one of the four models.
pub type DynamicMachine = Chip8;

impl View for Chip8 {
    type V = MachineView;

    open spec fn view(&self) -> MachineView {
        MachineView {
            model: self.model,
            keypad: self.keypad,
            cpu: self.cpu@,
            memory: self.memory@,
            screen: self.screen,
            vblank: self.vblank,
            rpl: self.rpl@,
            pitch: self.pitch,
            audio_pattern: self.audio_pattern@,
        }
    }
}

impl MachineView {
    pub open spec fn wf(&self) -> bool {
        &&& self.cpu.sp < 16
        &&& self.cpu.v.len() == 16
        &&& self.cpu.stack.len() == 16
        &&& self.rpl.len() == 16
        &&& self.audio_pattern.len() == 16
        &&& self.keypad.wf()
        &&& self.memory.len() == self.model.spec_memory_size()
        &&& screen_fits_model(self.model, self.screen)
    }
}

/// `offset` bytes of memory from `start`, or the range error where they do
/// not fit.
pub fn mem_slice(memory: &[u8], start: u16, offset: usize) -> (r: Result<&[u8], Error>)
    ensures
        start as int + offset <= memory@.len() ==> r is Ok && r->Ok_0@ == memory@.subrange(
            start as int,
            start as int + offset,
        ),
        start as int + offset > memory@.len() ==> r == Err::<&[u8], Error>(
            crate::semantics::range_error(start, offset as int, false, memory@),
        ),
{
    let len = memory.len();
    if (start as usize) <= len && offset <= len - start as usize {
        Ok(&memory[start as usize..start as usize + offset])
    } else {
        Err(Error::InvalidMemoryRange { start, offset, inclusive: false, memory_size: len })
    }
}

/// `offset + 1` bytes of memory from `start`, or the range error where they
/// do not fit.
pub fn mem_slice_inclusive(memory: &[u8], start: u16, offset: usize) -> (r: Result<&[u8], Error>)
    ensures
        start as int + offset < memory@.len() ==> r is Ok && r->Ok_0@ == memory@.subrange(
            start as int,
            start as int + offset + 1,
        ),
        start as int + offset >= memory@.len() ==> r == Err::<&[u8], Error>(
            crate::semantics::range_error(start, offset as int, true, memory@),
        ),
{
    let len = memory.len();
    if (start as usize) < len && offset < len - start as usize {
        Ok(&memory[start as usize..start as usize + offset + 1])
    } else {
        Err(Error::InvalidMemoryRange { start, offset, inclusive: true, memory_size: len })
    }
}

/// Writes `data` into memory from `start`, which the caller has checked.
fn write_memory(memory: &mut Vec<u8>, start: usize, data: &[u8])
    requires
        start + data@.len() <= old(memory)@.len(),
    ensures
        final(memory)@ == crate::semantics::write_at(old(memory)@, start as int, data@),
{
    let total = memory.len();
    let mut k: usize = 0;
    while k < data.len()
        invariant
            k <= data@.len(),
            total == memory@.len(),
            start + data@.len() <= memory@.len(),
            memory@ == crate::semantics::write_at(old(memory)@, start as int, data@.take(k as int)),
        decreases data.len() - k,
    {
        memory.set(start + k, data[k]);
        k = k + 1;
        assert(memory@ =~= crate::semantics::write_at(old(memory)@, start as int, data@.take(k as int)));
    }
    assert(data@.take(k as int) =~= data@);
}

/// The first `n` registers.
fn registers_prefix(v: &[u8; 16], n: usize) -> (r: Vec<u8>)
    requires
        n <= 16,
    ensures
        r@ == v@.take(n as int),
{
    let mut r: Vec<u8> = Vec::new();
    let mut k: usize = 0;
    while k < n
        invariant
            k <= n <= 16,
            r@ == v@.take(k as int),
        decreases n - k,
    {
        r.push(v[k]);
        k = k + 1;
        assert(r@ =~= v@.take(k as int));
    }
    r
}

impl Chip8 {
    pub open spec fn wf(&self) -> bool {
        self@.wf()
    }

    /// A machine of `model` with `rom` loaded at `PROGRAM_START` (cut off
    /// at the end of memory) and its random generator seeded by `rng`.
    fn with_rng(model: DynamicModel, rom: &[u8], rng: Xoshiro256PlusPlus) -> (r: Self)
        ensures
            r.wf(),
            r@ == Chip8::initial_view(model, rom@, r.screen),
            crate::screen::is_fresh(r.screen),
    {
        let size = model.memory_size();
        let mut memory: Vec<u8> = Vec::new();
        let mut k: usize = 0;
        while k < size
            invariant
                k <= size,
                size == model.spec_memory_size(),
                memory@.len() == k,
                forall|a: int| 0 <= a < k ==> memory@[a] == 0,
            decreases size - k,
        {
            memory.push(0);
            k = k + 1;
        }
        let lores: [u8; 80] = [
            0xF0, 0x90, 0x90, 0x90, 0xF0, 0x20, 0x60, 0x20, 0x20, 0x70,
            0xF0, 0x10, 0xF0, 0x80, 0xF0, 0xF0, 0x10, 0xF0, 0x10, 0xF0,
            0x90, 0x90, 0xF0, 0x10, 0x10, 0xF0, 0x80, 0xF0, 0x10, 0xF0,
            0xF0, 0x80, 0xF0, 0x90, 0xF0, 0xF0, 0x10, 0x20, 0x40, 0x40,
            0xF0, 0x90, 0xF0, 0x90, 0xF0, 0xF0, 0x90, 0xF0, 0x10, 0xF0,
            0xF0, 0x90, 0xF0, 0x90, 0x90, 0xE0, 0x90, 0xE0, 0x90, 0xE0,
            0xF0, 0x80, 0x80, 0x80, 0xF0, 0xE0, 0x90, 0x90, 0x90, 0xE0,
            0xF0, 0x80, 0xF0, 0x80, 0xF0, 0xF0, 0x80, 0xF0, 0x80, 0x80,
        ];
        let hires: [u8; 160] = [
            0x3C, 0x7E, 0x66, 0x66, 0x6E, 0x76, 0x66, 0x66, 0x7E, 0x3C,
            0x0C, 0x1C, 0x3C, 0x6C, 0x0C, 0x0C, 0x0C, 0x0C, 0x7E, 0x7E,
            0x3C, 0x7E, 0x66, 0x06, 0x0E, 0x1C, 0x38, 0x70, 0x7E, 0x7E,
            0x3C, 0x7E, 0x66, 0x06, 0x1C, 0x1C, 0x06, 0x66, 0x7E, 0x3C,
            0x6C, 0x6C, 0x6C, 0x6C, 0x7E, 0x7E, 0x0C, 0x0C, 0x0C, 0x0C,
            0x7C, 0x7C, 0x60, 0x60, 0x7C, 0x3E, 0x06, 0x66, 0x7E, 0x3C,
            0x3C, 0x7E, 0x66, 0x60, 0x7C, 0x7E, 0x66, 0x66, 0x7E, 0x3C,
            0x7E, 0x7E, 0x06, 0x0E, 0x0C, 0x18, 0x18, 0x30, 0x30, 0x30,
            0x3C, 0x7E, 0x66, 0x66, 0x3C, 0x3C, 0x66, 0x66, 0x7E, 0x3C,
            0x3C, 0x7E, 0x66, 0x66, 0x7E, 0x3E, 0x06, 0x66, 0x7E, 0x3C,
            0x3C, 0x7E, 0x66, 0x66, 0x7E, 0x7E, 0x66, 0x66, 0x66, 0x66,
            0x7C, 0x7E, 0x66, 0x66, 0x7C, 0x7C, 0x66, 0x66, 0x7E, 0x7C,
            0x3C, 0x7E, 0x66, 0x66, 0x60, 0x60, 0x66, 0x66, 0x7E, 0x3C,
            0x7C, 0x7E, 0x66, 0x66, 0x66, 0x66, 0x66, 0x66, 0x7E, 0x7C,
            0x7E, 0x7E, 0x60, 0x60, 0x78, 0x78, 0x60, 0x60, 0x7E, 0x7E,
            0x7E, 0x7E, 0x60, 0x60, 0x78, 0x78, 0x60, 0x60, 0x60, 0x60,
        ];
        assert(lores@ =~= lores_font());
        assert(hires@ =~= hires_font());
        let ghost zeros = memory@;
        write_memory(&mut memory, FONT_ADDRESS as usize, lores.as_slice());
        write_memory(&mut memory, HIRES_FONT_ADDRESS as usize, hires.as_slice());
        let room = size - PROGRAM_START as usize;
        let n = if rom.len() <= room { rom.len() } else { room };
        write_memory(&mut memory, PROGRAM_START as usize, &rom[0..n]);
        assert(memory@ =~= initial_memory(size as int, rom@));
        let screen = match model {
            DynamicModel::CosmacVip(_) => *DynamicScreen::new_cosmac_vip(),
            DynamicModel::LegacySuperChip(_) => *DynamicScreen::new_legacy_super_chip(),
            DynamicModel::ModernSuperChip(_) => *DynamicScreen::new_modern_super_chip(),
            DynamicModel::XoChip(_) => *DynamicScreen::new_xochip(),
        };
        let audio_pattern: [u8; 16] = [
            0x00, 0x7F, 0xC0, 0x1F, 0xF0, 0x1F, 0xC0, 0x7F, 0x00, 0x7F, 0xC0, 0x1F, 0xF0, 0x1F, 0xC0, 0x7F,
        ];
        assert(audio_pattern@ =~= default_audio_pattern());
        let r = Chip8 {
            model,
            keypad: Keypad::new(),
            cpu: Cpu::new(),
            memory,
            screen,
            rng,
            vblank: false,
            rpl: [0u8; 16],
            pitch: 64,
            audio_pattern,
        };
        assert(r.cpu.v@ =~= Seq::new(16, |k: int| 0u8));
        assert(r.cpu.stack@ =~= Seq::new(16, |k: int| 0u16));
        assert(r.rpl@ =~= Seq::new(16, |k: int| 0u8));
        r
    }

    /// The state of a fresh machine of `model` running `rom`, showing `screen`.
    pub open spec fn initial_view(model: DynamicModel, rom: Seq<u8>, screen: DynamicScreen) -> MachineView {
        MachineView {
            model,
            keypad: Keypad { keys: 0, waiting: false, event: None },
            cpu: CpuView {
                v: Seq::new(16, |k: int| 0u8),
                i: 0,
                dt: 0,
                st: 0,
                pc: 0x200,
                sp: 0,
                stack: Seq::new(16, |k: int| 0u16),
            },
            memory: initial_memory(model.spec_memory_size() as int, rom),
            screen,
            vblank: false,
            rpl: Seq::new(16, |k: int| 0u8),
            pitch: 64,
            audio_pattern: default_audio_pattern(),
        }
    }


    /// A machine of `model` with `rom` loaded at `PROGRAM_START`; a ROM
    /// longer than the memory above that address is cut off. The random
    /// generator is seeded by the operating system where it can, else by 0.
    pub fn new(model: DynamicModel, rom: &[u8]) -> (r: Self)
        ensures
            r.wf(),
            r@ == Chip8::initial_view(model, rom@, r.screen),
            crate::screen::is_fresh(r.screen),
    {
        let rng = match rng_from_os() {
            Some(rng) => rng,
            None => rng_from_seed(0),
        };
        Chip8::with_rng(model, rom, rng)
    }

    /// As `new`, with the random generator seeded by `seed`.
    pub fn new_with_seed(model: DynamicModel, rom: &[u8], seed: u64) -> (r: Self)
        ensures
            r.wf(),
            r@ == Chip8::initial_view(model, rom@, r.screen),
            crate::screen::is_fresh(r.screen),
    {
        Chip8::with_rng(model, rom, rng_from_seed(seed))
    }

    pub fn new_cosmac_vip(model: crate::model::CosmacVip, rom: &[u8]) -> (r: Self)
        ensures
            r.wf(),
            r@ == Chip8::initial_view(DynamicModel::CosmacVip(model), rom@, r.screen),
            crate::screen::is_fresh(r.screen),
    {
        Chip8::new(DynamicModel::CosmacVip(model), rom)
    }

    pub fn new_legacy_schip(model: crate::model::LegacySuperChip, rom: &[u8]) -> (r: Self)
        ensures
            r.wf(),
            r@ == Chip8::initial_view(DynamicModel::LegacySuperChip(model), rom@, r.screen),
            crate::screen::is_fresh(r.screen),
    {
        Chip8::new(DynamicModel::LegacySuperChip(model), rom)
    }

    pub fn new_modern_schip(model: crate::model::ModernSuperChip, rom: &[u8]) -> (r: Self)
        ensures
            r.wf(),
            r@ == Chip8::initial_view(DynamicModel::ModernSuperChip(model), rom@, r.screen),
            crate::screen::is_fresh(r.screen),
    {
        Chip8::new(DynamicModel::ModernSuperChip(model), rom)
    }

    pub fn new_xochip(model: crate::model::XoChip, rom: &[u8]) -> (r: Self)
        ensures
            r.wf(),
            r@ == Chip8::initial_view(DynamicModel::XoChip(model), rom@, r.screen),
            crate::screen::is_fresh(r.screen),
    {
        Chip8::new(DynamicModel::XoChip(model), rom)
    }

    /// Feeds a key transition, resolved against the model's `key_wait_trigger`.
    pub fn event(&mut self, key: u8, event: KeyEvent)
        requires
            old(self).wf(),
            key < 16,
        ensures
            final(self).wf(),
            final(self)@ == crate::semantics::key_applied(old(self)@, key, event),
            forall|k: u16|
                k < 16 ==> #[trigger] key_held(final(self).keypad.keys, k) == if k == key as u16 {
                    event == KeyEvent::Press
                } else {
                    key_held(old(self).keypad.keys, k)
                },
            final(self).keypad.waiting == old(self).keypad.waiting,
            final(self).keypad.event == if key_held(old(self).keypad.keys, key as u16) != (event == KeyEvent::Press)
                && event == old(self)@.quirks().key_wait_trigger {
                match old(self).keypad.event {
                    Some(e) => Some(if e < key { e } else { key }),
                    None => Some(key),
                }
            } else {
                old(self).keypad.event
            },
    {
        let trigger = self.model.quirks().key_wait_trigger;
        self.keypad.event(key, event, trigger);
    }

    /// The screen as RGBA pixels at its native resolution, row by row.
    pub fn render_frame(&self, palette: &Palette) -> (image: Vec<Color>)
        ensures
            self.screen.renders_as(palette, image@),
    {
        self.screen.to_image(palette)
    }

    /// The frame boundary: both timers count down towards zero and the
    /// vertical blank is raised.
    pub fn tick_timers(&mut self)
        requires
            old(self).wf(),
        ensures
            final(self).wf(),
            final(self)@ == crate::semantics::timers_ticked(old(self)@),
    {
        if self.cpu.dt > 0 {
            self.cpu.dt = self.cpu.dt - 1;
        }
        if self.cpu.st > 0 {
            self.cpu.st = self.cpu.st - 1;
        }
        self.vblank = true;
    }

    /// Lowers the vertical blank.
    pub fn disable_vblank(&mut self)
        requires
            old(self).wf(),
        ensures
            final(self).wf(),
            final(self)@ == (MachineView { vblank: false, ..old(self)@ }),
    {
        self.vblank = false;
    }

    /// Whether the buzzer sounds.
    pub fn sound_active(&self) -> (r: bool)
        ensures
            r == (self.cpu.st > 0),
    {
        self.cpu.st > 0
    }

    pub fn pitch(&self) -> (r: u8)
        ensures
            r == self.pitch,
    {
        self.pitch
    }

    pub fn audio_pattern(&self) -> (r: &[u8; 16])
        ensures
            *r == self.audio_pattern,
    {
        &self.audio_pattern
    }

    pub fn memory(&self) -> (r: &[u8])
        ensures
            r@ == self.memory@,
    {
        self.memory.as_slice()
    }

    pub fn cpu(&self) -> (r: &Cpu)
        ensures
            *r == self.cpu,
    {
        &self.cpu
    }

    pub fn quirks(&self) -> (r: &Quirks)
        ensures
            *r == self@.quirks(),
    {
        self.model.quirks()
    }

    pub fn instruction_set(&self) -> (r: InstructionSet)
        ensures
            r == self@.instruction_set(),
    {
        self.model.instruction_set()
    }

    /// Whether a draw at the current resolution waits for the vertical blank.
    fn draw_wait_for_vblank(&self) -> (r: bool)
        ensures
            r == self@.quirks().draw_wait_for_vblank.spec_wait(self.screen.spec_hires()),
    {
        self.model.quirks().draw_wait_for_vblank.wait(self.screen.get_hires())
    }

    /// The word at the program counter.
    fn read_word(&self) -> (r: Result<u16, Error>)
        ensures
            match word_at(self.memory@, self.cpu.pc) {
                Some(w) => r == Ok::<u16, Error>(w),
                None => r == Err::<u16, Error>(range_error(self.cpu.pc, 2, false, self.memory@)),
            },
    {
        let pc = self.cpu.pc as usize;
        let len = self.memory.len();
        if pc < len && pc + 1 < len {
            Ok((self.memory[pc] as u16) * 256 + self.memory[pc + 1] as u16)
        } else {
            Err(Error::InvalidMemoryRange { start: self.cpu.pc, offset: 2, inclusive: false, memory_size: len })
        }
    }

    /// Skips the next instruction when `condition` holds; on XO-CHIP a
    /// skipped `F000` takes its operand word with it.
    fn skip_if(&mut self, condition: bool) -> (r: Result<(), Error>)
        requires
            old(self).wf(),
        ensures
            final(self).wf(),
            match old(self)@.skip_target(condition) {
                Err(e) => r == Err::<(), Error>(e) && final(self)@ == old(self)@,
                Ok(pc) => r is Ok && final(self)@ == old(self)@.with_pc(pc),
            },
    {
        if condition {
            if self.model.instruction_set().is_at_least(InstructionSet::XoChip) {
                let word = match self.read_word() {
                    Ok(w) => w,
                    Err(e) => return Err(e),
                };
                if word == 0xF000 {
                    self.cpu.inc_pc();
                }
            }
            self.cpu.inc_pc();
        }
        Ok(())
    }


    /// `0000`: a clean exit where the quirk allows it.
    fn execute_exit_if_allowed(&mut self) -> (r: Result<bool, Error>)
        requires
            old(self).wf(),
            Instruction::ExitIfAllowed.operands_in_range(),
        ensures
            final(self).wf(),
            spec_execute(old(self)@, final(self)@, Instruction::ExitIfAllowed, r),
            r is Err ==> final(self)@ == old(self)@,
    {
        if self.model.quirks().graceful_exit_on_0000 {
            Ok(true)
        } else {
            Err(Error::InvalidInstruction(0x0000))
        }
    }

    /// `1nnn`
    fn execute_jump(&mut self, nnn: u16) -> (r: Result<bool, Error>)
        requires
            old(self).wf(),
            Instruction::Jump(nnn).operands_in_range(),
        ensures
            final(self).wf(),
            spec_execute(old(self)@, final(self)@, Instruction::Jump(nnn), r),
            r is Err ==> final(self)@ == old(self)@,
    {
        self.cpu.pc = nnn;
        Ok(false)
    }

    /// `2nnn`
    fn execute_call(&mut self, nnn: u16) -> (r: Result<bool, Error>)
        requires
            old(self).wf(),
            Instruction::Call(nnn).operands_in_range(),
        ensures
            final(self).wf(),
            spec_execute(old(self)@, final(self)@, Instruction::Call(nnn), r),
            r is Err ==> final(self)@ == old(self)@,
    {
        match self.cpu.push_stack() {
            Ok(()) => {},
            Err(e) => return Err(e),
        }
        self.cpu.pc = nnn;
        Ok(false)
    }

    /// `00EE`
    fn execute_return(&mut self) -> (r: Result<bool, Error>)
        requires
            old(self).wf(),
            Instruction::Return.operands_in_range(),
        ensures
            final(self).wf(),
            spec_execute(old(self)@, final(self)@, Instruction::Return, r),
            r is Err ==> final(self)@ == old(self)@,
    {
        match self.cpu.pop_stack() {
            Ok(()) => Ok(false),
            Err(e) => Err(e),
        }
    }

    /// `Bnnn`
    fn execute_jump_offset(&mut self, x: u8, nnn: u16) -> (r: Result<bool, Error>)
        requires
            old(self).wf(),
            Instruction::JumpOffset(x, nnn).operands_in_range(),
        ensures
            final(self).wf(),
            spec_execute(old(self)@, final(self)@, Instruction::JumpOffset(x, nnn), r),
            r is Err ==> final(self)@ == old(self)@,
    {
        let reg = if self.model.quirks().jump_v0_use_vx { x } else { 0 };
        self.cpu.pc = nnn + self.cpu.get_v(reg) as u16;
        Ok(false)
    }

    /// A conditional skip.
    fn execute_skip_if_equal_imm(&mut self, x: u8, nn: u8) -> (r: Result<bool, Error>)
        requires
            old(self).wf(),
            Instruction::SkipIfEqualImm(x, nn).operands_in_range(),
        ensures
            final(self).wf(),
            spec_execute(old(self)@, final(self)@, Instruction::SkipIfEqualImm(x, nn), r),
            r is Err ==> final(self)@ == old(self)@,
    {
        let c = self.cpu.get_v(x) == nn;
        match self.skip_if(c) {
            Ok(()) => Ok(false),
            Err(e) => Err(e),
        }
    }

    /// A conditional skip.
    fn execute_skip_if_not_equal_imm(&mut self, x: u8, nn: u8) -> (r: Result<bool, Error>)
        requires
            old(self).wf(),
            Instruction::SkipIfNotEqualImm(x, nn).operands_in_range(),
        ensures
            final(self).wf(),
            spec_execute(old(self)@, final(self)@, Instruction::SkipIfNotEqualImm(x, nn), r),
            r is Err ==> final(self)@ == old(self)@,
    {
        let c = self.cpu.get_v(x) != nn;
        match self.skip_if(c) {
            Ok(()) => Ok(false),
            Err(e) => Err(e),
        }
    }

    /// A conditional skip.
    fn execute_skip_if_equal(&mut self, x: u8, y: u8) -> (r: Result<bool, Error>)
        requires
            old(self).wf(),
            Instruction::SkipIfEqual(x, y).operands_in_range(),
        ensures
            final(self).wf(),
            spec_execute(old(self)@, final(self)@, Instruction::SkipIfEqual(x, y), r),
            r is Err ==> final(self)@ == old(self)@,
    {
        let c = self.cpu.get_v(x) == self.cpu.get_v(y);
        match self.skip_if(c) {
            Ok(()) => Ok(false),
            Err(e) => Err(e),
        }
    }

    /// A conditional skip.
    fn execute_skip_if_not_equal(&mut self, x: u8, y: u8) -> (r: Result<bool, Error>)
        requires
            old(self).wf(),
            Instruction::SkipIfNotEqual(x, y).operands_in_range(),
        ensures
            final(self).wf(),
            spec_execute(old(self)@, final(self)@, Instruction::SkipIfNotEqual(x, y), r),
            r is Err ==> final(self)@ == old(self)@,
    {
        let c = self.cpu.get_v(x) != self.cpu.get_v(y);
        match self.skip_if(c) {
            Ok(()) => Ok(false),
            Err(e) => Err(e),
        }
    }

    /// A conditional skip.
    fn execute_skip_if_key(&mut self, x: u8) -> (r: Result<bool, Error>)
        requires
            old(self).wf(),
            Instruction::SkipIfKey(x).operands_in_range(),
        ensures
            final(self).wf(),
            spec_execute(old(self)@, final(self)@, Instruction::SkipIfKey(x), r),
            r is Err ==> final(self)@ == old(self)@,
    {
        let c = self.keypad.is_pressed(self.cpu.get_v(x));
        match self.skip_if(c) {
            Ok(()) => Ok(false),
            Err(e) => Err(e),
        }
    }

    /// A conditional skip.
    fn execute_skip_if_not_key(&mut self, x: u8) -> (r: Result<bool, Error>)
        requires
            old(self).wf(),
            Instruction::SkipIfNotKey(x).operands_in_range(),
        ensures
            final(self).wf(),
            spec_execute(old(self)@, final(self)@, Instruction::SkipIfNotKey(x), r),
            r is Err ==> final(self)@ == old(self)@,
    {
        let c = !self.keypad.is_pressed(self.cpu.get_v(x));
        match self.skip_if(c) {
            Ok(()) => Ok(false),
            Err(e) => Err(e),
        }
    }

    /// `F000 nnnn`: loads the following word into `i`.
    fn execute_long_index(&mut self) -> (r: Result<bool, Error>)
        requires
            old(self).wf(),
            Instruction::LongIndex.operands_in_range(),
        ensures
            final(self).wf(),
            spec_execute(old(self)@, final(self)@, Instruction::LongIndex, r),
            r is Err ==> final(self)@ == old(self)@,
    {
        let addr = match self.read_word() {
            Ok(w) => w,
            Err(e) => return Err(e),
        };
        self.cpu.inc_pc();
        self.cpu.i = addr;
        Ok(false)
    }

    /// `Fx0A`: waits for the awaited key transition by rewinding until it comes.
    fn execute_wait_key(&mut self, x: u8) -> (r: Result<bool, Error>)
        requires
            old(self).wf(),
            Instruction::WaitKey(x).operands_in_range(),
        ensures
            final(self).wf(),
            spec_execute(old(self)@, final(self)@, Instruction::WaitKey(x), r),
            r is Err ==> final(self)@ == old(self)@,
    {
        match self.keypad.test_event() {
            Some(key) => self.cpu.set_v(x, key),
            None => self.cpu.dec_pc(),
        }
        Ok(false)
    }

    /// `00Cn`
    fn execute_scroll_down(&mut self, n: u8) -> (r: Result<bool, Error>)
        requires
            old(self).wf(),
            Instruction::ScrollDown(n).operands_in_range(),
        ensures
            final(self).wf(),
            spec_execute(old(self)@, final(self)@, Instruction::ScrollDown(n), r),
            r is Err ==> final(self)@ == old(self)@,
    {
        match self.screen.scroll_down(n) {
            Ok(()) => Ok(false),
            Err(e) => Err(Error::UnsupportedScreenOperation(e)),
        }
    }

    /// `00Dn`
    fn execute_scroll_up(&mut self, n: u8) -> (r: Result<bool, Error>)
        requires
            old(self).wf(),
            Instruction::ScrollUp(n).operands_in_range(),
        ensures
            final(self).wf(),
            spec_execute(old(self)@, final(self)@, Instruction::ScrollUp(n), r),
            r is Err ==> final(self)@ == old(self)@,
    {
        match self.screen.scroll_up(n) {
            Ok(()) => Ok(false),
            Err(e) => Err(Error::UnsupportedScreenOperation(e)),
        }
    }

    /// `00FB`
    fn execute_scroll_right(&mut self) -> (r: Result<bool, Error>)
        requires
            old(self).wf(),
            Instruction::ScrollRight.operands_in_range(),
        ensures
            final(self).wf(),
            spec_execute(old(self)@, final(self)@, Instruction::ScrollRight, r),
            r is Err ==> final(self)@ == old(self)@,
    {
        match self.screen.scroll_right() {
            Ok(()) => Ok(false),
            Err(e) => Err(Error::UnsupportedScreenOperation(e)),
        }
    }

    /// `00FC`
    fn execute_scroll_left(&mut self) -> (r: Result<bool, Error>)
        requires
            old(self).wf(),
            Instruction::ScrollLeft.operands_in_range(),
        ensures
            final(self).wf(),
            spec_execute(old(self)@, final(self)@, Instruction::ScrollLeft, r),
            r is Err ==> final(self)@ == old(self)@,
    {
        match self.screen.scroll_left() {
            Ok(()) => Ok(false),
            Err(e) => Err(Error::UnsupportedScreenOperation(e)),
        }
    }

    /// `Fx01`
    fn execute_set_planes(&mut self, x: u8) -> (r: Result<bool, Error>)
        requires
            old(self).wf(),
            Instruction::SetPlanes(x).operands_in_range(),
        ensures
            final(self).wf(),
            spec_execute(old(self)@, final(self)@, Instruction::SetPlanes(x), r),
            r is Err ==> final(self)@ == old(self)@,
    {
        match self.screen.set_planes(x) {
            Ok(()) => Ok(false),
            Err(e) => Err(Error::UnsupportedScreenOperation(e)),
        }
    }

    /// `00E0`
    fn execute_clear(&mut self) -> (r: Result<bool, Error>)
        requires
            old(self).wf(),
            Instruction::Clear.operands_in_range(),
        ensures
            final(self).wf(),
            spec_execute(old(self)@, final(self)@, Instruction::Clear, r),
            r is Err ==> final(self)@ == old(self)@,
    {
        self.screen.clear();
        Ok(false)
    }

    /// `00FE` / `00FF`: switches resolution, clearing where the quirk says.
    fn execute_lores(&mut self) -> (r: Result<bool, Error>)
        requires
            old(self).wf(),
            Instruction::Lores.operands_in_range(),
        ensures
            final(self).wf(),
            spec_execute(old(self)@, final(self)@, Instruction::Lores, r),
            r is Err ==> final(self)@ == old(self)@,
    {
        match self.screen.set_hires(false) {
            Ok(()) => {},
            Err(e) => return Err(Error::UnsupportedScreenOperation(e)),
        }
        let ghost mid = self.screen;
        if self.model.quirks().clear_screen_on_mode_switch {
            self.screen.clear();
            assert(mid.cleared_to(&self.screen));
        }
        Ok(false)
    }

    /// `00FE` / `00FF`: switches resolution, clearing where the quirk says.
    fn execute_hires(&mut self) -> (r: Result<bool, Error>)
        requires
            old(self).wf(),
            Instruction::Hires.operands_in_range(),
        ensures
            final(self).wf(),
            spec_execute(old(self)@, final(self)@, Instruction::Hires, r),
            r is Err ==> final(self)@ == old(self)@,
    {
        match self.screen.set_hires(true) {
            Ok(()) => {},
            Err(e) => return Err(Error::UnsupportedScreenOperation(e)),
        }
        let ghost mid = self.screen;
        if self.model.quirks().clear_screen_on_mode_switch {
            self.screen.clear();
            assert(mid.cleared_to(&self.screen));
        }
        Ok(false)
    }

    /// `6xnn`
    fn execute_load_imm(&mut self, x: u8, nn: u8) -> (r: Result<bool, Error>)
        requires
            old(self).wf(),
            Instruction::LoadImm(x, nn).operands_in_range(),
        ensures
            final(self).wf(),
            spec_execute(old(self)@, final(self)@, Instruction::LoadImm(x, nn), r),
            r is Err ==> final(self)@ == old(self)@,
    {
        self.cpu.set_v(x, nn);
        Ok(false)
    }

    /// `7xnn`
    fn execute_add_imm(&mut self, x: u8, nn: u8) -> (r: Result<bool, Error>)
        requires
            old(self).wf(),
            Instruction::AddImm(x, nn).operands_in_range(),
        ensures
            final(self).wf(),
            spec_execute(old(self)@, final(self)@, Instruction::AddImm(x, nn), r),
            r is Err ==> final(self)@ == old(self)@,
    {
        let val = self.cpu.get_v(x).wrapping_add(nn);
        self.cpu.set_v(x, val);
        Ok(false)
    }

    /// `8xy0`
    fn execute_move(&mut self, x: u8, y: u8) -> (r: Result<bool, Error>)
        requires
            old(self).wf(),
            Instruction::Move(x, y).operands_in_range(),
        ensures
            final(self).wf(),
            spec_execute(old(self)@, final(self)@, Instruction::Move(x, y), r),
            r is Err ==> final(self)@ == old(self)@,
    {
        let val = self.cpu.get_v(y);
        self.cpu.set_v(x, val);
        Ok(false)
    }

    /// A bitwise operation into `vX`; `vF` is cleared after it where the quirk says.
    fn execute_or(&mut self, x: u8, y: u8) -> (r: Result<bool, Error>)
        requires
            old(self).wf(),
            Instruction::Or(x, y).operands_in_range(),
        ensures
            final(self).wf(),
            spec_execute(old(self)@, final(self)@, Instruction::Or(x, y), r),
            r is Err ==> final(self)@ == old(self)@,
    {
        let val = self.cpu.get_v(x) | self.cpu.get_v(y);
        self.cpu.set_v(x, val);
        if self.model.quirks().bitwise_reset_flag {
            self.cpu.set_v(15, 0);
        }
        Ok(false)
    }

    /// A bitwise operation into `vX`; `vF` is cleared after it where the quirk says.
    fn execute_and(&mut self, x: u8, y: u8) -> (r: Result<bool, Error>)
        requires
            old(self).wf(),
            Instruction::And(x, y).operands_in_range(),
        ensures
            final(self).wf(),
            spec_execute(old(self)@, final(self)@, Instruction::And(x, y), r),
            r is Err ==> final(self)@ == old(self)@,
    {
        let val = self.cpu.get_v(x) & self.cpu.get_v(y);
        self.cpu.set_v(x, val);
        if self.model.quirks().bitwise_reset_flag {
            self.cpu.set_v(15, 0);
        }
        Ok(false)
    }

    /// A bitwise operation into `vX`; `vF` is cleared after it where the quirk says.
    fn execute_xor(&mut self, x: u8, y: u8) -> (r: Result<bool, Error>)
        requires
            old(self).wf(),
            Instruction::Xor(x, y).operands_in_range(),
        ensures
            final(self).wf(),
            spec_execute(old(self)@, final(self)@, Instruction::Xor(x, y), r),
            r is Err ==> final(self)@ == old(self)@,
    {
        let val = self.cpu.get_v(x) ^ self.cpu.get_v(y);
        self.cpu.set_v(x, val);
        if self.model.quirks().bitwise_reset_flag {
            self.cpu.set_v(15, 0);
        }
        Ok(false)
    }

    /// `8xy4`: the carry goes to `vF`, written last.
    fn execute_add(&mut self, x: u8, y: u8) -> (r: Result<bool, Error>)
        requires
            old(self).wf(),
            Instruction::Add(x, y).operands_in_range(),
        ensures
            final(self).wf(),
            spec_execute(old(self)@, final(self)@, Instruction::Add(x, y), r),
            r is Err ==> final(self)@ == old(self)@,
    {
        let a = self.cpu.get_v(x);
        let b = self.cpu.get_v(y);
        let carry: u8 = if a as u16 + b as u16 > 255 { 1 } else { 0 };
        self.cpu.set_v(x, a.wrapping_add(b));
        self.cpu.set_v(15, carry);
        Ok(false)
    }

    /// `8xy5`: `vF` is 1 when no borrow occurs.
    fn execute_sub(&mut self, x: u8, y: u8) -> (r: Result<bool, Error>)
        requires
            old(self).wf(),
            Instruction::Sub(x, y).operands_in_range(),
        ensures
            final(self).wf(),
            spec_execute(old(self)@, final(self)@, Instruction::Sub(x, y), r),
            r is Err ==> final(self)@ == old(self)@,
    {
        let a = self.cpu.get_v(x);
        let b = self.cpu.get_v(y);
        let no_borrow: u8 = if a >= b { 1 } else { 0 };
        self.cpu.set_v(x, a.wrapping_sub(b));
        self.cpu.set_v(15, no_borrow);
        Ok(false)
    }

    /// `8xy7`: `vF` is 1 when no borrow occurs.
    fn execute_sub_from(&mut self, x: u8, y: u8) -> (r: Result<bool, Error>)
        requires
            old(self).wf(),
            Instruction::SubFrom(x, y).operands_in_range(),
        ensures
            final(self).wf(),
            spec_execute(old(self)@, final(self)@, Instruction::SubFrom(x, y), r),
            r is Err ==> final(self)@ == old(self)@,
    {
        let a = self.cpu.get_v(x);
        let b = self.cpu.get_v(y);
        let no_borrow: u8 = if b >= a { 1 } else { 0 };
        self.cpu.set_v(x, b.wrapping_sub(a));
        self.cpu.set_v(15, no_borrow);
        Ok(false)
    }

    /// `8xy6`: the bit shifted out goes to `vF`.
    fn execute_shift_right(&mut self, x: u8, y: u8) -> (r: Result<bool, Error>)
        requires
            old(self).wf(),
            Instruction::ShiftRight(x, y).operands_in_range(),
        ensures
            final(self).wf(),
            spec_execute(old(self)@, final(self)@, Instruction::ShiftRight(x, y), r),
            r is Err ==> final(self)@ == old(self)@,
    {
        let src = if self.model.quirks().bitshift_use_y { self.cpu.get_v(y) } else { self.cpu.get_v(x) };
        self.cpu.set_v(x, src / 2);
        self.cpu.set_v(15, src % 2);
        Ok(false)
    }

    /// `8xyE`: the bit shifted out goes to `vF`.
    fn execute_shift_left(&mut self, x: u8, y: u8) -> (r: Result<bool, Error>)
        requires
            old(self).wf(),
            Instruction::ShiftLeft(x, y).operands_in_range(),
        ensures
            final(self).wf(),
            spec_execute(old(self)@, final(self)@, Instruction::ShiftLeft(x, y), r),
            r is Err ==> final(self)@ == old(self)@,
    {
        let src = if self.model.quirks().bitshift_use_y { self.cpu.get_v(y) } else { self.cpu.get_v(x) };
        self.cpu.set_v(x, ((src as u16 * 2) % 256) as u8);
        self.cpu.set_v(15, src / 128);
        Ok(false)
    }

    /// `Annn`
    fn execute_set_index(&mut self, nnn: u16) -> (r: Result<bool, Error>)
        requires
            old(self).wf(),
            Instruction::SetIndex(nnn).operands_in_range(),
        ensures
            final(self).wf(),
            spec_execute(old(self)@, final(self)@, Instruction::SetIndex(nnn), r),
            r is Err ==> final(self)@ == old(self)@,
    {
        self.cpu.i = nnn;
        Ok(false)
    }

    /// `Cxnn`: a random byte masked by `nn`.
    fn execute_random(&mut self, x: u8, nn: u8) -> (r: Result<bool, Error>)
        requires
            old(self).wf(),
            Instruction::Random(x, nn).operands_in_range(),
        ensures
            final(self).wf(),
            spec_execute(old(self)@, final(self)@, Instruction::Random(x, nn), r),
            r is Err ==> final(self)@ == old(self)@,
    {
        let b = random_byte(&mut self.rng);
        self.cpu.set_v(x, b & nn);
        assert(self@ == old(self)@.with_reg(x, b & nn));
        Ok(false)
    }

    /// `Fx07`
    fn execute_get_delay(&mut self, x: u8) -> (r: Result<bool, Error>)
        requires
            old(self).wf(),
            Instruction::GetDelay(x).operands_in_range(),
        ensures
            final(self).wf(),
            spec_execute(old(self)@, final(self)@, Instruction::GetDelay(x), r),
            r is Err ==> final(self)@ == old(self)@,
    {
        let dt = self.cpu.dt;
        self.cpu.set_v(x, dt);
        Ok(false)
    }

    /// `Fx15`
    fn execute_set_delay(&mut self, x: u8) -> (r: Result<bool, Error>)
        requires
            old(self).wf(),
            Instruction::SetDelay(x).operands_in_range(),
        ensures
            final(self).wf(),
            spec_execute(old(self)@, final(self)@, Instruction::SetDelay(x), r),
            r is Err ==> final(self)@ == old(self)@,
    {
        self.cpu.dt = self.cpu.get_v(x);
        Ok(false)
    }

    /// `Fx18`
    fn execute_set_sound(&mut self, x: u8) -> (r: Result<bool, Error>)
        requires
            old(self).wf(),
            Instruction::SetSound(x).operands_in_range(),
        ensures
            final(self).wf(),
            spec_execute(old(self)@, final(self)@, Instruction::SetSound(x), r),
            r is Err ==> final(self)@ == old(self)@,
    {
        self.cpu.st = self.cpu.get_v(x);
        Ok(false)
    }

    /// `Fx1E`
    fn execute_add_index(&mut self, x: u8) -> (r: Result<bool, Error>)
        requires
            old(self).wf(),
            Instruction::AddIndex(x).operands_in_range(),
        ensures
            final(self).wf(),
            spec_execute(old(self)@, final(self)@, Instruction::AddIndex(x), r),
            r is Err ==> final(self)@ == old(self)@,
    {
        self.cpu.i = self.cpu.i.wrapping_add(self.cpu.get_v(x) as u16);
        Ok(false)
    }

    /// `Fx29`: `i` at the low-resolution glyph of the low nibble of `vX`.
    fn execute_font_char(&mut self, x: u8) -> (r: Result<bool, Error>)
        requires
            old(self).wf(),
            Instruction::FontChar(x).operands_in_range(),
        ensures
            final(self).wf(),
            spec_execute(old(self)@, final(self)@, Instruction::FontChar(x), r),
            r is Err ==> final(self)@ == old(self)@,
    {
        self.cpu.i = ((self.cpu.get_v(x) % 16) * 5) as u16 + FONT_ADDRESS;
        Ok(false)
    }

    /// `Fx30`: `i` at the high-resolution glyph of the low nibble of `vX`.
    fn execute_big_font_char(&mut self, x: u8) -> (r: Result<bool, Error>)
        requires
            old(self).wf(),
            Instruction::BigFontChar(x).operands_in_range(),
        ensures
            final(self).wf(),
            spec_execute(old(self)@, final(self)@, Instruction::BigFontChar(x), r),
            r is Err ==> final(self)@ == old(self)@,
    {
        self.cpu.i = ((self.cpu.get_v(x) % 16) * 10) as u16 + HIRES_FONT_ADDRESS;
        Ok(false)
    }

    /// `Fx3A`
    fn execute_set_pitch(&mut self, x: u8) -> (r: Result<bool, Error>)
        requires
            old(self).wf(),
            Instruction::SetPitch(x).operands_in_range(),
        ensures
            final(self).wf(),
            spec_execute(old(self)@, final(self)@, Instruction::SetPitch(x), r),
            r is Err ==> final(self)@ == old(self)@,
    {
        self.pitch = self.cpu.get_v(x);
        Ok(false)
    }

    /// Draws `len` bytes per active plane from `i` at `(vX, vY)`; `vF`
    /// receives the collision.
    fn draw_small(&mut self, x: u8, y: u8, len: u8) -> (r: Result<bool, Error>)
        requires
            old(self).wf(),
            x < 16,
            y < 16,
            len <= 16,
        ensures
            final(self).wf(),
            old(self)@.draw_small(final(self)@, r, x, y, len as int),
            r is Err ==> final(self)@ == old(self)@,
    {
        let planes = self.screen.num_active_planes();
        assert((len as usize) * planes <= 64) by (nonlinear_arith)
            requires
                len <= 16,
                planes <= 4,
        ;
        let x_val = self.cpu.get_v(x);
        let y_val = self.cpu.get_v(y);
        let sprite = match mem_slice(self.memory.as_slice(), self.cpu.i, len as usize * planes) {
            Ok(sprite) => sprite,
            Err(e) => return Err(e),
        };
        let c = self.screen.draw_sprite(x_val, y_val, sprite);
        self.cpu.v[15] = if c { 1 } else { 0 };
        Ok(false)
    }

    /// `Dxyn`: draws an `n`-row sprite, or rewinds to wait for the vertical blank.
    fn execute_draw(&mut self, x: u8, y: u8, n: u8) -> (r: Result<bool, Error>)
        requires
            old(self).wf(),
            Instruction::Draw(x, y, n).operands_in_range(),
        ensures
            final(self).wf(),
            spec_execute(old(self)@, final(self)@, Instruction::Draw(x, y, n), r),
            r is Err ==> final(self)@ == old(self)@,
    {
        if self.draw_wait_for_vblank() && !self.vblank {
            self.cpu.dec_pc();
            return Ok(false);
        }
        self.draw_small(x, y, n)
    }

    /// `Dxy0`: draws a 16×16 sprite (8×16 in low resolution where the quirk says).
    fn execute_draw_large(&mut self, x: u8, y: u8) -> (r: Result<bool, Error>)
        requires
            old(self).wf(),
            Instruction::DrawLarge(x, y).operands_in_range(),
        ensures
            final(self).wf(),
            spec_execute(old(self)@, final(self)@, Instruction::DrawLarge(x, y), r),
            r is Err ==> final(self)@ == old(self)@,
    {
        if self.draw_wait_for_vblank() && !self.vblank {
            self.cpu.dec_pc();
            return Ok(false);
        }
        if self.model.quirks().lores_draw_large_as_small && !self.screen.get_hires() {
            return self.draw_small(x, y, 16);
        }
        let planes = self.screen.num_active_planes();
        let x_val = self.cpu.get_v(x);
        let y_val = self.cpu.get_v(y);
        let sprite = match mem_slice(self.memory.as_slice(), self.cpu.i, 32 * planes) {
            Ok(sprite) => sprite,
            Err(e) => return Err(e),
        };
        match self.screen.draw_large_sprite(x_val, y_val, sprite) {
            Ok(c) => {
                self.cpu.v[15] = c;
                Ok(false)
            },
            Err(e) => Err(Error::UnsupportedScreenOperation(e)),
        }
    }

    /// `5xy2`: stores `vX`–`vY` at `i`, in reverse order when `y < x`.
    fn execute_save_range(&mut self, x: u8, y: u8) -> (r: Result<bool, Error>)
        requires
            old(self).wf(),
            Instruction::SaveRange(x, y).operands_in_range(),
        ensures
            final(self).wf(),
            spec_execute(old(self)@, final(self)@, Instruction::SaveRange(x, y), r),
            r is Err ==> final(self)@ == old(self)@,
    {
        let d: u8 = if x <= y { y - x } else { x - y };
        let len = self.memory.len();
        let i = self.cpu.i as usize;
        if i + (d as usize) >= len {
            return Err(Error::InvalidMemoryRange { start: self.cpu.i, offset: d as usize, inclusive: true, memory_size: len });
        }
        let mut data: Vec<u8> = Vec::new();
        let v = self.cpu.v;
        let mut k: u8 = 0;
        while k <= d
            invariant
                x < 16,
                y < 16,
                d == crate::semantics::distance(x, y),
                k <= d + 1,
                data@.len() == k,
                forall|j: int| 0 <= j < k ==> #[trigger] data@[j] == if x <= y { v@[x + j] } else { v@[x - j] },
            decreases d + 1 - k,
        {
            let reg = if x <= y { x + k } else { x - k };
            data.push(v[reg as usize]);
            k = k + 1;
        }
        let ghost expected = Seq::new((d + 1) as nat, |k: int| if x <= y { self.cpu.v@[x + k] } else { self.cpu.v@[x - k] });
        assert(data@ =~= expected);
        write_memory(&mut self.memory, i, data.as_slice());
        Ok(false)
    }

    /// `5xy3`: loads `vX`–`vY` from `i`, in reverse order when `y < x`.
    fn execute_load_range(&mut self, x: u8, y: u8) -> (r: Result<bool, Error>)
        requires
            old(self).wf(),
            Instruction::LoadRange(x, y).operands_in_range(),
        ensures
            final(self).wf(),
            spec_execute(old(self)@, final(self)@, Instruction::LoadRange(x, y), r),
            r is Err ==> final(self)@ == old(self)@,
    {
        let d: u8 = if x <= y { y - x } else { x - y };
        let source = match mem_slice_inclusive(self.memory.as_slice(), self.cpu.i, d as usize) {
            Ok(source) => source,
            Err(e) => return Err(e),
        };
        let ghost old_v = self.cpu.v@;
        let mut v = self.cpu.v;
        let mut k: u8 = 0;
        while k <= d
            invariant
                x < 16,
                y < 16,
                d == crate::semantics::distance(x, y),
                k <= d + 1,
                source@.len() == d + 1,
                old_v.len() == 16,
                forall|r: int|
                    0 <= r < 16 ==> #[trigger] v@[r] == if ((x <= r <= y) || (y <= r <= x))
                        && crate::semantics::distance(r as u8, x) < k {
                        source@[crate::semantics::distance(r as u8, x)]
                    } else {
                        old_v[r]
                    },
            decreases d + 1 - k,
        {
            let reg = if x <= y { x + k } else { x - k };
            v[reg as usize] = source[k as usize];
            k = k + 1;
        }
        self.cpu.v = v;
        assert(self.cpu.v@ =~= Seq::new(
            16,
            |r: int|
                if (x <= r <= y) || (y <= r <= x) {
                    old(self).memory@[old(self).cpu.i as int + crate::semantics::distance(r as u8, x)]
                } else {
                    old_v[r]
                },
        ));
        Ok(false)
    }

    /// `F002`: loads the 16-byte audio pattern from `i`.
    fn execute_load_audio(&mut self) -> (r: Result<bool, Error>)
        requires
            old(self).wf(),
            Instruction::LoadAudio.operands_in_range(),
        ensures
            final(self).wf(),
            spec_execute(old(self)@, final(self)@, Instruction::LoadAudio, r),
            r is Err ==> final(self)@ == old(self)@,
    {
        let source = match mem_slice(self.memory.as_slice(), self.cpu.i, 16) {
            Ok(source) => source,
            Err(e) => return Err(e),
        };
        let mut pattern = self.audio_pattern;
        let mut k: usize = 0;
        while k < 16
            invariant
                source@.len() == 16,
                k <= 16,
                forall|j: int| 0 <= j < k ==> #[trigger] pattern@[j] == source@[j],
            decreases 16 - k,
        {
            pattern[k] = source[k];
            k = k + 1;
        }
        self.audio_pattern = pattern;
        assert(self.audio_pattern@ =~= source@);
        Ok(false)
    }

    /// `Fx33`: the decimal digits of `vX` at `i`.
    fn execute_bcd(&mut self, x: u8) -> (r: Result<bool, Error>)
        requires
            old(self).wf(),
            Instruction::Bcd(x).operands_in_range(),
        ensures
            final(self).wf(),
            spec_execute(old(self)@, final(self)@, Instruction::Bcd(x), r),
            r is Err ==> final(self)@ == old(self)@,
    {
        let len = self.memory.len();
        let i = self.cpu.i as usize;
        if i + 3 > len {
            return Err(Error::InvalidMemoryRange { start: self.cpu.i, offset: 3, inclusive: false, memory_size: len });
        }
        let digits = bcd(self.cpu.get_v(x));
        write_memory(&mut self.memory, i, digits.as_slice());
        Ok(false)
    }

    /// `Fx55`: stores `v0`–`vX` at `i`, advancing `i` where the quirk says.
    fn execute_store(&mut self, x: u8) -> (r: Result<bool, Error>)
        requires
            old(self).wf(),
            Instruction::Store(x).operands_in_range(),
        ensures
            final(self).wf(),
            spec_execute(old(self)@, final(self)@, Instruction::Store(x), r),
            r is Err ==> final(self)@ == old(self)@,
    {
        let len = self.memory.len();
        let i = self.cpu.i as usize;
        if i + (x as usize) >= len {
            return Err(Error::InvalidMemoryRange { start: self.cpu.i, offset: x as usize, inclusive: true, memory_size: len });
        }
        let data = registers_prefix(&self.cpu.v, x as usize + 1);
        write_memory(&mut self.memory, i, data.as_slice());
        if self.model.quirks().inc_i_on_slice {
            self.cpu.i = self.cpu.i.wrapping_add(x as u16).wrapping_add(1);
        }
        Ok(false)
    }

    /// `Fx65`: loads `v0`–`vX` from `i`, advancing `i` where the quirk says.
    fn execute_load(&mut self, x: u8) -> (r: Result<bool, Error>)
        requires
            old(self).wf(),
            Instruction::Load(x).operands_in_range(),
        ensures
            final(self).wf(),
            spec_execute(old(self)@, final(self)@, Instruction::Load(x), r),
            r is Err ==> final(self)@ == old(self)@,
    {
        let source = match mem_slice_inclusive(self.memory.as_slice(), self.cpu.i, x as usize) {
            Ok(source) => source,
            Err(e) => return Err(e),
        };
        let ghost old_v = self.cpu.v@;
        let mut v = self.cpu.v;
        let mut k: usize = 0;
        while k <= x as usize
            invariant
                x < 16,
                k <= x + 1,
                source@.len() == x + 1,
                old_v.len() == 16,
                forall|r: int| 0 <= r < 16 ==> #[trigger] v@[r] == if r < k { source@[r] } else { old_v[r] },
            decreases x + 1 - k,
        {
            v[k] = source[k];
            k = k + 1;
        }
        self.cpu.v = v;
        assert(self.cpu.v@ =~= crate::semantics::load_prefix(
            old_v,
            x,
            old(self).memory@.subrange(old(self).cpu.i as int, old(self).memory@.len() as int),
        ));
        if self.model.quirks().inc_i_on_slice {
            self.cpu.i = self.cpu.i.wrapping_add(x as u16).wrapping_add(1);
        }
        Ok(false)
    }

    /// `Fx75`: saves `v0`–`vX` to the flag registers.
    fn execute_save_flags(&mut self, x: u8) -> (r: Result<bool, Error>)
        requires
            old(self).wf(),
            Instruction::SaveFlags(x).operands_in_range(),
        ensures
            final(self).wf(),
            spec_execute(old(self)@, final(self)@, Instruction::SaveFlags(x), r),
            r is Err ==> final(self)@ == old(self)@,
    {
        let mut k: usize = 0;
        let ghost old_rpl = self.rpl@;
        let mut rpl = self.rpl;
        let v = self.cpu.v;
        while k <= x as usize
            invariant
                x < 16,
                k <= x + 1,
                old_rpl.len() == 16,
                forall|r: int| 0 <= r < 16 ==> #[trigger] rpl@[r] == if r < k { v@[r] } else { old_rpl[r] },
            decreases x + 1 - k,
        {
            rpl[k] = v[k];
            k = k + 1;
        }
        self.rpl = rpl;
        assert(self.rpl@ =~= crate::semantics::load_prefix(old_rpl, x, self.cpu.v@));
        Ok(false)
    }

    /// `Fx85`: loads `v0`–`vX` from the flag registers.
    fn execute_load_flags(&mut self, x: u8) -> (r: Result<bool, Error>)
        requires
            old(self).wf(),
            Instruction::LoadFlags(x).operands_in_range(),
        ensures
            final(self).wf(),
            spec_execute(old(self)@, final(self)@, Instruction::LoadFlags(x), r),
            r is Err ==> final(self)@ == old(self)@,
    {
        let mut k: usize = 0;
        let ghost old_v = self.cpu.v@;
        let mut v = self.cpu.v;
        let rpl = self.rpl;
        while k <= x as usize
            invariant
                x < 16,
                k <= x + 1,
                old_v.len() == 16,
                forall|r: int| 0 <= r < 16 ==> #[trigger] v@[r] == if r < k { rpl@[r] } else { old_v[r] },
            decreases x + 1 - k,
        {
            v[k] = rpl[k];
            k = k + 1;
        }
        self.cpu.v = v;
        assert(self.cpu.v@ =~= crate::semantics::load_prefix(old_v, x, self.rpl@));
        Ok(false)
    }

    /// Executes a decoded instruction; the program counter already points
    /// past it. Returns whether the program exited.
    pub fn execute(&mut self, instr: Instruction) -> (r: Result<bool, Error>)
        requires
            old(self).wf(),
            instr.operands_in_range(),
        ensures
            final(self).wf(),
            spec_execute(old(self)@, final(self)@, instr, r),
            r is Err ==> final(self)@ == old(self)@,
    {
        match instr {
            Instruction::ExitIfAllowed => self.execute_exit_if_allowed(),
            Instruction::ScrollDown(n) => self.execute_scroll_down(n),
            Instruction::ScrollUp(n) => self.execute_scroll_up(n),
            Instruction::Clear => self.execute_clear(),
            Instruction::Return => self.execute_return(),
            Instruction::ScrollRight => self.execute_scroll_right(),
            Instruction::ScrollLeft => self.execute_scroll_left(),
            Instruction::Exit => Ok(true),
            Instruction::Lores => self.execute_lores(),
            Instruction::Hires => self.execute_hires(),
            Instruction::Jump(nnn) => self.execute_jump(nnn),
            Instruction::Call(nnn) => self.execute_call(nnn),
            Instruction::SkipIfEqualImm(x, nn) => self.execute_skip_if_equal_imm(x, nn),
            Instruction::SkipIfNotEqualImm(x, nn) => self.execute_skip_if_not_equal_imm(x, nn),
            Instruction::SkipIfEqual(x, y) => self.execute_skip_if_equal(x, y),
            Instruction::SaveRange(x, y) => self.execute_save_range(x, y),
            Instruction::LoadRange(x, y) => self.execute_load_range(x, y),
            Instruction::LoadImm(x, nn) => self.execute_load_imm(x, nn),
            Instruction::AddImm(x, nn) => self.execute_add_imm(x, nn),
            Instruction::Move(x, y) => self.execute_move(x, y),
            Instruction::Or(x, y) => self.execute_or(x, y),
            Instruction::And(x, y) => self.execute_and(x, y),
            Instruction::Xor(x, y) => self.execute_xor(x, y),
            Instruction::Add(x, y) => self.execute_add(x, y),
            Instruction::Sub(x, y) => self.execute_sub(x, y),
            Instruction::ShiftRight(x, y) => self.execute_shift_right(x, y),
            Instruction::SubFrom(x, y) => self.execute_sub_from(x, y),
            Instruction::ShiftLeft(x, y) => self.execute_shift_left(x, y),
            Instruction::SkipIfNotEqual(x, y) => self.execute_skip_if_not_equal(x, y),
            Instruction::SetIndex(nnn) => self.execute_set_index(nnn),
            Instruction::JumpOffset(x, nnn) => self.execute_jump_offset(x, nnn),
            Instruction::Random(x, nn) => self.execute_random(x, nn),
            Instruction::DrawLarge(x, y) => self.execute_draw_large(x, y),
            Instruction::Draw(x, y, n) => self.execute_draw(x, y, n),
            Instruction::SkipIfKey(x) => self.execute_skip_if_key(x),
            Instruction::SkipIfNotKey(x) => self.execute_skip_if_not_key(x),
            Instruction::LongIndex => self.execute_long_index(),
            Instruction::SetPlanes(x) => self.execute_set_planes(x),
            Instruction::LoadAudio => self.execute_load_audio(),
            Instruction::GetDelay(x) => self.execute_get_delay(x),
            Instruction::WaitKey(x) => self.execute_wait_key(x),
            Instruction::SetDelay(x) => self.execute_set_delay(x),
            Instruction::SetSound(x) => self.execute_set_sound(x),
            Instruction::AddIndex(x) => self.execute_add_index(x),
            Instruction::FontChar(x) => self.execute_font_char(x),
            Instruction::BigFontChar(x) => self.execute_big_font_char(x),
            Instruction::Bcd(x) => self.execute_bcd(x),
            Instruction::SetPitch(x) => self.execute_set_pitch(x),
            Instruction::Store(x) => self.execute_store(x),
            Instruction::Load(x) => self.execute_load(x),
            Instruction::SaveFlags(x) => self.execute_save_flags(x),
            Instruction::LoadFlags(x) => self.execute_load_flags(x),
        }
    }

    /// Fetches, decodes and executes one instruction. Returns whether the
    /// program exited; on an error the machine is left as it was, its
    /// program counter at the failing instruction.
    pub fn tick(&mut self) -> (r: Result<bool, Error>)
        requires
            old(self).wf(),
        ensures
            final(self).wf(),
            spec_tick(old(self)@, final(self)@, r),
            final(self).model == old(self).model,
            final(self).vblank == old(self).vblank,
    {
        proof {
            reveal(spec_tick);
        }
        let word = match self.read_word() {
            Ok(w) => w,
            Err(e) => return Err(e),
        };
        let pc = self.cpu.pc;
        self.cpu.inc_pc();
        match decode(word, self.model.instruction_set()) {
            None => {
                self.cpu.pc = pc;
                Err(Error::InvalidInstruction(word))
            },
            Some(instr) => {
                let ghost before = self@;
                let r = self.execute(instr);
                proof {
                    crate::laws::lemma_execute_effects_are_local(before, self@, instr, r);
                }
                if r.is_err() {
                    self.cpu.pc = pc;
                }
                r
            },
        }
    }

    /// One frame's worth of instructions: ticks up to `count` times,
    /// lowering the vertical blank after the first tick, and stops early at
    /// an exit or an error.
    pub fn tick_many(&mut self, count: u32) -> (r: Result<bool, Error>)
        requires
            old(self).wf(),
        ensures
            final(self).wf(),
            final(self).model == old(self).model,
            exists|trace: Seq<MachineView>, results: Seq<Result<bool, Error>>|
                #[trigger] crate::semantics::frame_run(old(self)@, final(self)@, count, r, trace, results),
    {
        let ghost mut trace: Seq<MachineView> = seq![self@];
        let ghost mut results: Seq<Result<bool, Error>> = seq![];
        if count == 0 {
            assert(crate::semantics::frame_run(old(self)@, self@, count, Ok(false), trace, results));
            return Ok(false);
        }
        let first = self.tick();
        proof {
            trace = trace.push(self@);
            results = results.push(first);
        }
        match first {
            Ok(false) => {},
            other => {
                assert(crate::semantics::frame_run(old(self)@, self@, count, first, trace, results));
                return other;
            },
        }
        self.disable_vblank();
        let mut k: u32 = 1;
        while k < count
            invariant
                self.wf(),
                self.model == old(self).model,
                !self.vblank,
                1 <= k <= count,
                trace.len() == k + 1,
                results.len() == k,
                trace[0] == old(self)@,
                crate::semantics::ticks_recorded(trace, results),
                results[0] == Ok::<bool, Error>(false),
                results[k - 1] == Ok::<bool, Error>(false),
                self@ == crate::semantics::frame_start(trace, k as int),
            decreases count - k,
        {
            let ghost before = self@;
            let next = self.tick();
            proof {
                let t0 = trace;
                let r0 = results;
                trace = trace.push(self@);
                results = results.push(next);
                assert forall|j: int| 0 <= j < results.len() implies crate::semantics::spec_tick(
                    crate::semantics::frame_start(trace, j),
                    trace[j + 1],
                    #[trigger] results[j],
                ) by {
                    if j < r0.len() {
                        assert(crate::semantics::frame_start(trace, j) == crate::semantics::frame_start(t0, j));
                        assert(t0[j + 1] == trace[j + 1]);
                    }
                }
            }
            match next {
                Ok(false) => {},
                other => {
                    assert(crate::semantics::frame_run(old(self)@, self@, count, next, trace, results));
                    return other;
                },
            }
            k = k + 1;
        }
        assert(crate::semantics::frame_run(old(self)@, self@, count, Ok(false), trace, results));
        Ok(false)
    }

}

} // verus!

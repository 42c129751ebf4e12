use murmur8tion::hardware::{Chip8, Cpu, DynamicMachine, Error, KeyEvent, Keypad};
use murmur8tion::instruction::{decode, get_opcode, Instruction, InstructionSet};
use murmur8tion::session::{AudioStatus, Session, ToMachine};
use murmur8tion::model::{CosmacVip, DynamicModel, LegacySuperChip, ModernSuperChip, Quirks, XoChip};
use murmur8tion::screen::DynamicScreen;

fn vip(rom: &[u8]) -> Chip8 {
    DynamicMachine::new_cosmac_vip(CosmacVip::default(), rom)
}

#[test]
fn jump_self_loop_stays_put() {
    let mut machine = vip(&[0x12, 0x00]);
    for _ in 0..100 {
        assert_eq!(machine.tick(), Ok(false));
        assert_eq!(machine.cpu().pc, 0x200);
    }
    assert_eq!(machine.tick_many(50), Ok(false));
    assert_eq!(machine.cpu().pc, 0x200);
}

#[test]
fn ibm_logo_prefix() {
    let rom = [0x00, 0xE0, 0xA2, 0x2A, 0x60, 0x0C, 0x61, 0x08, 0xD0, 0x1F];
    let mut machine = vip(&rom);
    machine.tick_timers();
    for _ in 0..5 {
        assert_eq!(machine.tick(), Ok(false));
    }
    assert_eq!(machine.cpu().pc, 0x20A);
    assert_eq!(machine.cpu().i, 0x22A);
    assert_eq!(machine.cpu().v[0], 0x0C);
    assert_eq!(machine.cpu().v[1], 0x08);
    assert_eq!(machine.cpu().v[0xF], 0);
}

#[test]
fn draw_waits_for_vblank_on_vip() {
    let rom = [0x00, 0xE0, 0xA2, 0x2A, 0x60, 0x0C, 0x61, 0x08, 0xD0, 0x1F];
    let mut machine = vip(&rom);
    for _ in 0..5 {
        assert_eq!(machine.tick(), Ok(false));
    }
    assert_eq!(machine.cpu().pc, 0x208);
    machine.tick_timers();
    assert_eq!(machine.tick(), Ok(false));
    assert_eq!(machine.cpu().pc, 0x20A);
}

#[test]
fn carry_flag_via_add() {
    let mut machine = vip(&[0x60, 0xFF, 0x61, 0x01, 0x80, 0x14]);
    machine.tick_many(3).unwrap();
    assert_eq!(machine.cpu().v[0], 0x00);
    assert_eq!(machine.cpu().v[0xF], 1);
    let mut machine = vip(&[0x60, 0x01, 0x61, 0x01, 0x80, 0x14]);
    machine.tick_many(3).unwrap();
    assert_eq!(machine.cpu().v[0], 0x02);
    assert_eq!(machine.cpu().v[0xF], 0);
}

#[test]
fn borrow_flag_via_sub() {
    let mut machine = vip(&[0x60, 0x00, 0x61, 0x01, 0x80, 0x15]);
    machine.tick_many(3).unwrap();
    assert_eq!(machine.cpu().v[0], 0xFF);
    assert_eq!(machine.cpu().v[0xF], 0);
    let mut machine = vip(&[0x60, 0x02, 0x61, 0x01, 0x80, 0x15]);
    machine.tick_many(3).unwrap();
    assert_eq!(machine.cpu().v[0], 0x01);
    assert_eq!(machine.cpu().v[0xF], 1);
}

#[test]
fn flag_written_after_result_when_x_is_f() {
    let mut machine = vip(&[0x6F, 0xFF, 0x61, 0x01, 0x8F, 0x14]);
    machine.tick_many(3).unwrap();
    assert_eq!(machine.cpu().v[0xF], 1);
}

const CLIP_ROM: [u8; 9] = [0xA2, 0x08, 0x60, 0x3E, 0x61, 0x00, 0xD0, 0x11, 0xFF];

#[test]
fn sprite_clipping_on_vip() {
    let mut machine = vip(&CLIP_ROM);
    machine.tick_timers();
    for _ in 0..4 {
        machine.tick().unwrap();
    }
    assert_eq!(machine.cpu().v[0xF], 0);
    match machine.screen {
        DynamicScreen::CosmacVip(s) => {
            assert_eq!(s.rows[0], 0b11);
            assert!(s.rows[1..].iter().all(|r| *r == 0));
        }
        _ => unreachable!(),
    }
}

#[test]
fn sprite_wrapping_on_xochip() {
    let mut machine = DynamicMachine::new_xochip(XoChip::default(), &CLIP_ROM);
    machine.tick_timers();
    machine.tick_many(4).unwrap();
    assert_eq!(machine.cpu().v[0xF], 0);
    match machine.screen {
        DynamicScreen::XoChip(s) => {
            let expected = 0xFu128 | (0xFFFu128 << 116);
            assert_eq!(s.planes[0][0], expected);
            assert_eq!(s.planes[0][1], expected);
            assert_eq!(s.planes[0][2], 0);
        }
        _ => unreachable!(),
    }
}

#[test]
fn wait_for_key_on_release() {
    let mut machine = vip(&[0xF0, 0x0A]);
    assert_eq!(machine.tick(), Ok(false));
    assert_eq!(machine.cpu().pc, 0x200);
    machine.event(7, KeyEvent::Press);
    assert_eq!(machine.tick(), Ok(false));
    assert_eq!(machine.cpu().pc, 0x200);
    machine.event(7, KeyEvent::Release);
    assert_eq!(machine.tick(), Ok(false));
    assert_eq!(machine.cpu().v[0], 7);
    assert_eq!(machine.cpu().pc, 0x202);
}

#[test]
fn lowest_key_wins() {
    let mut keypad = Keypad::new();
    keypad.test_event();
    keypad.event(9, KeyEvent::Release, KeyEvent::Release);
    keypad.event(9, KeyEvent::Press, KeyEvent::Release);
    keypad.event(4, KeyEvent::Press, KeyEvent::Release);
    keypad.event(9, KeyEvent::Release, KeyEvent::Release);
    keypad.event(4, KeyEvent::Release, KeyEvent::Release);
    assert_eq!(keypad.test_event(), Some(4));
    assert!(!keypad.is_pressed(4));
}

#[test]
fn timers_saturate_at_zero() {
    let mut machine = vip(&[0x60, 0x02, 0xF0, 0x15, 0xF0, 0x18]);
    machine.tick_many(3).unwrap();
    assert!(machine.sound_active());
    machine.tick_timers();
    machine.tick_timers();
    machine.tick_timers();
    assert_eq!(machine.cpu().dt, 0);
    assert_eq!(machine.cpu().st, 0);
    assert!(!machine.sound_active());
}

#[test]
fn stack_full_leaves_stack_alone() {
    let mut cpu = Cpu::new();
    for _ in 0..15 {
        cpu.push_stack().unwrap();
    }
    assert_eq!(cpu.sp, 15);
    let before = cpu.stack;
    assert_eq!(cpu.push_stack(), Err(Error::StackFull));
    assert_eq!(cpu.sp, 15);
    assert_eq!(cpu.stack, before);
}

#[test]
fn return_on_empty_stack_fails_at_the_opcode() {
    let mut machine = vip(&[0x00, 0xEE]);
    assert_eq!(machine.tick(), Err(Error::StackEmpty));
    assert_eq!(machine.cpu().pc, 0x200);
}

#[test]
fn call_and_return() {
    let mut machine = vip(&[0x22, 0x04, 0x00, 0x00, 0x00, 0xEE]);
    machine.tick().unwrap();
    assert_eq!(machine.cpu().pc, 0x204);
    assert_eq!(machine.cpu().sp, 1);
    machine.tick().unwrap();
    assert_eq!(machine.cpu().pc, 0x202);
    assert_eq!(machine.cpu().sp, 0);
}

#[test]
fn invalid_instruction_rewinds() {
    let mut machine = vip(&[0x00, 0x00]);
    assert_eq!(machine.tick(), Err(Error::InvalidInstruction(0x0000)));
    assert_eq!(machine.cpu().pc, 0x200);
    let mut machine = vip(&[0x00, 0xFF]);
    assert_eq!(machine.tick(), Err(Error::InvalidInstruction(0x00FF)));
}

#[test]
fn graceful_exit_and_exit_opcode() {
    let mut model = DynamicModel::CosmacVip(CosmacVip::default());
    model.quirks_mut().graceful_exit_on_0000 = true;
    let mut machine = Chip8::new(model, &[0x00, 0x00]);
    assert_eq!(machine.tick(), Ok(true));
    let mut machine = DynamicMachine::new_modern_schip(ModernSuperChip::default(), &[0x00, 0xFD]);
    assert_eq!(machine.tick(), Ok(true));
    let mut machine = DynamicMachine::new_modern_schip(ModernSuperChip::default(), &[0x60, 0x01, 0x00, 0xFD, 0x60, 0x02]);
    assert_eq!(machine.tick_many(3), Ok(true));
    assert_eq!(machine.cpu().v[0], 1);
}

#[test]
fn memory_past_the_end_is_an_error() {
    let mut machine = vip(&[0xAF, 0xFF, 0xF2, 0x55]);
    machine.tick().unwrap();
    assert_eq!(
        machine.tick(),
        Err(Error::InvalidMemoryRange { start: 0xFFF, offset: 2, inclusive: true, memory_size: 0x1000 })
    );
    assert_eq!(machine.cpu().pc, 0x202);
}

#[test]
fn bcd_and_store_load() {
    let mut machine = vip(&[0x60, 0xFE, 0xA3, 0x00, 0xF0, 0x33, 0xA3, 0x00, 0xF2, 0x65]);
    machine.tick_many(5).unwrap();
    assert_eq!(&machine.memory()[0x300..0x303], &[2, 5, 4]);
    assert_eq!(&machine.cpu().v[..3], &[2, 5, 4]);
    assert_eq!(machine.cpu().i, 0x303);
}

#[test]
fn save_and_load_range_reversed_on_xochip() {
    let rom = [0x60, 0x01, 0x61, 0x02, 0x62, 0x03, 0xA3, 0x00, 0x52, 0x02, 0x50, 0x23];
    let mut machine = DynamicMachine::new_xochip(XoChip::default(), &rom);
    machine.tick_many(6).unwrap();
    assert_eq!(&machine.memory()[0x300..0x303], &[3, 2, 1]);
    assert_eq!(&machine.cpu().v[..3], &[3, 2, 1]);
}

#[test]
fn long_index_and_skip_over_it() {
    let rom = [0x30, 0x00, 0xF0, 0x00, 0x12, 0x34, 0xF0, 0x00, 0xAB, 0xCD];
    let mut machine = DynamicMachine::new_xochip(XoChip::default(), &rom);
    machine.tick().unwrap();
    assert_eq!(machine.cpu().pc, 0x206);
    machine.tick().unwrap();
    assert_eq!(machine.cpu().i, 0xABCD);
    assert_eq!(machine.cpu().pc, 0x20A);
}

#[test]
fn random_respects_mask() {
    let mut machine = Chip8::new_with_seed(DynamicModel::CosmacVip(CosmacVip::default()), &[0xC3, 0x0F, 0x12, 0x00], 42);
    for _ in 0..20 {
        machine.tick_many(2).unwrap();
        assert_eq!(machine.cpu().v[3] & 0xF0, 0);
    }
}

#[test]
fn font_glyph_addresses() {
    let mut machine = DynamicMachine::new_legacy_schip(LegacySuperChip::default(), &[0x60, 0x1A, 0xF0, 0x29, 0xF0, 0x30]);
    machine.tick_many(2).unwrap();
    assert_eq!(machine.cpu().i, 50);
    machine.tick().unwrap();
    assert_eq!(machine.cpu().i, 180);
    assert_eq!(&machine.memory()[50..55], &[0xF0, 0x90, 0xF0, 0x90, 0x90]);
}

#[test]
fn rom_too_large_is_truncated() {
    let rom = vec![0xAA; 0x1000];
    let machine = vip(&rom);
    assert_eq!(machine.memory().len(), 0x1000);
    assert_eq!(machine.memory()[0xFFF], 0xAA);
    assert_eq!(machine.memory()[0x1FF], 0);
}

#[test]
fn shifts_follow_the_quirk() {
    let rom = [0x60, 0x01, 0x61, 0x81, 0x80, 0x1E];
    let mut machine = vip(&rom);
    machine.tick_many(3).unwrap();
    assert_eq!(machine.cpu().v[0], 0x02);
    assert_eq!(machine.cpu().v[0xF], 1);
    let mut machine = DynamicMachine::new_modern_schip(ModernSuperChip::default(), &rom);
    machine.tick_many(3).unwrap();
    assert_eq!(machine.cpu().v[0], 0x02);
    assert_eq!(machine.cpu().v[0xF], 0);
}

#[test]
fn bitwise_reset_flag_on_vip() {
    let mut machine = vip(&[0x6F, 0x05, 0x60, 0x0C, 0x80, 0x11]);
    machine.tick_many(3).unwrap();
    assert_eq!(machine.cpu().v[0xF], 0);
    assert_eq!(machine.cpu().v[0], 0x0C);
}

#[test]
fn decode_is_tiered_and_deterministic() {
    assert_eq!(decode(0x00FF, InstructionSet::CosmacVip), None);
    assert_eq!(decode(0x00FF, InstructionSet::SuperChip), Some(Instruction::Hires));
    assert_eq!(decode(0xF000, InstructionSet::SuperChip), None);
    assert_eq!(decode(0xF000, InstructionSet::XoChip), Some(Instruction::LongIndex));
    assert_eq!(decode(0xD120, InstructionSet::CosmacVip), Some(Instruction::Draw(1, 2, 0)));
    assert_eq!(decode(0xD120, InstructionSet::XoChip), Some(Instruction::DrawLarge(1, 2)));
    assert_eq!(decode(0x8AB4, InstructionSet::XoChip), decode(0x8AB4, InstructionSet::XoChip));
}

#[test]
fn test_nibbles() {
    assert_eq!(decode(0x1234, InstructionSet::CosmacVip), Some(Instruction::Jump(0x234)));
    assert_eq!(decode(0x5230, InstructionSet::CosmacVip), Some(Instruction::SkipIfEqual(2, 3)));
    assert_eq!(decode(0x7234, InstructionSet::CosmacVip), Some(Instruction::AddImm(2, 0x34)));
    assert_eq!(decode(0xD234, InstructionSet::CosmacVip), Some(Instruction::Draw(2, 3, 4)));
}

#[test]
fn default_quirks_table() {
    let q = DynamicModel::XoChip(XoChip::default()).default_quirks();
    assert_eq!(q, Quirks::xochip());
    assert!(q.bitshift_use_y && q.inc_i_on_slice && !q.jump_v0_use_vx);
    assert_eq!(DynamicModel::LegacySuperChip(LegacySuperChip::default()).default_framerate(), 64);
    assert_eq!(DynamicModel::XoChip(XoChip::default()).memory_size(), 0x10000);
}

#[test]
fn session_runs_frames_and_stops_on_error() {
    let mut session = Session::new(4);
    assert_eq!(session.audio_status(), AudioStatus::Reset);
    session.run_frame();
    assert!(session.machine.is_none());
    assert!(session.handle(ToMachine::ResetMachine(vip(&[0x60, 0x05, 0xF0, 0x18, 0x00, 0xEE]))));
    session.run_frame();
    assert_eq!(session.error, Some(Error::StackEmpty));
    assert_eq!(session.audio_status(), AudioStatus::Play);
    assert_eq!(session.reported_error(), Some(Error::StackEmpty));
    session.drop_failed_machine();
    assert!(session.machine.is_none());
    assert_eq!(session.reported_error(), None);
    assert!(!session.handle(ToMachine::Exit));
}

#[test]
fn session_pause_and_step() {
    let mut session = Session::new(10);
    session.handle(ToMachine::ResetMachine(vip(&[0x60, 0x05, 0xF0, 0x18, 0x12, 0x04])));
    session.handle(ToMachine::Pause(true));
    session.run_frame();
    assert_eq!(session.machine.as_ref().unwrap().cpu().pc, 0x200);
    session.handle(ToMachine::Step);
    session.handle(ToMachine::Step);
    assert_eq!(session.machine.as_ref().unwrap().cpu().pc, 0x204);
    assert_eq!(session.audio_status(), AudioStatus::Paused);
    session.handle(ToMachine::Input(3, KeyEvent::Press));
    session.handle(ToMachine::Pause(false));
    session.run_frame();
    assert!(session.inputs.is_empty());
    assert_eq!(session.machine.as_ref().unwrap().cpu().pc, 0x204);
    assert_eq!(session.machine.as_ref().unwrap().keypad.keys, 1 << 3);
}

#[test]
fn debugger_listing_marks_skipped_and_long_operands() {
    let machine = DynamicMachine::new_xochip(XoChip::default(), &[0x30, 0x01, 0xF0, 0x00, 0x12, 0x34]);
    let memory = machine.memory();
    let q = Quirks::xochip();
    let first = get_opcode(memory, 0x200, &q, InstructionSet::XoChip).unwrap();
    assert_eq!(first.instruction, "if v0 != 0x01 then");
    let second = get_opcode(memory, 0x202, &q, InstructionSet::XoChip).unwrap();
    assert_eq!(second.instruction, "    i := long 0x1234");
    assert_eq!(second.long_operand, Some(0x1234));
    let third = get_opcode(memory, 0x204, &q, InstructionSet::XoChip).unwrap();
    assert!(third.is_long_operand);
    assert!(get_opcode(memory, 0xFFFF, &q, InstructionSet::XoChip).is_none());
}

#[test]
fn tick_many_zero_runs_nothing() {
    let mut machine = vip(&[0x60, 0x05]);
    machine.tick_timers();
    assert_eq!(machine.tick_many(0), Ok(false));
    assert_eq!(machine.cpu().pc, 0x200);
    assert_eq!(machine.cpu().v[0], 0);
    assert!(machine.vblank);
}

#[test]
fn completed_wait_clears_the_key() {
    let mut keypad = Keypad::new();
    assert_eq!(keypad.test_event(), None);
    keypad.event(5, KeyEvent::Press, KeyEvent::Release);
    keypad.event(5, KeyEvent::Release, KeyEvent::Release);
    assert_eq!(keypad.test_event(), Some(5));
    assert!(!keypad.waiting);
    assert_eq!(keypad.event, None);
    assert_eq!(keypad.test_event(), None);
    assert!(keypad.waiting);
}

#[test]
fn session_applies_inputs_before_the_frame() {
    let mut session = Session::new(1);
    session.handle(ToMachine::ResetMachine(vip(&[0xE1, 0x9E, 0x12, 0x00, 0x60, 0x07])));
    session.handle(ToMachine::Input(0, KeyEvent::Press));
    session.handle(ToMachine::Input(1, KeyEvent::Press));
    session.handle(ToMachine::Input(20, KeyEvent::Press));
    session.run_frame();
    let machine = session.machine.as_ref().unwrap();
    assert_eq!(machine.keypad.keys, 0b11);
    assert_eq!(machine.cpu().pc, 0x204);
    assert!(!machine.vblank);
}

use murmur8tion::instruction::{InstructionSet, OctoSyntax};
use murmur8tion::model::Quirks;

fn text(quirks: Quirks, next: Option<u16>, opcode: u16, set: InstructionSet) -> Option<String> {
    OctoSyntax(quirks, next).execute(opcode, set)
}

#[test]
fn octo_arithmetic_and_sprites() {
    let q = Quirks::cosmac_vip();
    assert_eq!(text(q, None, 0x730F, InstructionSet::CosmacVip).as_deref(), Some("v3 += 0x0F"));
    assert_eq!(text(q, None, 0xD015, InstructionSet::CosmacVip).as_deref(), Some("sprite v0 v1 5"));
    assert_eq!(text(q, None, 0x3A05, InstructionSet::CosmacVip).as_deref(), Some("if vA != 0x05 then"));
    assert_eq!(text(q, None, 0x8016, InstructionSet::CosmacVip).as_deref(), Some("v0 >>= 1"));
    assert_eq!(text(q, None, 0xB123, InstructionSet::CosmacVip).as_deref(), Some("jump0 0x123 + v1"));
    assert_eq!(text(q, None, 0x2ABC, InstructionSet::CosmacVip).as_deref(), Some(":call 0xABC"));
    assert_eq!(text(q, None, 0xFE65, InstructionSet::CosmacVip).as_deref(), Some("load vE"));
}

#[test]
fn octo_unknown_and_tiered() {
    let q = Quirks::cosmac_vip();
    assert_eq!(text(q, None, 0x0000, InstructionSet::CosmacVip), None);
    assert_eq!(text(q, None, 0x00FF, InstructionSet::CosmacVip), None);
    assert_eq!(text(q, None, 0x00FF, InstructionSet::SuperChip).as_deref(), Some("hires"));
    let mut graceful = q;
    graceful.graceful_exit_on_0000 = true;
    assert_eq!(text(graceful, None, 0x0000, InstructionSet::CosmacVip).as_deref(), Some("exit-0000"));
}

#[test]
fn octo_long_load_takes_the_next_word() {
    let mut syntax = OctoSyntax(Quirks::xochip(), Some(0x1234));
    assert_eq!(syntax.execute(0xF000, InstructionSet::XoChip).as_deref(), Some("i := long 0x1234"));
    assert_eq!(syntax.1, None);
    assert_eq!(syntax.execute(0xF000, InstructionSet::XoChip).as_deref(), Some("i := long 0x????"));
    let mut syntax = OctoSyntax(Quirks::xochip(), Some(0x1234));
    assert_eq!(syntax.execute(0x6001, InstructionSet::XoChip).as_deref(), Some("v0 := 0x01"));
    assert_eq!(syntax.1, Some(0x1234));
}

#[test]
fn octo_is_deterministic() {
    let q = Quirks::modern_super_chip();
    let a = text(q, Some(7), 0x8AB4, InstructionSet::SuperChip);
    let b = text(q, Some(7), 0x8AB4, InstructionSet::SuperChip);
    assert_eq!(a, b);
    assert_eq!(a.as_deref(), Some("vA += vB"));
}

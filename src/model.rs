//! The four machine models and the behaviour flags ("quirks") that tell
//! their interpreters apart.

use vstd::prelude::*;

use crate::hardware::KeyEvent;
use crate::instruction::InstructionSet;

verus! {

/// When a sprite draw waits for the vertical blank.
#[derive(Debug, Clone, Copy, PartialEq, Eq, Structural)]
pub enum DrawWaitSetting {
    Always,
    LoresOnly,
    Never,
}

impl DrawWaitSetting {
    pub open spec fn spec_wait(&self, hires: bool) -> bool {
        match self {
            DrawWaitSetting::Always => true,
            DrawWaitSetting::LoresOnly => !hires,
            DrawWaitSetting::Never => false,
        }
    }

    /// Whether a draw in the given resolution waits for the vertical blank.
    pub fn wait(&self, hires: bool) -> (r: bool)
        ensures
            r == self.spec_wait(hires),
    {
        match self {
            DrawWaitSetting::Always => true,
            DrawWaitSetting::LoresOnly => !hires,
            DrawWaitSetting::Never => false,
        }
    }

    /// The setting's name, as shown to a user.
    pub fn name(&self) -> (r: &'static str) {
        match self {
            DrawWaitSetting::Always => "Always",
            DrawWaitSetting::LoresOnly => "Lores mode only",
            DrawWaitSetting::Never => "Never",
        }
    }
}

/// The behaviour flags an interpreter reads on every instruction.
#[derive(Debug, Clone, Copy, PartialEq, Eq, Structural)]
pub struct Quirks {
    /// `0000` ends the program instead of being an invalid instruction.
    pub graceful_exit_on_0000: bool,
    /// The shifts `8xy6` and `8xyE` read `vY` rather than `vX`.
    pub bitshift_use_y: bool,
    /// The key transition that completes `Fx0A`.
    pub key_wait_trigger: KeyEvent,
    /// `Fx55` and `Fx65` advance `i` past the registers they move.
    pub inc_i_on_slice: bool,
    /// `8xy1`, `8xy2` and `8xy3` clear `vF`.
    pub bitwise_reset_flag: bool,
    /// When sprite draws wait for the vertical blank.
    pub draw_wait_for_vblank: DrawWaitSetting,
    /// Switching resolution clears the screen.
    pub clear_screen_on_mode_switch: bool,
    /// `Bnnn` adds `vX` rather than `v0`.
    pub jump_v0_use_vx: bool,
    /// `Dxy0` in low resolution draws an 8×16 sprite.
    pub lores_draw_large_as_small: bool,
}

pub open spec fn cosmac_vip_quirks() -> Quirks {
    Quirks {
        graceful_exit_on_0000: false,
        bitshift_use_y: true,
        key_wait_trigger: KeyEvent::Release,
        inc_i_on_slice: true,
        bitwise_reset_flag: true,
        draw_wait_for_vblank: DrawWaitSetting::Always,
        clear_screen_on_mode_switch: false,
        jump_v0_use_vx: false,
        lores_draw_large_as_small: true,
    }
}

pub open spec fn legacy_super_chip_quirks() -> Quirks {
    Quirks {
        graceful_exit_on_0000: false,
        bitshift_use_y: false,
        key_wait_trigger: KeyEvent::Release,
        inc_i_on_slice: false,
        bitwise_reset_flag: false,
        draw_wait_for_vblank: DrawWaitSetting::LoresOnly,
        clear_screen_on_mode_switch: false,
        jump_v0_use_vx: true,
        lores_draw_large_as_small: true,
    }
}

pub open spec fn modern_super_chip_quirks() -> Quirks {
    Quirks {
        graceful_exit_on_0000: false,
        bitshift_use_y: false,
        key_wait_trigger: KeyEvent::Release,
        inc_i_on_slice: false,
        bitwise_reset_flag: false,
        draw_wait_for_vblank: DrawWaitSetting::Never,
        clear_screen_on_mode_switch: true,
        jump_v0_use_vx: true,
        lores_draw_large_as_small: false,
    }
}

pub open spec fn xochip_quirks() -> Quirks {
    Quirks {
        graceful_exit_on_0000: false,
        bitshift_use_y: true,
        key_wait_trigger: KeyEvent::Release,
        inc_i_on_slice: true,
        bitwise_reset_flag: false,
        draw_wait_for_vblank: DrawWaitSetting::Never,
        clear_screen_on_mode_switch: true,
        jump_v0_use_vx: false,
        lores_draw_large_as_small: false,
    }
}

impl Quirks {
    /// The quirks of the COSMAC VIP interpreter.
    pub fn cosmac_vip() -> (r: Quirks)
        ensures
            r == cosmac_vip_quirks(),
    {
        Quirks {
            graceful_exit_on_0000: false,
            bitshift_use_y: true,
            key_wait_trigger: KeyEvent::Release,
            inc_i_on_slice: true,
            bitwise_reset_flag: true,
            draw_wait_for_vblank: DrawWaitSetting::Always,
            clear_screen_on_mode_switch: false,
            jump_v0_use_vx: false,
            lores_draw_large_as_small: true,
        }
    }

    /// The quirks of SUPER-CHIP 1.1.
    pub fn legacy_super_chip() -> (r: Quirks)
        ensures
            r == legacy_super_chip_quirks(),
    {
        Quirks {
            graceful_exit_on_0000: false,
            bitshift_use_y: false,
            key_wait_trigger: KeyEvent::Release,
            inc_i_on_slice: false,
            bitwise_reset_flag: false,
            draw_wait_for_vblank: DrawWaitSetting::LoresOnly,
            clear_screen_on_mode_switch: false,
            jump_v0_use_vx: true,
            lores_draw_large_as_small: true,
        }
    }

    /// The quirks of SUPER-CHIP as Octo runs it.
    pub fn modern_super_chip() -> (r: Quirks)
        ensures
            r == modern_super_chip_quirks(),
    {
        Quirks {
            graceful_exit_on_0000: false,
            bitshift_use_y: false,
            key_wait_trigger: KeyEvent::Release,
            inc_i_on_slice: false,
            bitwise_reset_flag: false,
            draw_wait_for_vblank: DrawWaitSetting::Never,
            clear_screen_on_mode_switch: true,
            jump_v0_use_vx: true,
            lores_draw_large_as_small: false,
        }
    }

    /// The quirks of XO-CHIP.
    pub fn xochip() -> (r: Quirks)
        ensures
            r == xochip_quirks(),
    {
        Quirks {
            graceful_exit_on_0000: false,
            bitshift_use_y: true,
            key_wait_trigger: KeyEvent::Release,
            inc_i_on_slice: true,
            bitwise_reset_flag: false,
            draw_wait_for_vblank: DrawWaitSetting::Never,
            clear_screen_on_mode_switch: true,
            jump_v0_use_vx: false,
            lores_draw_large_as_small: false,
        }
    }
}

impl Default for Quirks {
    fn default() -> (r: Quirks)
        ensures
            r == cosmac_vip_quirks(),
    {
        Quirks::cosmac_vip()
    }
}

/// The COSMAC VIP with its current quirks.
#[derive(Debug, Clone, Copy, PartialEq, Eq, Structural)]
pub struct CosmacVip(pub Quirks);

/// SUPER-CHIP 1.1 with its current quirks.
#[derive(Debug, Clone, Copy, PartialEq, Eq, Structural)]
pub struct LegacySuperChip(pub Quirks);

/// SUPER-CHIP as Octo runs it, with its current quirks.
#[derive(Debug, Clone, Copy, PartialEq, Eq, Structural)]
pub struct ModernSuperChip(pub Quirks);

/// XO-CHIP with its current quirks.
#[derive(Debug, Clone, Copy, PartialEq, Eq, Structural)]
pub struct XoChip(pub Quirks);

impl Default for CosmacVip {
    fn default() -> (r: Self)
        ensures
            r.0 == cosmac_vip_quirks(),
    {
        CosmacVip(Quirks::cosmac_vip())
    }
}

impl Default for LegacySuperChip {
    fn default() -> (r: Self)
        ensures
            r.0 == legacy_super_chip_quirks(),
    {
        LegacySuperChip(Quirks::legacy_super_chip())
    }
}

impl Default for ModernSuperChip {
    fn default() -> (r: Self)
        ensures
            r.0 == modern_super_chip_quirks(),
    {
        ModernSuperChip(Quirks::modern_super_chip())
    }
}

impl Default for XoChip {
    fn default() -> (r: Self)
        ensures
            r.0 == xochip_quirks(),
    {
        XoChip(Quirks::xochip())
    }
}

/// One of the four models.
#[derive(Debug, Clone, Copy, PartialEq, Eq, Structural)]
pub enum DynamicModel {
    CosmacVip(CosmacVip),
    LegacySuperChip(LegacySuperChip),
    ModernSuperChip(ModernSuperChip),
    XoChip(XoChip),
}

impl Default for DynamicModel {
    fn default() -> (r: Self)
        ensures
            r == DynamicModel::CosmacVip(CosmacVip(cosmac_vip_quirks())),
    {
        DynamicModel::CosmacVip(CosmacVip::default())
    }
}

impl DynamicModel {
    pub open spec fn spec_quirks(&self) -> Quirks {
        match self {
            DynamicModel::CosmacVip(m) => m.0,
            DynamicModel::LegacySuperChip(m) => m.0,
            DynamicModel::ModernSuperChip(m) => m.0,
            DynamicModel::XoChip(m) => m.0,
        }
    }

    /// This model with its quirks replaced.
    pub open spec fn with_quirks(&self, q: Quirks) -> DynamicModel {
        match self {
            DynamicModel::CosmacVip(_) => DynamicModel::CosmacVip(CosmacVip(q)),
            DynamicModel::LegacySuperChip(_) => DynamicModel::LegacySuperChip(LegacySuperChip(q)),
            DynamicModel::ModernSuperChip(_) => DynamicModel::ModernSuperChip(ModernSuperChip(q)),
            DynamicModel::XoChip(_) => DynamicModel::XoChip(XoChip(q)),
        }
    }

    pub open spec fn spec_default_quirks(&self) -> Quirks {
        match self {
            DynamicModel::CosmacVip(_) => cosmac_vip_quirks(),
            DynamicModel::LegacySuperChip(_) => legacy_super_chip_quirks(),
            DynamicModel::ModernSuperChip(_) => modern_super_chip_quirks(),
            DynamicModel::XoChip(_) => xochip_quirks(),
        }
    }

    pub open spec fn spec_memory_size(&self) -> usize {
        match self {
            DynamicModel::XoChip(_) => 0x10000,
            _ => 0x1000,
        }
    }

    pub open spec fn spec_instruction_set(&self) -> InstructionSet {
        match self {
            DynamicModel::CosmacVip(_) => InstructionSet::CosmacVip,
            DynamicModel::LegacySuperChip(_) => InstructionSet::SuperChip,
            DynamicModel::ModernSuperChip(_) => InstructionSet::SuperChip,
            DynamicModel::XoChip(_) => InstructionSet::XoChip,
        }
    }

    pub open spec fn spec_default_framerate(&self) -> u32 {
        match self {
            DynamicModel::LegacySuperChip(_) => 64,
            _ => 60,
        }
    }

    /// The size of the address space in bytes.
    pub fn memory_size(&self) -> (r: usize)
        ensures
            r == self.spec_memory_size(),
    {
        match self {
            DynamicModel::XoChip(_) => 0x10000,
            _ => 0x1000,
        }
    }

    /// The instructions the model decodes.
    pub fn instruction_set(&self) -> (r: InstructionSet)
        ensures
            r == self.spec_instruction_set(),
    {
        match self {
            DynamicModel::CosmacVip(_) => InstructionSet::CosmacVip,
            DynamicModel::LegacySuperChip(_) => InstructionSet::SuperChip,
            DynamicModel::ModernSuperChip(_) => InstructionSet::SuperChip,
            DynamicModel::XoChip(_) => InstructionSet::XoChip,
        }
    }

    /// The frames per second the model runs at by default.
    pub fn default_framerate(&self) -> (r: u32)
        ensures
            r == self.spec_default_framerate(),
    {
        match self {
            DynamicModel::LegacySuperChip(_) => 64,
            _ => 60,
        }
    }

    /// The current quirks.
    pub fn quirks(&self) -> (r: &Quirks)
        ensures
            *r == self.spec_quirks(),
    {
        match self {
            DynamicModel::CosmacVip(m) => &m.0,
            DynamicModel::LegacySuperChip(m) => &m.0,
            DynamicModel::ModernSuperChip(m) => &m.0,
            DynamicModel::XoChip(m) => &m.0,
        }
    }

    /// The current quirks, for editing in place.
    pub fn quirks_mut(&mut self) -> (r: &mut Quirks)
        ensures
            *r == old(self).spec_quirks(),
            *final(self) == old(self).with_quirks(*final(r)),
    {
        match self {
            DynamicModel::CosmacVip(m) => &mut m.0,
            DynamicModel::LegacySuperChip(m) => &mut m.0,
            DynamicModel::ModernSuperChip(m) => &mut m.0,
            DynamicModel::XoChip(m) => &mut m.0,
        }
    }

    /// The quirks the model starts with.
    pub fn default_quirks(&self) -> (r: Quirks)
        ensures
            r == self.spec_default_quirks(),
    {
        match self {
            DynamicModel::CosmacVip(_) => Quirks::cosmac_vip(),
            DynamicModel::LegacySuperChip(_) => Quirks::legacy_super_chip(),
            DynamicModel::ModernSuperChip(_) => Quirks::modern_super_chip(),
            DynamicModel::XoChip(_) => Quirks::xochip(),
        }
    }

    /// The model's name, as shown to a user.
    pub fn name(&self) -> (r: &'static str) {
        match self {
            DynamicModel::CosmacVip(_) => "COSMAC VIP",
            DynamicModel::LegacySuperChip(_) => "Legacy SUPER-CHIP (SUPER-CHIP 1.1)",
            DynamicModel::ModernSuperChip(_) => "Modern SUPER-CHIP (Octo)",
            DynamicModel::XoChip(_) => "XO-CHIP",
        }
    }
}

} // verus!

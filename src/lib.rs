//! An interpreter for the CHIP-8 virtual machine and its descendants
//! (COSMAC VIP, legacy and modern SUPER-CHIP, XO-CHIP).

pub mod bits;
pub mod screen;
pub mod model;
pub mod instruction;
pub mod hardware;
pub mod semantics;
pub mod audio;
pub mod laws;
pub mod session;

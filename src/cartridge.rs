//! What a cartridge hands the core: program ROM, character ROM and the
//! nametable mirroring its board is wired for.
use vstd::prelude::*;

verus! {

/// How the four logical nametables fold onto the two physical ones.
#[derive(Clone, Copy, Debug, PartialEq, Eq, Structural)]
pub enum Mirroring {
    VERTICAL,
    HORIZONTAL,
}

/// The contents of a cartridge, already parsed.
pub struct Rom {
    pub prg_rom: Vec<u8>,
    pub chr_rom: Vec<u8>,
    pub screen_mirroring: Mirroring,
}

} // verus!

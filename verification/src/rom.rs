//! A builder for cartridge ROM header images: the game title, the CGB
//! compatibility marker and the declared ROM size. Loading a ROM from a
//! file is a front-end concern and no part of the core.

use vstd::prelude::*;

verus! {

/// The address of the CGB compatibility marker within the header.
pub const CGB_COMPATIBILITY_ADDRESS: u16 = 0x0143;

/// The first byte of the game title within the header.
pub const GAME_TITLE_START_ADDRESS: u16 = 0x0134;

/// The last byte of the game title within the header.
pub const GAME_TITLE_END_ADDRESS: u16 = 0x0142;

/// The number of bytes of a built header image.
pub const HEADER_IMAGE_SIZE: usize = 0x0150;

/// The CGB compatibility marker of a cartridge header.
#[derive(Clone, Copy, Debug, Eq, PartialEq, Structural)]
pub enum CbgCompatibility {
    /// Runs only on the monochrome machines.
    CGBIncompatible,
    /// Runs on both machine families.
    CGBCompatible,
    /// Runs only on the colour machine.
    CGBExclusive,
}

/// The header byte of each compatibility marker.
pub open spec fn spec_compatibility_marker(compatibility: CbgCompatibility) -> u8 {
    match compatibility {
        CbgCompatibility::CGBIncompatible => 0x00,
        CbgCompatibility::CGBCompatible => 0x80,
        CbgCompatibility::CGBExclusive => 0xc0,
    }
}

impl CbgCompatibility {
    /// The header byte of this compatibility marker.
    pub fn marker_byte(&self) -> (r: u8)
        ensures
            r == spec_compatibility_marker(*self),
    {
        match self {
            CbgCompatibility::CGBIncompatible => 0x00,
            CbgCompatibility::CGBCompatible => 0x80,
            CbgCompatibility::CGBExclusive => 0xc0,
        }
    }
}

/// The declared size of a cartridge ROM.
#[derive(Clone, Copy, Debug, Eq, PartialEq, Structural)]
pub enum RomSize {
    /// 256 Kib / 32 KiB.
    Size256Kilobits,
    /// 512 Kib / 64 KiB.
    Size512Kilobits,
    /// 1 Mib / 128 KiB.
    Size1Megabits,
    /// 2 Mib / 256 KiB.
    Size2Megabits,
    /// 4 Mib / 512 KiB.
    Size4Megabits,
    /// 8 Mib / 1 MiB.
    Size8Megabits,
    /// 16 Mib / 2 MiB.
    Size16Megabits,
    /// 32 Mib / 4 MiB.
    Size32Megabits,
    /// 64 Mib / 8 MiB.
    Size64Megabits,
}

/// The number of bits each declared ROM size stands for.
pub open spec fn spec_rom_size_bits(size: RomSize) -> u64 {
    match size {
        RomSize::Size256Kilobits => 256000,
        RomSize::Size512Kilobits => 512000,
        RomSize::Size1Megabits => 1000000,
        RomSize::Size2Megabits => 2000000,
        RomSize::Size4Megabits => 4000000,
        RomSize::Size8Megabits => 8000000,
        RomSize::Size16Megabits => 16000000,
        RomSize::Size32Megabits => 32000000,
        RomSize::Size64Megabits => 64000000,
    }
}

impl RomSize {
    /// The number of bits this declared size stands for.
    pub fn bit_count(&self) -> (r: u64)
        ensures
            r == spec_rom_size_bits(*self),
    {
        match self {
            RomSize::Size256Kilobits => 256000,
            RomSize::Size512Kilobits => 512000,
            RomSize::Size1Megabits => 1000000,
            RomSize::Size2Megabits => 2000000,
            RomSize::Size4Megabits => 4000000,
            RomSize::Size8Megabits => 8000000,
            RomSize::Size16Megabits => 16000000,
            RomSize::Size32Megabits => 32000000,
            RomSize::Size64Megabits => 64000000,
        }
    }
}

/// A builder for cartridge header images.
pub struct RomBuilder {
    /// The CGB compatibility marker to place in the header.
    pub cgb_compatibility: CbgCompatibility,
    /// The game title bytes; at most the title area's 15 bytes are placed.
    pub game_title: Vec<u8>,
    /// The program data of the cartridge, kept for the front-end.
    pub program_data: Vec<u8>,
    /// The declared ROM size.
    pub rom_size: RomSize,
}

/// The byte a built header image holds at each index: the title bytes in
/// the title area (zero-padded), the compatibility marker at its address,
/// zero everywhere else.
pub open spec fn spec_header_byte(builder: RomBuilder, i: int) -> u8 {
    if GAME_TITLE_START_ADDRESS <= i <= GAME_TITLE_END_ADDRESS {
        if i - GAME_TITLE_START_ADDRESS < builder.game_title@.len() {
            builder.game_title@[i - GAME_TITLE_START_ADDRESS]
        } else {
            0
        }
    } else if i == CGB_COMPATIBILITY_ADDRESS {
        spec_compatibility_marker(builder.cgb_compatibility)
    } else {
        0
    }
}

impl RomBuilder {
    /// Creates a builder with an empty title, CGB-compatible marker and the
    /// smallest declared size.
    pub fn new() -> (r: Self)
        ensures
            r.cgb_compatibility == CbgCompatibility::CGBCompatible,
            r.game_title@.len() == 0,
            r.program_data@.len() == 0,
            r.rom_size == RomSize::Size256Kilobits,
    {
        RomBuilder {
            cgb_compatibility: CbgCompatibility::CGBCompatible,
            game_title: Vec::new(),
            program_data: Vec::new(),
            rom_size: RomSize::Size256Kilobits,
        }
    }

    /// Builds the header image: the title bytes and the compatibility
    /// marker at their header addresses, zero everywhere else.
    pub fn build(&self) -> (r: Vec<u8>)
        ensures
            r@.len() == HEADER_IMAGE_SIZE,
            forall|i: int| 0 <= i < HEADER_IMAGE_SIZE ==> r@[i] == spec_header_byte(*self, i),
    {
        let mut rom: Vec<u8> = Vec::new();
        let mut i: usize = 0;

        while i < HEADER_IMAGE_SIZE
            invariant
                i <= HEADER_IMAGE_SIZE,
                rom@.len() == i,
                forall|k: int| 0 <= k < i ==> rom@[k] == spec_header_byte(*self, k),
            decreases HEADER_IMAGE_SIZE - i,
        {
            let byte: u8 = if i >= GAME_TITLE_START_ADDRESS as usize && i
                <= GAME_TITLE_END_ADDRESS as usize {
                let title_index = i - GAME_TITLE_START_ADDRESS as usize;

                if title_index < self.game_title.len() {
                    self.game_title[title_index]
                } else {
                    0
                }
            } else if i == CGB_COMPATIBILITY_ADDRESS as usize {
                self.cgb_compatibility.marker_byte()
            } else {
                0
            };

            rom.push(byte);

            i = i + 1;
        }

        rom
    }

    /// Sets the CGB compatibility marker.
    pub fn cgb_compatibility(&mut self, cgb_compatibility: CbgCompatibility)
        ensures
            *final(self) == (RomBuilder { cgb_compatibility, ..*old(self) }),
    {
        self.cgb_compatibility = cgb_compatibility;
    }

    /// Sets the game title from a string's UTF-8 bytes.
    pub fn game_title(&mut self, game_title: String)
        ensures
            final(self).game_title@ == vstd::utf8::encode_utf8(game_title@),
            *final(self) == (RomBuilder {
                game_title: final(self).game_title,
                ..*old(self)
            }),
    {
        let bytes = game_title.as_str().as_bytes();

        let mut title: Vec<u8> = Vec::new();
        let mut i: usize = 0;

        while i < bytes.len()
            invariant
                i <= bytes@.len(),
                title@ == bytes@.subrange(0, i as int),
            decreases bytes@.len() - i,
        {
            title.push(bytes[i]);

            i = i + 1;

            proof {
                assert(title@ =~= bytes@.subrange(0, i as int));
            }
        }

        proof {
            assert(title@ =~= bytes@);
        }

        self.game_title = title;
    }

    /// Sets the declared ROM size.
    pub fn rom_size(&mut self, rom_size: RomSize)
        ensures
            *final(self) == (RomBuilder { rom_size, ..*old(self) }),
    {
        self.rom_size = rom_size;
    }
}

} // verus!

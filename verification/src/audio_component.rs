//! Addresses and flags of the audio master control registers served by the
//! sound stub.

use vstd::prelude::*;

verus! {

/// The audio master control register NR52.
pub const AUDIO_MASTER_CONTROL_REGISTER: u16 = 0xff26;

/// The sound panning register NR51.
pub const SOUND_PANNING_REGISTER: u16 = 0xff25;

/// The switch bits of the audio master control register.
#[derive(Clone, Copy, Debug, Eq, PartialEq, Structural)]
pub enum AudioMasterControlFlag {
    /// Channel 1 on/off (bit 0, read-only on hardware).
    Channel1Switch,
    /// Channel 2 on/off (bit 1).
    Channel2Switch,
    /// Channel 3 on/off (bit 2).
    Channel3Switch,
    /// Channel 4 on/off (bit 3).
    Channel4Switch,
    /// The master audio switch (bit 7).
    MasterSwitch,
}

/// The bit each switch occupies within the register.
pub open spec fn spec_audio_flag_mask(flag: AudioMasterControlFlag) -> u8 {
    match flag {
        AudioMasterControlFlag::Channel1Switch => 0b00000001,
        AudioMasterControlFlag::Channel2Switch => 0b00000010,
        AudioMasterControlFlag::Channel3Switch => 0b00000100,
        AudioMasterControlFlag::Channel4Switch => 0b00001000,
        AudioMasterControlFlag::MasterSwitch => 0b10000000,
    }
}

impl AudioMasterControlFlag {
    /// The bit this switch occupies within the register.
    pub fn mask(&self) -> (r: u8)
        ensures
            r == spec_audio_flag_mask(*self),
    {
        match self {
            AudioMasterControlFlag::Channel1Switch => 0b00000001,
            AudioMasterControlFlag::Channel2Switch => 0b00000010,
            AudioMasterControlFlag::Channel3Switch => 0b00000100,
            AudioMasterControlFlag::Channel4Switch => 0b00001000,
            AudioMasterControlFlag::MasterSwitch => 0b10000000,
        }
    }
}

} // verus!

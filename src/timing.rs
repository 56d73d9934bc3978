use vstd::prelude::*;

verus! {

/// Access mode of a memory bank with extended mode enabled.
#[derive(Clone, Copy, Debug, PartialEq, Eq, Structural)]
pub enum AccessMode {
    A,
    B,
    C,
    D,
}

impl AccessMode {
    /// The two-bit code of the mode in a timing register.
    pub open spec fn code(self) -> u32 {
        match self {
            AccessMode::A => 0,
            AccessMode::B => 1,
            AccessMode::C => 2,
            AccessMode::D => 3,
        }
    }

    /// The mode whose code is the low two bits of `bits`.
    pub open spec fn of_code(bits: u32) -> AccessMode {
        let c = bits & 3;
        if c == 0 {
            AccessMode::A
        } else if c == 1 {
            AccessMode::B
        } else if c == 2 {
            AccessMode::C
        } else {
            AccessMode::D
        }
    }

    pub fn to_bits(self) -> (r: u32)
        ensures
            r == self.code(),
    {
        match self {
            AccessMode::A => 0,
            AccessMode::B => 1,
            AccessMode::C => 2,
            AccessMode::D => 3,
        }
    }

    /// Reads a mode from the low two bits of `bits`; the other bits are ignored.
    pub fn from_bits(bits: u32) -> (r: AccessMode)
        ensures
            r == AccessMode::of_code(bits),
    {
        let c = bits & 3;
        if c == 0 {
            AccessMode::A
        } else if c == 1 {
            AccessMode::B
        } else if c == 2 {
            AccessMode::C
        } else {
            AccessMode::D
        }
    }
}

/// FSMC timing configuration of one bus direction (read or write).
///
/// All durations are counted in HCLK cycles. They determine how fast the FSMC
/// talks to the display.
#[derive(Clone, Copy, Debug, PartialEq, Eq, Structural)]
pub struct Timing {
    /// Access mode for the memory bank
    pub access_mode: AccessMode,
    /// Bus turnaround time in HCLK cycles (0-15)
    pub bus_turnaround: u8,
    /// Data phase duration in HCLK cycles (1-255)
    pub data: u8,
    /// Address hold phase duration in HCLK cycles (1-15)
    pub address_hold: u8,
    /// Address setup phase duration in HCLK cycles (0-15)
    pub address_setup: u8,
}

impl Timing {
    /// Maximum allowed value of the bus turnaround time
    pub const BUS_TURNAROUND_MAX: u8 = 15;

    /// Minimum allowed value of the data phase time
    pub const DATA_MIN: u8 = 1;

    /// Minimum allowed value of the address hold time
    pub const ADDRESS_HOLD_MIN: u8 = 1;

    /// Maximum allowed value of the address hold time
    pub const ADDRESS_HOLD_MAX: u8 = 15;

    /// Maximum allowed value of the address setup time
    pub const ADDRESS_SETUP_MAX: u8 = 15;

    /// Every field lies within its documented range.
    pub open spec fn wf(self) -> bool {
        &&& self.bus_turnaround <= 15
        &&& 1 <= self.data
        &&& 1 <= self.address_hold <= 15
        &&& self.address_setup <= 15
    }

    /// Creates a timing configuration from its five fields, as given.
    ///
    /// The values are taken as they are; `is_valid` tells whether they are in
    /// range.
    pub fn new(
        access_mode: AccessMode,
        bus_turnaround: u8,
        data: u8,
        address_hold: u8,
        address_setup: u8,
    ) -> (r: Self)
        ensures
            r.access_mode == access_mode,
            r.bus_turnaround == bus_turnaround,
            r.data == data,
            r.address_hold == address_hold,
            r.address_setup == address_setup,
    {
        Timing { access_mode, bus_turnaround, data, address_hold, address_setup }
    }

    /// Tells whether every field lies within its documented range.
    pub fn is_valid(&self) -> (r: bool)
        ensures
            r == self.wf(),
    {
        self.bus_turnaround <= Self::BUS_TURNAROUND_MAX && self.data >= Self::DATA_MIN
            && self.address_hold >= Self::ADDRESS_HOLD_MIN && self.address_hold
            <= Self::ADDRESS_HOLD_MAX && self.address_setup <= Self::ADDRESS_SETUP_MAX
    }
}

impl Default for Timing {
    /// The slowest legal settings: mode C and every phase at its maximum.
    ///
    /// These work with most displays but leave throughput on the table; tune
    /// them down from the display's datasheet.
    fn default() -> (r: Self)
        ensures
            r.access_mode == AccessMode::C,
            r.bus_turnaround == 15,
            r.data == 255,
            r.address_hold == 15,
            r.address_setup == 15,
            r.wf(),
    {
        Timing {
            access_mode: AccessMode::C,
            bus_turnaround: Self::BUS_TURNAROUND_MAX,
            data: 255,
            address_hold: Self::ADDRESS_HOLD_MAX,
            address_setup: Self::ADDRESS_SETUP_MAX,
        }
    }
}

} // verus!

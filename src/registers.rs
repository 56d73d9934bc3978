use vstd::prelude::*;
use crate::timing::{AccessMode, Timing};

verus! {

/// Bank enable (MBKEN) in the bank control register.
pub const BCR_MBKEN: u32 = 1 << 0;

/// Memory type NOR flash (MTYP = 2) in the bank control register.
pub const BCR_MTYP_FLASH: u32 = 2 << 2;

/// Memory data bus width of 16 bits (MWID = 1) in the bank control register.
pub const BCR_MWID_16: u32 = 1 << 4;

/// Flash access enable (FACCEN) in the bank control register.
pub const BCR_FACCEN: u32 = 1 << 6;

/// Write enable (WREN) in the bank control register.
pub const BCR_WREN: u32 = 1 << 12;

/// Extended mode enable (EXTMOD) in the bank control register.
pub const BCR_EXTMOD: u32 = 1 << 14;

/// The `width` bits of `word` that start at bit `lo`.
pub open spec fn field(word: u32, lo: u32, width: u32) -> u32 {
    (word >> lo) & (((1u32 << width) - 1) as u32)
}

/// The bank control word for an LCD controller: asynchronous, non-burst,
/// extended mode, 16-bit wide, NOR flash type, address and data not
/// multiplexed, wait signal ignored, writes allowed, bank enabled. Every bit
/// that is not named here is clear.
pub open spec fn lcd_bank_control(w: u32) -> bool {
    &&& field(w, 0, 1) == 1  // MBKEN: bank enabled
    &&& field(w, 1, 1) == 0  // MUXEN: address and data not multiplexed
    &&& field(w, 2, 2) == 2  // MTYP: NOR flash
    &&& field(w, 4, 2) == 1  // MWID: 16 bits
    &&& field(w, 6, 1) == 1  // FACCEN: flash access enabled
    &&& field(w, 7, 1) == 0
    &&& field(w, 8, 1) == 0  // BURSTEN: no burst reads
    &&& field(w, 9, 1) == 0  // WAITPOL: active low
    &&& field(w, 10, 1) == 0  // WRAPMOD
    &&& field(w, 11, 1) == 0  // WAITCFG: before the wait state
    &&& field(w, 12, 1) == 1  // WREN: writes allowed
    &&& field(w, 13, 1) == 0  // WAITEN: wait signal ignored
    &&& field(w, 14, 1) == 1  // EXTMOD: separate read and write timings
    &&& field(w, 15, 1) == 0  // ASYNCWAIT: wait signal ignored
    &&& field(w, 16, 3) == 0  // CPSIZE: no burst split
    &&& field(w, 19, 1) == 0  // CBURSTRW: no synchronous writes
    &&& field(w, 20, 12) == 0
}

/// `w` is the timing register word (read or write direction) for `t`.
///
/// Each field keeps the low bits of its value that fit in the register, as a
/// register field write does; the clock divider and data latency are zero.
pub open spec fn programs_timing(w: u32, t: Timing) -> bool {
    &&& field(w, 0, 4) == t.address_setup as u32 % 16  // ADDSET
    &&& field(w, 4, 4) == t.address_hold as u32 % 16  // ADDHLD
    &&& field(w, 8, 8) == t.data as u32  // DATAST
    &&& field(w, 16, 4) == t.bus_turnaround as u32 % 16  // BUSTURN
    &&& field(w, 20, 8) == 0  // CLKDIV, DATLAT
    &&& field(w, 28, 2) == t.access_mode.code()  // ACCMOD
    &&& field(w, 30, 2) == 0
}

/// The timing that a timing register word holds.
pub open spec fn decoded_timing(w: u32) -> Timing {
    Timing {
        access_mode: AccessMode::of_code(field(w, 28, 2)),
        bus_turnaround: field(w, 16, 4) as u8,
        data: field(w, 8, 8) as u8,
        address_hold: field(w, 4, 4) as u8,
        address_setup: field(w, 0, 4) as u8,
    }
}

/// The bank control word for driving an LCD controller.
pub fn bank_control_word() -> (r: u32)
    ensures
        lcd_bank_control(r),
{
    let r = BCR_MBKEN | BCR_MTYP_FLASH | BCR_MWID_16 | BCR_FACCEN | BCR_WREN | BCR_EXTMOD;
    assert(BCR_MBKEN | BCR_MTYP_FLASH | BCR_MWID_16 | BCR_FACCEN | BCR_WREN | BCR_EXTMOD
        == 0x5059u32) by (bit_vector);
    assert(lcd_bank_control(r)) by (bit_vector)
        requires
            r == 0x5059u32,
    ;
    r
}

/// The timing register word for `t`.
pub fn timing_word(t: &Timing) -> (r: u32)
    ensures
        programs_timing(r, *t),
{
    let mode = t.access_mode.to_bits();
    let busturn = t.bus_turnaround as u32;
    let datast = t.data as u32;
    let addhld = t.address_hold as u32;
    let addset = t.address_setup as u32;
    let r = (mode << 28u32) | ((busturn & 0xf) << 16u32) | (datast << 8u32) | ((addhld & 0xf)
        << 4u32) | (addset & 0xf);
    assert(field(r, 0, 4) == addset % 16 && field(r, 4, 4) == addhld % 16 && field(r, 8, 8)
        == datast && field(r, 16, 4) == busturn % 16 && field(r, 20, 8) == 0 && field(r, 28, 2)
        == mode && field(r, 30, 2) == 0) by (bit_vector)
        requires
            mode <= 3,
            busturn < 256,
            datast < 256,
            addhld < 256,
            addset < 256,
            r == (mode << 28u32) | ((busturn & 0xf) << 16u32) | (datast << 8u32) | ((addhld
                & 0xf) << 4u32) | (addset & 0xf),
    ;
    r
}

impl Timing {
    /// Reads a timing configuration back from a timing register word.
    pub fn from_register(w: u32) -> (r: Timing)
        ensures
            r == decoded_timing(w),
    {
        let addset = w & 0xf;
        let addhld = (w >> 4u32) & 0xf;
        let datast = (w >> 8u32) & 0xff;
        let busturn = (w >> 16u32) & 0xf;
        let mode = (w >> 28u32) & 0x3;
        assert(addset == field(w, 0, 4) && addhld == field(w, 4, 4) && datast == field(w, 8, 8)
            && busturn == field(w, 16, 4) && mode == field(w, 28, 2) && datast < 256 && addset
            < 16 && addhld < 16 && busturn < 16) by (bit_vector)
            requires
                addset == w & 0xf,
                addhld == (w >> 4u32) & 0xf,
                datast == (w >> 8u32) & 0xff,
                busturn == (w >> 16u32) & 0xf,
                mode == (w >> 28u32) & 0x3,
        ;
        Timing {
            access_mode: AccessMode::from_bits(mode),
            bus_turnaround: busturn as u8,
            data: datast as u8,
            address_hold: addhld as u8,
            address_setup: addset as u8,
        }
    }
}

/// A timing register programmed from a valid timing reads back as that timing,
/// field for field.
pub proof fn lemma_timing_round_trip(w: u32, t: Timing)
    requires
        t.wf(),
        programs_timing(w, t),
    ensures
        decoded_timing(w) == t,
{
    let c = t.access_mode.code();
    assert(c & 3 == c) by (bit_vector)
        requires
            c <= 3,
    ;
    assert(AccessMode::of_code(c) == t.access_mode);
    assert(field(w, 16, 4) < 16 && field(w, 8, 8) < 256 && field(w, 4, 4) < 16 && field(w, 0, 4)
        < 16) by (bit_vector);
}

} // verus!

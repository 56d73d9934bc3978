use vstd::prelude::*;

verus! {

/// The base address of the first FSMC bank.
pub const BASE_ADDRESS: usize = 0x6000_0000;

/// Address bits that reach the external address lines with 16-bit accesses.
///
/// Bits 26 and 27 select the sub-bank and bit 0 is not used for half-word
/// accesses, so neither belongs here.
pub const USABLE_ADDRESS_BITS: usize = 0x03ff_fffe;

/// Address used to send commands to the display.
pub const COMMAND_ADDRESS: usize = BASE_ADDRESS;

/// Address used to send data to the display.
pub const DATA_ADDRESS: usize = BASE_ADDRESS | USABLE_ADDRESS_BITS;

/// Converts a command address into a data address.
///
/// Every external address signal is driven high, so whichever address line is
/// wired to the display's register-select input reads as "data".
pub fn make_data_address(base: usize) -> (r: usize)
    ensures
        r == base | USABLE_ADDRESS_BITS,
{
    base | USABLE_ADDRESS_BITS
}

/// The data address differs from a bank base address exactly in the usable
/// address bits, and keeps the sub-bank selection bits of the base.
pub proof fn lemma_data_address_bits(base: usize)
    requires
        base & USABLE_ADDRESS_BITS == 0,
    ensures
        (base | USABLE_ADDRESS_BITS) ^ base == USABLE_ADDRESS_BITS,
        (base | USABLE_ADDRESS_BITS) & 0x0c00_0000 == base & 0x0c00_0000,
{
    assert((base | 0x03ff_fffeusize) ^ base == 0x03ff_fffeusize) by (bit_vector)
        requires
            base & 0x03ff_fffeusize == 0,
    ;
    assert((base | 0x03ff_fffeusize) & 0x0c00_0000 == base & 0x0c00_0000) by (bit_vector);
}

/// The two fixed addresses of the bank: the data address is the command
/// address with all usable address bits set.
pub proof fn lemma_fixed_addresses()
    ensures
        COMMAND_ADDRESS == 0x6000_0000,
        DATA_ADDRESS == 0x63ff_fffe,
        DATA_ADDRESS == COMMAND_ADDRESS | USABLE_ADDRESS_BITS,
        DATA_ADDRESS ^ COMMAND_ADDRESS == USABLE_ADDRESS_BITS,
        DATA_ADDRESS & 0x0c00_0000 == COMMAND_ADDRESS & 0x0c00_0000,
{
    assert(0x6000_0000usize | 0x03ff_fffeusize == 0x63ff_fffeusize) by (bit_vector);
    assert(0x6000_0000usize & 0x03ff_fffeusize == 0) by (bit_vector);
    lemma_data_address_bits(COMMAND_ADDRESS);
}

} // verus!

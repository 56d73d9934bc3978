use vstd::prelude::*;
use crate::address::{COMMAND_ADDRESS, DATA_ADDRESS};
use crate::payload::{dispatch, dispatched, BusWrite, DispatchError, Payload};
use crate::registers::{
    bank_control_word, decoded_timing, lcd_bank_control, lemma_timing_round_trip, programs_timing,
    timing_word,
};
use crate::timing::Timing;

verus! {

/// The words programmed into the first bank's control and timing registers.
#[derive(Clone, Copy, Debug, PartialEq, Eq, Structural)]
pub struct BankRegisters {
    /// Bank control register (BCR)
    pub bcr: u32,
    /// Read timing register (BTR)
    pub btr: u32,
    /// Write timing register (BWTR)
    pub bwtr: u32,
}

/// The register words that drive an LCD controller with the given read and
/// write timings.
pub open spec fn lcd_bank(r: BankRegisters, read_timing: Timing, write_timing: Timing) -> bool {
    &&& lcd_bank_control(r.bcr)
    &&& programs_timing(r.btr, read_timing)
    &&& programs_timing(r.bwtr, write_timing)
}

/// An interface built from valid read and write timings holds timing
/// registers whose fields read back as exactly those timings, unmodified.
pub proof fn lemma_programmed_timings_read_back(
    registers: BankRegisters,
    read_timing: Timing,
    write_timing: Timing,
)
    requires
        read_timing.wf(),
        write_timing.wf(),
        lcd_bank(registers, read_timing, write_timing),
    ensures
        decoded_timing(registers.btr) == read_timing,
        decoded_timing(registers.bwtr) == write_timing,
{
    lemma_timing_round_trip(registers.btr, read_timing);
    lemma_timing_round_trip(registers.bwtr, write_timing);
}

/// FSMC LCD interface for 16-bit parallel displays.
///
/// It owns the chip select, read enable, write enable and register select
/// lines and the sixteen data lines (D0 to D15, in order) for as long as it
/// exists, together with the bank configuration it was built with. Commands
/// and data become stores to two fixed addresses that differ in the address
/// line wired to the display's register select input.
pub struct FsmcLcd<P> {
    cs: P,
    rd: P,
    rw: P,
    rs: P,
    data_pins: [P; 16],
    registers: BankRegisters,
}

impl<P> FsmcLcd<P> {
    /// The lines held: chip select, read enable, write enable, register
    /// select, and the data lines in order.
    pub closed spec fn pins(&self) -> (P, P, P, P, Seq<P>) {
        (self.cs, self.rd, self.rw, self.rs, self.data_pins@)
    }

    /// The bank configuration this interface was built with.
    pub closed spec fn bank(&self) -> BankRegisters {
        self.registers
    }

    /// Creates the interface from its lines and the read and write timings.
    ///
    /// The bank is configured for an LCD controller: asynchronous, extended
    /// mode, 16 bits wide, NOR flash type, not multiplexed, wait signal
    /// ignored, enabled. The two timings are taken as they are, independently
    /// of each other; the lines must already be routed to the FSMC.
    pub fn new(
        cs: P,
        rd: P,
        rw: P,
        rs: P,
        data_pins: [P; 16],
        read_timing: &Timing,
        write_timing: &Timing,
    ) -> (r: Self)
        ensures
            r.pins() == (cs, rd, rw, rs, data_pins@),
            lcd_bank(r.bank(), *read_timing, *write_timing),
    {
        let registers = BankRegisters {
            bcr: bank_control_word(),
            btr: timing_word(read_timing),
            bwtr: timing_word(write_timing),
        };
        FsmcLcd { cs, rd, rw, rs, data_pins, registers }
    }

    /// The bank configuration to program into the FSMC.
    pub fn registers(&self) -> (r: BankRegisters)
        ensures
            r == self.bank(),
    {
        self.registers
    }

    /// The store that writes a command value to the display: one 16-bit
    /// store to the command address.
    pub fn write_command(&self, value: u16) -> (r: BusWrite)
        ensures
            r == (BusWrite { address: COMMAND_ADDRESS, value }),
    {
        BusWrite { address: COMMAND_ADDRESS, value }
    }

    /// The store that writes a data value to the display: one 16-bit store
    /// to the data address.
    pub fn write_data(&self, value: u16) -> (r: BusWrite)
        ensures
            r == (BusWrite { address: DATA_ADDRESS, value }),
    {
        BusWrite { address: DATA_ADDRESS, value }
    }

    /// The stores that send a batch of commands: one store to the command
    /// address per element, in order, bytes zero-extended; nothing for a
    /// shape that is not implemented.
    pub fn send_commands(&self, cmd: &Payload) -> (r: Result<Vec<BusWrite>, DispatchError>)
        ensures
            dispatched(COMMAND_ADDRESS, *cmd, r),
    {
        dispatch(COMMAND_ADDRESS, cmd)
    }

    /// The stores that send pixel data: one store to the data address per
    /// element, in order, bytes zero-extended; nothing for a shape that is
    /// not implemented.
    pub fn send_data(&self, buf: &Payload) -> (r: Result<Vec<BusWrite>, DispatchError>)
        ensures
            dispatched(DATA_ADDRESS, *buf, r),
    {
        dispatch(DATA_ADDRESS, buf)
    }

    /// Gives the lines back: chip select, read enable, write enable, register
    /// select, and the data lines in order.
    pub fn release(self) -> (r: (P, P, P, P, [P; 16]))
        ensures
            (r.0, r.1, r.2, r.3, r.4@) == self.pins(),
    {
        (self.cs, self.rd, self.rw, self.rs, self.data_pins)
    }
}

} // verus!

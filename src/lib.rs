//! Write-only command/data channel to a parallel-bus LCD controller driven
//! through the STM32 flexible static memory controller (FSMC).
//!
//! The library computes everything the driver decides: the register words that
//! configure the memory bank, the two addresses whose difference tells the
//! display a command from data, and the ordered sequence of bus stores that
//! carries each payload. Performing those stores is left to the caller.

pub mod address;
pub mod timing;
pub mod registers;
pub mod payload;
pub mod lcd;

pub use address::{make_data_address, BASE_ADDRESS, COMMAND_ADDRESS, DATA_ADDRESS};
pub use lcd::{BankRegisters, FsmcLcd};
pub use payload::{BusWrite, DispatchError, Payload};
pub use registers::bank_control_word;
pub use timing::{AccessMode, Timing};

//! A counter kept in an eight-byte account record, changed by three
//! instructions: initialize, increment and decrement.
use vstd::prelude::*;

pub mod codec;
pub mod error;
pub mod instruction;
pub mod processor;
pub mod state;

pub use error::CounterError;
pub use instruction::CounterInstruction;
pub use state::CounterAccount;

verus! {

} // verus!

//! What the protocol guarantees, stated over the model of the storage
//! instances and proved.

pub mod attempt;
pub mod exclusion;
pub mod release;
pub mod retry;

//! Laws of the library: what holds across its operations, over the mathematical values
//! in which the contracts are stated.

pub mod codec;
pub mod links;
pub mod monitors;
pub mod texts;
pub mod transfer;
pub mod transitions;

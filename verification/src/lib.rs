//! Command decoding and hardware bring-up logic for the Nintendo Flipper/Hollywood
//! GX graphics engine.

pub mod bytes;
pub mod fifo;
pub mod mem;
pub mod run;
pub mod setup;

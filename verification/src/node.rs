//! The worker interface. A node drives one worker's loop under a chosen
//! I/O model; the sender and receiver sides both implement it around
//! their exchange engines.

use vstd::prelude::*;

use crate::util::IOModel;

verus! {

/// One worker of either side. `run` drives the exchange until the test is
/// over; the `loop_*` methods are the readiness waits the I/O models use
/// when the socket is not ready.
pub trait Node {
    fn run(&mut self, io_model: IOModel) -> Result<(), &'static str>;

    fn loop_busy_waiting(&mut self) -> Result<(), &'static str>;

    fn loop_select(&mut self) -> Result<(), &'static str>;

    fn loop_poll(&mut self) -> Result<(), &'static str>;
}

} // verus!

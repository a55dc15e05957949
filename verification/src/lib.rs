//! Hand-off of resumable units of work to a single reactor thread.
//!
//! A reactor is one thread that runs an event loop. Units of work, each a
//! suspended computation that is ready to go on, may be submitted by any
//! thread, and all of them run on the reactor thread. This library holds the
//! rules of that hand-off:
//!
//! - `spawn`: the scheduler, which decides for every submitted unit whether it
//!   runs at once or waits in the queue, and which hands the waiting units to
//!   the reactor thread;
//! - `notify`: what counts as a working notifier, the descriptor through which
//!   the other threads wake the reactor thread;
//! - `finalize`: the record through which a finished unit has its request
//!   finalized, once, by the reactor;
//! - `channel`: the queue itself, a crossbeam channel, and what is taken for
//!   granted of it.
//!
//! The library makes no system calls and runs no unit: its caller owns the
//! event loop, performs what the library decides and reports back what came
//! of it.

pub mod channel;
pub mod finalize;
pub mod notify;
pub mod spawn;

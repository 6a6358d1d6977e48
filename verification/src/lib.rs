//! Byzantine reliable broadcast.
//!
//! A three-phase broadcast protocol (Init, Echo, Ready) that ensures that all
//! honest nodes deliver the same value even in the presence of Byzantine faults.
//!
//! The protocol itself, from the bottom up:
//!
//! - [`identity`]: keys, hashes and signatures, as plain bytes;
//! - [`table`]: a lookup table keyed by such bytes;
//! - [`message`]: the messages of the protocol;
//! - [`error`]: how a broadcast can fail;
//! - [`quorum`]: the fault bound, the thresholds and their arithmetic;
//! - [`instance`]: what one node knows about one broadcast;
//! - [`node`]: what a node makes of a message, and what it sends;
//! - [`session`]: one node's part in one broadcast, as a state machine.
//!
//! What is proved of it as a whole:
//!
//! - [`counting`]: what counting a message changes, and what it leaves;
//! - [`conduct`]: what each event leads to, and what is sent, checked and passed
//!   over;
//! - [`calls`]: what a caller gets from calls in a row;
//! - [`laws`]: what every session keeps to, whatever happens outside;
//! - [`system`]: honest nodes that run the protocol together, among faulty ones;
//! - [`guarantees`]: agreement, totality and validity;
//! - [`delivery`]: that all honest nodes deliver when their messages arrive.
//!
//! Signing, checking signatures, sending, receiving and keeping time are left to
//! whoever runs the sessions.

pub mod calls;
pub mod conduct;
pub mod counting;
pub mod delivery;
pub mod error;
pub mod guarantees;
pub mod identity;
pub mod instance;
pub mod laws;
pub mod message;
pub mod node;
pub mod quorum;
pub mod session;
pub mod system;
pub mod table;

//! A unidirectional, two-party payment channel.
//!
//! A sender deposits value into a channel and authorizes incremental payments
//! to a recipient by signing monotonically increasing cumulative amounts off
//! the ledger. The recipient may redeem the latest signed amount at any time
//! (cooperative close); if the recipient stalls, the sender can start a timed
//! unilateral close that returns the residual funds after a challenge period.
//!
//! [`channel`] holds the channel state machine and its contracts; [`crypto`]
//! holds the signature-authorization scheme.

pub mod channel;
pub mod crypto;

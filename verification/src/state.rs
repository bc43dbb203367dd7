//! The escrow record and the reasons an operation can be refused.

use vstd::prelude::*;
use crate::address::Address;

verus! {

/// Why an operation was refused. A refused operation changes nothing.
#[derive(Clone, Copy, Debug, PartialEq, Eq, Structural)]
pub enum ErrorCode {
    /// A stream between this payer and payee is already open.
    DuplicateStream,
    /// The payer's deposit could not be authorized or funded.
    InsufficientFunds,
    /// Elapsed time multiplied by the rate does not fit in 64 unsigned bits.
    MathOverflow,
    /// A supplied account does not match the derived or recorded identity.
    AccountMismatch,
    /// A release from the vault could not be credited to its destination.
    TransferFailed,
}

/// The record of one open stream.
///
/// It is written once when the stream is created and never changes; closing
/// the stream removes it.
#[derive(Clone, Copy, Debug)]
pub struct StreamState {
    /// The payer.
    pub sender: Address,
    /// The payee.
    pub recipient: Address,
    /// The asset that was deposited.
    pub mint: Address,
    /// When the stream was created, in whole seconds.
    pub start_time: i64,
    /// How much accrues to the payee each second.
    pub rate_per_second: u64,
    /// The deposit, which caps what the payee can receive.
    pub total_deposit: u64,
    /// Set when the record is created.
    pub active: bool,
}

impl StreamState {
    /// The record of a stream that starts at `start_time`.
    pub fn new(
        sender: Address,
        recipient: Address,
        mint: Address,
        start_time: i64,
        rate_per_second: u64,
        max_amount: u64,
    ) -> (state: StreamState)
        ensures
            state == (StreamState {
                sender,
                recipient,
                mint,
                start_time,
                rate_per_second,
                total_deposit: max_amount,
                active: true,
            }),
    {
        StreamState {
            sender,
            recipient,
            mint,
            start_time,
            rate_per_second,
            total_deposit: max_amount,
            active: true,
        }
    }
}

} // verus!

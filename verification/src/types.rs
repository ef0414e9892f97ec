//! Plain-value forms of the identities, events and errors that the ledger
//! speaks of: a 160-bit account address with the zero sentinel, 4-byte
//! interface and acknowledgment codes, the emitted events, and the error
//! kinds with their structured context.

use vstd::prelude::*;
use crate::u256::U256;

verus! {

/// A 160-bit account identity, split into a 32-bit high part and a 128-bit
/// low part. The all-zero value is the reserved sentinel: it stands both for
/// "no one" (a token owned by it does not exist, an approval set to it is no
/// approval) and for the source of a mint and the destination of a burn.
#[derive(Clone, Copy, PartialEq, Eq, Structural, Debug)]
pub struct Address {
    pub hi: u32,
    pub lo: u128,
}

impl Address {
    /// The sentinel "no one" value.
    pub open spec fn spec_zero() -> Address {
        Address { hi: 0, lo: 0 }
    }

    pub fn zero() -> (r: Address)
        ensures
            r == Address::spec_zero(),
    {
        Address { hi: 0, lo: 0 }
    }

    pub fn is_zero(&self) -> (r: bool)
        ensures
            r == (*self == Address::spec_zero()),
    {
        self.hi == 0 && self.lo == 0
    }

    pub fn from_u64(x: u64) -> (r: Address)
        ensures
            r == (Address { hi: 0, lo: x as u128 }),
            x != 0 ==> r != Address::spec_zero(),
    {
        Address { hi: 0, lo: x as u128 }
    }
}

/// A 4-byte code: an interface identifier or a receiver acknowledgment value.
#[derive(Clone, Copy, PartialEq, Eq, Structural, Debug)]
pub struct Bytes4 {
    pub b0: u8,
    pub b1: u8,
    pub b2: u8,
    pub b3: u8,
}

impl Bytes4 {
    pub open spec fn spec_zero() -> Bytes4 {
        Bytes4 { b0: 0, b1: 0, b2: 0, b3: 0 }
    }

    pub fn zero() -> (r: Bytes4)
        ensures
            r == Bytes4::spec_zero(),
    {
        Bytes4 { b0: 0, b1: 0, b2: 0, b3: 0 }
    }
}

/// The acknowledgment code a contract-capable receiver must return from its
/// receipt entry point for a safe transfer to stand.
pub open spec fn spec_receiver_accept_code() -> Bytes4 {
    Bytes4 { b0: 0x15, b1: 0x0b, b2: 0x7a, b3: 0x02 }
}

pub fn receiver_accept_code() -> (r: Bytes4)
    ensures
        r == spec_receiver_accept_code(),
{
    Bytes4 { b0: 0x15, b1: 0x0b, b2: 0x7a, b3: 0x02 }
}

/// A record appended to the event log by the operations that mutate state.
#[derive(Clone, Copy, PartialEq, Eq, Structural, Debug)]
pub enum Event {
    Transfer { from: Address, to: Address, token_id: U256 },
    Approval { owner: Address, approved: Address, token_id: U256 },
    ApprovalForAll { owner: Address, operator: Address, approved: bool },
}

/// The failure kinds, each carrying the context of the rejected request.
/// Every error aborts its whole operation: the ledger is left exactly as it
/// was before the call.
#[derive(Clone, Copy, PartialEq, Eq, Structural, Debug)]
pub enum Erc721Error {
    /// The referenced token has no owner: never minted, or already burned.
    InvalidTokenId { token_id: U256 },
    /// A claimed owner does not match the actual current owner.
    NotOwner { from: Address, token_id: U256, real_owner: Address },
    /// The caller has neither ownership, operator approval, nor the
    /// single-token approval needed for the attempted action.
    NotApproved { owner: Address, spender: Address, token_id: U256 },
    /// The destination of a transfer is the zero sentinel; destruction must
    /// use burn instead.
    TransferToZero { token_id: U256 },
    /// A contract-capable destination rejected the deposit or returned an
    /// unrecognized acknowledgment code (all-zero if the call itself failed).
    ReceiverRefused { receiver: Address, token_id: U256, returned: Bytes4 },
}

} // verus!

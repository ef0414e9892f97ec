//! The token ledger: ownership, balances, approvals, the supply counter and
//! the event log, with the transfer engine, the authorization rules, and the
//! safe-transfer acknowledgment protocol.
//!
//! Every operation is atomic: it either completes in full or leaves the
//! ledger exactly as it was. The host environment's answers — the caller's
//! identity, whether a destination address carries code, and what a
//! receiver's acknowledgment call returned — enter as plain arguments.

use vstd::prelude::*;
use core::marker::PhantomData;
use crate::kv::{kv_lookup, kv_contains, kv_distinct, kv_count};
use crate::kv::{lemma_kv_absent, lemma_kv_contains_lookup, lemma_kv_count_member,
    lemma_kv_count_le_len};
use crate::kv::{tok_get, tok_set, bal_get, bal_set, op_get, op_set};
use crate::types::{Address, Bytes4, Event, Erc721Error};
use crate::types::{spec_receiver_accept_code, receiver_accept_code};
use crate::u256::{U256, u256_limit};

verus! {

/// The collection-wide parameters: its name, its symbol, and how a token's
/// metadata URI is formed. Implementors outside the library supply the
/// string formatting; the ledger makes no promise about these strings'
/// content, only about when a token has a URI at all.
pub trait Erc721Params {
    fn name() -> String;

    fn symbol() -> String;

    fn token_uri(token_id: U256) -> String;
}

/// A safe transfer that still awaits the receiver's acknowledgment: the
/// ledger already records the move, and the caller must now invoke the
/// receiver's receipt entry point with these values and hand the answer to
/// `finish_safe_transfer`.
pub struct PendingAck {
    /// The account that initiated the transfer.
    pub operator: Address,
    /// The owner the token moved away from.
    pub from: Address,
    /// The contract-capable destination that must acknowledge.
    pub to: Address,
    /// The token that moved.
    pub token_id: U256,
    /// The opaque bytes to forward to the receiver.
    pub data: Vec<u8>,
    /// The single-token approval as it stood before the move, restored if
    /// the receiver refuses.
    pub prev_approved: Address,
}

/// The ledger. The owner store is the single source of truth for existence:
/// a token mapped to the zero address does not exist.
pub struct Erc721<T: Erc721Params> {
    owners: Vec<(U256, Address)>,
    balances: Vec<(Address, U256)>,
    token_approvals: Vec<(U256, Address)>,
    operator_approvals: Vec<((Address, Address), bool)>,
    total_supply: U256,
    events: Vec<Event>,
    params: PhantomData<T>,
}

impl<T: Erc721Params> Erc721<T> {
    /// The current owner of a token; the zero address when it does not exist.
    pub closed spec fn spec_owner(self, token_id: U256) -> Address {
        kv_lookup(self.owners@, token_id, Address::spec_zero())
    }

    /// How many tokens an address owns.
    pub closed spec fn spec_balance(self, a: Address) -> nat {
        kv_lookup(self.balances@, a, U256::spec_zero()).as_nat()
    }

    /// The single-token approval; the zero address when none is set.
    pub closed spec fn spec_approved(self, token_id: U256) -> Address {
        kv_lookup(self.token_approvals@, token_id, Address::spec_zero())
    }

    /// Whether `operator` holds blanket authority over `owner`'s tokens.
    pub closed spec fn spec_operator(self, owner: Address, operator: Address) -> bool {
        kv_lookup(self.operator_approvals@, (owner, operator), false)
    }

    /// The supply counter as a word; it is also the next token id to mint.
    pub closed spec fn spec_supply_word(self) -> U256 {
        self.total_supply
    }

    /// The supply counter: tokens ever minted, never decremented by burn.
    pub open spec fn spec_total_supply(self) -> nat {
        self.spec_supply_word().as_nat()
    }

    /// The event log, oldest first.
    pub closed spec fn spec_events(self) -> Seq<Event> {
        self.events@
    }

    /// Whether the token exists: owned by someone other than the sentinel.
    pub open spec fn spec_exists(self, token_id: U256) -> bool {
        self.spec_owner(token_id) != Address::spec_zero()
    }

    /// Whether `caller` may move the token: it is the owner, an operator of
    /// the owner, or holds the token's single approval. The zero sentinel in
    /// the approval store means "no approval", so it never names a holder.
    pub open spec fn spec_authorized(self, caller: Address, token_id: U256) -> bool {
        ||| caller == self.spec_owner(token_id)
        ||| self.spec_operator(self.spec_owner(token_id), caller)
        ||| (caller != Address::spec_zero() && self.spec_approved(token_id) == caller)
    }

    /// Well-formedness: each store keyed once, the zero sentinel holds no
    /// balance, and every real address's balance counts exactly the owner
    /// entries that carry it.
    pub closed spec fn wf(self) -> bool {
        &&& kv_distinct(self.owners@)
        &&& kv_distinct(self.balances@)
        &&& kv_distinct(self.token_approvals@)
        &&& kv_distinct(self.operator_approvals@)
        &&& kv_lookup(self.balances@, Address::spec_zero(), U256::spec_zero()).as_nat() == 0
        &&& forall|a: Address| a != Address::spec_zero()
                ==> (#[trigger] kv_lookup(self.balances@, a, U256::spec_zero())).as_nat()
                    == kv_count(self.owners@, a)
    }

    /// Both states answer every query alike: nothing was mutated.
    pub open spec fn spec_unchanged(pre: Erc721<T>, post: Erc721<T>) -> bool {
        &&& forall|u: U256| #[trigger] post.spec_owner(u) == pre.spec_owner(u)
        &&& forall|a: Address| #[trigger] post.spec_balance(a) == pre.spec_balance(a)
        &&& forall|u: U256| #[trigger] post.spec_approved(u) == pre.spec_approved(u)
        &&& forall|o: Address, p: Address|
                #[trigger] post.spec_operator(o, p) == pre.spec_operator(o, p)
        &&& post.spec_supply_word() == pre.spec_supply_word()
        &&& post.spec_events() == pre.spec_events()
    }

    /// The transfer engine's whole effect: the token now belongs to `to`,
    /// the two balances moved by one (the sentinel holds none), the token's
    /// single approval is cleared whatever it was, everything else stands,
    /// and one Transfer event is appended.
    pub open spec fn spec_transfer_effect(
        pre: Erc721<T>,
        post: Erc721<T>,
        token_id: U256,
        from: Address,
        to: Address,
    ) -> bool {
        &&& pre.spec_owner(token_id) == from
        &&& post.spec_owner(token_id) == to
        &&& forall|u: U256| u != token_id ==> #[trigger] post.spec_owner(u) == pre.spec_owner(u)
        &&& forall|a: Address| #[trigger] post.spec_balance(a) as int == pre.spec_balance(a)
                + (if a == to && to != Address::spec_zero() { 1int } else { 0int })
                - (if a == from && from != Address::spec_zero() { 1int } else { 0int })
        &&& post.spec_approved(token_id) == Address::spec_zero()
        &&& forall|u: U256| u != token_id
                ==> #[trigger] post.spec_approved(u) == pre.spec_approved(u)
        &&& forall|o: Address, p: Address|
                #[trigger] post.spec_operator(o, p) == pre.spec_operator(o, p)
        &&& post.spec_supply_word() == pre.spec_supply_word()
        &&& post.spec_events() == pre.spec_events().push(Event::Transfer { from, to, token_id })
    }

    /// A mint's whole effect: the token numbered by the old supply counter
    /// now belongs to `to`, the counter moved up by one, and one Transfer
    /// event from the zero sentinel is appended.
    pub open spec fn spec_mint_effect(pre: Erc721<T>, post: Erc721<T>, to: Address) -> bool {
        let token_id = pre.spec_supply_word();
        &&& post.spec_owner(token_id) == to
        &&& forall|u: U256| u != token_id ==> #[trigger] post.spec_owner(u) == pre.spec_owner(u)
        &&& forall|a: Address| #[trigger] post.spec_balance(a) as int == pre.spec_balance(a)
                + (if a == to && to != Address::spec_zero() { 1int } else { 0int })
        &&& post.spec_approved(token_id) == Address::spec_zero()
        &&& forall|u: U256| u != token_id
                ==> #[trigger] post.spec_approved(u) == pre.spec_approved(u)
        &&& forall|o: Address, p: Address|
                #[trigger] post.spec_operator(o, p) == pre.spec_operator(o, p)
        &&& post.spec_total_supply() == pre.spec_total_supply() + 1
        &&& post.spec_events() == pre.spec_events().push(
                Event::Transfer { from: Address::spec_zero(), to, token_id },
            )
    }

    /// An approval's whole effect: the token's single approval is replaced,
    /// everything else stands, and one Approval event is appended.
    pub open spec fn spec_approve_effect(
        pre: Erc721<T>,
        post: Erc721<T>,
        approved: Address,
        token_id: U256,
    ) -> bool {
        &&& post.spec_approved(token_id) == approved
        &&& forall|u: U256| u != token_id
                ==> #[trigger] post.spec_approved(u) == pre.spec_approved(u)
        &&& forall|u: U256| #[trigger] post.spec_owner(u) == pre.spec_owner(u)
        &&& forall|a: Address| #[trigger] post.spec_balance(a) == pre.spec_balance(a)
        &&& forall|o: Address, p: Address|
                #[trigger] post.spec_operator(o, p) == pre.spec_operator(o, p)
        &&& post.spec_supply_word() == pre.spec_supply_word()
        &&& post.spec_events() == pre.spec_events().push(
                Event::Approval { owner: pre.spec_owner(token_id), approved, token_id },
            )
    }

    /// What a pending acknowledgment asserts of the ledger it came from: the
    /// token stands with the destination and the move is the newest event.
    pub open spec fn spec_pending_ok(self, p: PendingAck) -> bool {
        &&& self.spec_owner(p.token_id) == p.to
        &&& self.spec_events().len() >= 1
        &&& self.spec_events().last() == (Event::Transfer {
                from: p.from,
                to: p.to,
                token_id: p.token_id,
            })
    }

    /// A refused safe transfer's whole effect: the move is undone — owner
    /// back, balances back, the prior single approval back — and the
    /// Transfer event is withdrawn.
    pub open spec fn spec_rollback_effect(pre: Erc721<T>, post: Erc721<T>, p: PendingAck) -> bool {
        &&& post.spec_owner(p.token_id) == p.from
        &&& forall|u: U256| u != p.token_id ==> #[trigger] post.spec_owner(u) == pre.spec_owner(u)
        &&& forall|a: Address| #[trigger] post.spec_balance(a) as int == pre.spec_balance(a)
                - (if a == p.to && p.to != Address::spec_zero() { 1int } else { 0int })
                + (if a == p.from && p.from != Address::spec_zero() { 1int } else { 0int })
        &&& post.spec_approved(p.token_id) == p.prev_approved
        &&& forall|u: U256| u != p.token_id
                ==> #[trigger] post.spec_approved(u) == pre.spec_approved(u)
        &&& forall|o: Address, p2: Address|
                #[trigger] post.spec_operator(o, p2) == pre.spec_operator(o, p2)
        &&& post.spec_supply_word() == pre.spec_supply_word()
        &&& post.spec_events() == pre.spec_events().drop_last()
    }

    /// An empty ledger: no tokens, no balances, no approvals, nothing logged.
    pub fn new() -> (r: Erc721<T>)
        ensures
            r.wf(),
            forall|t: U256| #[trigger] r.spec_owner(t) == Address::spec_zero(),
            forall|a: Address| #[trigger] r.spec_balance(a) == 0,
            forall|t: U256| #[trigger] r.spec_approved(t) == Address::spec_zero(),
            forall|o: Address, p: Address| !(#[trigger] r.spec_operator(o, p)),
            r.spec_total_supply() == 0,
            r.spec_events() == Seq::<Event>::empty(),
    {
        let r = Erc721 {
            owners: Vec::new(),
            balances: Vec::new(),
            token_approvals: Vec::new(),
            operator_approvals: Vec::new(),
            total_supply: U256::zero(),
            events: Vec::new(),
            params: PhantomData,
        };
        proof {
            assert(r.events@ =~= Seq::<Event>::empty());
        }
        r
    }

    /// The collection's name: never an error.
    pub fn name() -> (r: Result<String, Erc721Error>)
        ensures
            r is Ok,
    {
        Ok(T::name())
    }

    /// The collection's symbol: never an error.
    pub fn symbol() -> (r: Result<String, Erc721Error>)
        ensures
            r is Ok,
    {
        Ok(T::symbol())
    }

    /// The metadata URI of an existing token; InvalidTokenId otherwise.
    pub fn token_uri(&self, token_id: U256) -> (r: Result<String, Erc721Error>)
        ensures
            r is Ok <==> self.spec_exists(token_id),
            match r {
                Ok(_) => self.spec_exists(token_id),
                Err(e) => !self.spec_exists(token_id)
                    && e == (Erc721Error::InvalidTokenId { token_id }),
            },
    {
        match self.owner_of(token_id) {
            Ok(_) => Ok(T::token_uri(token_id)),
            Err(e) => Err(e),
        }
    }

    /// How many tokens `owner` holds; zero for any address never seen.
    pub fn balance_of(&self, owner: Address) -> (r: Result<U256, Erc721Error>)
        ensures
            match r {
                Ok(b) => b.as_nat() == self.spec_balance(owner),
                Err(_) => false,
            },
    {
        Ok(bal_get(&self.balances, owner))
    }

    /// The owner of an existing token; InvalidTokenId for a token never
    /// minted or already burned.
    pub fn owner_of(&self, token_id: U256) -> (r: Result<Address, Erc721Error>)
        ensures
            match r {
                Ok(a) => self.spec_exists(token_id) && a == self.spec_owner(token_id),
                Err(e) => !self.spec_exists(token_id)
                    && e == (Erc721Error::InvalidTokenId { token_id }),
            },
    {
        let owner = tok_get(&self.owners, token_id);
        if owner.is_zero() {
            return Err(Erc721Error::InvalidTokenId { token_id });
        }
        Ok(owner)
    }

    /// The token's single approval; the zero address when none is set. Does
    /// not check existence: a nonexistent token reads as unapproved.
    pub fn get_approved(&self, token_id: U256) -> (r: Result<Address, Erc721Error>)
        ensures
            match r {
                Ok(a) => a == self.spec_approved(token_id),
                Err(_) => false,
            },
    {
        Ok(tok_get(&self.token_approvals, token_id))
    }

    /// Whether `operator` holds blanket authority over `owner`'s tokens.
    pub fn is_approved_for_all(&self, owner: Address, operator: Address) -> (r: Result<
        bool,
        Erc721Error,
    >)
        ensures
            match r {
                Ok(b) => b == self.spec_operator(owner, operator),
                Err(_) => false,
            },
    {
        Ok(op_get(&self.operator_approvals, owner, operator))
    }

    /// The supply counter as a word.
    pub fn total_supply(&self) -> (r: U256)
        ensures
            r == self.spec_supply_word(),
    {
        self.total_supply
    }

    /// How many events stand in the log.
    pub fn event_count(&self) -> (n: usize)
        ensures
            n == self.spec_events().len(),
    {
        self.events.len()
    }

    /// The event at a position in the log, oldest first.
    pub fn event_at(&self, i: usize) -> (e: Event)
        requires
            i < self.spec_events().len(),
        ensures
            e == self.spec_events()[i as int],
    {
        self.events[i]
    }

    /// Whether the caller may act on the token `from` claims to own: resolves
    /// the real owner (InvalidTokenId when there is none), holds `from` to it
    /// (NotOwner otherwise), then admits the owner, an operator of the owner,
    /// or the holder of the token's single approval (NotApproved otherwise).
    fn require_authorized_to_spend(&self, caller: Address, from: Address, token_id: U256) -> (r:
        Result<(), Erc721Error>)
        ensures
            match r {
                Ok(()) => self.spec_exists(token_id) && self.spec_owner(token_id) == from
                    && self.spec_authorized(caller, token_id),
                Err(e) => if !self.spec_exists(token_id) {
                    e == (Erc721Error::InvalidTokenId { token_id })
                } else if from != self.spec_owner(token_id) {
                    e == (Erc721Error::NotOwner {
                        from,
                        token_id,
                        real_owner: self.spec_owner(token_id),
                    })
                } else {
                    !self.spec_authorized(caller, token_id)
                        && e == (Erc721Error::NotApproved {
                            owner: self.spec_owner(token_id),
                            spender: caller,
                            token_id,
                        })
                },
            },
    {
        let owner = match self.owner_of(token_id) {
            Ok(o) => o,
            Err(e) => {
                return Err(e);
            },
        };
        if from != owner {
            return Err(Erc721Error::NotOwner { from, token_id, real_owner: owner });
        }
        if caller == owner {
            return Ok(());
        }
        if op_get(&self.operator_approvals, owner, caller) {
            return Ok(());
        }
        if !caller.is_zero() && caller == tok_get(&self.token_approvals, token_id) {
            return Ok(());
        }
        Err(Erc721Error::NotApproved { owner, spender: caller, token_id })
    }

    /// The transfer engine: moves the token to `to` when `from` is its
    /// current owner, with no authorization check of its own — callers on
    /// the public surface authorize first. Mint and burn are the cases where
    /// `from` or `to` is the zero sentinel.
    pub fn transfer(&mut self, token_id: U256, from: Address, to: Address) -> (r: Result<
        (),
        Erc721Error,
    >)
        requires
            old(self).wf(),
        ensures
            final(self).wf(),
            match r {
                Ok(()) => Self::spec_transfer_effect(*old(self), *final(self), token_id, from, to),
                Err(e) => old(self).spec_owner(token_id) != from
                    && Self::spec_unchanged(*old(self), *final(self))
                    && e == (Erc721Error::NotOwner {
                        from,
                        token_id,
                        real_owner: old(self).spec_owner(token_id),
                    }),
            },
    {
        let previous_owner = tok_get(&self.owners, token_id);
        if previous_owner != from {
            return Err(Erc721Error::NotOwner { from, token_id, real_owner: previous_owner });
        }
        let ghost pre = *self;
        let owners_len = self.owners.len();
        tok_set(&mut self.owners, token_id, to);
        proof {
            assert(pre.owners@.len() == owners_len as nat);
            if from != Address::spec_zero() {
                if !kv_contains(pre.owners@, token_id) {
                    lemma_kv_absent(pre.owners@, token_id, Address::spec_zero());
                }
                lemma_kv_contains_lookup(pre.owners@, token_id, Address::spec_zero());
                let wi = choose|i: int|
                    0 <= i < pre.owners@.len() && #[trigger] pre.owners@[i] == (token_id, from);
                lemma_kv_count_member(pre.owners@, wi, from);
            }
            lemma_kv_count_le_len(pre.owners@, to);
            assert((usize::MAX as nat) < u256_limit() - 1);
        }
        if !from.is_zero() {
            let bfrom = bal_get(&self.balances, from);
            proof {
                assert(bfrom.as_nat() == kv_count(pre.owners@, from));
                assert(bfrom.as_nat() >= 1);
            }
            bal_set(&mut self.balances, from, bfrom.dec());
        }
        if !to.is_zero() {
            let bto = bal_get(&self.balances, to);
            proof {
                assert(bto.as_nat() <= kv_count(pre.owners@, to));
                assert(kv_count(pre.owners@, to) <= pre.owners@.len());
                assert((bto.as_nat() + 1) < u256_limit());
            }
            bal_set(&mut self.balances, to, bto.inc());
        }
        tok_set(&mut self.token_approvals, token_id, Address::zero());
        self.events.push(Event::Transfer { from, to, token_id });
        proof {
            assert forall|a: Address| a != Address::spec_zero()
                implies (#[trigger] kv_lookup(self.balances@, a, U256::spec_zero())).as_nat()
                    == kv_count(self.owners@, a) by {
                assert(kv_count(self.owners@, a) + (if kv_contains(pre.owners@, token_id)
                    && kv_lookup(pre.owners@, token_id, Address::spec_zero()) == a { 1nat } else {
                    0nat
                }) == kv_count(pre.owners@, a) + (if to == a { 1nat } else { 0nat }));
            }
        }
        Ok(())
    }

    /// Mints the next token: the supply counter names the new token id, the
    /// engine moves it from the zero sentinel to `to`, and the counter moves
    /// up by one. The zero sentinel can never receive a mint result, so the
    /// destination must be a real address. It fails (NotOwner, with nothing
    /// changed) only when a token under that id already exists.
    pub fn mint(&mut self, to: Address) -> (r: Result<(), Erc721Error>)
        requires
            old(self).wf(),
            old(self).spec_total_supply() + 1 < u256_limit(),
            to != Address::spec_zero(),
        ensures
            final(self).wf(),
            match r {
                Ok(()) => old(self).spec_owner(old(self).spec_supply_word())
                    == Address::spec_zero()
                    && Self::spec_mint_effect(*old(self), *final(self), to),
                Err(e) => old(self).spec_owner(old(self).spec_supply_word())
                    != Address::spec_zero()
                    && Self::spec_unchanged(*old(self), *final(self))
                    && e == (Erc721Error::NotOwner {
                        from: Address::spec_zero(),
                        token_id: old(self).spec_supply_word(),
                        real_owner: old(self).spec_owner(old(self).spec_supply_word()),
                    }),
            },
    {
        let new_token_id = self.total_supply;
        match self.transfer(new_token_id, Address::zero(), to) {
            Ok(()) => {
                let ghost mid = *self;
                self.total_supply = self.total_supply.inc();
                proof {
                    assert forall|u: U256| #[trigger] self.spec_owner(u) == mid.spec_owner(u)
                        by {}
                    assert forall|a: Address| #[trigger] self.spec_balance(a)
                        == mid.spec_balance(a) by {}
                    assert forall|u: U256| #[trigger] self.spec_approved(u)
                        == mid.spec_approved(u) by {}
                    assert forall|o: Address, p: Address| #[trigger] self.spec_operator(o, p)
                        == mid.spec_operator(o, p) by {}
                    assert(self.spec_events() == mid.spec_events());
                }
                Ok(())
            },
            Err(e) => Err(e),
        }
    }

    /// Burns the token: the engine moves it from `from` to the zero
    /// sentinel, so it no longer exists. Only an owned token can be
    /// destroyed, so the claimed owner must be a real address. The supply
    /// counter is deliberately not decremented: it counts tokens ever
    /// minted.
    pub fn burn(&mut self, from: Address, token_id: U256) -> (r: Result<(), Erc721Error>)
        requires
            old(self).wf(),
            from != Address::spec_zero(),
        ensures
            final(self).wf(),
            match r {
                Ok(()) => Self::spec_transfer_effect(
                    *old(self),
                    *final(self),
                    token_id,
                    from,
                    Address::spec_zero(),
                ),
                Err(e) => old(self).spec_owner(token_id) != from
                    && Self::spec_unchanged(*old(self), *final(self))
                    && e == (Erc721Error::NotOwner {
                        from,
                        token_id,
                        real_owner: old(self).spec_owner(token_id),
                    }),
            },
    {
        self.transfer(token_id, from, Address::zero())
    }

    /// The public transfer: rejects the zero destination, authorizes the
    /// caller, then runs the engine. A failing call leaves no trace.
    pub fn transfer_from(&mut self, caller: Address, from: Address, to: Address, token_id: U256)
        -> (r: Result<(), Erc721Error>)
        requires
            old(self).wf(),
        ensures
            final(self).wf(),
            match r {
                Ok(()) => to != Address::spec_zero() && old(self).spec_exists(token_id)
                    && old(self).spec_authorized(caller, token_id)
                    && Self::spec_transfer_effect(*old(self), *final(self), token_id, from, to),
                Err(e) => Self::spec_unchanged(*old(self), *final(self)) && (
                if to == Address::spec_zero() {
                    e == (Erc721Error::TransferToZero { token_id })
                } else if !old(self).spec_exists(token_id) {
                    e == (Erc721Error::InvalidTokenId { token_id })
                } else if from != old(self).spec_owner(token_id) {
                    e == (Erc721Error::NotOwner {
                        from,
                        token_id,
                        real_owner: old(self).spec_owner(token_id),
                    })
                } else {
                    !old(self).spec_authorized(caller, token_id)
                        && e == (Erc721Error::NotApproved {
                            owner: old(self).spec_owner(token_id),
                            spender: caller,
                            token_id,
                        })
                }),
            },
    {
        if to.is_zero() {
            return Err(Erc721Error::TransferToZero { token_id });
        }
        match self.require_authorized_to_spend(caller, from, token_id) {
            Ok(()) => {},
            Err(e) => {
                return Err(e);
            },
        }
        self.transfer(token_id, from, to)
    }

    /// The safe-transfer step after authorization: runs the engine, then,
    /// when the destination carries code, hands back the pending
    /// acknowledgment that `finish_safe_transfer` settles. A destination
    /// without code owes no acknowledgment and the move is final.
    pub fn safe_transfer(
        &mut self,
        caller: Address,
        token_id: U256,
        from: Address,
        to: Address,
        data: Vec<u8>,
        to_has_code: bool,
    ) -> (r: Result<Option<PendingAck>, Erc721Error>)
        requires
            old(self).wf(),
        ensures
            final(self).wf(),
            match r {
                Ok(pending) => Self::spec_transfer_effect(
                    *old(self),
                    *final(self),
                    token_id,
                    from,
                    to,
                ) && match pending {
                    None => !to_has_code,
                    Some(p) => to_has_code && final(self).spec_pending_ok(p)
                        && p.operator == caller && p.from == from && p.to == to
                        && p.token_id == token_id && p.data@ == data@
                        && p.prev_approved == old(self).spec_approved(token_id),
                },
                Err(e) => old(self).spec_owner(token_id) != from
                    && Self::spec_unchanged(*old(self), *final(self))
                    && e == (Erc721Error::NotOwner {
                        from,
                        token_id,
                        real_owner: old(self).spec_owner(token_id),
                    }),
            },
    {
        let prev_approved = tok_get(&self.token_approvals, token_id);
        match self.transfer(token_id, from, to) {
            Ok(()) => {},
            Err(e) => {
                return Err(e);
            },
        }
        if to_has_code {
            Ok(Some(PendingAck { operator: caller, from, to, token_id, data, prev_approved }))
        } else {
            Ok(None)
        }
    }

    /// Settles a pending acknowledgment with what the receiver's call
    /// returned: the accept code seals the move and changes nothing; any
    /// other answer — a wrong code, or no answer because the call failed —
    /// undoes the whole transfer and reports ReceiverRefused carrying the
    /// 4-byte value actually returned, all-zero for a failed call.
    pub fn finish_safe_transfer(&mut self, pending: &PendingAck, response: Option<Bytes4>) -> (r:
        Result<(), Erc721Error>)
        requires
            old(self).wf(),
            old(self).spec_pending_ok(*pending),
        ensures
            final(self).wf(),
            match r {
                Ok(()) => response == Some(spec_receiver_accept_code())
                    && Self::spec_unchanged(*old(self), *final(self)),
                Err(e) => response != Some(spec_receiver_accept_code())
                    && Self::spec_rollback_effect(*old(self), *final(self), *pending)
                    && e == (Erc721Error::ReceiverRefused {
                        receiver: pending.to,
                        token_id: pending.token_id,
                        returned: match response {
                            Some(c) => c,
                            None => Bytes4::spec_zero(),
                        },
                    }),
            },
    {
        let accepted = match response {
            Some(c) => c == receiver_accept_code(),
            None => false,
        };
        if accepted {
            return Ok(());
        }
        let token_id = pending.token_id;
        let from = pending.from;
        let to = pending.to;
        let ghost pre = *self;
        let owners_len = self.owners.len();
        tok_set(&mut self.owners, token_id, from);
        proof {
            assert(pre.owners@.len() == owners_len as nat);
            if to != Address::spec_zero() {
                if !kv_contains(pre.owners@, token_id) {
                    lemma_kv_absent(pre.owners@, token_id, Address::spec_zero());
                }
                lemma_kv_contains_lookup(pre.owners@, token_id, Address::spec_zero());
                let wi = choose|i: int|
                    0 <= i < pre.owners@.len() && #[trigger] pre.owners@[i] == (token_id, to);
                lemma_kv_count_member(pre.owners@, wi, to);
            }
            lemma_kv_count_le_len(pre.owners@, from);
            assert((usize::MAX as nat) < u256_limit() - 1);
        }
        if !to.is_zero() {
            let bto = bal_get(&self.balances, to);
            proof {
                assert(bto.as_nat() == kv_count(pre.owners@, to));
                assert(bto.as_nat() >= 1);
            }
            bal_set(&mut self.balances, to, bto.dec());
        }
        if !from.is_zero() {
            let bfrom = bal_get(&self.balances, from);
            proof {
                assert(bfrom.as_nat() <= kv_count(pre.owners@, from));
                assert(kv_count(pre.owners@, from) <= pre.owners@.len());
                assert((bfrom.as_nat() + 1) < u256_limit());
            }
            bal_set(&mut self.balances, from, bfrom.inc());
        }
        tok_set(&mut self.token_approvals, token_id, pending.prev_approved);
        let _ = self.events.pop();
        proof {
            assert forall|a: Address| a != Address::spec_zero()
                implies (#[trigger] kv_lookup(self.balances@, a, U256::spec_zero())).as_nat()
                    == kv_count(self.owners@, a) by {
                assert(kv_count(self.owners@, a) + (if kv_contains(pre.owners@, token_id)
                    && kv_lookup(pre.owners@, token_id, Address::spec_zero()) == a { 1nat } else {
                    0nat
                }) == kv_count(pre.owners@, a) + (if from == a { 1nat } else { 0nat }));
            }
        }
        Err(Erc721Error::ReceiverRefused {
            receiver: to,
            token_id,
            returned: match response {
                Some(c) => c,
                None => Bytes4::zero(),
            },
        })
    }

    /// The public safe transfer with forwarded bytes: rejects the zero
    /// destination, authorizes the caller, runs the engine, and owes a
    /// pending acknowledgment exactly when the destination carries code.
    pub fn safe_transfer_from_with_data(
        &mut self,
        caller: Address,
        from: Address,
        to: Address,
        token_id: U256,
        data: Vec<u8>,
        to_has_code: bool,
    ) -> (r: Result<Option<PendingAck>, Erc721Error>)
        requires
            old(self).wf(),
        ensures
            final(self).wf(),
            match r {
                Ok(pending) => to != Address::spec_zero() && old(self).spec_exists(token_id)
                    && old(self).spec_authorized(caller, token_id)
                    && Self::spec_transfer_effect(*old(self), *final(self), token_id, from, to)
                    && match pending {
                    None => !to_has_code,
                    Some(p) => to_has_code && final(self).spec_pending_ok(p)
                        && p.operator == caller && p.from == from && p.to == to
                        && p.token_id == token_id && p.data@ == data@
                        && p.prev_approved == old(self).spec_approved(token_id),
                },
                Err(e) => Self::spec_unchanged(*old(self), *final(self)) && (
                if to == Address::spec_zero() {
                    e == (Erc721Error::TransferToZero { token_id })
                } else if !old(self).spec_exists(token_id) {
                    e == (Erc721Error::InvalidTokenId { token_id })
                } else if from != old(self).spec_owner(token_id) {
                    e == (Erc721Error::NotOwner {
                        from,
                        token_id,
                        real_owner: old(self).spec_owner(token_id),
                    })
                } else {
                    !old(self).spec_authorized(caller, token_id)
                        && e == (Erc721Error::NotApproved {
                            owner: old(self).spec_owner(token_id),
                            spender: caller,
                            token_id,
                        })
                }),
            },
    {
        if to.is_zero() {
            return Err(Erc721Error::TransferToZero { token_id });
        }
        match self.require_authorized_to_spend(caller, from, token_id) {
            Ok(()) => {},
            Err(e) => {
                return Err(e);
            },
        }
        self.safe_transfer(caller, token_id, from, to, data, to_has_code)
    }

    /// The public safe transfer without bytes: as with data, forwarding none.
    pub fn safe_transfer_from(
        &mut self,
        caller: Address,
        from: Address,
        to: Address,
        token_id: U256,
        to_has_code: bool,
    ) -> (r: Result<Option<PendingAck>, Erc721Error>)
        requires
            old(self).wf(),
        ensures
            final(self).wf(),
            match r {
                Ok(pending) => to != Address::spec_zero() && old(self).spec_exists(token_id)
                    && old(self).spec_authorized(caller, token_id)
                    && Self::spec_transfer_effect(*old(self), *final(self), token_id, from, to)
                    && match pending {
                    None => !to_has_code,
                    Some(p) => to_has_code && final(self).spec_pending_ok(p)
                        && p.operator == caller && p.from == from && p.to == to
                        && p.token_id == token_id && p.data@ == Seq::<u8>::empty()
                        && p.prev_approved == old(self).spec_approved(token_id),
                },
                Err(e) => Self::spec_unchanged(*old(self), *final(self)) && (
                if to == Address::spec_zero() {
                    e == (Erc721Error::TransferToZero { token_id })
                } else if !old(self).spec_exists(token_id) {
                    e == (Erc721Error::InvalidTokenId { token_id })
                } else if from != old(self).spec_owner(token_id) {
                    e == (Erc721Error::NotOwner {
                        from,
                        token_id,
                        real_owner: old(self).spec_owner(token_id),
                    })
                } else {
                    !old(self).spec_authorized(caller, token_id)
                        && e == (Erc721Error::NotApproved {
                            owner: old(self).spec_owner(token_id),
                            spender: caller,
                            token_id,
                        })
                }),
            },
    {
        let data: Vec<u8> = Vec::new();
        proof {
            assert(data@ =~= Seq::<u8>::empty());
        }
        self.safe_transfer_from_with_data(caller, from, to, token_id, data, to_has_code)
    }

    /// Grants or replaces the token's single approval: only the owner or one
    /// of the owner's operators may; a failing call leaves no trace.
    pub fn approve(&mut self, caller: Address, approved: Address, token_id: U256) -> (r: Result<
        (),
        Erc721Error,
    >)
        requires
            old(self).wf(),
        ensures
            final(self).wf(),
            match r {
                Ok(()) => old(self).spec_exists(token_id) && (caller == old(self).spec_owner(
                    token_id,
                ) || old(self).spec_operator(old(self).spec_owner(token_id), caller))
                    && Self::spec_approve_effect(*old(self), *final(self), approved, token_id),
                Err(e) => Self::spec_unchanged(*old(self), *final(self)) && (
                if !old(self).spec_exists(token_id) {
                    e == (Erc721Error::InvalidTokenId { token_id })
                } else {
                    caller != old(self).spec_owner(token_id)
                        && !old(self).spec_operator(old(self).spec_owner(token_id), caller)
                        && e == (Erc721Error::NotApproved {
                            owner: old(self).spec_owner(token_id),
                            spender: caller,
                            token_id,
                        })
                }),
            },
    {
        let owner = match self.owner_of(token_id) {
            Ok(o) => o,
            Err(e) => {
                return Err(e);
            },
        };
        if caller != owner && !op_get(&self.operator_approvals, owner, caller) {
            return Err(Erc721Error::NotApproved { owner, spender: caller, token_id });
        }
        tok_set(&mut self.token_approvals, token_id, approved);
        self.events.push(Event::Approval { owner, approved, token_id });
        Ok(())
    }

    /// Sets or clears the caller's blanket grant to `operator`. Any address
    /// manages its own operator list: no authorization check, no failure.
    pub fn set_approval_for_all(&mut self, caller: Address, operator: Address, approved: bool)
        -> (r: Result<(), Erc721Error>)
        requires
            old(self).wf(),
        ensures
            final(self).wf(),
            r == Ok::<(), Erc721Error>(()),
            final(self).spec_operator(caller, operator) == approved,
            forall|o: Address, p: Address| !(o == caller && p == operator)
                ==> #[trigger] final(self).spec_operator(o, p) == old(self).spec_operator(o, p),
            forall|u: U256| #[trigger] final(self).spec_owner(u) == old(self).spec_owner(u),
            forall|a: Address| #[trigger] final(self).spec_balance(a) == old(self).spec_balance(a),
            forall|u: U256| #[trigger] final(self).spec_approved(u) == old(self).spec_approved(u),
            final(self).spec_supply_word() == old(self).spec_supply_word(),
            final(self).spec_events() == old(self).spec_events().push(
                Event::ApprovalForAll { owner: caller, operator, approved },
            ),
    {
        op_set(&mut self.operator_approvals, caller, operator, approved);
        self.events.push(Event::ApprovalForAll { owner: caller, operator, approved });
        Ok(())
    }

    /// Whether a 4-byte capability code names an interface this registry
    /// implements: the core registry, the metadata extension, or capability
    /// discovery itself. The all-ones sentinel and everything else read
    /// false.
    pub fn supports_interface(interface: Bytes4) -> (r: Result<bool, Erc721Error>)
        ensures
            match r {
                Ok(b) => b == spec_supported_interface(interface),
                Err(_) => false,
            },
    {
        let erc165 = Bytes4 { b0: 0x01, b1: 0xff, b2: 0xc9, b3: 0xa7 };
        let erc721 = Bytes4 { b0: 0x80, b1: 0xac, b2: 0x58, b3: 0xcd };
        let erc721_metadata = Bytes4 { b0: 0x5b, b1: 0x5e, b2: 0x13, b3: 0x9f };
        Ok(interface == erc165 || interface == erc721 || interface == erc721_metadata)
    }

    /// Law: an operator approval covers every token its grantor owns, now or
    /// later — in any ledger state where the grant stands and the grantor
    /// owns the token, the operator is authorized for it; and once the grant
    /// is revoked, the operator is authorized only through ownership or a
    /// single-token approval of its own.
    pub proof fn lemma_operator_authority(s: Erc721<T>, owner: Address, op: Address, token_id: U256)
        requires
            s.spec_owner(token_id) == owner,
        ensures
            s.spec_operator(owner, op) ==> s.spec_authorized(op, token_id),
            !s.spec_operator(owner, op) && op != owner && s.spec_approved(token_id) != op
                ==> !s.spec_authorized(op, token_id),
    {
    }

    /// Law: the zero sentinel never holds a balance — it is "no one", not an
    /// account.
    pub proof fn lemma_zero_address_holds_nothing(s: Erc721<T>)
        requires
            s.wf(),
        ensures
            s.spec_balance(Address::spec_zero()) == 0,
    {
    }

    /// Law: whoever owns a token holds a positive balance — the balance
    /// store counts exactly the tokens the owner store assigns.
    pub proof fn lemma_owner_has_balance(s: Erc721<T>, token_id: U256, a: Address)
        requires
            s.wf(),
            s.spec_owner(token_id) == a,
            a != Address::spec_zero(),
        ensures
            s.spec_balance(a) >= 1,
    {
        if !kv_contains(s.owners@, token_id) {
            lemma_kv_absent(s.owners@, token_id, Address::spec_zero());
        }
        lemma_kv_contains_lookup(s.owners@, token_id, Address::spec_zero());
        let wi = choose|i: int|
            0 <= i < s.owners@.len() && #[trigger] s.owners@[i] == (token_id, a);
        lemma_kv_count_member(s.owners@, wi, a);
    }

    /// Law: a single-token approval admits a transfer of that token, and the
    /// transfer consumes it — afterwards the same spender, unless it became
    /// the owner or holds an operator grant from the new owner, is no longer
    /// authorized. The zero sentinel in the approval store means "no
    /// approval", so a spender is by nature a real address.
    pub proof fn lemma_approval_consumed(
        pre: Erc721<T>,
        post: Erc721<T>,
        token_id: U256,
        from: Address,
        to: Address,
        spender: Address,
    )
        requires
            pre.spec_approved(token_id) == spender,
            Self::spec_transfer_effect(pre, post, token_id, from, to),
            spender != to,
            spender != Address::spec_zero(),
            !post.spec_operator(to, spender),
        ensures
            pre.spec_authorized(spender, token_id),
            !post.spec_authorized(spender, token_id),
    {
    }
}

/// Whether a 4-byte capability code names an interface this registry
/// implements.
pub open spec fn spec_supported_interface(interface: Bytes4) -> bool {
    ||| interface == (Bytes4 { b0: 0x01, b1: 0xff, b2: 0xc9, b3: 0xa7 })
    ||| interface == (Bytes4 { b0: 0x80, b1: 0xac, b2: 0x58, b3: 0xcd })
    ||| interface == (Bytes4 { b0: 0x5b, b1: 0x5e, b2: 0x13, b3: 0x9f })
}

} // verus!

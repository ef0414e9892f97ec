//! The contract around the ledger: mint to the caller, mint to a named
//! address, burn by the caller, and the supply counter. The caller's
//! identity is handed in by whatever hosts the contract.

use vstd::prelude::*;
use crate::erc721::{Erc721, Erc721Params};
use crate::types::{Address, Erc721Error};
use crate::u256::{U256, u256_limit};

verus! {

/// The outermost contract state: the ledger and nothing else.
pub struct StylusNFT<T: Erc721Params> {
    pub erc721: Erc721<T>,
}

impl<T: Erc721Params> StylusNFT<T> {
    pub open spec fn wf(self) -> bool {
        self.erc721.wf()
    }

    /// A fresh contract over an empty ledger.
    pub fn new() -> (r: StylusNFT<T>)
        ensures
            r.wf(),
            r.erc721.spec_total_supply() == 0,
            forall|t: U256| #[trigger] r.erc721.spec_owner(t) == Address::spec_zero(),
            forall|a: Address| #[trigger] r.erc721.spec_balance(a) == 0,
    {
        StylusNFT { erc721: Erc721::new() }
    }

    /// Mints the next token to the caller, who must be a real address: the
    /// zero sentinel can never receive a mint result.
    pub fn mint(&mut self, caller: Address) -> (r: Result<(), Erc721Error>)
        requires
            old(self).wf(),
            old(self).erc721.spec_total_supply() + 1 < u256_limit(),
            caller != Address::spec_zero(),
        ensures
            final(self).wf(),
            match r {
                Ok(()) => old(self).erc721.spec_owner(old(self).erc721.spec_supply_word())
                    == Address::spec_zero()
                    && Erc721::<T>::spec_mint_effect(old(self).erc721, final(self).erc721, caller),
                Err(e) => old(self).erc721.spec_owner(old(self).erc721.spec_supply_word())
                    != Address::spec_zero()
                    && Erc721::<T>::spec_unchanged(old(self).erc721, final(self).erc721)
                    && e == (Erc721Error::NotOwner {
                        from: Address::spec_zero(),
                        token_id: old(self).erc721.spec_supply_word(),
                        real_owner: old(self).erc721.spec_owner(
                            old(self).erc721.spec_supply_word(),
                        ),
                    }),
            },
    {
        self.erc721.mint(caller)
    }

    /// Mints the next token to a named address, which must be real: the
    /// zero sentinel can never receive a mint result.
    pub fn mint_to(&mut self, to: Address) -> (r: Result<(), Erc721Error>)
        requires
            old(self).wf(),
            old(self).erc721.spec_total_supply() + 1 < u256_limit(),
            to != Address::spec_zero(),
        ensures
            final(self).wf(),
            match r {
                Ok(()) => old(self).erc721.spec_owner(old(self).erc721.spec_supply_word())
                    == Address::spec_zero()
                    && Erc721::<T>::spec_mint_effect(old(self).erc721, final(self).erc721, to),
                Err(e) => old(self).erc721.spec_owner(old(self).erc721.spec_supply_word())
                    != Address::spec_zero()
                    && Erc721::<T>::spec_unchanged(old(self).erc721, final(self).erc721)
                    && e == (Erc721Error::NotOwner {
                        from: Address::spec_zero(),
                        token_id: old(self).erc721.spec_supply_word(),
                        real_owner: old(self).erc721.spec_owner(
                            old(self).erc721.spec_supply_word(),
                        ),
                    }),
            },
    {
        self.erc721.mint(to)
    }

    /// Burns a token the caller owns; NotOwner otherwise, with no change.
    /// The caller must be a real address: only an owned token can burn.
    pub fn burn(&mut self, caller: Address, token_id: U256) -> (r: Result<(), Erc721Error>)
        requires
            old(self).wf(),
            caller != Address::spec_zero(),
        ensures
            final(self).wf(),
            match r {
                Ok(()) => Erc721::<T>::spec_transfer_effect(
                    old(self).erc721,
                    final(self).erc721,
                    token_id,
                    caller,
                    Address::spec_zero(),
                ),
                Err(e) => old(self).erc721.spec_owner(token_id) != caller
                    && Erc721::<T>::spec_unchanged(old(self).erc721, final(self).erc721)
                    && e == (Erc721Error::NotOwner {
                        from: caller,
                        token_id,
                        real_owner: old(self).erc721.spec_owner(token_id),
                    }),
            },
    {
        self.erc721.burn(caller, token_id)
    }

    /// The supply counter: tokens ever minted, burns not subtracted.
    pub fn total_supply(&self) -> (r: Result<U256, Erc721Error>)
        ensures
            match r {
                Ok(v) => v.as_nat() == self.erc721.spec_total_supply(),
                Err(_) => false,
            },
    {
        Ok(self.erc721.total_supply())
    }
}

} // verus!

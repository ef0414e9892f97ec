use stylus_nft::erc721::{Erc721, Erc721Params, PendingAck};
use stylus_nft::nft::StylusNFT;
use stylus_nft::types::{Address, Bytes4, Event, Erc721Error};
use stylus_nft::u256::U256;

struct TestParams;

impl Erc721Params for TestParams {
    fn name() -> String {
        "DOG".to_string()
    }

    fn symbol() -> String {
        "DOG".to_string()
    }

    fn token_uri(token_id: U256) -> String {
        format!("https://tokens.example/{}.json", token_id.lo)
    }
}

fn addr(n: u64) -> Address {
    Address::from_u64(n)
}

fn id(n: u64) -> U256 {
    U256::from_u64(n)
}

fn ledger() -> Erc721<TestParams> {
    Erc721::new()
}

#[test]
fn fresh_ledger_has_no_tokens() {
    let l = ledger();
    assert_eq!(
        l.owner_of(id(0)),
        Err(Erc721Error::InvalidTokenId { token_id: id(0) })
    );
    assert_eq!(
        l.owner_of(id(7)),
        Err(Erc721Error::InvalidTokenId { token_id: id(7) })
    );
    assert_eq!(l.balance_of(addr(1)), Ok(U256::zero()));
    assert_eq!(l.total_supply(), U256::zero());
    assert_eq!(l.event_count(), 0);
}

#[test]
fn mint_assigns_new_token() {
    let mut l = ledger();
    let a = addr(1);
    assert_eq!(l.mint(a), Ok(()));
    assert_eq!(l.owner_of(id(0)), Ok(a));
    assert_eq!(l.balance_of(a), Ok(id(1)));
    assert_eq!(l.total_supply(), id(1));
    assert_eq!(l.event_count(), 1);
    assert_eq!(
        l.event_at(0),
        Event::Transfer { from: Address::zero(), to: a, token_id: id(0) }
    );
}

#[test]
fn mint_ids_count_up() {
    let mut l = ledger();
    assert_eq!(l.mint(addr(1)), Ok(()));
    assert_eq!(l.mint(addr(2)), Ok(()));
    assert_eq!(l.owner_of(id(0)), Ok(addr(1)));
    assert_eq!(l.owner_of(id(1)), Ok(addr(2)));
    assert_eq!(l.total_supply(), id(2));
}

#[test]
fn burn_destroys_token_but_not_supply() {
    let mut l = ledger();
    let a = addr(1);
    assert_eq!(l.mint(a), Ok(()));
    assert_eq!(l.burn(a, id(0)), Ok(()));
    assert_eq!(
        l.owner_of(id(0)),
        Err(Erc721Error::InvalidTokenId { token_id: id(0) })
    );
    assert_eq!(l.balance_of(a), Ok(U256::zero()));
    // the supply counter is deliberately not decremented by burn
    assert_eq!(l.total_supply(), id(1));
}

#[test]
fn burn_by_non_owner_rejected() {
    let mut l = ledger();
    assert_eq!(l.mint(addr(1)), Ok(()));
    assert_eq!(
        l.burn(addr(2), id(0)),
        Err(Erc721Error::NotOwner { from: addr(2), token_id: id(0), real_owner: addr(1) })
    );
    assert_eq!(l.owner_of(id(0)), Ok(addr(1)));
}

#[test]
fn transfer_clears_single_approval() {
    let mut l = ledger();
    let (a, b, c) = (addr(1), addr(2), addr(3));
    assert_eq!(l.mint(a), Ok(()));
    assert_eq!(l.approve(a, b, id(0)), Ok(()));
    assert_eq!(l.get_approved(id(0)), Ok(b));
    assert_eq!(l.transfer_from(a, a, c, id(0)), Ok(()));
    assert_eq!(l.get_approved(id(0)), Ok(Address::zero()));
}

#[test]
fn transfer_to_zero_rejected_without_mutation() {
    let mut l = ledger();
    let a = addr(1);
    assert_eq!(l.mint(a), Ok(()));
    assert_eq!(
        l.transfer_from(a, a, Address::zero(), id(0)),
        Err(Erc721Error::TransferToZero { token_id: id(0) })
    );
    assert_eq!(l.owner_of(id(0)), Ok(a));
    assert_eq!(l.balance_of(a), Ok(id(1)));
    assert_eq!(l.event_count(), 1);
}

#[test]
fn unauthorized_transfer_rejected_without_mutation() {
    let mut l = ledger();
    let (a, b, c) = (addr(1), addr(2), addr(3));
    assert_eq!(l.mint(a), Ok(()));
    assert_eq!(
        l.transfer_from(b, a, c, id(0)),
        Err(Erc721Error::NotApproved { owner: a, spender: b, token_id: id(0) })
    );
    assert_eq!(l.owner_of(id(0)), Ok(a));
    assert_eq!(l.balance_of(a), Ok(id(1)));
    assert_eq!(l.balance_of(c), Ok(U256::zero()));
    assert_eq!(l.event_count(), 1);
}

#[test]
fn wrong_owner_transfer_rejected() {
    let mut l = ledger();
    let (a, b, c) = (addr(1), addr(2), addr(3));
    assert_eq!(l.mint(a), Ok(()));
    assert_eq!(
        l.transfer_from(a, b, c, id(0)),
        Err(Erc721Error::NotOwner { from: b, token_id: id(0), real_owner: a })
    );
    assert_eq!(l.owner_of(id(0)), Ok(a));
}

#[test]
fn approval_is_consumed_by_the_transfer_it_admits() {
    let mut l = ledger();
    let (a, b, c) = (addr(1), addr(2), addr(3));
    assert_eq!(l.mint(a), Ok(()));
    assert_eq!(l.approve(a, b, id(0)), Ok(()));
    // the approved caller may transfer once
    assert_eq!(l.transfer_from(b, a, c, id(0)), Ok(()));
    // a second attempt by the same caller fails: the approval was consumed
    assert_eq!(
        l.transfer_from(b, c, a, id(0)),
        Err(Erc721Error::NotApproved { owner: c, spender: b, token_id: id(0) })
    );
}

#[test]
fn operator_approval_covers_current_and_future_tokens() {
    let mut l = ledger();
    let (a, op, c) = (addr(1), addr(2), addr(3));
    assert_eq!(l.mint(a), Ok(()));
    assert_eq!(l.set_approval_for_all(a, op, true), Ok(()));
    assert_eq!(l.is_approved_for_all(a, op), Ok(true));
    // a token minted after the grant is covered too
    assert_eq!(l.mint(a), Ok(()));
    assert_eq!(l.transfer_from(op, a, c, id(0)), Ok(()));
    assert_eq!(l.transfer_from(op, a, c, id(1)), Ok(()));
    assert_eq!(l.owner_of(id(0)), Ok(c));
    assert_eq!(l.owner_of(id(1)), Ok(c));
    // revocation ends the authority
    assert_eq!(l.mint(a), Ok(()));
    assert_eq!(l.set_approval_for_all(a, op, false), Ok(()));
    assert_eq!(l.is_approved_for_all(a, op), Ok(false));
    assert_eq!(
        l.transfer_from(op, a, c, id(2)),
        Err(Erc721Error::NotApproved { owner: a, spender: op, token_id: id(2) })
    );
}

#[test]
fn approved_third_party_moves_token() {
    // mint token 0 to A; A approves B; B transfers to C
    let mut l = ledger();
    let (a, b, c) = (addr(1), addr(2), addr(3));
    assert_eq!(l.mint(a), Ok(()));
    assert_eq!(l.approve(a, b, id(0)), Ok(()));
    assert_eq!(l.transfer_from(b, a, c, id(0)), Ok(()));
    assert_eq!(l.owner_of(id(0)), Ok(c));
    assert_eq!(l.get_approved(id(0)), Ok(Address::zero()));
}

#[test]
fn approve_nonexistent_token_rejected() {
    let mut l = ledger();
    assert_eq!(
        l.approve(addr(1), addr(2), id(0)),
        Err(Erc721Error::InvalidTokenId { token_id: id(0) })
    );
}

#[test]
fn approve_requires_owner_or_operator() {
    let mut l = ledger();
    let (a, b, op) = (addr(1), addr(2), addr(4));
    assert_eq!(l.mint(a), Ok(()));
    assert_eq!(
        l.approve(b, b, id(0)),
        Err(Erc721Error::NotApproved { owner: a, spender: b, token_id: id(0) })
    );
    // an operator of the owner may approve
    assert_eq!(l.set_approval_for_all(a, op, true), Ok(()));
    assert_eq!(l.approve(op, b, id(0)), Ok(()));
    assert_eq!(l.get_approved(id(0)), Ok(b));
}

#[test]
fn approval_reads_have_defined_defaults() {
    let l = ledger();
    // reading approval on a nonexistent token does not fail: zero address
    assert_eq!(l.get_approved(id(9)), Ok(Address::zero()));
    assert_eq!(l.is_approved_for_all(addr(1), addr(2)), Ok(false));
}

#[test]
fn safe_transfer_to_plain_address_skips_acknowledgment() {
    let mut l = ledger();
    let (a, b) = (addr(1), addr(2));
    assert_eq!(l.mint(a), Ok(()));
    let r = l.safe_transfer_from(a, a, b, id(0), false);
    assert!(matches!(r, Ok(None)));
    assert_eq!(l.owner_of(id(0)), Ok(b));
}

#[test]
fn safe_transfer_accepted_by_receiver() {
    let mut l = ledger();
    let (a, b) = (addr(1), addr(2));
    assert_eq!(l.mint(a), Ok(()));
    let pending: PendingAck = l.safe_transfer_from(a, a, b, id(0), true).unwrap().unwrap();
    assert_eq!(pending.operator, a);
    assert_eq!(pending.from, a);
    assert_eq!(pending.to, b);
    assert_eq!(pending.token_id, id(0));
    assert_eq!(pending.data, Vec::<u8>::new());
    let accept = Bytes4 { b0: 0x15, b1: 0x0b, b2: 0x7a, b3: 0x02 };
    assert_eq!(l.finish_safe_transfer(&pending, Some(accept)), Ok(()));
    assert_eq!(l.owner_of(id(0)), Ok(b));
    assert_eq!(l.balance_of(b), Ok(id(1)));
}

#[test]
fn safe_transfer_wrong_code_rolls_back() {
    let mut l = ledger();
    let (a, b, spender) = (addr(1), addr(2), addr(3));
    assert_eq!(l.mint(a), Ok(()));
    assert_eq!(l.approve(a, spender, id(0)), Ok(()));
    let events_before = l.event_count();
    let pending = l
        .safe_transfer_from_with_data(a, a, b, id(0), vec![1, 2, 3], true)
        .unwrap()
        .unwrap();
    assert_eq!(pending.data, vec![1, 2, 3]);
    // mid-protocol the ledger records the move
    assert_eq!(l.owner_of(id(0)), Ok(b));
    let wrong = Bytes4 { b0: 0xde, b1: 0xad, b2: 0xbe, b3: 0xef };
    assert_eq!(
        l.finish_safe_transfer(&pending, Some(wrong)),
        Err(Erc721Error::ReceiverRefused { receiver: b, token_id: id(0), returned: wrong })
    );
    // the whole move is undone: owner, balances, approval, event log
    assert_eq!(l.owner_of(id(0)), Ok(a));
    assert_eq!(l.balance_of(a), Ok(id(1)));
    assert_eq!(l.balance_of(b), Ok(U256::zero()));
    assert_eq!(l.get_approved(id(0)), Ok(spender));
    assert_eq!(l.event_count(), events_before);
}

#[test]
fn safe_transfer_failed_call_reports_zero_code() {
    let mut l = ledger();
    let (a, b) = (addr(1), addr(2));
    assert_eq!(l.mint(a), Ok(()));
    let pending = l.safe_transfer_from(a, a, b, id(0), true).unwrap().unwrap();
    assert_eq!(
        l.finish_safe_transfer(&pending, None),
        Err(Erc721Error::ReceiverRefused {
            receiver: b,
            token_id: id(0),
            returned: Bytes4::zero(),
        })
    );
    assert_eq!(l.owner_of(id(0)), Ok(a));
}

#[test]
fn safe_transfer_to_zero_rejected() {
    let mut l = ledger();
    let a = addr(1);
    assert_eq!(l.mint(a), Ok(()));
    let r = l.safe_transfer_from(a, a, Address::zero(), id(0), false);
    assert!(matches!(
        r,
        Err(Erc721Error::TransferToZero { token_id }) if token_id == id(0)
    ));
    assert_eq!(l.owner_of(id(0)), Ok(a));
}

#[test]
fn supports_interface_answers() {
    let yes = [
        Bytes4 { b0: 0x01, b1: 0xff, b2: 0xc9, b3: 0xa7 },
        Bytes4 { b0: 0x80, b1: 0xac, b2: 0x58, b3: 0xcd },
        Bytes4 { b0: 0x5b, b1: 0x5e, b2: 0x13, b3: 0x9f },
    ];
    for code in yes {
        assert_eq!(Erc721::<TestParams>::supports_interface(code), Ok(true));
    }
    let all_ones = Bytes4 { b0: 0xff, b1: 0xff, b2: 0xff, b3: 0xff };
    assert_eq!(Erc721::<TestParams>::supports_interface(all_ones), Ok(false));
    let other = Bytes4 { b0: 0x12, b1: 0x34, b2: 0x56, b3: 0x78 };
    assert_eq!(Erc721::<TestParams>::supports_interface(other), Ok(false));
}

#[test]
fn metadata_reads() {
    let mut l = ledger();
    assert_eq!(Erc721::<TestParams>::name(), Ok("DOG".to_string()));
    assert_eq!(Erc721::<TestParams>::symbol(), Ok("DOG".to_string()));
    assert_eq!(
        l.token_uri(id(0)),
        Err(Erc721Error::InvalidTokenId { token_id: id(0) })
    );
    assert_eq!(l.mint(addr(1)), Ok(()));
    assert_eq!(l.token_uri(id(0)), Ok("https://tokens.example/0.json".to_string()));
}

#[test]
fn balance_counts_each_owned_token() {
    let mut l = ledger();
    let (a, b) = (addr(1), addr(2));
    assert_eq!(l.mint(a), Ok(()));
    assert_eq!(l.mint(a), Ok(()));
    assert_eq!(l.mint(b), Ok(()));
    assert_eq!(l.balance_of(a), Ok(id(2)));
    assert_eq!(l.balance_of(b), Ok(id(1)));
    assert_eq!(l.transfer_from(a, a, b, id(0)), Ok(()));
    assert_eq!(l.balance_of(a), Ok(id(1)));
    assert_eq!(l.balance_of(b), Ok(id(2)));
}

#[test]
fn self_transfer_keeps_balance() {
    let mut l = ledger();
    let a = addr(1);
    assert_eq!(l.mint(a), Ok(()));
    assert_eq!(l.transfer_from(a, a, a, id(0)), Ok(()));
    assert_eq!(l.owner_of(id(0)), Ok(a));
    assert_eq!(l.balance_of(a), Ok(id(1)));
}

#[test]
fn event_log_records_each_operation() {
    let mut l = ledger();
    let (a, b, op) = (addr(1), addr(2), addr(4));
    assert_eq!(l.mint(a), Ok(()));
    assert_eq!(l.approve(a, b, id(0)), Ok(()));
    assert_eq!(l.set_approval_for_all(a, op, true), Ok(()));
    assert_eq!(l.transfer_from(b, a, b, id(0)), Ok(()));
    assert_eq!(l.event_count(), 4);
    assert_eq!(
        l.event_at(1),
        Event::Approval { owner: a, approved: b, token_id: id(0) }
    );
    assert_eq!(
        l.event_at(2),
        Event::ApprovalForAll { owner: a, operator: op, approved: true }
    );
    assert_eq!(
        l.event_at(3),
        Event::Transfer { from: a, to: b, token_id: id(0) }
    );
}

#[test]
fn contract_mints_to_caller_and_burns() {
    let mut nft: StylusNFT<TestParams> = StylusNFT::new();
    let (caller, other) = (addr(5), addr(6));
    assert_eq!(nft.mint(caller), Ok(()));
    assert_eq!(nft.erc721.owner_of(id(0)), Ok(caller));
    assert_eq!(nft.mint_to(other), Ok(()));
    assert_eq!(nft.erc721.owner_of(id(1)), Ok(other));
    assert_eq!(nft.total_supply(), Ok(id(2)));
    // burn validates that the caller owns the token
    assert_eq!(
        nft.burn(caller, id(1)),
        Err(Erc721Error::NotOwner { from: caller, token_id: id(1), real_owner: other })
    );
    assert_eq!(nft.burn(caller, id(0)), Ok(()));
    assert_eq!(
        nft.erc721.owner_of(id(0)),
        Err(Erc721Error::InvalidTokenId { token_id: id(0) })
    );
    assert_eq!(nft.total_supply(), Ok(id(2)));
}

#[test]
fn u256_carries_between_limbs() {
    let low_full = U256 { hi: 0, lo: u128::MAX };
    let carried = low_full.inc();
    assert_eq!(carried, U256 { hi: 1, lo: 0 });
    assert_eq!(carried.dec(), low_full);
    assert_eq!(id(41).inc(), id(42));
    assert_eq!(id(42).dec(), id(41));
    assert!(U256::zero().is_zero());
    assert!(!id(1).is_zero());
}

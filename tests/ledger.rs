use psp37::{AccountId, Balance, Id, Mapping, PSP37Data, PSP37Error, PSP37Event};

fn account(b: u8) -> AccountId {
    AccountId::new([b; 32])
}

/// A ledger where account 1 owns `U8(1)` with the given balance.
fn ledger(balance: u128) -> PSP37Data {
    let mut psp37 = PSP37Data::new();
    psp37.token_owner.insert(Id::U8(1), account(1));
    psp37.owned_serials_count.insert((account(1), Id::U8(1)), balance);
    psp37.owned_tokens_count_by_account.insert(account(1), 1);
    psp37.total_supply_by_id.insert(Id::U8(1), balance);
    psp37.total_token_count = 1;
    psp37
}

#[test]
fn transfer_zero_value_is_noop() {
    let mut psp37 = ledger(5);
    let events = psp37.transfer(account(1), account(2), Id::U8(1), 0, vec![]).unwrap();
    assert!(events.is_empty());
    assert_eq!(psp37.balance_of(account(1), Some(Id::U8(1))), 5);
    assert_eq!(psp37.balance_of(account(2), Some(Id::U8(1))), 0);
    assert_eq!(psp37.owner_of(&Id::U8(1)), Some(account(1)));
}

#[test]
fn transfer_by_non_owner_is_not_approved() {
    let mut psp37 = ledger(5);
    let r = psp37.transfer(account(2), account(3), Id::U8(1), 1, vec![]);
    assert_eq!(r, Err(PSP37Error::NotApproved));
    assert_eq!(psp37.balance_of(account(1), Some(Id::U8(1))), 5);
    assert_eq!(psp37.owner_of(&Id::U8(1)), Some(account(1)));
}

#[test]
fn transfer_part_of_balance_credits_one_unit() {
    let mut psp37 = ledger(5);
    let events = psp37.transfer(account(1), account(2), Id::U8(1), 2, vec![]).unwrap();
    assert_eq!(psp37.balance_of(account(1), Some(Id::U8(1))), 3);
    assert_eq!(psp37.balance_of(account(2), Some(Id::U8(1))), 1);
    assert_eq!(psp37.balance_of(account(1), None), 1);
    assert_eq!(psp37.owner_of(&Id::U8(1)), Some(account(2)));
    assert_eq!(
        events,
        vec![PSP37Event::Transfer {
            from: Some(account(1)),
            to: Some(account(2)),
            id: Id::U8(1),
            value: 2,
        }]
    );
}

#[test]
fn transfer_of_whole_balance_lowers_type_count() {
    let mut psp37 = ledger(5);
    psp37.transfer(account(1), account(2), Id::U8(1), 5, vec![]).unwrap();
    assert_eq!(psp37.balance_of(account(1), Some(Id::U8(1))), 0);
    assert_eq!(psp37.balance_of(account(1), None), 0);
    assert_eq!(psp37.balance_of(account(2), None), 0);
    assert_eq!(psp37.total_supply(Some(Id::U8(1))), 5);
    assert_eq!(psp37.total_supply(None), 1);
}

#[test]
fn transfer_of_largest_value() {
    let mut psp37 = ledger(u128::MAX);
    psp37.transfer(account(1), account(2), Id::U8(1), u128::MAX, vec![]).unwrap();
    assert_eq!(psp37.balance_of(account(1), Some(Id::U8(1))), 0);
    assert_eq!(psp37.balance_of(account(2), Some(Id::U8(1))), 1);
}

#[test]
fn transfer_refused_leaves_every_table() {
    let mut psp37 = ledger(5);
    psp37.approve(account(1), account(2), Some(Id::U8(1)), 4).unwrap();
    let r = psp37.transfer(account(1), account(2), Id::U8(1), 6, vec![]);
    assert_eq!(r, Err(PSP37Error::InsufficientBalance));
    assert_eq!(psp37.balance_of(account(1), Some(Id::U8(1))), 5);
    assert_eq!(psp37.balance_of(account(1), None), 1);
    assert_eq!(psp37.allowance(account(1), account(2), Some(Id::U8(1))), 4);
    assert_eq!(psp37.total_supply(Some(Id::U8(1))), 5);
    assert_eq!(psp37.owner_of(&Id::U8(1)), Some(account(1)));
}

#[test]
fn transfer_from_charges_finite_allowance() {
    let mut psp37 = ledger(5);
    psp37.approve(account(1), account(2), Some(Id::U8(1)), 3).unwrap();
    let events = psp37.transfer_from(account(2), account(3), Id::U8(1), 2, vec![]).unwrap();
    assert_eq!(psp37.allowance(account(1), account(2), Some(Id::U8(1))), 1);
    assert_eq!(psp37.balance_of(account(1), Some(Id::U8(1))), 3);
    assert_eq!(psp37.balance_of(account(3), Some(Id::U8(1))), 1);
    assert_eq!(psp37.owner_of(&Id::U8(1)), Some(account(3)));
    assert_eq!(
        events,
        vec![PSP37Event::Transfer {
            from: Some(account(2)),
            to: Some(account(3)),
            id: Id::U8(1),
            value: 2,
        }]
    );
}

#[test]
fn transfer_from_with_small_allowance_is_not_approved() {
    let mut psp37 = ledger(5);
    psp37.approve(account(1), account(2), Some(Id::U8(1)), 1).unwrap();
    let r = psp37.transfer_from(account(2), account(3), Id::U8(1), 2, vec![]);
    assert_eq!(r, Err(PSP37Error::NotApproved));
    assert_eq!(psp37.allowance(account(1), account(2), Some(Id::U8(1))), 1);
    assert_eq!(psp37.balance_of(account(1), Some(Id::U8(1))), 5);
    assert_eq!(psp37.balance_of(account(1), None), 1);
    assert_eq!(psp37.owner_of(&Id::U8(1)), Some(account(1)));
}

#[test]
fn transfer_from_checks_allowance_before_balance() {
    let mut psp37 = ledger(1);
    psp37.approve(account(1), account(2), Some(Id::U8(1)), 0).unwrap();
    let r = psp37.transfer_from(account(2), account(3), Id::U8(1), 5, vec![]);
    assert_eq!(r, Err(PSP37Error::NotApproved));
    assert_eq!(psp37.balance_of(account(1), Some(Id::U8(1))), 1);
    assert_eq!(psp37.allowance(account(1), account(2), Some(Id::U8(1))), 0);
}

#[test]
fn transfer_from_with_enough_allowance_checks_balance() {
    let mut psp37 = ledger(1);
    psp37.approve(account(1), account(2), Some(Id::U8(1)), 9).unwrap();
    let r = psp37.transfer_from(account(2), account(3), Id::U8(1), 5, vec![]);
    assert_eq!(r, Err(PSP37Error::InsufficientBalance));
    assert_eq!(psp37.allowance(account(1), account(2), Some(Id::U8(1))), 9);
    assert_eq!(psp37.balance_of(account(1), Some(Id::U8(1))), 1);
}

#[test]
fn transfer_fits_only_where_a_full_destination_is_credited() {
    let mut psp37 = ledger(5);
    psp37.owned_serials_count.insert((account(2), Id::U8(1)), u128::MAX);
    assert!(!psp37.transfer_fits(account(1), account(2), &Id::U8(1), 1));
    assert!(psp37.transfer_fits(account(3), account(2), &Id::U8(1), 1));
    assert!(psp37.transfer_fits(account(1), account(2), &Id::U8(1), 0));
    assert!(psp37.transfer_fits(account(1), account(2), &Id::U8(1), 6));
    assert!(psp37.transfer_fits(account(1), account(3), &Id::U8(1), 1));
}

#[test]
fn transfer_from_fits_only_where_a_full_destination_is_credited() {
    let mut psp37 = ledger(5);
    psp37.owned_serials_count.insert((account(2), Id::U8(1)), u128::MAX);
    psp37.approve(account(1), account(3), Some(Id::U8(1)), 1).unwrap();
    assert!(!psp37.transfer_from_fits(account(3), account(2), &Id::U8(1), 1));
    assert!(psp37.transfer_from_fits(account(3), account(2), &Id::U8(1), 2));
    assert!(psp37.transfer_from_fits(account(3), account(2), &Id::U16(1), 1));
    assert!(psp37.transfer_from_fits(account(3), account(4), &Id::U8(1), 1));
}

#[test]
fn transfer_from_unknown_id() {
    let mut psp37 = ledger(1);
    let r = psp37.transfer_from(account(2), account(3), Id::U16(1), 1, vec![]);
    assert_eq!(r, Err(PSP37Error::TokenNotExists));
}

#[test]
fn transfer_from_blanket_approval_is_not_charged() {
    let mut psp37 = ledger(5);
    psp37.approve(account(1), account(2), None, 7).unwrap();
    psp37.transfer_from(account(2), account(3), Id::U8(1), 4, vec![]).unwrap();
    assert_eq!(psp37.allowance(account(1), account(2), None), Balance::MAX);
    assert_eq!(psp37.balance_of(account(1), Some(Id::U8(1))), 1);
}

#[test]
fn transfer_from_without_allowance_proceeds() {
    let mut psp37 = ledger(5);
    psp37.transfer_from(account(2), account(3), Id::U8(1), 1, vec![]).unwrap();
    assert_eq!(psp37.owner_of(&Id::U8(1)), Some(account(3)));
    assert_eq!(psp37.allowance(account(1), account(2), Some(Id::U8(1))), 0);
}

#[test]
fn transfer_from_to_owner_is_noop() {
    let mut psp37 = ledger(5);
    let events = psp37.transfer_from(account(2), account(1), Id::U8(1), 1, vec![]).unwrap();
    assert!(events.is_empty());
    assert_eq!(psp37.balance_of(account(1), Some(Id::U8(1))), 5);
}

#[test]
fn approve_overwrites() {
    let mut psp37 = PSP37Data::new();
    psp37.approve(account(1), account(2), Some(Id::U8(1)), 5).unwrap();
    psp37.approve(account(1), account(2), Some(Id::U8(1)), 7).unwrap();
    assert_eq!(psp37.allowance(account(1), account(2), Some(Id::U8(1))), 7);
    assert_eq!(psp37.allowance(account(1), account(2), None), 0);
}

#[test]
fn approve_then_blanket_keeps_per_id_value() {
    let mut psp37 = PSP37Data::new();
    psp37.approve(account(1), account(2), Some(Id::U8(1)), 23).unwrap();
    psp37.approve(account(1), account(2), None, 2).unwrap();
    assert_eq!(psp37.allowance(account(1), account(2), None), Balance::MAX);
    assert_eq!(psp37.allowance(account(1), account(2), Some(Id::U8(1))), 23);
}

#[test]
fn approve_self_blanket_is_noop() {
    let mut psp37 = PSP37Data::new();
    let events = psp37.approve(account(4), account(4), None, 9).unwrap();
    assert!(events.is_empty());
    assert_eq!(psp37.allowance(account(4), account(4), None), 0);
}

#[test]
fn total_supply_reads_counter_and_table() {
    let psp37 = ledger(42);
    assert_eq!(psp37.total_supply(None), 1);
    assert_eq!(psp37.total_supply(Some(Id::U8(1))), 42);
    assert_eq!(psp37.total_supply(Some(Id::U8(2))), 0);
}

#[test]
fn owner_of_unknown_id() {
    let psp37 = ledger(1);
    assert_eq!(psp37.owner_of(&Id::Bytes(vec![1])), None);
    assert_eq!(psp37.owner_of(&Id::U128(1)), None);
}

#[test]
fn collection_id_is_account_bytes() {
    let psp37 = PSP37Data::new();
    let mut bytes = [0u8; 32];
    bytes[0] = 9;
    bytes[31] = 7;
    assert_eq!(psp37.collection_id(AccountId::new(bytes)), Id::Bytes(bytes.to_vec()));
}

#[test]
fn byte_ids_are_keys_by_content() {
    let mut psp37 = PSP37Data::new();
    psp37.token_owner.insert(Id::Bytes(vec![1, 2, 3]), account(1));
    psp37.owned_serials_count.insert((account(1), Id::Bytes(vec![1, 2, 3])), 2);
    psp37.transfer(account(1), account(2), Id::Bytes(vec![1, 2, 3]), 1, vec![]).unwrap();
    assert_eq!(psp37.owner_of(&Id::Bytes(vec![1, 2, 3])), Some(account(2)));
    assert_eq!(psp37.balance_of(account(1), Some(Id::Bytes(vec![1, 2, 3]))), 1);
    assert_eq!(psp37.balance_of(account(1), Some(Id::Bytes(vec![1, 2]))), 0);
}

#[test]
fn mapping_insert_get_remove() {
    let mut m: Mapping<Id, u128> = Mapping::new();
    assert_eq!(m.get(&Id::U8(1)), None);
    m.insert(Id::U8(1), 3);
    m.insert(Id::U16(1), 4);
    m.insert(Id::U8(1), 5);
    assert_eq!(m.get(&Id::U8(1)), Some(5));
    assert_eq!(m.get(&Id::U16(1)), Some(4));
    m.remove(&Id::U8(1));
    assert_eq!(m.get(&Id::U8(1)), None);
    assert_eq!(m.get(&Id::U16(1)), Some(4));
    m.remove(&Id::U32(1));
    assert_eq!(m.get(&Id::U16(1)), Some(4));
}

#[test]
fn ids_and_accounts_compare_by_value() {
    assert!(Id::Bytes(vec![1, 2]).same(&Id::Bytes(vec![1, 2])));
    assert!(!Id::Bytes(vec![1, 2]).same(&Id::Bytes(vec![1])));
    assert!(!Id::U8(1).same(&Id::U16(1)));
    assert!(Id::U64(9).same(&Id::U64(9).duplicate()));
    assert!(account(1).same(&account(1)));
    assert!(!account(1).same(&account(2)));
}

#[test]
fn approve_for_id_then_allowance() {
    let mut psp37 = PSP37Data::new();
    psp37.approve(account(1), account(2), Some(Id::U8(1)), 23).unwrap();
    assert_eq!(psp37.allowance(account(1), account(2), Some(Id::U8(1))), 23);
    assert_eq!(psp37.allowance(account(1), account(2), None), 0);
}

#[test]
fn approve_blanket_then_allowance_is_maximum() {
    let mut psp37 = PSP37Data::new();
    psp37.approve(account(1), account(2), None, 2).unwrap();
    assert_eq!(psp37.allowance(account(1), account(2), None), Balance::MAX);
    assert_ne!(psp37.allowance(account(1), account(2), None), 2);
}

#[test]
fn default_ledger_is_empty() {
    let psp37 = PSP37Data::default();
    assert_eq!(psp37.balance_of(account(1), None), 0);
    assert_eq!(psp37.total_supply(None), 0);
    assert_eq!(psp37.owner_of(&Id::U8(1)), None);
}

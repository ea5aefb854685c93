use vstd::prelude::*;

use crate::account::AccountId;
use crate::data::{approval_value, LedgerView};
use crate::id::IdView;

verus! {

/// A transfer that moves anything debits the owner's balance of the id by
/// exactly the value sent, leaves `to` as the id's owner, and credits `to`
/// one unit.
pub proof fn lemma_transfer_moves_value(
    s: LedgerView,
    owner: AccountId,
    to: AccountId,
    id: IdView,
    value: u128,
)
    requires
        s.owner_of(id) == Some(owner),
        owner@ != to@,
        0 < value <= s.balance_of(owner@, Some(id)),
        s.can_credit(to@, id),
    ensures
        s.moved(owner@, to, id, value).balance_of(owner@, Some(id)) == s.balance_of(
            owner@,
            Some(id),
        ) - value,
        s.moved(owner@, to, id, value).owner_of(id) == Some(to),
        s.moved(owner@, to, id, value).balance_of(to@, Some(id)) == s.balance_of(to@, Some(id))
            + 1,
{
}

/// A blanket approval stores the maximum, whatever value was asked for,
/// and leaves every per-id allowance as it was.
pub proof fn lemma_blanket_approval_is_maximum(
    s: LedgerView,
    owner: AccountId,
    operator: AccountId,
    value: u128,
    id: IdView,
)
    ensures
        s.approved(owner@, operator@, None, approval_value(None, value)).allowance(
            owner@,
            operator@,
            None,
        ) == u128::MAX,
        s.approved(owner@, operator@, None, approval_value(None, value)).allowance(
            owner@,
            operator@,
            Some(id),
        ) == s.allowance(owner@, operator@, Some(id)),
{
}

/// A per-id approval stores exactly the value asked for, and leaves the
/// blanket allowance as it was.
pub proof fn lemma_approval_for_id_is_exact(
    s: LedgerView,
    owner: AccountId,
    operator: AccountId,
    id: IdView,
    value: u128,
)
    ensures
        s.approved(owner@, operator@, Some(id), approval_value(Some(id), value)).allowance(
            owner@,
            operator@,
            Some(id),
        ) == value,
        s.approved(owner@, operator@, Some(id), approval_value(Some(id), value)).allowance(
            owner@,
            operator@,
            None,
        ) == s.allowance(owner@, operator@, None),
{
}

/// An allowance key that was never written reads as zero; in a new ledger
/// every key does.
pub proof fn lemma_allowance_defaults_to_zero(
    s: LedgerView,
    owner: AccountId,
    operator: AccountId,
    id: Option<IdView>,
)
    requires
        !s.operator_approvals.contains_key((owner@, operator@, id)),
    ensures
        s.allowance(owner@, operator@, id) == 0,
        LedgerView::empty().allowance(owner@, operator@, id) == 0,
{
}

} // verus!

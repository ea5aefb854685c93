use vstd::prelude::*;

use crate::account::AccountId;
use crate::errors::PSP37Error;
use crate::id::{duplicate_opt, opt_id_view, Id, IdView};
use crate::mapping::{lookup, lookup_or_zero, Mapping};

verus! {

/// A quantity of one token id, or a count of distinct token ids.
pub type Balance = u128;

/// The key of an allowance: owner, operator, and the id it covers (`None`
/// for every id).
pub type ApprovalKey = (AccountId, AccountId, Option<Id>);

/// What a mutating operation reports, in order, to the host.
#[derive(Debug, PartialEq, PartialOrd)]
pub enum PSP37Event {
    Transfer { from: Option<AccountId>, to: Option<AccountId>, id: Id, value: Balance },
    TransferBatch {
        from: Option<AccountId>,
        to: Option<AccountId>,
        ids_amounts: Vec<(Id, Balance)>,
    },
    Approval { owner: AccountId, operator: AccountId, id: Option<Id>, value: Balance },
    AttributeSet { id: Id, key: String, data: String },
}

/// The mathematical value of a `PSP37Event`.
pub enum EventView {
    Transfer { from: Option<AccountId>, to: Option<AccountId>, id: IdView, value: u128 },
    TransferBatch {
        from: Option<AccountId>,
        to: Option<AccountId>,
        ids_amounts: Seq<(IdView, u128)>,
    },
    Approval { owner: AccountId, operator: AccountId, id: Option<IdView>, value: u128 },
    AttributeSet { id: IdView, key: Seq<char>, data: Seq<char> },
}

impl View for PSP37Event {
    type V = EventView;

    open spec fn view(&self) -> EventView {
        match self {
            PSP37Event::Transfer { from, to, id, value } => EventView::Transfer {
                from: *from,
                to: *to,
                id: id@,
                value: *value,
            },
            PSP37Event::TransferBatch { from, to, ids_amounts } => EventView::TransferBatch {
                from: *from,
                to: *to,
                ids_amounts: ids_amounts@.map_values(|p: (Id, u128)| (p.0@, p.1)),
            },
            PSP37Event::Approval { owner, operator, id, value } => EventView::Approval {
                owner: *owner,
                operator: *operator,
                id: opt_id_view(*id),
                value: *value,
            },
            PSP37Event::AttributeSet { id, key, data } => EventView::AttributeSet {
                id: id@,
                key: key@,
                data: data@,
            },
        }
    }
}

/// The mathematical value of a list of events.
pub open spec fn events_view(events: Seq<PSP37Event>) -> Seq<EventView> {
    events.map_values(|e: PSP37Event| e@)
}

/// The spending right that an operator holds over one id, as a delegated
/// transfer resolves it.
pub enum AllowanceValue {
    /// A blanket approval over every id.
    Infinite,
    /// A finite remaining budget for this id.
    Finite(u128),
    /// No approval recorded.
    Absent,
}

/// `a - b`, floored at zero.
pub open spec fn saturating_sub(a: u128, b: u128) -> u128 {
    if a >= b {
        (a - b) as u128
    } else {
        0
    }
}

/// The value that `approve` stores for `id`: the maximum for a blanket
/// approval, else the value given.
pub open spec fn approval_value(id: Option<IdView>, value: u128) -> u128 {
    match id {
        None => u128::MAX,
        Some(_) => value,
    }
}

/// The ledger's state: five tables and one counter.
pub struct LedgerView {
    pub token_owner: Map<IdView, AccountId>,
    pub owned_serials_count: Map<(Seq<u8>, IdView), u128>,
    pub owned_tokens_count_by_account: Map<Seq<u8>, u128>,
    pub operator_approvals: Map<(Seq<u8>, Seq<u8>, Option<IdView>), u128>,
    pub total_supply_by_id: Map<IdView, u128>,
    pub total_token_count: u128,
}

impl LedgerView {
    /// The state of a new ledger.
    pub open spec fn empty() -> LedgerView {
        LedgerView {
            token_owner: Map::empty(),
            owned_serials_count: Map::empty(),
            owned_tokens_count_by_account: Map::empty(),
            operator_approvals: Map::empty(),
            total_supply_by_id: Map::empty(),
            total_token_count: 0,
        }
    }

    pub open spec fn owner_of(self, id: IdView) -> Option<AccountId> {
        lookup(self.token_owner, id)
    }

    /// Whether `account` is the current owner of `id`.
    pub open spec fn is_owner(self, id: IdView, account: Seq<u8>) -> bool {
        self.token_owner.contains_key(id) && self.token_owner[id]@ == account
    }

    pub open spec fn balance_by_id(self, owner: Seq<u8>, id: IdView) -> u128 {
        lookup_or_zero(self.owned_serials_count, (owner, id))
    }

    pub open spec fn balance_by_account(self, owner: Seq<u8>) -> u128 {
        lookup_or_zero(self.owned_tokens_count_by_account, owner)
    }

    pub open spec fn balance_of(self, owner: Seq<u8>, id: Option<IdView>) -> u128 {
        match id {
            None => self.balance_by_account(owner),
            Some(i) => self.balance_by_id(owner, i),
        }
    }

    pub open spec fn total_supply(self, id: Option<IdView>) -> u128 {
        match id {
            None => self.total_token_count,
            Some(i) => lookup_or_zero(self.total_supply_by_id, i),
        }
    }

    pub open spec fn allowance(self, owner: Seq<u8>, operator: Seq<u8>, id: Option<IdView>) -> u128 {
        lookup_or_zero(self.operator_approvals, (owner, operator, id))
    }

    /// The allowance of `operator` over `id` of `owner`: the finite budget
    /// for `id` if one is recorded, else a blanket approval if one is.
    pub open spec fn allowance_value(self, owner: Seq<u8>, operator: Seq<u8>, id: IdView) -> AllowanceValue {
        if self.operator_approvals.contains_key((owner, operator, Some(id))) {
            AllowanceValue::Finite(self.operator_approvals[(owner, operator, Some(id))])
        } else if self.operator_approvals.contains_key((owner, operator, None)) {
            AllowanceValue::Infinite
        } else {
            AllowanceValue::Absent
        }
    }

    /// Whether `caller` may move `value` of `owner`'s `id` on its allowance:
    /// refused only where a finite budget below `value` is recorded.
    pub open spec fn allowance_permits(self, owner: Seq<u8>, caller: Seq<u8>, id: IdView, value: u128) -> bool {
        owner == caller || match self.allowance_value(owner, caller, id) {
            AllowanceValue::Finite(a) => value <= a,
            _ => true,
        }
    }

    /// Whether a transfer of `value` of `id` to `to` moves anything: `id`
    /// has an owner other than `to`, `value` is nonzero and the owner holds
    /// at least `value`.
    pub open spec fn transferable(self, to: Seq<u8>, id: IdView, value: u128) -> bool {
        &&& self.token_owner.contains_key(id)
        &&& self.token_owner[id]@ != to
        &&& value != 0
        &&& value <= self.balance_by_id(self.token_owner[id]@, id)
    }

    /// Whether the per-id balance of `to` has room for one more unit.
    pub open spec fn can_credit(self, to: Seq<u8>, id: IdView) -> bool {
        self.balance_by_id(to, id) < u128::MAX
    }

    /// The state after `approve` stores `value` under `(owner, operator, id)`.
    pub open spec fn approved(self, owner: Seq<u8>, operator: Seq<u8>, id: Option<IdView>, value: u128) -> LedgerView {
        LedgerView {
            operator_approvals: self.operator_approvals.insert((owner, operator, id), value),
            ..self
        }
    }

    /// The state after a successful transfer of `value` of `id` from `owner`
    /// to `to`: the source is debited `value` (and loses one distinct id when
    /// it reaches zero), `to` becomes the owner and is credited one unit.
    pub open spec fn moved(self, owner: Seq<u8>, to: AccountId, id: IdView, value: u128) -> LedgerView {
        let after = (self.balance_by_id(owner, id) - value) as u128;
        LedgerView {
            token_owner: self.token_owner.insert(id, to),
            owned_serials_count: self.owned_serials_count.insert((owner, id), after).insert(
                (to@, id),
                (self.balance_by_id(to@, id) + 1) as u128,
            ),
            owned_tokens_count_by_account: if after == 0 {
                self.owned_tokens_count_by_account.insert(
                    owner,
                    saturating_sub(self.balance_by_account(owner), 1),
                )
            } else {
                self.owned_tokens_count_by_account
            },
            ..self
        }
    }

    /// The state after a delegated transfer of `value` of `id` charges
    /// `caller`'s allowance: a finite budget of a caller other than the
    /// owner shrinks by `value`; nothing else changes.
    pub open spec fn debited(self, owner: Seq<u8>, caller: Seq<u8>, id: IdView, value: u128) -> LedgerView {
        match self.allowance_value(owner, caller, id) {
            AllowanceValue::Finite(a) => if owner != caller {
                self.approved(owner, caller, Some(id), saturating_sub(a, value))
            } else {
                self
            },
            _ => self,
        }
    }
}

/// The ledger: token owners, per-id balances, per-account counts of
/// distinct ids, allowances and supplies.
pub struct PSP37Data {
    pub token_owner: Mapping<Id, AccountId>,
    pub owned_serials_count: Mapping<(AccountId, Id), u128>,
    pub owned_tokens_count_by_account: Mapping<AccountId, u128>,
    pub operator_approvals: Mapping<ApprovalKey, u128>,
    pub total_supply_by_id: Mapping<Id, u128>,
    pub total_token_count: u128,
}

impl View for PSP37Data {
    type V = LedgerView;

    open spec fn view(&self) -> LedgerView {
        LedgerView {
            token_owner: self.token_owner@,
            owned_serials_count: self.owned_serials_count@,
            owned_tokens_count_by_account: self.owned_tokens_count_by_account@,
            operator_approvals: self.operator_approvals@,
            total_supply_by_id: self.total_supply_by_id@,
            total_token_count: self.total_token_count,
        }
    }
}

impl Default for PSP37Data {
    fn default() -> (r: PSP37Data)
        ensures
            r.wf(),
            r@ == LedgerView::empty(),
    {
        PSP37Data::new()
    }
}

impl PSP37Data {
    /// Every table keeps its invariant.
    pub open spec fn wf(&self) -> bool {
        &&& self.token_owner.wf()
        &&& self.owned_serials_count.wf()
        &&& self.owned_tokens_count_by_account.wf()
        &&& self.operator_approvals.wf()
        &&& self.total_supply_by_id.wf()
    }

    /// An empty ledger.
    pub fn new() -> (r: PSP37Data)
        ensures
            r.wf(),
            r@ == LedgerView::empty(),
    {
        PSP37Data {
            token_owner: Mapping::new(),
            owned_serials_count: Mapping::new(),
            owned_tokens_count_by_account: Mapping::new(),
            operator_approvals: Mapping::new(),
            total_supply_by_id: Mapping::new(),
            total_token_count: 0,
        }
    }

    /// The byte-string id of the collection that `account_id` names.
    pub fn collection_id(&self, account_id: AccountId) -> (r: Id)
        ensures
            r@ == IdView::Bytes(account_id@),
    {
        Id::of_account(&account_id)
    }

    /// The current owner of `id`, if it has one.
    pub fn owner_of(&self, id: &Id) -> (r: Option<AccountId>)
        requires
            self.wf(),
        ensures
            r == self@.owner_of(id@),
    {
        self.token_owner.get(id)
    }

    fn balance_by_id(&self, owner: AccountId, id: &Id) -> (r: Balance)
        requires
            self.wf(),
        ensures
            r == self@.balance_by_id(owner@, id@),
    {
        match self.owned_serials_count.get(&(owner, id.duplicate())) {
            Some(b) => b,
            None => 0,
        }
    }

    fn balance_by_account(&self, owner: AccountId) -> (r: Balance)
        requires
            self.wf(),
        ensures
            r == self@.balance_by_account(owner@),
    {
        match self.owned_tokens_count_by_account.get(&owner) {
            Some(b) => b,
            None => 0,
        }
    }

    /// The quantity of `id` that `owner` holds, or, for no id, the number of
    /// distinct ids it holds; zero where nothing is recorded.
    pub fn balance_of(&self, owner: AccountId, id: Option<Id>) -> (r: Balance)
        requires
            self.wf(),
        ensures
            r == self@.balance_of(owner@, opt_id_view(id)),
    {
        match id {
            None => self.balance_by_account(owner),
            Some(id) => self.balance_by_id(owner, &id),
        }
    }

    /// The supply of `id`, or, for no id, the number of distinct ids.
    pub fn total_supply(&self, id: Option<Id>) -> (r: u128)
        requires
            self.wf(),
        ensures
            r == self@.total_supply(opt_id_view(id)),
    {
        match id {
            None => self.total_token_count,
            Some(id) => match self.total_supply_by_id.get(&id) {
                Some(s) => s,
                None => 0,
            },
        }
    }

    /// The value stored for exactly this key (the maximum for a blanket
    /// approval), or zero where none is.
    pub fn allowance(&self, owner: AccountId, operator: AccountId, id: Option<Id>) -> (r: Balance)
        requires
            self.wf(),
        ensures
            r == self@.allowance(owner@, operator@, opt_id_view(id)),
    {
        match self.operator_approvals.get(&(owner, operator, id)) {
            Some(a) => a,
            None => 0,
        }
    }

    fn allowance_value_wrapped(&self, owner: AccountId, operator: AccountId, id: &Id) -> (r:
        AllowanceValue)
        requires
            self.wf(),
        ensures
            r == self@.allowance_value(owner@, operator@, id@),
    {
        match self.operator_approvals.get(&(owner, operator, Some(id.duplicate()))) {
            Some(a) => AllowanceValue::Finite(a),
            None => match self.operator_approvals.get(&(owner, operator, None)) {
                Some(_) => AllowanceValue::Infinite,
                None => AllowanceValue::Absent,
            },
        }
    }

    /// `owner` lets `operator` spend `value` of `id`, or every id for no id
    /// (stored as the maximum whatever `value` is). The stored value replaces
    /// any earlier one. Approving oneself does nothing.
    pub fn approve(&mut self, owner: AccountId, operator: AccountId, id: Option<Id>, value: Balance) -> (r: Result<Vec<PSP37Event>, PSP37Error>)
        requires
            old(self).wf(),
        ensures
            final(self).wf(),
            r is Ok,
            owner@ == operator@ ==> r->Ok_0@.len() == 0 && final(self)@ == old(self)@,
            owner@ != operator@ ==> {
                let v = approval_value(opt_id_view(id), value);
                &&& final(self)@ == old(self)@.approved(owner@, operator@, opt_id_view(id), v)
                &&& events_view(r->Ok_0@) == seq![
                    (EventView::Approval { owner, operator, id: opt_id_view(id), value: v }),
                ]
            },
    {
        if owner.same(&operator) {
            return Ok(Vec::new());
        }
        let allowance_value = match id {
            None => Balance::MAX,
            Some(_) => value,
        };
        self.operator_approvals.insert((owner, operator, duplicate_opt(&id)), allowance_value);
        let mut events: Vec<PSP37Event> = Vec::new();
        events.push(PSP37Event::Approval { owner, operator, id, value: allowance_value });
        assert(events_view(events@) =~= seq![
            (EventView::Approval { owner, operator, id: opt_id_view(id), value: allowance_value }),
        ]);
        Ok(events)
    }

    /// Moves `id` from `owner` to `to` once every check has passed, and
    /// reports the transfer as made by `caller`.
    fn settle(
        &mut self,
        owner: AccountId,
        caller: AccountId,
        to: AccountId,
        id: Id,
        value: u128,
        balance_after: u128,
        from_token_balance: u128,
    ) -> (r: Vec<PSP37Event>)
        requires
            old(self).wf(),
            owner@ != to@,
            value <= old(self)@.balance_by_id(owner@, id@),
            balance_after == old(self)@.balance_by_id(owner@, id@) - value,
            from_token_balance == old(self)@.balance_by_account(owner@),
            old(self)@.can_credit(to@, id@),
        ensures
            final(self).wf(),
            final(self)@ == old(self)@.moved(owner@, to, id@, value),
            events_view(r@) == seq![
                (EventView::Transfer { from: Some(caller), to: Some(to), id: id@, value }),
            ],
    {
        self.owned_serials_count.insert((owner, id.duplicate()), balance_after);
        if balance_after == 0 {
            let tokens_count_after = from_token_balance.saturating_sub(1);
            self.owned_tokens_count_by_account.insert(owner, tokens_count_after);
        }
        self.token_owner.remove(&id);
        self.token_owner.insert(id.duplicate(), to);
        let to_balance = self.balance_by_id(to, &id);
        self.owned_serials_count.insert((to, id.duplicate()), to_balance + 1);
        assert(self.token_owner@ =~= old(self).token_owner@.insert(id@, to));
        let ghost expected = old(self)@.moved(owner@, to, id@, value);
        assert(self@.owned_tokens_count_by_account =~= expected.owned_tokens_count_by_account);
        let mut events: Vec<PSP37Event> = Vec::new();
        events.push(PSP37Event::Transfer { from: Some(caller), to: Some(to), id, value });
        assert(events_view(events@) =~= seq![
            (EventView::Transfer { from: Some(caller), to: Some(to), id: id@, value }),
        ]);
        events
    }

    /// The owner of `id` (`caller`) sends `value` of it to `to`.
    ///
    /// Fails with `TokenNotExists` where `id` has no owner. Sending to the
    /// owner itself, or a zero value, does nothing. Fails with `NotApproved`
    /// where `caller` is not the owner, and with `InsufficientBalance` where
    /// the owner holds less than `value`. Otherwise the owner is debited
    /// `value`, `to` becomes the owner and is credited one unit, and one
    /// `Transfer` event is returned. No error changes the ledger.
    pub fn transfer(&mut self, caller: AccountId, to: AccountId, id: Id, value: u128, _data: Vec<u8>) -> (r: Result<Vec<PSP37Event>, PSP37Error>)
        requires
            old(self).wf(),
            old(self)@.transferable(to@, id@, value) && old(self)@.is_owner(id@, caller@)
                ==> old(self)@.can_credit(to@, id@),
        ensures
            final(self).wf(),
            match old(self)@.owner_of(id@) {
                None => r == Err::<Vec<PSP37Event>, PSP37Error>(PSP37Error::TokenNotExists)
                    && final(self)@ == old(self)@,
                Some(owner) => if owner@ == to@ || value == 0 {
                    r is Ok && r->Ok_0@.len() == 0 && final(self)@ == old(self)@
                } else if owner@ != caller@ {
                    r == Err::<Vec<PSP37Event>, PSP37Error>(PSP37Error::NotApproved)
                        && final(self)@ == old(self)@
                } else if old(self)@.balance_by_id(owner@, id@) < value {
                    r == Err::<Vec<PSP37Event>, PSP37Error>(PSP37Error::InsufficientBalance)
                        && final(self)@ == old(self)@
                } else {
                    &&& r is Ok
                    &&& events_view(r->Ok_0@) == seq![
                        (EventView::Transfer { from: Some(caller), to: Some(to), id: id@, value }),
                    ]
                    &&& final(self)@ == old(self)@.moved(owner@, to, id@, value)
                },
            },
    {
        let owner = match self.owner_of(&id) {
            Some(owner) => owner,
            None => return Err(PSP37Error::TokenNotExists),
        };
        if owner.same(&to) || value == 0 {
            return Ok(Vec::new());
        }
        if !owner.same(&caller) {
            return Err(PSP37Error::NotApproved);
        }
        let from_balance = self.balance_by_id(owner, &id);
        let from_token_balance = self.balance_by_account(owner);
        let balance_after = match from_balance.checked_sub(value) {
            Some(b) => b,
            None => return Err(PSP37Error::InsufficientBalance),
        };
        Ok(self.settle(owner, caller, to, id, value, balance_after, from_token_balance))
    }

    /// Whether `caller`'s allowance lets it move `value` of `owner`'s `id`;
    /// reads only.
    fn allowance_permits(&self, owner: AccountId, caller: AccountId, id: &Id, value: Balance) -> (r: bool)
        requires
            self.wf(),
        ensures
            r == self@.allowance_permits(owner@, caller@, id@, value),
    {
        if owner.same(&caller) {
            return true;
        }
        match self.allowance_value_wrapped(owner, caller, id) {
            AllowanceValue::Finite(a) => value <= a,
            _ => true,
        }
    }

    /// Whether `transfer` may be called: the destination has room for the
    /// unit it would be credited, wherever the transfer goes through.
    pub fn transfer_fits(&self, caller: AccountId, to: AccountId, id: &Id, value: u128) -> (r: bool)
        requires
            self.wf(),
        ensures
            r == (self@.transferable(to@, id@, value) && self@.is_owner(id@, caller@)
                ==> self@.can_credit(to@, id@)),
    {
        match self.owner_of(id) {
            Some(owner) => {
                if owner.same(&to) || value == 0 || !owner.same(&caller)
                    || self.balance_by_id(owner, id) < value {
                    true
                } else {
                    self.balance_by_id(to, id) < u128::MAX
                }
            },
            None => true,
        }
    }

    /// Whether `transfer_from` may be called: the destination has room for
    /// the unit it would be credited, wherever the transfer goes through.
    pub fn transfer_from_fits(&self, caller: AccountId, to: AccountId, id: &Id, value: u128) -> (r: bool)
        requires
            self.wf(),
        ensures
            r == (self@.transferable(to@, id@, value) && self@.allowance_permits(
                self@.token_owner[id@]@,
                caller@,
                id@,
                value,
            ) ==> self@.can_credit(to@, id@)),
    {
        match self.owner_of(id) {
            Some(owner) => {
                if owner.same(&to) || value == 0 || self.balance_by_id(owner, id) < value
                    || !self.allowance_permits(owner, caller, id, value) {
                    true
                } else {
                    self.balance_by_id(to, id) < u128::MAX
                }
            },
            None => true,
        }
    }

    /// Checks `caller`'s allowance over `owner`'s `id` for `value`, and
    /// charges a finite one.
    fn handle_transfer_allowance_internal(&mut self, owner: AccountId, caller: AccountId, id: &Id, value: Balance) -> (r: Result<(), PSP37Error>)
        requires
            old(self).wf(),
        ensures
            final(self).wf(),
            old(self)@.allowance_permits(owner@, caller@, id@, value) ==> r is Ok
                && final(self)@ == old(self)@.debited(owner@, caller@, id@, value),
            !old(self)@.allowance_permits(owner@, caller@, id@, value) ==> r == Err::<
                (),
                PSP37Error,
            >(PSP37Error::NotApproved) && final(self)@ == old(self)@,
    {
        let allowance_balance_wrapped = self.allowance_value_wrapped(owner, caller, id);
        if let AllowanceValue::Finite(allowance_balance) = allowance_balance_wrapped {
            let is_owner = owner.same(&caller);
            if !is_owner && allowance_balance < value {
                return Err(PSP37Error::NotApproved);
            }
            if !is_owner {
                let allowance_after = allowance_balance.saturating_sub(value);
                self.operator_approvals.insert((owner, caller, Some(id.duplicate())), allowance_after);
            }
        }
        Ok(())
    }

    /// `caller` sends `value` of `id` from its owner to `to`, on an allowance.
    ///
    /// As `transfer`, but the allowance check stands where the owner check
    /// stood, before the balance check: with a finite budget recorded for
    /// `id`, a caller other than the owner fails with `NotApproved` where the
    /// budget is below `value`, and the budget is otherwise reduced by
    /// `value`; a blanket approval, no approval, or the owner as caller is
    /// not charged. The event names `caller` as the sender. No error changes
    /// the ledger.
    pub fn transfer_from(&mut self, caller: AccountId, to: AccountId, id: Id, value: u128, _data: Vec<u8>) -> (r: Result<Vec<PSP37Event>, PSP37Error>)
        requires
            old(self).wf(),
            old(self)@.transferable(to@, id@, value) && old(self)@.allowance_permits(
                old(self)@.token_owner[id@]@,
                caller@,
                id@,
                value,
            ) ==> old(self)@.can_credit(to@, id@),
        ensures
            final(self).wf(),
            match old(self)@.owner_of(id@) {
                None => r == Err::<Vec<PSP37Event>, PSP37Error>(PSP37Error::TokenNotExists)
                    && final(self)@ == old(self)@,
                Some(owner) => if owner@ == to@ || value == 0 {
                    r is Ok && r->Ok_0@.len() == 0 && final(self)@ == old(self)@
                } else if !old(self)@.allowance_permits(owner@, caller@, id@, value) {
                    r == Err::<Vec<PSP37Event>, PSP37Error>(PSP37Error::NotApproved)
                        && final(self)@ == old(self)@
                } else if old(self)@.balance_by_id(owner@, id@) < value {
                    r == Err::<Vec<PSP37Event>, PSP37Error>(PSP37Error::InsufficientBalance)
                        && final(self)@ == old(self)@
                } else {
                    &&& r is Ok
                    &&& events_view(r->Ok_0@) == seq![
                        (EventView::Transfer { from: Some(caller), to: Some(to), id: id@, value }),
                    ]
                    &&& final(self)@ == old(self)@.debited(owner@, caller@, id@, value).moved(
                        owner@,
                        to,
                        id@,
                        value,
                    )
                },
            },
    {
        let owner = match self.owner_of(&id) {
            Some(owner) => owner,
            None => return Err(PSP37Error::TokenNotExists),
        };
        if owner.same(&to) || value == 0 {
            return Ok(Vec::new());
        }
        if !self.allowance_permits(owner, caller, &id, value) {
            return Err(PSP37Error::NotApproved);
        }
        let from_balance = self.balance_by_id(owner, &id);
        let from_token_balance = self.balance_by_account(owner);
        let balance_after = match from_balance.checked_sub(value) {
            Some(b) => b,
            None => return Err(PSP37Error::InsufficientBalance),
        };
        match self.handle_transfer_allowance_internal(owner, caller, &id, value) {
            Ok(()) => {},
            Err(e) => return Err(e),
        }
        Ok(self.settle(owner, caller, to, id, value, balance_after, from_token_balance))
    }
}

} // verus!

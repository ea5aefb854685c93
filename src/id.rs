use vstd::prelude::*;

use crate::account::AccountId;

verus! {

/// A token identifier: an unsigned integer of one of five widths, or a byte
/// string. Used only as a lookup key.
#[derive(Clone, Debug, PartialEq, Eq, PartialOrd, Ord, Hash)]
pub enum Id {
    U8(u8),
    U16(u16),
    U32(u32),
    U64(u64),
    U128(u128),
    Bytes(Vec<u8>),
}

/// The mathematical value of an `Id`.
pub enum IdView {
    U8(u8),
    U16(u16),
    U32(u32),
    U64(u64),
    U128(u128),
    Bytes(Seq<u8>),
}

impl View for Id {
    type V = IdView;

    open spec fn view(&self) -> IdView {
        match self {
            Id::U8(n) => IdView::U8(*n),
            Id::U16(n) => IdView::U16(*n),
            Id::U32(n) => IdView::U32(*n),
            Id::U64(n) => IdView::U64(*n),
            Id::U128(n) => IdView::U128(*n),
            Id::Bytes(b) => IdView::Bytes(b@),
        }
    }
}

/// The mathematical value of an optional `Id`.
pub open spec fn opt_id_view(id: Option<Id>) -> Option<IdView> {
    match id {
        Some(i) => Some(i@),
        None => None,
    }
}

fn bytes_equal(a: &Vec<u8>, b: &Vec<u8>) -> (r: bool)
    ensures
        r == (a@ == b@),
{
    if a.len() != b.len() {
        return false;
    }
    let mut i: usize = 0;
    while i < a.len()
        invariant
            0 <= i <= a@.len(),
            a@.len() == b@.len(),
            forall|j: int| 0 <= j < i ==> a@[j] == b@[j],
        decreases a@.len() - i,
    {
        if a[i] != b[i] {
            return false;
        }
        i += 1;
    }
    assert(a@ =~= b@);
    true
}

fn bytes_copy(a: &Vec<u8>) -> (r: Vec<u8>)
    ensures
        r@ == a@,
{
    let mut r: Vec<u8> = Vec::new();
    let mut i: usize = 0;
    while i < a.len()
        invariant
            0 <= i <= a@.len(),
            r@ == a@.subrange(0, i as int),
        decreases a@.len() - i,
    {
        r.push(a[i]);
        i += 1;
        assert(r@ =~= a@.subrange(0, i as int));
    }
    assert(r@ =~= a@);
    r
}

impl Id {
    /// Whether two ids are the same id.
    pub fn same(&self, other: &Id) -> (r: bool)
        ensures
            r == (self@ == other@),
    {
        match (self, other) {
            (Id::U8(a), Id::U8(b)) => *a == *b,
            (Id::U16(a), Id::U16(b)) => *a == *b,
            (Id::U32(a), Id::U32(b)) => *a == *b,
            (Id::U64(a), Id::U64(b)) => *a == *b,
            (Id::U128(a), Id::U128(b)) => *a == *b,
            (Id::Bytes(a), Id::Bytes(b)) => bytes_equal(a, b),
            _ => false,
        }
    }

    /// A copy of this id.
    pub fn duplicate(&self) -> (r: Id)
        ensures
            r@ == self@,
    {
        match self {
            Id::U8(n) => Id::U8(*n),
            Id::U16(n) => Id::U16(*n),
            Id::U32(n) => Id::U32(*n),
            Id::U64(n) => Id::U64(*n),
            Id::U128(n) => Id::U128(*n),
            Id::Bytes(b) => Id::Bytes(bytes_copy(b)),
        }
    }

    /// The byte-string id that names the collection of `account`.
    pub fn of_account(account: &AccountId) -> (r: Id)
        ensures
            r@ == IdView::Bytes(account@),
    {
        let bytes = account.as_bytes();
        let mut v: Vec<u8> = Vec::new();
        let mut i: usize = 0;
        while i < 32
            invariant
                0 <= i <= 32,
                bytes@.len() == 32,
                v@ == bytes@.subrange(0, i as int),
            decreases 32 - i,
        {
            v.push(bytes[i]);
            i += 1;
            assert(v@ =~= bytes@.subrange(0, i as int));
        }
        assert(v@ =~= bytes@);
        Id::Bytes(v)
    }
}

/// A copy of an optional id.
pub fn duplicate_opt(id: &Option<Id>) -> (r: Option<Id>)
    ensures
        opt_id_view(r) == opt_id_view(*id),
{
    match id {
        Some(i) => Some(i.duplicate()),
        None => None,
    }
}

/// Whether two optional ids are equal.
pub fn same_opt(a: &Option<Id>, b: &Option<Id>) -> (r: bool)
    ensures
        r == (opt_id_view(*a) == opt_id_view(*b)),
{
    match (a, b) {
        (Some(x), Some(y)) => x.same(y),
        (None, None) => true,
        _ => false,
    }
}

} // verus!

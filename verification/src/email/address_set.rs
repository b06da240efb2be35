use super::email_address::EmailAddress;
use indexmap::IndexSet;
use vstd::prelude::*;

verus! {

/// `indexmap::IndexSet`, a hash set that keeps the order of insertion, as an
/// opaque type: what a set holds is told by a name of its own.
#[verifier::external_type_specification]
#[verifier::external_body]
#[verifier::reject_recursive_types(T)]
#[verifier::reject_recursive_types(S)]
pub struct ExIndexSet<T, S>(IndexSet<T, S>);

/// The addresses that a set holds, each by its text, in the order in which
/// they were inserted.
pub uninterp spec fn addresses(set: IndexSet<EmailAddress>) -> Seq<Seq<char>>;

/// Calls `IndexSet::new`, which gives a set without elements.
#[verifier::external_body]
pub(crate) fn new_address_set() -> (set: IndexSet<EmailAddress>)
    ensures
        addresses(set) == Seq::<Seq<char>>::empty(),
{
    IndexSet::new()
}

/// Calls `IndexSet::len`, the number of elements of the set.
#[verifier::external_body]
pub(crate) fn address_count(set: &IndexSet<EmailAddress>) -> (count: usize)
    ensures
        count == addresses(*set).len(),
{
    set.len()
}

/// Calls `IndexSet::contains`, which tells whether an element equal to the
/// value is in the set.
#[verifier::external_body]
pub(crate) fn contains_address(set: &IndexSet<EmailAddress>, address: &EmailAddress) -> (found: bool)
    ensures
        found == addresses(*set).contains(address@),
{
    set.contains(address)
}

/// Calls `IndexSet::insert`. Where an equal element is in the set already,
/// the set and its order stay as they are and the call returns `false`;
/// else the value becomes the last element and the call returns `true`.
#[verifier::external_body]
pub(crate) fn insert_address(set: &mut IndexSet<EmailAddress>, address: EmailAddress) -> (added: bool)
    ensures
        added == !addresses(*old(set)).contains(address@),
        added ==> addresses(*final(set)) == addresses(*old(set)).push(address@),
        !added ==> addresses(*final(set)) == addresses(*old(set)),
{
    set.insert(address)
}

/// Calls `IndexSet::get_index`, which gives the element at a position in
/// insertion order, and `None` for a position past the end.
#[verifier::external_body]
pub(crate) fn address_at(set: &IndexSet<EmailAddress>, index: usize) -> (address: Option<&EmailAddress>)
    ensures
        address is Some <==> index < addresses(*set).len(),
        address is Some ==> address->Some_0@ == addresses(*set)[index as int],
{
    set.get_index(index)
}

/// `IndexSet::clone` copies the elements in their order: the copy holds
/// what the set holds.
pub assume_specification<T: Clone, S: Clone>[ <IndexSet<T, S> as Clone>::clone ](
    set: &IndexSet<T, S>,
) -> (copy: IndexSet<T, S>)
    ensures
        copy == *set,
;

/// Calls `IndexSet::eq`, which holds where the two sets have the same number
/// of elements and each element of the first is in the second, whatever
/// their order.
#[verifier::external_body]
pub(crate) fn same_addresses(left: &IndexSet<EmailAddress>, right: &IndexSet<EmailAddress>) -> (same: bool)
    ensures
        same == same_members(addresses(*left), addresses(*right)),
{
    left == right
}

/// Whether two sequences have the same length and each element of the first
/// occurs in the second.
pub open spec fn same_members(left: Seq<Seq<char>>, right: Seq<Seq<char>>) -> bool {
    left.len() == right.len() && forall|i: int|
        0 <= i < left.len() ==> right.contains(#[trigger] left[i])
}

/// Whether the set holds no address.
pub fn is_empty_address_set(set: &IndexSet<EmailAddress>) -> (empty: bool)
    ensures
        empty == (addresses(*set).len() == 0),
{
    address_count(set) == 0
}

/// The set of the given addresses in their order, each address once: a later
/// copy of an address that the set holds already is left out.
pub fn address_set_of(items: Vec<EmailAddress>) -> (set: IndexSet<EmailAddress>)
    ensures
        addresses(set) == unique_texts(items@, items@.len() as int),
{
    let mut set = new_address_set();
    let mut i: usize = 0;
    while i < items.len()
        invariant
            i <= items.len(),
            addresses(set) == unique_texts(items@, i as int),
        decreases items.len() - i,
    {
        insert_address(&mut set, items[i].clone());
        i += 1;
    }
    set
}

/// The texts of the first `count` addresses, without those that occurred
/// before.
pub open spec fn unique_texts(items: Seq<EmailAddress>, count: int) -> Seq<Seq<char>>
    decreases count,
{
    if count <= 0 {
        Seq::empty()
    } else {
        let before = unique_texts(items, count - 1);
        if before.contains(items[count - 1]@) {
            before
        } else {
            before.push(items[count - 1]@)
        }
    }
}

} // verus!

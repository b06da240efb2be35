use super::attachment::Attachment;
use indexmap::IndexSet;
use vstd::prelude::*;

verus! {

/// The attachments that a set holds, each by its name, MIME type and
/// content, in the order in which they were inserted.
pub uninterp spec fn attachments(set: IndexSet<Attachment>) -> Seq<(Seq<char>, Seq<char>, Seq<u8>)>;

/// Calls `IndexSet::new`, which gives a set without elements.
#[verifier::external_body]
pub(crate) fn new_attachment_set() -> (set: IndexSet<Attachment>)
    ensures
        attachments(set) == Seq::<(Seq<char>, Seq<char>, Seq<u8>)>::empty(),
{
    IndexSet::new()
}

/// Calls `IndexSet::insert`. Where an equal element is in the set already,
/// the set and its order stay as they are and the call returns `false`;
/// else the value becomes the last element and the call returns `true`.
#[verifier::external_body]
pub(crate) fn insert_attachment(set: &mut IndexSet<Attachment>, attachment: Attachment) -> (added:
    bool)
    ensures
        added == !attachments(*old(set)).contains(attachment@),
        added ==> attachments(*final(set)) == attachments(*old(set)).push(attachment@),
        !added ==> attachments(*final(set)) == attachments(*old(set)),
{
    set.insert(attachment)
}

/// Calls `IndexSet::eq`, which holds where the two sets have the same number
/// of elements and each element of the first is in the second, whatever
/// their order.
#[verifier::external_body]
pub(crate) fn same_attachments(left: &IndexSet<Attachment>, right: &IndexSet<Attachment>) -> (same:
    bool)
    ensures
        same == same_attachment_members(attachments(*left), attachments(*right)),
{
    left == right
}

/// Whether two sequences of attachments have the same length and each
/// element of the first occurs in the second.
pub open spec fn same_attachment_members(
    left: Seq<(Seq<char>, Seq<char>, Seq<u8>)>,
    right: Seq<(Seq<char>, Seq<char>, Seq<u8>)>,
) -> bool {
    left.len() == right.len() && forall|i: int|
        0 <= i < left.len() ==> right.contains(#[trigger] left[i])
}

/// The views of the first `count` attachments, without those that occurred
/// before.
pub open spec fn unique_attachments(items: Seq<Attachment>, count: int) -> Seq<
    (Seq<char>, Seq<char>, Seq<u8>),
>
    decreases count,
{
    if count <= 0 {
        Seq::empty()
    } else {
        let before = unique_attachments(items, count - 1);
        if before.contains(items[count - 1]@) {
            before
        } else {
            before.push(items[count - 1]@)
        }
    }
}

/// The set of the given attachments in their order, each attachment once.
pub fn attachment_set_of(items: Vec<Attachment>) -> (set: IndexSet<Attachment>)
    ensures
        attachments(set) == unique_attachments(items@, items@.len() as int),
{
    let mut set = new_attachment_set();
    let mut i: usize = 0;
    while i < items.len()
        invariant
            i <= items.len(),
            attachments(set) == unique_attachments(items@, i as int),
        decreases items.len() - i,
    {
        insert_attachment(&mut set, items[i].clone());
        i += 1;
    }
    set
}

} // verus!

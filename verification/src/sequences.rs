//! Views of lists and options, and small list helpers.

use std::collections::VecDeque;
use vstd::prelude::*;

verus! {

/// The views of the items of a sequence, in order.
pub open spec fn views<T: View>(items: Seq<T>) -> Seq<T::V> {
    Seq::new(items.len(), |i: int| items[i]@)
}

/// The view of what an option holds.
pub open spec fn option_view<T: View>(item: Option<T>) -> Option<T::V> {
    match item {
        Some(value) => Some(value@),
        None => None,
    }
}

/// Taking the views commutes with dropping the first item.
pub proof fn lemma_views_drop_first<T: View>(items: Seq<T>)
    requires
        items.len() > 0,
    ensures
        views(items.subrange(1, items.len() as int)) == views(items).drop_first(),
        views(items)[0] == items[0]@,
{
    assert(views(items.subrange(1, items.len() as int)) =~= views(items).drop_first());
}

/// The empty list has the empty list of views.
pub proof fn lemma_views_empty<T: View>()
    ensures
        views(Seq::<T>::empty()) == Seq::<T::V>::empty(),
{
    assert(views(Seq::<T>::empty()) =~= Seq::<T::V>::empty());
}

/// Copies a list of strings.
pub fn clone_strings(items: &Vec<String>) -> (copy: Vec<String>)
    ensures
        copy@ == items@,
{
    let mut copy: Vec<String> = Vec::new();
    let mut i: usize = 0;
    while i < items.len()
        invariant
            i <= items.len(),
            copy@ == items@.subrange(0, i as int),
        decreases items.len() - i,
    {
        copy.push(items[i].clone());
        i = i + 1;
    }
    assert(copy@ =~= items@);
    copy
}

/// The characters of a text, in order.
pub fn to_chars(text: &str) -> (chars: Vec<char>)
    ensures
        chars@ == text@,
{
    let mut chars: Vec<char> = Vec::new();
    let remaining = text.chars();
    for c in iter: remaining
        invariant
            iter.seq() == text@,
            chars@ == iter.seq().subrange(0, iter.index()),
    {
        chars.push(c);
    }
    assert(chars@ =~= text@);
    chars
}

/// Moves a list into a queue, first item first.
pub fn into_queue<T>(items: Vec<T>) -> (queue: VecDeque<T>)
    ensures
        queue@ == items@,
{
    let mut queue: VecDeque<T> = VecDeque::new();
    for item in iter: items
        invariant
            iter.seq() == items@,
            queue@ == iter.seq().subrange(0, iter.index()),
    {
        queue.push_back(item);
    }
    assert(queue@ =~= items@);
    queue
}

} // verus!

//! Changes of a list, and how they are told to those who keep a copy of it.

use vstd::prelude::*;

verus! {

/// A change of a list.
pub enum ListDiff<T> {
    /// These elements were added at the end.
    Append { values: Vec<T> },
    /// All elements were removed.
    Clear,
    /// An element was added at the front.
    PushFront { value: T },
    /// An element was added at the end.
    PushBack { value: T },
    /// The first element was removed.
    PopFront,
    /// The last element was removed.
    PopBack,
    /// An element was added at this place, before the one that was there.
    Insert { index: usize, value: T },
    /// The element at this place was replaced.
    Replace { index: usize, value: T },
    /// The element at this place was removed.
    Remove { index: usize },
    /// Only this many elements remain.
    Truncate { length: usize },
    /// The list is now made of these elements.
    Reset { values: Vec<T> },
}

/// A change of a list, as it is told to those who keep a copy of it.
pub enum ListUpdate<T> {
    Append { values: Vec<T> },
    Clear,
    PushFront { value: T },
    PushBack { value: T },
    PopFront,
    PopBack,
    Insert { index: u32, value: T },
    Replace { index: u32, value: T },
    Remove { index: u32 },
    Truncate { length: u32 },
    Reset { values: Vec<T> },
}

/// The list after a change.
pub open spec fn changed<T>(list: Seq<T>, diff: ListDiff<T>) -> Seq<T> {
    match diff {
        ListDiff::Append { values } => list + values@,
        ListDiff::Clear => Seq::empty(),
        ListDiff::PushFront { value } => list.insert(0, value),
        ListDiff::PushBack { value } => list.push(value),
        ListDiff::PopFront => if list.len() == 0 {
            list
        } else {
            list.drop_first()
        },
        ListDiff::PopBack => if list.len() == 0 {
            list
        } else {
            list.drop_last()
        },
        ListDiff::Insert { index, value } => list.insert(index as int, value),
        ListDiff::Replace { index, value } => list.update(index as int, value),
        ListDiff::Remove { index } => list.remove(index as int),
        ListDiff::Truncate { length } => if length < list.len() {
            list.take(length as int)
        } else {
            list
        },
        ListDiff::Reset { values } => values@,
    }
}

/// The copy of a list after an update.
pub open spec fn updated<T>(list: Seq<T>, update: ListUpdate<T>) -> Seq<T> {
    match update {
        ListUpdate::Append { values } => list + values@,
        ListUpdate::Clear => Seq::empty(),
        ListUpdate::PushFront { value } => list.insert(0, value),
        ListUpdate::PushBack { value } => list.push(value),
        ListUpdate::PopFront => if list.len() == 0 {
            list
        } else {
            list.drop_first()
        },
        ListUpdate::PopBack => if list.len() == 0 {
            list
        } else {
            list.drop_last()
        },
        ListUpdate::Insert { index, value } => list.insert(index as int, value),
        ListUpdate::Replace { index, value } => list.update(index as int, value),
        ListUpdate::Remove { index } => list.remove(index as int),
        ListUpdate::Truncate { length } => if length < list.len() {
            list.take(length as int)
        } else {
            list
        },
        ListUpdate::Reset { values } => values@,
    }
}

/// Whether a change can happen to a list: the place that it names has to be there.
pub open spec fn can_happen<T>(list: Seq<T>, diff: ListDiff<T>) -> bool {
    match diff {
        ListDiff::Insert { index, .. } => index <= list.len(),
        ListDiff::Replace { index, .. } => index < list.len(),
        ListDiff::Remove { index } => index < list.len(),
        _ => true,
    }
}

/// Whether the place that a change names fits in 32 bits.
pub open spec fn fits<T>(diff: ListDiff<T>) -> bool {
    match diff {
        ListDiff::Insert { index, .. } => index <= u32::MAX,
        ListDiff::Replace { index, .. } => index <= u32::MAX,
        ListDiff::Remove { index } => index <= u32::MAX,
        ListDiff::Truncate { length } => length <= u32::MAX,
        _ => true,
    }
}

/// What the elements of a list become for those who keep a copy of it.
pub trait ListItem<T>: Sized {
    /// What an element becomes.
    spec fn is_item(value: T, item: Self) -> bool;

    /// What an element becomes.
    fn from_element(value: T) -> (item: Self)
        ensures
            Self::is_item(value, item),
    ;
}

/// Whether a list is made of what the elements of another one become.
pub open spec fn are_items<T, U: ListItem<T>>(values: Seq<T>, items: Seq<U>) -> bool {
    &&& items.len() == values.len()
    &&& forall|i: int| 0 <= i < values.len() ==> U::is_item(#[trigger] values[i], items[i])
}

/// What a change is told as: the same change, with what its elements become, and
/// with the lower 32 bits of the place that it names.
pub open spec fn is_update<T, U: ListItem<T>>(diff: ListDiff<T>, update: ListUpdate<U>) -> bool {
    match diff {
        ListDiff::Append { values } => {
            &&& update matches ListUpdate::Append { values: items }
            &&& are_items::<T, U>(values@, items@)
        },
        ListDiff::Clear => update is Clear,
        ListDiff::PushFront { value } => {
            &&& update matches ListUpdate::PushFront { value: item }
            &&& U::is_item(value, item)
        },
        ListDiff::PushBack { value } => {
            &&& update matches ListUpdate::PushBack { value: item }
            &&& U::is_item(value, item)
        },
        ListDiff::PopFront => update is PopFront,
        ListDiff::PopBack => update is PopBack,
        ListDiff::Insert { index, value } => {
            &&& update matches ListUpdate::Insert { index: place, value: item }
            &&& place == index as u32
            &&& U::is_item(value, item)
        },
        ListDiff::Replace { index, value } => {
            &&& update matches ListUpdate::Replace { index: place, value: item }
            &&& place == index as u32
            &&& U::is_item(value, item)
        },
        ListDiff::Remove { index } => update matches ListUpdate::Remove { index: place } && place
            == index as u32,
        ListDiff::Truncate { length } => update matches ListUpdate::Truncate { length: kept }
            && kept == length as u32,
        ListDiff::Reset { values } => {
            &&& update matches ListUpdate::Reset { values: items }
            &&& are_items::<T, U>(values@, items@)
        },
    }
}

/// What the elements of a list become.
pub fn items_of<T, U: ListItem<T>>(values: Vec<T>) -> (items: Vec<U>)
    ensures
        are_items::<T, U>(values@, items@),
{
    let ghost all = values@;
    let mut items: Vec<U> = Vec::new();
    for value in iter: values.into_iter()
        invariant
            iter.seq() == all,
            items@.len() == iter.index(),
            forall|i: int| 0 <= i < iter.index() ==> U::is_item(#[trigger] all[i], items@[i]),
    {
        items.push(U::from_element(value));
    }
    items
}

impl<U> ListUpdate<U> {
    /// What a change is told as.
    pub fn from<T>(diff: ListDiff<T>) -> (update: ListUpdate<U>) where U: ListItem<T>
        ensures
            is_update::<T, U>(diff, update),
    {
        match diff {
            ListDiff::Append { values } => ListUpdate::Append { values: items_of(values) },
            ListDiff::Clear => ListUpdate::Clear,
            ListDiff::PushFront { value } => ListUpdate::PushFront { value: U::from_element(value) },
            ListDiff::PushBack { value } => ListUpdate::PushBack { value: U::from_element(value) },
            ListDiff::PopFront => ListUpdate::PopFront,
            ListDiff::PopBack => ListUpdate::PopBack,
            ListDiff::Insert { index, value } => ListUpdate::Insert {
                index: #[verifier::truncate]
                (index as u32),
                value: U::from_element(value),
            },
            ListDiff::Replace { index, value } => ListUpdate::Replace {
                index: #[verifier::truncate]
                (index as u32),
                value: U::from_element(value),
            },
            ListDiff::Remove { index } => ListUpdate::Remove {
                index: #[verifier::truncate]
                (index as u32),
            },
            ListDiff::Truncate { length } => ListUpdate::Truncate {
                length: #[verifier::truncate]
                (length as u32),
            },
            ListDiff::Reset { values } => ListUpdate::Reset { values: items_of(values) },
        }
    }
}

/// Those who keep a copy of a list and apply each update to it have the list: where
/// the places fit in 32 bits, a copy of the list before the change, once updated, is
/// a copy of the list after it.
pub proof fn updates_keep_copies<T, U: ListItem<T>>(
    list: Seq<T>,
    copy: Seq<U>,
    diff: ListDiff<T>,
    update: ListUpdate<U>,
)
    requires
        are_items::<T, U>(list, copy),
        can_happen(list, diff),
        fits(diff),
        is_update::<T, U>(diff, update),
    ensures
        are_items::<T, U>(changed(list, diff), updated(copy, update)),
{
    let after = changed(list, diff);
    let shown = updated(copy, update);
    assert(forall|i: int| 0 <= i < list.len() ==> U::is_item(list[i], #[trigger] copy[i]));
    match diff {
        ListDiff::Append { values } => {
            assert forall|i: int| 0 <= i < after.len() implies U::is_item(
                #[trigger] after[i],
                shown[i],
            ) by {
                if i >= list.len() {
                    assert(after[i] == values@[i - list.len()]);
                } else {
                    assert(after[i] == list[i]);
                }
            }
        },
        ListDiff::PushFront { value } => {
            assert forall|i: int| 0 <= i < after.len() implies U::is_item(
                #[trigger] after[i],
                shown[i],
            ) by {
                if i > 0 {
                    assert(after[i] == list[i - 1]);
                    assert(shown[i] == copy[i - 1]);
                }
            }
        },
        ListDiff::PopFront => {
            assert forall|i: int| 0 <= i < after.len() implies U::is_item(
                #[trigger] after[i],
                shown[i],
            ) by {
                if list.len() > 0 {
                    assert(after[i] == list[i + 1]);
                    assert(shown[i] == copy[i + 1]);
                }
            }
        },
        ListDiff::Insert { index, value } => {
            assert forall|i: int| 0 <= i < after.len() implies U::is_item(
                #[trigger] after[i],
                shown[i],
            ) by {
                if i < index {
                    assert(after[i] == list[i]);
                } else if i > index {
                    assert(after[i] == list[i - 1]);
                    assert(shown[i] == copy[i - 1]);
                }
            }
        },
        ListDiff::Remove { index } => {
            assert forall|i: int| 0 <= i < after.len() implies U::is_item(
                #[trigger] after[i],
                shown[i],
            ) by {
                if i < index {
                    assert(after[i] == list[i]);
                } else {
                    assert(after[i] == list[i + 1]);
                    assert(shown[i] == copy[i + 1]);
                }
            }
        },
        _ => {
            assert forall|i: int| 0 <= i < after.len() implies U::is_item(
                #[trigger] after[i],
                shown[i],
            ) by {}
        },
    }
}

/// Who keeps a copy of a list of elements that are told as they are has the same list after each
/// update, for each kind of change.
pub proof fn copies_follow_the_list<T, U: ListItem<T>>(
    list: Seq<T>,
    diff: ListDiff<T>,
    update: ListUpdate<U>,
    copy: Seq<U>,
)
    requires
        call_ensures(ListUpdate::<U>::from::<T>, (diff,), update),
        fits(diff),
        can_happen(list, diff),
        are_items::<T, U>(list, copy),
    ensures
        match diff {
            ListDiff::Append { values } => are_items::<T, U>(list + values@, updated(copy, update)),
            ListDiff::Clear => updated(copy, update).len() == 0,
            ListDiff::PushFront { value } => are_items::<T, U>(
                seq![value] + list,
                updated(copy, update),
            ),
            ListDiff::PushBack { value } => are_items::<T, U>(
                list + seq![value],
                updated(copy, update),
            ),
            ListDiff::PopFront => list.len() > 0 ==> are_items::<T, U>(
                list.subrange(1, list.len() as int),
                updated(copy, update),
            ),
            ListDiff::PopBack => list.len() > 0 ==> are_items::<T, U>(
                list.subrange(0, list.len() - 1),
                updated(copy, update),
            ),
            ListDiff::Insert { index, value } => are_items::<T, U>(
                list.subrange(0, index as int) + seq![value] + list.subrange(
                    index as int,
                    list.len() as int,
                ),
                updated(copy, update),
            ),
            ListDiff::Replace { index, value } => are_items::<T, U>(
                list.subrange(0, index as int) + seq![value] + list.subrange(
                    index as int + 1,
                    list.len() as int,
                ),
                updated(copy, update),
            ),
            ListDiff::Remove { index } => are_items::<T, U>(
                list.subrange(0, index as int) + list.subrange(
                    index as int + 1,
                    list.len() as int,
                ),
                updated(copy, update),
            ),
            ListDiff::Truncate { length } => length <= list.len() ==> are_items::<T, U>(
                list.subrange(0, length as int),
                updated(copy, update),
            ),
            ListDiff::Reset { values } => are_items::<T, U>(values@, updated(copy, update)),
        },
{
}

} // verus!

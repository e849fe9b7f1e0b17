//! Identifiers of menu items, as the native layer sees them.
//!
//! A native menu reports the activated item by a small integer. An
//! application names its items by values of a type of its own. [`IdMap`] is
//! the table between the two: it hands out the integers, called command
//! codes, and finds the application's value again when one comes back.

use vstd::pervasive::cloned;
use vstd::prelude::*;

verus! {

/// The first command code that is handed out. Code 0 is the platform's way of
/// saying that nothing was selected.
pub const FIRST_CODE: u32 = 1;

/// The value that `code` stands for in a table of `ids`: the identifier that
/// was inserted as the `code`-th, or nothing for code 0 and for codes that
/// have not been handed out.
pub open spec fn lookup<T>(ids: Seq<T>, code: int) -> Option<T> {
    if 1 <= code <= ids.len() {
        Some(ids[code - 1])
    } else {
        None
    }
}

/// The table that holds `items`, inserted one after the other into an empty
/// table.
pub open spec fn insert_all<T>(items: Seq<T>) -> Seq<T>
    decreases items.len(),
{
    if items.len() == 0 {
        Seq::empty()
    } else {
        insert_all(items.drop_last()).push(items.last())
    }
}

/// Inserting one after the other keeps every item, in order.
pub proof fn lemma_insert_all<T>(items: Seq<T>)
    ensures
        insert_all(items) == items,
    decreases items.len(),
{
    if items.len() > 0 {
        lemma_insert_all(items.drop_last());
    }
}

/// Every item that was inserted into a fresh table is found again under the
/// code that its insertion returned, which is its position counted from 1.
/// Code 0 and the code after the last one stand for nothing. Items need not
/// differ: each occurrence has a code of its own.
pub proof fn lemma_round_trip<T>(items: Seq<T>)
    ensures
        forall|i: int|
            0 <= i < items.len() ==> #[trigger] lookup(insert_all(items), i + 1) == Some(items[i]),
        lookup(insert_all(items), 0) == None::<T>,
        lookup(insert_all(items), items.len() as int + 1) == None::<T>,
{
    lemma_insert_all(items);
}

/// An append-only table from command codes to identifiers of type `T`.
///
/// Codes are handed out in order, starting at 1. They are valid for this table
/// only: a code of one menu says nothing in the table of another.
#[derive(Debug)]
pub struct IdMap<T> {
    ids: Vec<T>,
}

impl<T> View for IdMap<T> {
    type V = Seq<T>;

    /// The identifiers in the order of their insertion.
    closed spec fn view(&self) -> Seq<T> {
        self.ids@
    }
}

impl<T> IdMap<T> {
    #[verifier::type_invariant]
    spec fn inv(&self) -> bool {
        self.ids@.len() <= u32::MAX
    }
}

impl<T: Clone> IdMap<T> {
    /// An empty table.
    pub fn new() -> (map: Self)
        ensures
            map@ == Seq::<T>::empty(),
    {
        IdMap { ids: Vec::new() }
    }

    /// How many identifiers the table holds, which is also the last code that
    /// was handed out. Codes are 32-bit integers, and so is this number.
    pub fn len(&self) -> (n: usize)
        ensures
            n == self@.len(),
            n <= u32::MAX,
    {
        proof {
            use_type_invariant(self);
        }
        self.ids.len()
    }

    /// Appends `id` and returns its code: one more than the number of
    /// identifiers that were in the table.
    pub fn insert(&mut self, id: T) -> (code: u32)
        requires
            old(self)@.len() < u32::MAX,
        ensures
            final(self)@ == old(self)@.push(id),
            code == old(self)@.len() + 1,
            lookup(final(self)@, code as int) == Some(id),
    {
        proof {
            use_type_invariant(&*self);
        }
        let index: u32 = self.ids.len() as u32 + 1;
        let mut ids: Vec<T> = Vec::new();
        core::mem::swap(&mut ids, &mut self.ids);
        ids.push(id);
        *self = IdMap { ids };
        index
    }

    /// A clone of the identifier that `index` stands for; nothing for 0 and
    /// for a code that was never handed out.
    pub fn get(&self, index: u32) -> (id: Option<T>)
        ensures
            id is Some <==> lookup(self@, index as int) is Some,
            id matches Some(found) ==> cloned(lookup(self@, index as int)->0, found),
    {
        if index == 0 {
            return None;
        }
        let position: usize = (index - 1) as usize;
        if position < self.ids.len() {
            Some(self.ids[position].clone())
        } else {
            None
        }
    }
}

} // verus!

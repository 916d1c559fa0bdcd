//! One optional value for each of the two supported source managers.

use vstd::prelude::*;

verus! {

/// A value for each source manager whose data was found, `None` for one that
/// is absent. The two slots are fixed: there is no other key.
#[derive(Debug, PartialEq, Eq)]
pub struct ManagerData<T> {
    pub r2modman: Option<T>,
    pub thunderstore: Option<T>,
}

/// `f` may be called on whatever the slot holds.
pub open spec fn slot_accepted<T, U, F: FnOnce(T) -> Option<U>>(slot: Option<T>, f: F) -> bool {
    slot matches Some(value) ==> call_requires(f, (value,))
}

/// `after` is what `f` makes of the slot: an absent slot stays absent, a
/// present one becomes a result of `f` on its value.
pub open spec fn slot_transformed<T, U, F: FnOnce(T) -> Option<U>>(
    before: Option<T>,
    f: F,
    after: Option<U>,
) -> bool {
    match before {
        Some(value) => call_ensures(f, (value,), after),
        None => after is None,
    }
}

/// The slot after a transform that is the mathematical function `g`.
pub open spec fn slot_and_then<T, U>(slot: Option<T>, g: spec_fn(T) -> Option<U>) -> Option<U> {
    match slot {
        Some(value) => g(value),
        None => None,
    }
}

impl<T> ManagerData<T> {
    /// Both slots transformed by the mathematical function `g`.
    pub open spec fn spec_and_then<U>(self, g: spec_fn(T) -> Option<U>) -> ManagerData<U> {
        ManagerData {
            r2modman: slot_and_then(self.r2modman, g),
            thunderstore: slot_and_then(self.thunderstore, g),
        }
    }

    pub fn new(r2modman: Option<T>, thunderstore: Option<T>) -> (out: Self)
        ensures
            out.r2modman == r2modman,
            out.thunderstore == thunderstore,
    {
        ManagerData { r2modman, thunderstore }
    }

    /// Transforms each present slot by `f`, on its own; an absent slot stays
    /// absent, and a present one becomes absent where `f` returns `None`.
    pub fn and_then<U, F: FnOnce(T) -> Option<U> + Copy>(self, f: F) -> (out: ManagerData<U>)
        requires
            slot_accepted(self.r2modman, f),
            slot_accepted(self.thunderstore, f),
        ensures
            slot_transformed(self.r2modman, f, out.r2modman),
            slot_transformed(self.thunderstore, f, out.thunderstore),
    {
        ManagerData {
            r2modman: self.r2modman.and_then(f),
            thunderstore: self.thunderstore.and_then(f),
        }
    }
}

/// Where every result of `f` is the value of the function `g`, the transform
/// of a `ManagerData` by `f` is `g` applied to each present slot on its own,
/// with absent slots left absent.
pub proof fn lemma_and_then_is_slotwise<T, U, F: FnOnce(T) -> Option<U>>(
    data: ManagerData<T>,
    f: F,
    g: spec_fn(T) -> Option<U>,
    out: ManagerData<U>,
)
    requires
        forall|value: T, result: Option<U>| call_ensures(f, (value,), result) ==> result == g(value),
        slot_transformed(data.r2modman, f, out.r2modman),
        slot_transformed(data.thunderstore, f, out.thunderstore),
    ensures
        out == data.spec_and_then(g),
        data.r2modman is None ==> out.r2modman is None,
        data.thunderstore is None ==> out.thunderstore is None,
{
}

} // verus!

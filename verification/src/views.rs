//! Mathematical views of the optional and fallible values that the contracts
//! of this crate speak of.

use vstd::prelude::*;

verus! {

/// The texts of a list of strings.
pub open spec fn texts(v: Seq<String>) -> Seq<Seq<char>> {
    Seq::new(v.len(), |i: int| v[i]@)
}

/// The view of what an `Option` holds.
pub open spec fn some_view<T: View>(o: Option<T>) -> Option<T::V> {
    match o {
        Some(t) => Some(t@),
        None => None,
    }
}

/// The views of what a `Result` holds.
pub open spec fn result_view<T: View, E: View>(r: Result<T, E>) -> Result<T::V, E::V> {
    match r {
        Ok(t) => Ok(t@),
        Err(e) => Err(e@),
    }
}

/// The views of what a `Result` of an `Option` holds.
pub open spec fn maybe_view<T: View, E: View>(r: Result<Option<T>, E>) -> Result<
    Option<T::V>,
    E::V,
> {
    match r {
        Ok(o) => Ok(some_view(o)),
        Err(e) => Err(e@),
    }
}

} // verus!

//! Views of the values that carry text.
//!
//! Contracts speak of a `String` by its characters and of a record by the
//! characters of its fields. The helpers below carry that through `Option`
//! and `Result`.

use vstd::prelude::*;

verus! {

/// The view of a value that may be absent.
pub open spec fn option_view<T: View>(o: Option<T>) -> Option<T::V> {
    match o {
        Some(t) => Some(t@),
        None => None,
    }
}

/// The value behind a reference that may be absent.
pub open spec fn option_deref<T>(o: Option<&T>) -> Option<T> {
    match o {
        Some(t) => Some(*t),
        None => None,
    }
}

/// The view of a text behind a reference that may be absent.
pub open spec fn option_text(o: Option<&str>) -> Option<Seq<char>> {
    match o {
        Some(t) => Some(t@),
        None => None,
    }
}

/// A result with its value taken by its view.
pub open spec fn viewed<T: View, E>(r: Result<T, E>) -> Result<T::V, E> {
    match r {
        Ok(t) => Ok(t@),
        Err(e) => Err(e),
    }
}

/// A result with its value, which may be absent, taken by its view.
pub open spec fn viewed_option<T: View, E>(r: Result<Option<T>, E>) -> Result<Option<T::V>, E> {
    match r {
        Ok(o) => Ok(option_view(o)),
        Err(e) => Err(e),
    }
}

/// A result with both sides taken by their views.
pub open spec fn result_view<T: View, E: View>(r: Result<T, E>) -> Result<T::V, E::V> {
    match r {
        Ok(t) => Ok(t@),
        Err(e) => Err(e@),
    }
}

/// A result without a value, with the error taken by its view.
pub open spec fn outcome_view<E: View>(r: Result<(), E>) -> Result<(), E::V> {
    match r {
        Ok(_) => Ok(()),
        Err(e) => Err(e@),
    }
}

} // verus!

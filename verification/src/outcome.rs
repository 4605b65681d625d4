//! Results as the contracts see them: each value by what it holds.

use vstd::prelude::*;
use crate::error::{ErrorView, RepoError};

verus! {

/// What `r` holds.
pub open spec fn result_view<T: View>(r: Result<T, RepoError>) -> Result<T::V, ErrorView> {
    match r {
        Ok(t) => Ok(t@),
        Err(e) => Err(e@),
    }
}

/// What `r` holds, where success may come without a value.
pub open spec fn optional_view<T: View>(r: Result<Option<T>, RepoError>) -> Result<
    Option<T::V>,
    ErrorView,
> {
    match r {
        Ok(Some(t)) => Ok(Some(t@)),
        Ok(None) => Ok(None),
        Err(e) => Err(e@),
    }
}

/// What `r` holds, where success is a plain value.
pub open spec fn plain_view<T>(r: Result<T, RepoError>) -> Result<T, ErrorView> {
    match r {
        Ok(t) => Ok(t),
        Err(e) => Err(e@),
    }
}

} // verus!

//! What the styling loader answers: the compiled stylesheet, or the last one that
//! compiled when compiling fails.
use vstd::prelude::*;
use crate::styling::allowlist::{allowed_packages, is_allowed};
use crate::styling::error::StyleError;
use crate::text::owned;

verus! {

/// The stylesheet returned to the frontend.
#[derive(Debug, Clone)]
pub struct LoadResult {
    /// Compiled CSS.
    pub css: String,
    /// Whether this is the last stylesheet that compiled, served because the live compile
    /// failed.
    pub from_cache: bool,
}

/// A tool may be loaded only when it is on the allowlist; otherwise it is refused before
/// anything is fetched.
pub fn check_allowed(tool: &str) -> (r: Result<(), StyleError>)
    ensures
        allowed_packages().contains(tool@) ==> r is Ok,
        !allowed_packages().contains(tool@) ==> (r matches Err(StyleError::NotAllowed(t)) && t@
            == tool@),
{
    if is_allowed(tool) {
        Ok(())
    } else {
        Err(StyleError::NotAllowed(owned(tool)))
    }
}

/// The answer to a load, given the outcome of compiling and the last stylesheet that
/// compiled (if any is kept): a fresh stylesheet as is; after a failure, the last good one
/// marked as from the cache; and only when there is none, the failure.
pub fn load_outcome(compiled: Result<String, StyleError>, last_good: Option<String>) -> (r: Result<
    LoadResult,
    StyleError,
>)
    ensures
        match compiled {
            Ok(css) => r matches Ok(l) && l.css == css && !l.from_cache,
            Err(e) => match last_good {
                Some(css) => r matches Ok(l) && l.css == css && l.from_cache,
                None => r matches Err(x) && x == e,
            },
        },
{
    match compiled {
        Ok(css) => Ok(LoadResult { css, from_cache: false }),
        Err(e) => match last_good {
            Some(css) => Ok(LoadResult { css, from_cache: true }),
            None => Err(e),
        },
    }
}

} // verus!

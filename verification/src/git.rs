//! The git side of a run: the commands that are issued, what their output
//! means, and the two state machines that decide which command comes next.
use crate::utils::text::starts_with;
use crate::utils::url::{https_scheme, normalize, normalized};
use vstd::prelude::*;

pub mod branches;
pub mod command;
pub mod laws;
pub mod reconcile;
pub mod sync;

verus! {

/// The canonical HTTPS URL under which git is asked for the reference `url`.
pub fn normalize_url(url: &str) -> (r: String)
    ensures
        r@ == normalized(url@),
        starts_with(r@, https_scheme()),
{
    normalize(url)
}

} // verus!

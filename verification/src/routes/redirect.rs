//! A handler's answer that is either a redirection or a page.
use vstd::prelude::*;

verus! {

/// A redirection to an address, or a response of type `T`.
pub enum RedirectOr<T> {
    Redirect(String),
    Response(T),
}

} // verus!

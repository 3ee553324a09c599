//! A workaround wrapper for connectors that keep their error type private.
use vstd::prelude::*;

verus! {

/// Wraps a connector whose error type is not exposed, so that its failures
/// can be boxed where the connector is driven.
#[derive(Clone)]
pub struct BoxConnector<T: Clone>(pub T);

impl<T: Clone> BoxConnector<T> {
    /// The wrapped connector.
    pub fn get_ref(&self) -> (r: &T)
        ensures
            r == &self.0,
    {
        &self.0
    }
}

} // verus!

//! The context handed to fetch routines.
use vstd::prelude::*;

verus! {

/// Shared data handed to every fetch routine (a database handle, request data): one
/// value of type `C`, or nothing. It is not changed after it is made.
pub struct RelayContext<C> {
    data: Option<C>,
}

impl<C> View for RelayContext<C> {
    type V = Option<C>;

    closed spec fn view(&self) -> Option<C> {
        self.data
    }
}

impl<C> RelayContext<C> {
    /// A context that holds `data`.
    pub fn new(data: C) -> (r: Self)
        ensures
            r@ == Some(data),
    {
        RelayContext { data: Some(data) }
    }

    /// A context that holds nothing, for fetch routines that need no shared data.
    pub fn nil() -> (r: Self)
        ensures
            r@ is None,
    {
        RelayContext { data: None }
    }

    /// The value held, if there is one.
    pub fn get(&self) -> (r: Option<&C>)
        ensures
            self@ is None ==> r is None,
            self@ matches Some(d) ==> r matches Some(x) && *x == d,
    {
        match &self.data {
            Some(d) => Some(d),
            None => None,
        }
    }
}

} // verus!

//! Dispatchers: what a session hands each message of the peer to.

use super::runner::Rpc;
use vstd::prelude::*;

verus! {

/// Something that takes a message of the peer and may answer with a request
/// to send back, as a line of JSON.
///
/// The two specification functions say what a dispatcher is in the contract
/// of `call`. A dispatcher that is not verified leaves them as they stand.
pub trait Dispatch {
    /// Whether the dispatcher can be called with `req`.
    open spec fn takes(&self, req: Rpc) -> bool {
        arbitrary()
    }

    /// Whether `reply` is an answer the dispatcher may give to `req`.
    open spec fn gives(&self, req: Rpc, reply: Option<String>) -> bool {
        arbitrary()
    }

    /// Handles one message.
    fn call(&mut self, req: Rpc) -> (reply: Option<String>)
        requires
            old(self).takes(req),
        ensures
            old(self).gives(req, reply),
    ;
}

/// A dispatcher made of a function.
pub struct DispatchFn<F> {
    f: F,
}

impl<F> DispatchFn<F> {
    /// The function the dispatcher is made of.
    pub closed spec fn function(&self) -> F {
        self.f
    }
}

/// The dispatcher that answers each message as `f` does.
pub fn dispatch_fn<F>(f: F) -> (dispatch: DispatchFn<F>) where F: Fn(Rpc) -> Option<String>
    ensures
        dispatch.function() == f,
{
    DispatchFn { f }
}

impl<F> Dispatch for DispatchFn<F> where F: Fn(Rpc) -> Option<String> {
    open spec fn takes(&self, req: Rpc) -> bool {
        call_requires(self.function(), (req,))
    }

    open spec fn gives(&self, req: Rpc, reply: Option<String>) -> bool {
        call_ensures(self.function(), (req,), reply)
    }

    fn call(&mut self, req: Rpc) -> (reply: Option<String>) {
        (self.f)(req)
    }
}

/// Something that makes a dispatcher for each message.
pub trait NewDispatch {
    /// The dispatchers it makes.
    type Dispatch: Dispatch;

    /// Whether a dispatcher can be made.
    open spec fn ready(&self) -> bool {
        arbitrary()
    }

    /// Whether `dispatch` is a dispatcher it may make.
    open spec fn makes(&self, dispatch: Self::Dispatch) -> bool {
        arbitrary()
    }

    /// Makes a dispatcher.
    fn new_dispatch(&self) -> (dispatch: Self::Dispatch)
        requires
            self.ready(),
        ensures
            self.makes(dispatch),
    ;
}

impl<F, D> NewDispatch for F where F: Fn() -> D, D: Dispatch {
    type Dispatch = D;

    open spec fn ready(&self) -> bool {
        call_requires(*self, ())
    }

    open spec fn makes(&self, dispatch: D) -> bool {
        call_ensures(*self, (), dispatch)
    }

    fn new_dispatch(&self) -> (dispatch: D) {
        (*self)()
    }
}

} // verus!

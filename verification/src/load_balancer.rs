//! Load balancing: which server a call goes to, and what the balancer
//! learns of each call.

use vstd::prelude::*;

use crate::stub::RpcErrorKind;

verus! {

/// Identifies a server of a cluster.
pub type ServerId = u64;

/// What the load balancer needs to adjust its choices.
#[derive(Clone, Copy, Debug, PartialEq, Eq, Default)]
pub struct CallInfo {
    /// The error the call ended in, if any.
    pub error: Option<RpcErrorKind>,
    /// When the call started, in microseconds.
    pub start_usec: u64,
}

impl CallInfo {
    /// The information of a call that started at `start_usec` and ended in
    /// `error`.
    pub fn new(start_usec: u64, error: Option<RpcErrorKind>) -> (r: Self)
        ensures
            r.start_usec == start_usec,
            r.error == error,
    {
        CallInfo { start_usec, error }
    }
}

/// Picks the server for each call, and learns how calls went.
pub trait LoadBalance<E> {
    /// The server for the next call: its id and its end port.
    fn select_server(&mut self) -> (ServerId, &E);

    /// How a call to server `id` went.
    fn feed_back(&mut self, id: ServerId, call_info: CallInfo);
}

/// Load balancing for a single server: every call goes to it.
#[derive(Debug)]
pub struct SingleServerLoadBalancer<E> {
    service: E,
}

impl<E> SingleServerLoadBalancer<E> {
    /// A balancer over the one server `service`.
    pub fn new(service: E) -> (r: Self)
        ensures
            r.server() == service,
    {
        SingleServerLoadBalancer { service }
    }

    /// The server's end port.
    pub closed spec fn server(&self) -> E {
        self.service
    }
}

impl<E> LoadBalance<E> for SingleServerLoadBalancer<E> {
    fn select_server(&mut self) -> (r: (ServerId, &E))
        ensures
            r.0 == 0,
            *r.1 == old(self).server(),
            final(self).server() == old(self).server(),
    {
        (0, &self.service)
    }

    fn feed_back(&mut self, id: ServerId, call_info: CallInfo)
        ensures
            final(self).server() == old(self).server(),
    {
    }
}

} // verus!

//! Server settings.

use vstd::prelude::*;

use crate::protocol::{Protocol, RpcProtocol, SchemeModel};
use crate::protocol::brpc::BrpcParseState;
use crate::protocol::http::HttpStateModel;

verus! {

/// The settings of a server.
#[derive(Clone, Debug)]
pub struct ServerOption {
    /// The protocols a connection may speak, tried in this order.
    pub protocols: Vec<Protocol>,
}

/// A fresh scheme of protocol `p`.
pub open spec fn fresh_scheme(p: Protocol) -> SchemeModel {
    match p {
        Protocol::Brpc => SchemeModel::Brpc(BrpcParseState::ReadingHeader),
        Protocol::Http => SchemeModel::Http(HttpStateModel::ReadingHeader),
    }
}

impl Default for ServerOption {
    /// Brpc first, then http.
    fn default() -> (r: Self)
        ensures
            r.protocols@ == seq![Protocol::Brpc, Protocol::Http],
    {
        let mut protocols: Vec<Protocol> = Vec::new();
        protocols.push(Protocol::Brpc);
        protocols.push(Protocol::Http);
        ServerOption { protocols }
    }
}

impl ServerOption {
    /// The schemes a new connection tries, one fresh scheme per protocol, in
    /// order.
    pub fn schemes(&self) -> (r: Vec<RpcProtocol>)
        ensures
            r@.len() == self.protocols@.len(),
            forall|i: int| 0 <= i < r@.len() ==> (#[trigger] r@[i])@ == fresh_scheme(self.protocols@[i]),
    {
        let mut out: Vec<RpcProtocol> = Vec::new();
        let mut i: usize = 0;
        while i < self.protocols.len()
            invariant
                i <= self.protocols@.len(),
                out@.len() == i,
                forall|k: int| 0 <= k < i ==> (#[trigger] out@[k])@ == fresh_scheme(self.protocols@[k]),
            decreases self.protocols@.len() - i,
        {
            out.push(RpcProtocol::of(self.protocols[i]));
            i = i + 1;
        }
        out
    }
}

} // verus!

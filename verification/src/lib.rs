//! An RPC framework: message framing for the brpc and http protocols,
//! request dispatch, and the client and server bookkeeping around them.

pub mod buffer;
pub mod channel;
pub mod codec;
pub mod codegen;
pub mod controller;
pub mod descriptor;
pub mod dispatcher;
pub mod examples;
pub mod generator;
pub mod link;
pub mod load_balancer;
pub mod message;
pub mod monitor;
pub mod protocol;
pub mod server;
pub mod service;
pub mod stub;
pub mod text;
pub mod wire;

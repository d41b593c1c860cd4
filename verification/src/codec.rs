//! Codecs that turn the body of a package into a message and back.

use bytes::Bytes;
use std::marker::PhantomData;
use vstd::prelude::*;

use crate::buffer::{bytes_as_slice, bytes_content, bytes_from_vec};

verus! {

/// A message that travels in protobuf encoding.
pub trait ProtoMessage: View + Sized {
    /// The encoding of a message whose value is `m`.
    spec fn wire_of(m: Self::V) -> Seq<u8>;

    /// What decoding `b` gives: `None` when `b` encodes no such message.
    spec fn parse_wire(b: Seq<u8>) -> Option<Self::V>;

    /// The message is small enough for the 32-bit sizes of protobuf.
    spec fn fits(m: Self::V) -> bool;

    /// Decoding the encoding of a message gives the message back.
    proof fn lemma_roundtrip(m: Self::V)
        requires
            Self::fits(m),
        ensures
            Self::parse_wire(Self::wire_of(m)) == Some(m),
    ;

    /// Whether the message fits.
    fn check_fits(&self) -> (r: bool)
        ensures
            r == Self::fits(self@),
    ;

    /// Encodes the message.
    fn write_to_bytes(&self) -> (r: Vec<u8>)
        requires
            Self::fits(self@),
        ensures
            r@ == Self::wire_of(self@),
    ;

    /// Decodes a message from `buf`.
    fn parse_from_bytes(buf: &[u8]) -> (r: Option<Self>)
        ensures
            match Self::parse_wire(buf@) {
                None => r is None,
                Some(m) => r matches Some(x) && x@ == m,
            },
    ;
}

/// Why a body could not be decoded.
#[derive(Clone, Copy, Debug, PartialEq, Eq)]
pub enum ProtobufError {
    /// The bytes are not the encoding of a message of the expected type.
    WireError,
}

/// Turns bodies into request messages and response messages into bodies.
pub trait MethodCodec {
    /// The message decoded from a body.
    type Request;
    /// The message encoded into a body.
    type Response;

    /// `buf` decodes to a message.
    spec fn decodes(&self, buf: Seq<u8>) -> bool;

    /// `buf` decodes to `m`.
    spec fn decodes_to(&self, buf: Seq<u8>, m: Self::Request) -> bool;

    /// `m` can be encoded.
    spec fn encodable(&self, m: Self::Response) -> bool;

    /// `buf` is the encoding of `m`.
    spec fn encodes_to(&self, m: Self::Response, buf: Seq<u8>) -> bool;

    /// Decodes a message from a body.
    fn decode(&self, buf: Bytes) -> (r: Result<Self::Request, ProtobufError>)
        ensures
            r is Ok <==> self.decodes(bytes_content(buf)),
            r matches Ok(m) ==> self.decodes_to(bytes_content(buf), m),
    ;

    /// Encodes a message into a body.
    fn encode(&self, msg: Self::Response) -> (r: Result<Bytes, ProtobufError>)
        ensures
            r is Ok <==> self.encodable(msg),
            r matches Ok(b) ==> self.encodes_to(msg, bytes_content(b)),
    ;
}

/// The protobuf codec: requests of type `T` come in, responses of type `U`
/// go out.
#[derive(Debug)]
pub struct ProtobufCodec<T, U> {
    phantom: PhantomData<(T, U)>,
}

impl<T, U> Clone for ProtobufCodec<T, U> {
    fn clone(&self) -> (r: Self)
        ensures
            r == *self,
    {
        ProtobufCodec { phantom: PhantomData }
    }
}

impl<T, U> ProtobufCodec<T, U> {
    /// A new codec.
    pub fn new() -> (r: Self) {
        ProtobufCodec { phantom: PhantomData }
    }

    /// Another codec of the same types.
    pub fn duplicate(&self) -> (r: Self)
        ensures
            r == *self,
    {
        ProtobufCodec { phantom: PhantomData }
    }
}

impl<T: ProtoMessage, U: ProtoMessage> MethodCodec for ProtobufCodec<T, U> {
    type Request = T;
    type Response = U;

    open spec fn decodes(&self, buf: Seq<u8>) -> bool {
        T::parse_wire(buf) is Some
    }

    open spec fn decodes_to(&self, buf: Seq<u8>, m: T) -> bool {
        T::parse_wire(buf) == Some(m@)
    }

    open spec fn encodable(&self, m: U) -> bool {
        U::fits(m@)
    }

    open spec fn encodes_to(&self, m: U, buf: Seq<u8>) -> bool {
        buf == U::wire_of(m@)
    }

    fn decode(&self, buf: Bytes) -> (r: Result<T, ProtobufError>) {
        match T::parse_from_bytes(bytes_as_slice(&buf)) {
            Some(m) => Ok(m),
            None => Err(ProtobufError::WireError),
        }
    }

    fn encode(&self, msg: U) -> (r: Result<Bytes, ProtobufError>) {
        if !U::check_fits(&msg) {
            return Err(ProtobufError::WireError);
        }
        Ok(bytes_from_vec(msg.write_to_bytes()))
    }
}

/// What the protobuf codec encodes, it decodes back: the body made of a
/// message decodes, and only to that message.
pub proof fn lemma_codec_roundtrip<T: ProtoMessage>(codec: ProtobufCodec<T, T>, m: T, body: Seq<u8>, x: T)
    requires
        codec.encodable(m),
        codec.encodes_to(m, body),
    ensures
        codec.decodes(body),
        codec.decodes_to(body, x) ==> x@ == m@,
{
    T::lemma_roundtrip(m@);
}

} // verus!

//! The four fields of a request, and the call that carries them to the bridge.

use crate::buffer::{is_encoded, marshal, marshal_spec, EncodedBuffer};
use crate::error::Error;
use vstd::prelude::*;

verus! {

/// The four texts of one request. They are independent of each other.
#[derive(Debug)]
pub struct RequestFields {
    /// The content of the configuration file.
    pub config: String,
    /// The method of the request.
    pub method: String,
    /// The path of the request.
    pub path: String,
    /// The body of the request.
    pub body: String,
}

/// The four arguments of the bridge's one operation, in the order in which
/// the bridge takes them: config, method, path, body.
///
/// The call owns its buffers. They are made for one call of the bridge, lent
/// to it for as long as it runs, and released when the call is dropped.
#[derive(Debug)]
pub struct BridgeCall {
    /// The first argument: the encoded content of the configuration file.
    pub config: EncodedBuffer,
    /// The second argument: the encoded method.
    pub method: EncodedBuffer,
    /// The third argument: the encoded path.
    pub path: EncodedBuffer,
    /// The fourth argument: the encoded body.
    pub body: EncodedBuffer,
}

/// The bytes of the four arguments of a call, in the bridge's order.
pub struct CallView {
    pub config: Seq<u8>,
    pub method: Seq<u8>,
    pub path: Seq<u8>,
    pub body: Seq<u8>,
}

impl View for BridgeCall {
    type V = CallView;

    open spec fn view(&self) -> CallView {
        CallView {
            config: self.config@,
            method: self.method@,
            path: self.path@,
            body: self.body@,
        }
    }
}

/// What marshalling four fields yields: the four encodings, each in the place
/// of its field, or an encoding error where any one of the fields holds the
/// sentinel.
pub open spec fn marshal_fields_spec(
    config: Seq<char>,
    method: Seq<char>,
    path: Seq<char>,
    body: Seq<char>,
) -> Result<CallView, Error> {
    match (marshal_spec(config), marshal_spec(method), marshal_spec(path), marshal_spec(body)) {
        (Ok(config), Ok(method), Ok(path), Ok(body)) => Ok(CallView { config, method, path, body }),
        _ => Err(Error::Encoding),
    }
}

impl RequestFields {
    /// Marshals the four fields, each by itself, into the arguments of one
    /// call of the bridge.
    ///
    /// One field that cannot be encoded fails the whole request: no call is
    /// made up of the fields that could.
    pub fn marshal(&self) -> (result: Result<BridgeCall, Error>)
        ensures
            match result {
                Ok(call) => marshal_fields_spec(
                    self.config@,
                    self.method@,
                    self.path@,
                    self.body@,
                ) == Ok::<CallView, Error>(call@),
                Err(error) => marshal_fields_spec(
                    self.config@,
                    self.method@,
                    self.path@,
                    self.body@,
                ) == Err::<CallView, Error>(error),
            },
    {
        let config = match marshal(self.config.as_str()) {
            Ok(buffer) => buffer,
            Err(error) => {
                return Err(error);
            },
        };
        let method = match marshal(self.method.as_str()) {
            Ok(buffer) => buffer,
            Err(error) => {
                return Err(error);
            },
        };
        let path = match marshal(self.path.as_str()) {
            Ok(buffer) => buffer,
            Err(error) => {
                return Err(error);
            },
        };
        let body = match marshal(self.body.as_str()) {
            Ok(buffer) => buffer,
            Err(error) => {
                return Err(error);
            },
        };
        Ok(BridgeCall { config, method, path, body })
    }
}

impl BridgeCall {
    /// The bytes of the four arguments, in the order in which the bridge
    /// takes them: config, method, path, body. Each ends in its sentinel.
    pub fn arguments(&self) -> (arguments: (&[u8], &[u8], &[u8], &[u8]))
        ensures
            arguments.0@ == self@.config,
            arguments.1@ == self@.method,
            arguments.2@ == self@.path,
            arguments.3@ == self@.body,
            is_encoded(arguments.0@),
            is_encoded(arguments.1@),
            is_encoded(arguments.2@),
            is_encoded(arguments.3@),
    {
        (self.config.as_bytes(), self.method.as_bytes(), self.path.as_bytes(), self.body.as_bytes())
    }
}

} // verus!

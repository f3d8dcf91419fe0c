//! The greeter service: a stateless handler with no per-key state.
//!
//! Unlike the counter, a greeting reads and writes no durable state, so
//! its handler needs no invocation context at all: it is a pure function
//! of the request.

use vstd::prelude::*;
use vstd::string::StringExecFns;

verus! {

/// A request for a greeting.
#[derive(Debug)]
pub struct GreetRequest {
    pub name: String,
}

/// The greeter's interface: one stateless method.
pub trait GreeterService {
    /// Greets the request's name.
    fn greet(&self, request: &GreetRequest) -> (r: String)
        ensures
            r@ == "Hello, "@ + request.name@ + "!"@,
    ;
}

/// The greeter's handler.
pub struct GreeterServiceImpl;

impl GreeterService for GreeterServiceImpl {
    fn greet(&self, request: &GreetRequest) -> (r: String) {
        let mut out = "Hello, ".to_owned();
        out.append(request.name.as_str());
        out.append("!");
        out
    }
}

} // verus!

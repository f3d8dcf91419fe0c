//! The Generated Client: request construction and response
//! classification for a schema-derived RPC client.
//!
//! One call is one POST of a `WireRequest` followed by exactly one
//! outcome: the decoded return value, or exactly one error kind. The
//! transport itself (connection, timeout) is outside this library; a
//! caller that fails to obtain a response at all reports
//! `TransportError` and never reaches the classification below.

use vstd::prelude::*;
use crate::interface::{InterfaceDef, ParamDef, ParamType, RetType};
use crate::wire::{
    encode_payload, i64_from_json, json_decode_i64, path_of, payload_json, request_path, ArgValue,
};

verus! {

/// Everything a client call can fail with, exactly one kind per failure.
#[derive(Debug)]
pub enum DurableClientError {
    /// The transport failed before any response was obtained.
    TransportError,
    /// Parameter encoding or response-body decoding failed.
    SerializationError,
    /// A non-2xx response arrived with an empty body; the status code is
    /// the only diagnostic.
    HttpError(u16),
    /// A non-2xx response arrived with a body; the body text verbatim is
    /// the service-reported error message.
    ServiceError(String),
}

/// Whether a status code reports success on the wire: the 2xx range.
pub open spec fn is_success_status(status: u16) -> bool {
    200 <= status < 300
}

/// Tests a status code for the 2xx range.
pub fn status_is_success(status: u16) -> (r: bool)
    ensures
        r == is_success_status(status),
{
    200 <= status && status < 300
}

/// Classifies a response whose return type is i64: a 2xx body must
/// decode as one JSON integer; a non-2xx body, when present, is the
/// service's own error text; with no body only the status remains.
pub fn interpret_i64_response(status: u16, body: String) -> (r: Result<i64, DurableClientError>)
    ensures
        is_success_status(status) ==> (match i64_from_json(body@) {
            Some(v) => r == Ok::<i64, DurableClientError>(v),
            None => r == Err::<i64, DurableClientError>(DurableClientError::SerializationError),
        }),
        !is_success_status(status) && body@.len() > 0 ==> (r matches Err(
            DurableClientError::ServiceError(m),
        ) && m@ == body@),
        !is_success_status(status) && body@.len() == 0 ==> r == Err::<i64, DurableClientError>(
            DurableClientError::HttpError(status),
        ),
{
    if status_is_success(status) {
        match json_decode_i64(body.as_str()) {
            Some(v) => Ok(v),
            None => Err(DurableClientError::SerializationError),
        }
    } else if body.as_str().is_empty() {
        Err(DurableClientError::HttpError(status))
    } else {
        Err(DurableClientError::ServiceError(body))
    }
}

/// Classifies a response whose return type is unit: any 2xx response
/// succeeds and its body is ignored; failures classify as for i64.
pub fn interpret_unit_response(status: u16, body: String) -> (r: Result<(), DurableClientError>)
    ensures
        is_success_status(status) ==> r == Ok::<(), DurableClientError>(()),
        !is_success_status(status) && body@.len() > 0 ==> (r matches Err(
            DurableClientError::ServiceError(m),
        ) && m@ == body@),
        !is_success_status(status) && body@.len() == 0 ==> r == Err::<(), DurableClientError>(
            DurableClientError::HttpError(status),
        ),
{
    if status_is_success(status) {
        Ok(())
    } else if body.as_str().is_empty() {
        Err(DurableClientError::HttpError(status))
    } else {
        Err(DurableClientError::ServiceError(body))
    }
}

/// A decoded return value, one variant per declared return type.
#[derive(Clone, Copy, Debug, PartialEq, Eq, Structural)]
pub enum RetValue {
    Int(i64),
    Unit,
}

/// Classifies a response according to the method's declared return type.
pub fn interpret_response(ret: RetType, status: u16, body: String) -> (r: Result<
    RetValue,
    DurableClientError,
>)
    ensures
        ret == RetType::I64 && is_success_status(status) ==> (match i64_from_json(body@) {
            Some(v) => r == Ok::<RetValue, DurableClientError>(RetValue::Int(v)),
            None => r == Err::<RetValue, DurableClientError>(
                DurableClientError::SerializationError,
            ),
        }),
        ret == RetType::Unit && is_success_status(status) ==> r == Ok::<
            RetValue,
            DurableClientError,
        >(RetValue::Unit),
        !is_success_status(status) && body@.len() > 0 ==> (r matches Err(
            DurableClientError::ServiceError(m),
        ) && m@ == body@),
        !is_success_status(status) && body@.len() == 0 ==> r == Err::<
            RetValue,
            DurableClientError,
        >(DurableClientError::HttpError(status)),
{
    match ret {
        RetType::I64 => match interpret_i64_response(status, body) {
            Ok(v) => Ok(RetValue::Int(v)),
            Err(e) => Err(e),
        },
        RetType::Unit => match interpret_unit_response(status, body) {
            Ok(_) => Ok(RetValue::Unit),
            Err(e) => Err(e),
        },
    }
}

/// Whether one argument has a parameter's declared type.
pub open spec fn arg_matches(ty: ParamType, a: ArgValue) -> bool {
    match (ty, a) {
        (ParamType::I64, ArgValue::Int(_)) => true,
        (ParamType::Str, ArgValue::Str(_)) => true,
        _ => false,
    }
}

/// Whether a run of arguments fits a declared parameter list: same
/// length, each argument of its parameter's type.
pub open spec fn args_match(params: Seq<ParamDef>, args: Seq<ArgValue>) -> bool {
    &&& params.len() == args.len()
    &&& forall|i: int| 0 <= i < params.len() ==> arg_matches(params[i].ty, #[trigger] args[i])
}

/// One wire request, ready to send: the path to POST to, and the JSON
/// body where the method declares parameters (`None` means an empty
/// body and no content type).
pub struct WireRequest {
    pub path: String,
    pub body: Option<String>,
}

/// Checks a run of arguments against a declared parameter list.
fn check_args(params: &Vec<ParamDef>, args: &Vec<ArgValue>) -> (r: bool)
    ensures
        r == args_match(params@, args@),
{
    if params.len() != args.len() {
        return false;
    }
    let n = params.len();
    let mut i: usize = 0;
    while i < n
        invariant
            n == params@.len(),
            params@.len() == args@.len(),
            0 <= i <= n,
            forall|m: int| 0 <= m < i ==> arg_matches(params@[m].ty, #[trigger] args@[m]),
        decreases n - i,
    {
        let ok = match (&params[i].ty, &args[i]) {
            (ParamType::I64, ArgValue::Int(_)) => true,
            (ParamType::Str, ArgValue::Str(_)) => true,
            _ => false,
        };
        if !ok {
            return false;
        }
        i = i + 1;
    }
    true
}

/// Builds the wire request for one call: the method is looked up in the
/// interface, the arguments are checked against its declared parameters,
/// and the path and payload follow the wire convention. `None` exactly
/// when the interface has no method of that name or the arguments do not
/// fit its parameter list.
pub fn build_request(
    iface: &InterfaceDef,
    method_name: &String,
    base_url: &str,
    instance_key: &str,
    args: &Vec<ArgValue>,
) -> (r: Option<WireRequest>)
    ensures
        match iface.spec_find(method_name@) {
            Some(m) => {
                &&& (r is Some <==> args_match(m.params@, args@))
                &&& match r {
                    Some(w) => {
                        &&& w.path@ == path_of(base_url@, iface.name@, instance_key@, method_name@)
                        &&& (m.params@.len() == 0 ==> w.body is None)
                        &&& (m.params@.len() > 0 ==> (match w.body {
                            Some(b) => b@ == payload_json(m.params@, args@),
                            None => false,
                        }))
                    },
                    None => true,
                }
            },
            None => r is None,
        },
{
    let m = match iface.find_method(method_name) {
        Some(m) => m,
        None => {
            return None;
        },
    };
    if !check_args(&m.params, args) {
        return None;
    }
    let path = request_path(base_url, iface.name.as_str(), instance_key, method_name.as_str());
    let body = if m.params.len() == 0 {
        None
    } else {
        Some(encode_payload(&m.params, args))
    };
    Some(WireRequest { path, body })
}

/// A Generated Client compiled from an interface: it holds the schema,
/// the transport base URL, and the explicit instance key every call
/// addresses. It keeps no per-call state, so one value may serve any
/// number of calls.
pub struct GeneratedClient {
    pub iface: InterfaceDef,
    pub base_url: String,
    pub instance_key: String,
}

impl GeneratedClient {
    /// Compiles a client from an interface. The instance key is a
    /// required, explicit configuration value: the client never invents
    /// one.
    pub fn new(iface: InterfaceDef, base_url: String, instance_key: String) -> (r: Self)
        ensures
            r.iface == iface,
            r.base_url == base_url,
            r.instance_key == instance_key,
    {
        GeneratedClient { iface, base_url, instance_key }
    }

    /// The wire request for one call of one method, per `build_request`.
    pub fn request(&self, method_name: &String, args: &Vec<ArgValue>) -> (r: Option<WireRequest>)
        ensures
            match self.iface.spec_find(method_name@) {
                Some(m) => {
                    &&& (r is Some <==> args_match(m.params@, args@))
                    &&& match r {
                        Some(w) => {
                            &&& w.path@ == path_of(
                                self.base_url@,
                                self.iface.name@,
                                self.instance_key@,
                                method_name@,
                            )
                            &&& (m.params@.len() == 0 ==> w.body is None)
                            &&& (m.params@.len() > 0 ==> (match w.body {
                                Some(b) => b@ == payload_json(m.params@, args@),
                                None => false,
                            }))
                        },
                        None => true,
                    }
                },
                None => r is None,
            },
    {
        build_request(
            &self.iface,
            method_name,
            self.base_url.as_str(),
            self.instance_key.as_str(),
            args,
        )
    }
}

} // verus!

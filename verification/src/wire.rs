//! The wire convention: how a request addresses a method and how its
//! parameters travel.
//!
//! A request for method `m` of service `S` against instance key `k` is a
//! POST to `{base_url}/{S}/{k}/{m}`. A method with no parameters sends no
//! body; otherwise the body is a JSON object mapping each parameter name
//! to its encoded value, in the method's declared parameter order. The
//! JSON text of the individual values comes from serde_json; the framing
//! of the object and of the path is built and proved here.

use vstd::prelude::*;
use vstd::string::StringExecFns;
use crate::interface::ParamDef;

verus! {

/// A runtime argument for one declared parameter.
#[derive(Debug)]
pub enum ArgValue {
    Int(i64),
    Str(String),
}

/// The JSON text serde_json emits for a string: the quoted, escaped form.
pub uninterp spec fn json_string_of(s: Seq<char>) -> Seq<char>;

/// The value serde_json recovers from text that should hold one JSON
/// integer: `None` where the text is not a well-formed JSON value of
/// that shape.
pub uninterp spec fn i64_from_json(s: Seq<char>) -> Option<i64>;

/// The decimal digit character for one value of 0 through 9.
pub open spec fn dec_digit(n: int) -> char {
    if n == 0 {
        '0'
    } else if n == 1 {
        '1'
    } else if n == 2 {
        '2'
    } else if n == 3 {
        '3'
    } else if n == 4 {
        '4'
    } else if n == 5 {
        '5'
    } else if n == 6 {
        '6'
    } else if n == 7 {
        '7'
    } else if n == 8 {
        '8'
    } else {
        '9'
    }
}

/// The plain decimal rendering of a nonnegative integer, no leading
/// zeros except for 0 itself.
pub open spec fn dec_nat(n: int) -> Seq<char>
    recommends
        n >= 0,
    decreases n,
{
    if n < 10 {
        seq![dec_digit(n)]
    } else {
        dec_nat(n / 10).push(dec_digit(n % 10))
    }
}

/// The JSON text of a signed integer: its decimal rendering, with a
/// leading minus sign when negative.
pub open spec fn json_of_i64(v: int) -> Seq<char> {
    if v < 0 {
        seq!['-'] + dec_nat(-v)
    } else {
        dec_nat(v)
    }
}

/// The JSON text of one argument value.
pub open spec fn arg_json(a: ArgValue) -> Seq<char> {
    match a {
        ArgValue::Int(v) => json_of_i64(v as int),
        ArgValue::Str(s) => json_string_of(s@),
    }
}

/// One member of the payload object: encoded name, colon, encoded value.
pub open spec fn entry_json(p: ParamDef, a: ArgValue) -> Seq<char> {
    json_string_of(p.name@) + seq![':'] + arg_json(a)
}

/// The members of the payload object from position `i` on, separated by
/// commas, in declared parameter order.
pub open spec fn entries_json_from(params: Seq<ParamDef>, args: Seq<ArgValue>, i: int) -> Seq<char>
    recommends
        params.len() == args.len(),
    decreases params.len() - i,
{
    if i < 0 || i >= params.len() || params.len() != args.len() {
        Seq::empty()
    } else if i == params.len() - 1 {
        entry_json(params[i], args[i])
    } else {
        entry_json(params[i], args[i]) + seq![','] + entries_json_from(params, args, i + 1)
    }
}

/// The whole payload object: the members in braces.
pub open spec fn payload_json(params: Seq<ParamDef>, args: Seq<ArgValue>) -> Seq<char> {
    seq!['{'] + entries_json_from(params, args, 0) + seq!['}']
}

/// The request path addressing one method of one service instance.
pub open spec fn path_of(base: Seq<char>, service: Seq<char>, key: Seq<char>, method: Seq<char>)
    -> Seq<char> {
    base + seq!['/'] + service + seq!['/'] + key + seq!['/'] + method
}

/// Relies on serde_json::to_string on an i64, which emits the plain
/// decimal rendering of the value and cannot fail for an integer.
#[verifier::external_body]
fn json_encode_i64(v: i64) -> (r: String)
    ensures
        r@ == json_of_i64(v as int),
{
    match serde_json::to_string(&v) {
        Ok(s) => s,
        Err(_) => String::new(),
    }
}

/// Relies on serde_json::to_string on a &str, which emits the quoted,
/// escaped JSON string and cannot fail for valid UTF-8 input.
#[verifier::external_body]
fn json_encode_str(s: &str) -> (r: String)
    ensures
        r@ == json_string_of(s@),
{
    match serde_json::to_string(s) {
        Ok(t) => t,
        Err(_) => String::new(),
    }
}

/// Relies on serde_json::from_str at type i64, whose result depends on
/// the input text alone.
#[verifier::external_body]
pub(crate) fn json_decode_i64(s: &str) -> (r: Option<i64>)
    ensures
        r == i64_from_json(s@),
{
    match serde_json::from_str::<i64>(s) {
        Ok(v) => Some(v),
        Err(_) => None,
    }
}

/// Builds the request path `{base}/{service}/{key}/{method}`.
pub fn request_path(base_url: &str, service: &str, key: &str, method: &str) -> (r: String)
    ensures
        r@ == path_of(base_url@, service@, key@, method@),
{
    let mut out = base_url.to_owned();
    out.append("/");
    out.append(service);
    out.append("/");
    out.append(key);
    out.append("/");
    out.append(method);
    proof {
        reveal_strlit("/");
        assert(out@ =~= path_of(base_url@, service@, key@, method@));
    }
    out
}

/// Builds the JSON payload object for one call: each declared parameter's
/// name mapped to its argument's JSON text, in declared order.
pub fn encode_payload(params: &Vec<ParamDef>, args: &Vec<ArgValue>) -> (r: String)
    requires
        params@.len() == args@.len(),
    ensures
        r@ == payload_json(params@, args@),
{
    let mut out = String::new();
    out.append("{");
    proof {
        reveal_strlit("{");
        assert(out@ =~= seq!['{']);
    }
    let n = params.len();
    let mut i: usize = 0;
    while i < n
        invariant
            n == params@.len(),
            params@.len() == args@.len(),
            0 <= i <= n,
            seq!['{'] + entries_json_from(params@, args@, 0) =~= out@ + entries_json_from(
                params@,
                args@,
                i as int,
            ),
        decreases n - i,
    {
        let ghost out0 = out@;
        let name_text = json_encode_str(params[i].name.as_str());
        out.append(name_text.as_str());
        out.append(":");
        match &args[i] {
            ArgValue::Int(v) => {
                let value_text = json_encode_i64(*v);
                out.append(value_text.as_str());
            },
            ArgValue::Str(s) => {
                let value_text = json_encode_str(s.as_str());
                out.append(value_text.as_str());
            },
        }
        proof {
            reveal_strlit(":");
            assert(out@ =~= out0 + entry_json(params@[i as int], args@[i as int]));
        }
        if i + 1 < n {
            out.append(",");
            proof {
                reveal_strlit(",");
                assert(out@ =~= out0 + entry_json(params@[i as int], args@[i as int]) + seq![',']);
                assert(entries_json_from(params@, args@, i as int) =~= entry_json(
                    params@[i as int],
                    args@[i as int],
                ) + seq![','] + entries_json_from(params@, args@, i as int + 1));
                assert(seq!['{'] + entries_json_from(params@, args@, 0) =~= out@
                    + entries_json_from(params@, args@, i as int + 1));
            }
        } else {
            proof {
                assert(entries_json_from(params@, args@, i as int) =~= entry_json(
                    params@[i as int],
                    args@[i as int],
                ));
                assert(entries_json_from(params@, args@, i as int + 1) =~= Seq::<char>::empty());
                assert(seq!['{'] + entries_json_from(params@, args@, 0) =~= out@
                    + entries_json_from(params@, args@, i as int + 1));
            }
        }
        i = i + 1;
    }
    out.append("}");
    proof {
        reveal_strlit("}");
        assert(out@ =~= payload_json(params@, args@));
    }
    out
}

} // verus!

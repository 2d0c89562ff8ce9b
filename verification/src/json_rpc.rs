//! JSON-RPC 2.0 envelopes for the exchange service.
//!
//! A request carries the protocol version, a method name, typed parameters
//! and a per-request correlation id; a response carries either a result or a
//! structured remote error, and never silently both or neither.

use vstd::prelude::*;
use vstd::string::StringExecFns;
use crate::errors::{errorCode, Error};

verus! {

/// The hexadecimal digit character for a value below 16.
pub open spec fn hex_digit_char(d: nat) -> char {
    if d == 0 {
        '0'
    } else if d == 1 {
        '1'
    } else if d == 2 {
        '2'
    } else if d == 3 {
        '3'
    } else if d == 4 {
        '4'
    } else if d == 5 {
        '5'
    } else if d == 6 {
        '6'
    } else if d == 7 {
        '7'
    } else if d == 8 {
        '8'
    } else if d == 9 {
        '9'
    } else if d == 10 {
        'a'
    } else if d == 11 {
        'b'
    } else if d == 12 {
        'c'
    } else if d == 13 {
        'd'
    } else if d == 14 {
        'e'
    } else {
        'f'
    }
}

/// Lower-case hexadecimal rendering of a natural number, most significant
/// digit first, without leading zeroes (zero itself renders as "0").
pub open spec fn hex_repr(n: nat) -> Seq<char>
    decreases n,
{
    if n < 16 {
        seq![hex_digit_char(n)]
    } else {
        hex_repr(n / 16) + seq![hex_digit_char(n % 16)]
    }
}

/// True for the characters that can appear in a lower-case hexadecimal
/// rendering.
pub open spec fn is_hex_digit(c: char) -> bool {
    ('0' <= c && c <= '9') || ('a' <= c && c <= 'f')
}

/// Every character of a hexadecimal rendering is a hexadecimal digit.
pub proof fn lemma_hex_repr_digits(n: nat)
    ensures
        forall|i: int| 0 <= i < hex_repr(n).len() ==> is_hex_digit(#[trigger] hex_repr(n)[i]),
    decreases n,
{
    if n < 16 {
        assert(hex_repr(n)[0] == hex_digit_char(n));
        assert(is_hex_digit(hex_digit_char(n)));
    } else {
        lemma_hex_repr_digits(n / 16);
        assert forall|i: int| 0 <= i < hex_repr(n).len() implies is_hex_digit(
            hex_repr(n)[i],
        ) by {
            if i < hex_repr(n / 16).len() {
                assert(hex_repr(n)[i] == hex_repr(n / 16)[i]);
            } else {
                assert(hex_repr(n)[i] == hex_digit_char(n % 16));
                assert(is_hex_digit(hex_digit_char(n % 16)));
            }
        }
    }
}

/// Sixteen to the power `k`.
pub open spec fn pow16(k: nat) -> nat
    decreases k,
{
    if k == 0 {
        1
    } else {
        16 * pow16((k - 1) as nat)
    }
}

/// `16^32` written out: the bound that keeps a 128-bit number within 32
/// hexadecimal digits.
pub proof fn lemma_pow16_32()
    ensures
        pow16(32) == 0x1_0000_0000_0000_0000_0000_0000_0000_0000,
{
    reveal_with_fuel(pow16, 33);
}

/// A number below `16^k` renders in at most `k` hexadecimal digits.
pub proof fn lemma_hex_repr_len(n: nat, k: nat)
    requires
        k >= 1,
        n < pow16(k),
    ensures
        1 <= hex_repr(n).len() <= k,
    decreases k,
{
    if n < 16 {
    } else {
        assert(pow16(k) == 16 * pow16((k - 1) as nat));
        assert(n / 16 < pow16((k - 1) as nat)) by (nonlinear_arith)
            requires
                n < 16 * pow16((k - 1) as nat),
                n >= 16,
        ;
        assert((k - 1) as nat >= 1) by {
            if k == 1 {
                assert(pow16(1nat) == 16);
            }
        }
        lemma_hex_repr_len(n / 16, (k - 1) as nat);
    }
}

/// The hexadecimal digit character for a value below 16.
fn hex_digit_str(d: u128) -> (s: &'static str)
    requires
        d < 16,
    ensures
        s@ =~= seq![hex_digit_char(d as nat)],
{
    if d == 0 {
        proof { reveal_strlit("0"); }
        "0"
    } else if d == 1 {
        proof { reveal_strlit("1"); }
        "1"
    } else if d == 2 {
        proof { reveal_strlit("2"); }
        "2"
    } else if d == 3 {
        proof { reveal_strlit("3"); }
        "3"
    } else if d == 4 {
        proof { reveal_strlit("4"); }
        "4"
    } else if d == 5 {
        proof { reveal_strlit("5"); }
        "5"
    } else if d == 6 {
        proof { reveal_strlit("6"); }
        "6"
    } else if d == 7 {
        proof { reveal_strlit("7"); }
        "7"
    } else if d == 8 {
        proof { reveal_strlit("8"); }
        "8"
    } else if d == 9 {
        proof { reveal_strlit("9"); }
        "9"
    } else if d == 10 {
        proof { reveal_strlit("a"); }
        "a"
    } else if d == 11 {
        proof { reveal_strlit("b"); }
        "b"
    } else if d == 12 {
        proof { reveal_strlit("c"); }
        "c"
    } else if d == 13 {
        proof { reveal_strlit("d"); }
        "d"
    } else if d == 14 {
        proof { reveal_strlit("e"); }
        "e"
    } else {
        proof { reveal_strlit("f"); }
        "f"
    }
}

/// Renders a number in lower-case hexadecimal.
pub fn u128_hex(n: u128) -> (s: String)
    ensures
        s@ == hex_repr(n as nat),
    decreases n,
{
    if n < 16 {
        hex_digit_str(n).to_owned()
    } else {
        assert(n / 16 < n) by (nonlinear_arith)
            requires
                n >= 16,
        ;
        let mut s = u128_hex(n / 16);
        s.append(hex_digit_str(n % 16));
        s
    }
}

/// True for the characters that can appear in a decimal rendering.
pub open spec fn is_dec_digit(c: char) -> bool {
    '0' <= c && c <= '9'
}

/// Decimal rendering of a natural number, most significant digit first,
/// without leading zeroes (zero itself renders as "0").  Digits below ten
/// have the same character in decimal and hexadecimal.
pub open spec fn dec_repr(n: nat) -> Seq<char>
    decreases n,
{
    if n < 10 {
        seq![hex_digit_char(n)]
    } else {
        dec_repr(n / 10) + seq![hex_digit_char(n % 10)]
    }
}

/// Every character of a decimal rendering is a decimal digit.
pub proof fn lemma_dec_repr_digits(n: nat)
    ensures
        dec_repr(n).len() >= 1,
        forall|i: int| 0 <= i < dec_repr(n).len() ==> is_dec_digit(#[trigger] dec_repr(n)[i]),
    decreases n,
{
    if n < 10 {
        assert(dec_repr(n)[0] == hex_digit_char(n));
        assert(is_dec_digit(hex_digit_char(n)));
    } else {
        lemma_dec_repr_digits(n / 10);
        assert forall|i: int| 0 <= i < dec_repr(n).len() implies is_dec_digit(
            dec_repr(n)[i],
        ) by {
            if i < dec_repr(n / 10).len() {
                assert(dec_repr(n)[i] == dec_repr(n / 10)[i]);
            } else {
                assert(dec_repr(n)[i] == hex_digit_char(n % 10));
                assert(is_dec_digit(hex_digit_char(n % 10)));
            }
        }
    }
}

/// Renders a number in decimal.
pub fn u128_dec(n: u128) -> (s: String)
    ensures
        s@ == dec_repr(n as nat),
    decreases n,
{
    if n < 10 {
        hex_digit_str(n).to_owned()
    } else {
        assert(n / 10 < n) by (nonlinear_arith)
            requires
                n >= 10,
        ;
        let mut s = u128_dec(n / 10);
        s.append(hex_digit_str(n % 10));
        s
    }
}

/// Relies on `rand::random`: draws a fresh value from the thread-local
/// generator.  Nothing can be promised of a random value.
pub assume_specification<T>[ rand::random::<T> ]() -> (r: T)
    where
        rand::distributions::Standard: rand::distributions::Distribution<T>,
;

/// A JSON-RPC 2.0 request envelope.
pub struct RpcRequest<T> {
    pub jsonrpc: String,
    pub method: String,
    pub params: T,
    pub id: String,
}

impl<T> RpcRequest<T> {
    /// Builds a request envelope for `method`, stamping protocol version
    /// "2.0" and a freshly drawn hexadecimal correlation id of at most 32
    /// digits.  The id is generated per request; the remote service is
    /// assumed (not verified) to echo it.
    pub fn new(method: String, params: T) -> (r: RpcRequest<T>)
        ensures
            r.jsonrpc@ == "2.0"@,
            r.method == method,
            r.params == params,
            1 <= r.id@.len() <= 32,
            forall|i: int| 0 <= i < r.id@.len() ==> is_hex_digit(#[trigger] r.id@[i]),
    {
        let nonce: u128 = rand::random();
        let id = u128_hex(nonce);
        proof {
            lemma_hex_repr_digits(nonce as nat);
            lemma_pow16_32();
            lemma_hex_repr_len(nonce as nat, 32);
        }
        RpcRequest { jsonrpc: "2.0".to_owned(), method, params, id }
    }
}

/// A structured remote error inside a response envelope.
#[derive(Debug)]
pub struct RpcError {
    pub code: i32,
    pub message: errorCode,
}

/// A JSON-RPC 2.0 response envelope: a result or a structured error.
pub struct RpcResponse<T> {
    pub jsonrpc: String,
    pub result: Option<T>,
    pub error: Option<RpcError>,
    pub id: String,
}

impl<T> RpcResponse<T> {
    /// Collapses the envelope into the call's outcome.  A structured error
    /// wins over any result; an envelope with neither result nor error is a
    /// protocol violation, reported as its own error and never coerced into
    /// a value.
    pub fn into_inner(self) -> (r: Result<T, Error>)
        ensures
            self.error matches Some(e) ==> r == Result::<T, Error>::Err(
                Error::APINGException(e.message),
            ),
            self.error is None && self.result is Some ==> r == Result::<T, Error>::Ok(
                self.result.unwrap(),
            ),
            self.error is None && self.result is None ==> r == Result::<T, Error>::Err(
                Error::JSONRPCError,
            ),
    {
        match (self.error, self.result) {
            (Some(rpc_error), _) => Err(Error::APINGException(rpc_error.message)),
            (None, Some(result)) => Ok(result),
            (None, None) => Err(Error::JSONRPCError),
        }
    }
}

} // verus!

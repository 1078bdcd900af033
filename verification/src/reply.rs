//! Decoding the controller's reply body.
//!
//! The wire contract chosen here is the bare-integer form: the reply body is
//! exactly the decimal text of the status code, a JSON integer literal with
//! nothing around it. Anything else — an empty body, stray characters, a
//! leading zero, a value outside `i32` — decodes to `Error`.

use vstd::prelude::*;

use crate::status::spec_decode;
use crate::status::ServerResponse;

verus! {

/// A decimal digit byte, `'0'` through `'9'`.
pub open spec fn is_digit_byte(b: u8) -> bool {
    48 <= b <= 57
}

/// A nonempty run of digit bytes.
pub open spec fn all_digits(s: Seq<u8>) -> bool {
    s.len() > 0 && (forall|i: int| 0 <= i < s.len() ==> is_digit_byte(#[trigger] s[i]))
}

/// A digit run as JSON writes one: no leading zero unless the run is `"0"`.
pub open spec fn is_canonical_digits(s: Seq<u8>) -> bool {
    all_digits(s) && (s.len() > 1 ==> s[0] != 48)
}

/// The number a digit run names, most significant digit first.
pub open spec fn digits_value(s: Seq<u8>) -> int
    decreases s.len(),
{
    if s.len() == 0 {
        0
    } else {
        digits_value(s.drop_last()) * 10 + (s.last() - 48)
    }
}

/// A JSON integer literal: an optional minus sign, then canonical digits.
pub open spec fn is_int_literal(s: Seq<u8>) -> bool {
    if s.len() > 0 && s[0] == 45 {
        is_canonical_digits(s.subrange(1, s.len() as int))
    } else {
        is_canonical_digits(s)
    }
}

/// The value an integer literal names.
pub open spec fn int_literal_value(s: Seq<u8>) -> int {
    if s.len() > 0 && s[0] == 45 {
        -digits_value(s.subrange(1, s.len() as int))
    } else {
        digits_value(s)
    }
}

/// What a reply body decodes to: the state named by its code when the body is
/// an integer literal in `i32` range, and `Error` on anything else.
pub open spec fn spec_reply_status(s: Seq<u8>) -> ServerResponse {
    if is_int_literal(s) && i32::MIN <= int_literal_value(s) <= i32::MAX {
        spec_decode(int_literal_value(s))
    } else {
        ServerResponse::Error
    }
}

spec fn pow10(k: nat) -> int
    decreases k,
{
    if k == 0 {
        1
    } else {
        10 * pow10((k - 1) as nat)
    }
}

proof fn lemma_pow10_pos(k: nat)
    ensures
        0 < pow10(k),
    decreases k,
{
    if k > 0 {
        lemma_pow10_pos((k - 1) as nat);
    }
}

proof fn lemma_pow10_increases(a: nat, b: nat)
    requires
        a <= b,
    ensures
        0 < pow10(a) <= pow10(b),
    decreases b,
{
    lemma_pow10_pos(a);
    if a < b {
        lemma_pow10_increases(a, (b - 1) as nat);
        lemma_pow10_pos((b - 1) as nat);
    }
}

proof fn lemma_digits_value_lower(s: Seq<u8>)
    requires
        all_digits(s),
        s[0] != 48,
    ensures
        digits_value(s) >= pow10((s.len() - 1) as nat),
    decreases s.len(),
{
    if s.len() == 1 {
        assert(digits_value(s) == digits_value(s.drop_last()) * 10 + (s.last() - 48));
    } else {
        assert(s.drop_last()[0] == s[0]);
        assert(all_digits(s.drop_last()));
        lemma_digits_value_lower(s.drop_last());
    }
}

/// Parses a reply body as a status code: `Some` exactly when the body is a
/// JSON integer literal whose value fits in an `i32`.
pub fn parse_reply(body: &[u8]) -> (r: Option<i32>)
    ensures
        r is Some <==> is_int_literal(body@) && i32::MIN <= int_literal_value(body@)
            <= i32::MAX,
        r matches Some(v) ==> v as int == int_literal_value(body@),
{
    let n = body.len();
    if n == 0 {
        return None;
    }
    let neg = body[0] == 45u8;
    let start: usize = if neg { 1 } else { 0 };
    if start == n {
        // a bare minus sign has no digits
        return None;
    }
    let ghost d: Seq<u8> = body@.subrange(start as int, n as int);
    proof {
        if !neg {
            assert(d =~= body@);
        }
    }
    let mut i = start;
    while i < n
        invariant
            start <= i <= n,
            start < n,
            n == body@.len(),
            start == (if neg { 1usize } else { 0usize }),
            neg == (body@[0] == 45),
            d == body@.subrange(start as int, n as int),
            forall|j: int| start <= j < i ==> is_digit_byte(#[trigger] body@[j]),
        decreases n - i,
    {
        let b = body[i];
        if b < 48 || b > 57 {
            proof {
                assert(d[i - start] == body@[i as int]);
                assert(!is_digit_byte(d[i - start]));
                assert(!all_digits(d));
                if !neg {
                    assert(d =~= body@);
                }
                assert(!is_int_literal(body@));
            }
            return None;
        }
        i += 1;
    }
    proof {
        assert(forall|j: int| 0 <= j < d.len() ==> is_digit_byte(#[trigger] d[j]));
        assert(all_digits(d));
    }
    if n - start > 1 && body[start] == 48 {
        // a leading zero is not canonical JSON
        proof {
            assert(d[0] == 48);
            assert(!is_canonical_digits(d));
        }
        return None;
    }
    proof {
        assert(is_canonical_digits(d));
        assert(is_int_literal(body@));
    }
    if n - start > 10 {
        // eleven or more digits without a leading zero always overflow an i32
        proof {
            assert(d[0] != 48);
            lemma_digits_value_lower(d);
            lemma_pow10_increases(10, (d.len() - 1) as nat);
            reveal_with_fuel(pow10, 11);
            assert(pow10(10) == 10000000000);
            assert(digits_value(d) >= 10000000000);
        }
        return None;
    }
    let mut acc: i64 = 0;
    let mut i = start;
    while i < n
        invariant
            start <= i <= n,
            n == body@.len(),
            n - start <= 10,
            d == body@.subrange(start as int, n as int),
            all_digits(d),
            acc == digits_value(body@.subrange(start as int, i as int)),
            0 <= acc < pow10((i - start) as nat),
        decreases n - i,
    {
        let b = body[i];
        proof {
            let pre = body@.subrange(start as int, i as int);
            let post = body@.subrange(start as int, i + 1 as int);
            assert(post.drop_last() =~= pre);
            assert(post.last() == body@[i as int]);
            assert(d[i - start] == body@[i as int]);
            assert(is_digit_byte(body@[i as int]));
            lemma_pow10_increases((i - start) as nat, 9);
            reveal_with_fuel(pow10, 11);
            assert(pow10(9) == 1000000000);
        }
        acc = acc * 10 + ((b - 48) as i64);
        i += 1;
    }
    proof {
        assert(body@.subrange(start as int, n as int) == d);
        assert(acc == digits_value(d));
        lemma_pow10_increases((n - start) as nat, 10);
        reveal_with_fuel(pow10, 11);
        assert(pow10(10) == 10000000000);
        assert(0 <= acc <= 10000000000);
    }
    let val: i64 = if neg { -acc } else { acc };
    if val < -2147483648i64 || val > 2147483647i64 {
        return None;
    }
    Some(val as i32)
}

/// Decodes a reply body to the displayed status: malformed bodies and
/// out-of-range codes collapse to `Error`.
pub fn decode_reply(body: &[u8]) -> (r: ServerResponse)
    ensures
        r == spec_reply_status(body@),
{
    match parse_reply(body) {
        Some(code) => ServerResponse::from_i32(code),
        None => ServerResponse::Error,
    }
}

/// What a submit outcome displays: the decoded reply body, or `Error` when
/// transport failed and there is no body to decode.
pub fn decode_outcome(reply: Option<&[u8]>) -> (r: ServerResponse)
    ensures
        r == (match reply {
            Some(body) => spec_reply_status(body@),
            None => ServerResponse::Error,
        }),
{
    match reply {
        Some(body) => decode_reply(body),
        None => ServerResponse::Error,
    }
}

} // verus!

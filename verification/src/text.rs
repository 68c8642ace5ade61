use vstd::prelude::*;

verus! {

use vstd::string::StringSliceAdditionalSpecFns;

/// ASCII decimal digit.
pub open spec fn is_digit_byte(b: u8) -> bool {
    48 <= b <= 57
}

/// Sign prefix: ASCII `+` (43) or `-` (45).
pub open spec fn is_sign_byte(b: u8) -> bool {
    b == 43 || b == 45
}

/// The unsigned part of a decimal literal: every byte a digit or the ASCII
/// dot (46), at most one dot, at least one digit.
pub open spec fn is_decimal_body(s: Seq<u8>) -> bool {
    &&& forall|i: int| 0 <= i < s.len() ==> is_digit_byte(#[trigger] s[i]) || s[i] == 46
    &&& forall|i: int, j: int|
        0 <= i < s.len() && 0 <= j < s.len() && s[i] == 46 && s[j] == 46 ==> i == j
    &&& exists|i: int| 0 <= i < s.len() && is_digit_byte(s[i])
}

/// Syntactic shape of a plain-value literal: an optional sign followed by
/// a decimal body.  This is the only ground on which string parsing may
/// fail; a syntactically valid value that lies outside the parameter's
/// range is clamped later, not rejected.
pub open spec fn is_number_literal(s: Seq<u8>) -> bool {
    if s.len() > 0 && is_sign_byte(s[0]) {
        is_decimal_body(s.subrange(1, s.len() as int))
    } else {
        is_decimal_body(s)
    }
}

/// Decides `is_number_literal` on the text's UTF-8 bytes.  Any multi-byte
/// character fails the digit test, so non-ASCII text is rejected.
pub fn check_number_literal(text: &str) -> (r: bool)
    ensures
        r == is_number_literal(text.spec_bytes()),
{
    let bytes: &[u8] = text.as_bytes();
    let n = bytes.len();
    let start: usize = if n > 0 && (bytes[0] == 43 || bytes[0] == 45) {
        1
    } else {
        0
    };
    let ghost body = if start == 1 {
        text.spec_bytes().subrange(1, n as int)
    } else {
        text.spec_bytes()
    };
    proof {
        assert(body.len() == n - start);
        assert(forall|i: int| 0 <= i < body.len() ==> body[i] == bytes@[i + start]);
        assert(is_number_literal(text.spec_bytes()) == is_decimal_body(body));
    }
    let mut i: usize = start;
    let mut saw_digit = false;
    let mut saw_dot = false;
    while i < n
        invariant
            bytes@ == text.spec_bytes(),
            n == bytes@.len(),
            start <= 1,
            start <= i <= n,
            is_number_literal(text.spec_bytes()) == is_decimal_body(body),
            body.len() == n - start,
            forall|p: int| 0 <= p < body.len() ==> body[p] == bytes@[p + start],
            forall|p: int|
                0 <= p < i - start ==> is_digit_byte(#[trigger] body[p]) || body[p] == 46,
            saw_digit == exists|p: int| 0 <= p < i - start && is_digit_byte(body[p]),
            saw_dot == exists|p: int| 0 <= p < i - start && body[p] == 46,
            forall|p: int, q: int|
                0 <= p < i - start && 0 <= q < i - start && body[p] == 46 && body[q] == 46
                    ==> p == q,
        decreases n - i,
    {
        let b = bytes[i];
        proof {
            assert(body[i - start] == bytes@[i as int]);
        }
        if b >= 48 && b <= 57 {
            saw_digit = true;
            proof {
                assert(is_digit_byte(body[i - start]));
                assert(body[i - start] != 46);
            }
        } else if b == 46 {
            if saw_dot {
                proof {
                    let p = choose|p: int| 0 <= p < i - start && body[p] == 46;
                    assert(body[p] == 46 && body[i - start] == 46 && p != i - start);
                    assert(!is_decimal_body(body));
                }
                return false;
            }
            saw_dot = true;
            proof {
                assert(body[i - start] == 46);
                assert(!is_digit_byte(body[i - start]));
            }
        } else {
            proof {
                assert(!(is_digit_byte(body[i - start]) || body[i - start] == 46));
                assert(!is_decimal_body(body));
            }
            return false;
        }
        i += 1;
    }
    proof {
        if saw_digit {
            assert(is_decimal_body(body));
        } else {
            assert(!is_decimal_body(body));
        }
    }
    saw_digit
}

} // verus!

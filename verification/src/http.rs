//! Reading a readiness probe's answer.
//!
//! A probe is ready exactly when the backend answers with a status code
//! in the 2xx range; every other outcome — connection refused, timeout,
//! any other code, or bytes that are no HTTP status line at all — counts
//! the same, as "not yet ready".  This module extracts the status code
//! from the first line of a response and classifies it.

use vstd::prelude::*;

verus! {

/// Whether `b` is an ASCII decimal digit.
pub open spec fn is_ascii_digit(b: u8) -> bool {
    48 <= b && b <= 57
}

/// The value of the ASCII decimal digit `b`.
pub open spec fn ascii_digit_val(b: u8) -> nat {
    (b - 48) as nat
}

/// The bytes `HTTP/`, with which every status line begins.
pub open spec fn http_prefix() -> Seq<u8> {
    seq![72u8, 84u8, 84u8, 80u8, 47u8]
}

/// The status code claimed at position `sp` of `head`: `head[sp]` is a
/// space, three digits follow, and the code ends there — at the end of
/// `head`, at another space, or at a carriage return.
pub open spec fn code_at(head: Seq<u8>, sp: int) -> bool {
    &&& 0 <= sp
    &&& sp + 4 <= head.len()
    &&& head[sp] == 32u8
    &&& is_ascii_digit(head[sp + 1])
    &&& is_ascii_digit(head[sp + 2])
    &&& is_ascii_digit(head[sp + 3])
    &&& (sp + 4 == head.len() || head[sp + 4] == 32u8 || head[sp + 4] == 13u8)
}

/// The three-digit value spelled at `sp + 1` of `head`.
pub open spec fn code_val(head: Seq<u8>, sp: int) -> nat {
    ascii_digit_val(head[sp + 1]) * 100 + ascii_digit_val(head[sp + 2]) * 10 + ascii_digit_val(
        head[sp + 3],
    )
}

/// The status code found scanning `head` from position `i` for its first
/// space: the code after that space, or nothing when the space is
/// missing or not followed by a well-formed code.
pub open spec fn code_from(head: Seq<u8>, i: nat) -> Option<u16>
    decreases head.len() - i,
{
    if i >= head.len() {
        None
    } else if head[i as int] == 32u8 {
        if code_at(head, i as int) {
            Some(code_val(head, i as int) as u16)
        } else {
            None
        }
    } else {
        code_from(head, i + 1)
    }
}

/// The status code of the response whose bytes begin with `head`:
/// present exactly when `head` starts with `HTTP/` and its first space
/// is followed by a three-digit code.
pub open spec fn status_code_of(head: Seq<u8>) -> Option<u16> {
    if head.len() >= 5 && head.subrange(0, 5) == http_prefix() {
        code_from(head, 0)
    } else {
        None
    }
}

/// Whether `code` lies in the 2xx success range — the only codes a
/// readiness probe accepts.
pub open spec fn spec_is_success_status(code: u16) -> bool {
    200 <= code && code < 300
}

/// Classifies a status code as the probe loop does: only a 2xx code
/// means the backend is ready.
pub fn is_success_status(code: u16) -> (b: bool)
    ensures
        b == spec_is_success_status(code),
{
    200 <= code && code < 300
}

/// Extracts the status code from the first bytes of an HTTP response:
/// `Some` exactly when the bytes begin with `HTTP/` and the first space
/// is followed by a three-digit code, as `status_code_of` states.
pub fn status_code(head: &[u8]) -> (r: Option<u16>)
    ensures
        r == status_code_of(head@),
{
    let n: usize = head.len();
    if n < 5 || head[0] != 72 || head[1] != 84 || head[2] != 84 || head[3] != 80 || head[4] != 47 {
        proof {
            if head@.len() >= 5 {
                assert(head@.subrange(0, 5) != http_prefix()) by {
                    if head@.subrange(0, 5) == http_prefix() {
                        assert(head@.subrange(0, 5)[0] == 72u8);
                        assert(head@.subrange(0, 5)[1] == 84u8);
                        assert(head@.subrange(0, 5)[2] == 84u8);
                        assert(head@.subrange(0, 5)[3] == 80u8);
                        assert(head@.subrange(0, 5)[4] == 47u8);
                    }
                }
            }
        }
        return None;
    }
    proof {
        assert(head@.subrange(0, 5) =~= http_prefix());
    }
    let mut i: usize = 0;
    while i < n
        invariant
            n == head@.len(),
            n >= 5,
            head@.subrange(0, 5) == http_prefix(),
            i <= n,
            code_from(head@, 0) == code_from(head@, i as nat),
        decreases n - i,
    {
        if head[i] == 32 {
            if 4 <= n - i && is_digit_byte(head[i + 1]) && is_digit_byte(head[i + 2])
                && is_digit_byte(head[i + 3]) && (i + 4 == n || head[i + 4] == 32 || head[i + 4]
                == 13) {
                let d1: u16 = (head[i + 1] - 48) as u16;
                let d2: u16 = (head[i + 2] - 48) as u16;
                let d3: u16 = (head[i + 3] - 48) as u16;
                let code: u16 = d1 * 100 + d2 * 10 + d3;
                proof {
                    assert(code_at(head@, i as int));
                    assert(code == code_val(head@, i as int));
                    assert(code_from(head@, i as nat) == Some(
                        code_val(head@, i as int) as u16,
                    ));
                }
                return Some(code);
            } else {
                proof {
                    assert(!code_at(head@, i as int));
                }
                return None;
            }
        }
        proof {
            assert(code_from(head@, i as nat) == code_from(head@, (i + 1) as nat));
        }
        i = i + 1;
    }
    None
}

/// Whether `b` is an ASCII decimal digit.
fn is_digit_byte(b: u8) -> (r: bool)
    ensures
        r == is_ascii_digit(b),
{
    48 <= b && b <= 57
}

/// Whether the response whose bytes begin with `head` reports a ready
/// backend: a parseable status line whose code is 2xx.
pub fn probe_is_success(head: &[u8]) -> (r: bool)
    ensures
        r == (status_code_of(head@) matches Some(c) && spec_is_success_status(c)),
{
    match status_code(head) {
        Some(c) => is_success_status(c),
        None => false,
    }
}

} // verus!

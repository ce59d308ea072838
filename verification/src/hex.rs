//! Lower-case hexadecimal rendering, as block ids, transaction ids and raw transactions
//! are shown to WebSocket clients.

use vstd::prelude::*;

verus! {

/// The lower-case hex digit of a value below 16.
pub open spec fn hex_digit(n: u8) -> char {
    if n < 10 {
        (48 + n) as char
    } else {
        (87 + n) as char
    }
}

/// Two lower-case hex digits per byte, high nibble first, bytes in order.
pub open spec fn hex_lower(b: Seq<u8>) -> Seq<char> {
    Seq::new(
        2 * b.len(),
        |i: int|
            if i % 2 == 0 {
                hex_digit(b[i / 2] / 16)
            } else {
                hex_digit(b[i / 2] % 16)
            },
    )
}

/// The sixteen lower-case hex digits, in order of value.
pub open spec fn hex_alphabet() -> Seq<char> {
    seq!['0', '1', '2', '3', '4', '5', '6', '7', '8', '9', 'a', 'b', 'c', 'd', 'e', 'f']
}

/// `s` renders `b` in lower-case hex: two digits per byte, high nibble first, bytes in
/// order, each digit taken from [`hex_alphabet`].
pub open spec fn is_lower_hex_of(s: Seq<char>, b: Seq<u8>) -> bool {
    &&& s.len() == 2 * b.len()
    &&& forall|i: int|
        0 <= i < b.len() ==> {
            &&& #[trigger] s[2 * i] == hex_alphabet()[(b[i] / 16) as int]
            &&& s[2 * i + 1] == hex_alphabet()[(b[i] % 16) as int]
        }
}

/// Each value below 16 is rendered as its lower-case hex digit.
pub proof fn lemma_hex_digit_is_alphabet(n: u8)
    requires
        n < 16,
    ensures
        hex_digit(n) == hex_alphabet()[n as int],
{
    assert(hex_alphabet().len() == 16);
    if n == 0 { assert(hex_digit(n) == '0'); }
    else if n == 1 { assert(hex_digit(n) == '1'); }
    else if n == 2 { assert(hex_digit(n) == '2'); }
    else if n == 3 { assert(hex_digit(n) == '3'); }
    else if n == 4 { assert(hex_digit(n) == '4'); }
    else if n == 5 { assert(hex_digit(n) == '5'); }
    else if n == 6 { assert(hex_digit(n) == '6'); }
    else if n == 7 { assert(hex_digit(n) == '7'); }
    else if n == 8 { assert(hex_digit(n) == '8'); }
    else if n == 9 { assert(hex_digit(n) == '9'); }
    else if n == 10 { assert(hex_digit(n) == 'a'); }
    else if n == 11 { assert(hex_digit(n) == 'b'); }
    else if n == 12 { assert(hex_digit(n) == 'c'); }
    else if n == 13 { assert(hex_digit(n) == 'd'); }
    else if n == 14 { assert(hex_digit(n) == 'e'); }
    else { assert(hex_digit(n) == 'f'); }
}

/// [`hex_lower`] renders every byte sequence in lower-case hex.
pub proof fn lemma_hex_lower_renders(b: Seq<u8>)
    ensures
        is_lower_hex_of(hex_lower(b), b),
{
    let s = hex_lower(b);
    assert forall|i: int| 0 <= i < b.len() implies {
        &&& #[trigger] s[2 * i] == hex_alphabet()[(b[i] / 16) as int]
        &&& s[2 * i + 1] == hex_alphabet()[(b[i] % 16) as int]
    } by {
        assert((2 * i) / 2 == i);
        assert((2 * i + 1) / 2 == i);
        assert((2 * i) % 2 == 0);
        assert((2 * i + 1) % 2 == 1);
        lemma_hex_digit_is_alphabet(b[i] / 16);
        lemma_hex_digit_is_alphabet(b[i] % 16);
    }
}

/// `String::push`: appends `c` to `s`.
#[verifier::external_body]
fn string_push(s: &mut String, c: char)
    ensures
        final(s)@ == old(s)@.push(c),
{
    s.push(c)
}

/// The hex digit of `n`.
fn digit(n: u8) -> (c: char)
    requires
        n < 16,
    ensures
        c == hex_digit(n),
{
    if n < 10 {
        (48 + n) as char
    } else {
        (87 + n) as char
    }
}

/// The lower-case hex rendering of `bytes`.
pub fn hex_encode(bytes: &[u8]) -> (r: String)
    ensures
        r@ == hex_lower(bytes@),
        is_lower_hex_of(r@, bytes@),
{
    let mut out = String::new();
    let n = bytes.len();
    for i in 0..n
        invariant
            n == bytes@.len(),
            out@.len() == 2 * i,
            forall|j: int| 0 <= j < 2 * i ==> out@[j] == hex_lower(bytes@)[j],
    {
        let b = bytes[i];
        string_push(&mut out, digit(b / 16));
        string_push(&mut out, digit(b % 16));
        assert(hex_lower(bytes@)[2 * i] == hex_digit(b / 16));
        assert(hex_lower(bytes@)[2 * i + 1] == hex_digit(b % 16)) by {
            assert((2 * i + 1) / 2 == i);
        }
    }
    assert(out@ =~= hex_lower(bytes@));
    proof {
        lemma_hex_lower_renders(bytes@);
    }
    out
}

} // verus!

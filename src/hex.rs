//! Lowercase hex text for raw bytes that cross a text-oriented boundary.
use vstd::prelude::*;

use crate::error::IdentityError;

verus! {

/// The sixteen lowercase hex digits, in order of value.
pub open spec fn hex_alphabet() -> Seq<char> {
    seq!['0', '1', '2', '3', '4', '5', '6', '7', '8', '9', 'a', 'b', 'c', 'd', 'e', 'f']
}

/// Two lowercase digits per byte, high nibble first.
pub open spec fn hex_encode(bytes: Seq<u8>) -> Seq<char>
    decreases bytes.len(),
{
    if bytes.len() == 0 {
        seq![]
    } else {
        hex_encode(bytes.drop_last()) + seq![
            hex_alphabet()[(bytes.last() / 16) as int],
            hex_alphabet()[(bytes.last() % 16) as int],
        ]
    }
}

/// A hex digit of either case.
pub open spec fn is_hex_char(c: char) -> bool {
    ||| '0' <= c <= '9'
    ||| 'a' <= c <= 'f'
    ||| 'A' <= c <= 'F'
}

/// The value of a hex digit.
pub open spec fn hex_value(c: char) -> int {
    if '0' <= c <= '9' {
        c as int - 48
    } else if 'a' <= c <= 'f' {
        c as int - 87
    } else {
        c as int - 55
    }
}

/// The bytes spelled by consecutive pairs of digits.
pub open spec fn hex_bytes(text: Seq<char>) -> Seq<u8>
    decreases text.len(),
{
    if text.len() < 2 {
        seq![]
    } else {
        let n = text.len();
        hex_bytes(text.subrange(0, n - 2)).push(
            (16 * hex_value(text[n - 2]) + hex_value(text[n - 1])) as u8,
        )
    }
}

/// What a hex string decodes to: nothing unless its length is even and every
/// character is a hex digit.
pub open spec fn hex_decode(text: Seq<char>) -> Option<Seq<u8>> {
    if text.len() % 2 == 0 && forall|i: int| 0 <= i < text.len() ==> #[trigger] is_hex_char(text[i]) {
        Some(hex_bytes(text))
    } else {
        None
    }
}

/// Encoding yields two lowercase hex digits per byte.
pub proof fn lemma_encode_shape(bytes: Seq<u8>)
    ensures
        hex_encode(bytes).len() == 2 * bytes.len(),
        forall|i: int| 0 <= i < hex_encode(bytes).len() ==> #[trigger] is_hex_char(hex_encode(bytes)[i]),
        forall|i: int| 0 <= i < hex_encode(bytes).len() ==> !('A' <= #[trigger] hex_encode(bytes)[i] <= 'F'),
    decreases bytes.len(),
{
    if bytes.len() > 0 {
        lemma_encode_shape(bytes.drop_last());
        let prev = hex_encode(bytes.drop_last());
        let tail = seq![hex_alphabet()[(bytes.last() / 16) as int], hex_alphabet()[(bytes.last() % 16) as int]];
        assert forall|i: int| 0 <= i < hex_encode(bytes).len() implies is_hex_char(hex_encode(bytes)[i])
            && !('A' <= hex_encode(bytes)[i] <= 'F') by {
            if i < prev.len() {
                assert(hex_encode(bytes)[i] == prev[i]);
            } else {
                assert(hex_encode(bytes)[i] == tail[i - prev.len()]);
            }
        }
    }
}

/// Decoding undoes encoding, for every byte sequence.
pub proof fn lemma_decode_encode(bytes: Seq<u8>)
    ensures
        hex_decode(hex_encode(bytes)) == Some(bytes),
{
    lemma_encode_shape(bytes);
    lemma_bytes_of_encode(bytes);
}

proof fn lemma_bytes_of_encode(bytes: Seq<u8>)
    ensures
        hex_bytes(hex_encode(bytes)) == bytes,
    decreases bytes.len(),
{
    if bytes.len() > 0 {
        lemma_encode_shape(bytes.drop_last());
        lemma_bytes_of_encode(bytes.drop_last());
        let text = hex_encode(bytes);
        let n = text.len();
        let b = bytes.last();
        assert(text.subrange(0, n - 2) =~= hex_encode(bytes.drop_last()));
        let hi = hex_alphabet()[(b / 16) as int];
        let lo = hex_alphabet()[(b % 16) as int];
        assert(text[n - 2] == hi);
        assert(text[n - 1] == lo);
        assert(hex_value(hi) == b / 16);
        assert(hex_value(lo) == b % 16);
        assert(bytes.drop_last().push(b) =~= bytes);
    }
}

/// The value of the hex digit at position `i` of an ASCII string.
fn digit_at(text: &str, i: usize) -> (r: Option<u8>)
    requires
        text.is_ascii(),
        i < text@.len(),
    ensures
        r is Some <==> is_hex_char(text@[i as int]),
        r is Some ==> r->0 as int == hex_value(text@[i as int]),
        r is Some ==> r->0 < 16,
{
    let b = text.get_ascii(i);
    let ghost c = text@[i as int];
    assert('\0' <= c <= '\u{7f}');
    assert(c as int == b as int);
    if 48 <= b && b <= 57 {
        Some(b - 48)
    } else if 97 <= b && b <= 102 {
        Some(b - 87)
    } else if 65 <= b && b <= 70 {
        Some(b - 55)
    } else {
        None
    }
}

/// Encodes bytes as lowercase hex, two characters per byte.
pub fn encode(bytes: &[u8]) -> (r: String)
    ensures
        r@ == hex_encode(bytes@),
{
    let digits = "0123456789abcdef";
    proof {
        reveal_strlit("0123456789abcdef");
        assert(digits@ =~= hex_alphabet());
    }
    let mut out = String::new();
    let mut i: usize = 0;
    while i < bytes.len()
        invariant
            i <= bytes@.len(),
            digits@ == hex_alphabet(),
            digits.is_ascii(),
            out@ == hex_encode(bytes@.subrange(0, i as int)),
        decreases bytes@.len() - i,
    {
        let b = bytes[i];
        let hi = (b / 16) as usize;
        let lo = (b % 16) as usize;
        let hi_digit = digits.substring_ascii(hi, hi + 1);
        let lo_digit = digits.substring_ascii(lo, lo + 1);
        out.append(hi_digit);
        out.append(lo_digit);
        proof {
            let done = bytes@.subrange(0, i + 1);
            assert(done.drop_last() =~= bytes@.subrange(0, i as int));
            assert(done.last() == b);
            assert(hi_digit@ =~= seq![hex_alphabet()[hi as int]]);
            assert(lo_digit@ =~= seq![hex_alphabet()[lo as int]]);
            assert(out@ =~= hex_encode(done));
        }
        i = i + 1;
    }
    assert(bytes@.subrange(0, bytes@.len() as int) =~= bytes@);
    out
}

/// Decodes hex of either case; an odd length or any non-hex character is a
/// `SerializationError`, never a partial result.
pub fn decode(hex: &str) -> (r: Result<Vec<u8>, IdentityError>)
    ensures
        hex_decode(hex@) is Some ==> r is Ok && r->Ok_0@ == hex_decode(hex@)->Some_0,
        hex_decode(hex@) is None ==> r == Err::<Vec<u8>, IdentityError>(IdentityError::SerializationError),
{
    if !hex.is_ascii() {
        proof {
            if forall|i: int| 0 <= i < hex@.len() ==> #[trigger] is_hex_char(hex@[i]) {
                assert forall|i: int| 0 <= i < hex@.len() implies '\0' <= #[trigger] hex@[i] <= '\u{7f}' by {
                    assert(is_hex_char(hex@[i]));
                }
            }
        }
        return Err(IdentityError::SerializationError);
    }
    let n = hex.unicode_len();
    if n % 2 != 0 {
        return Err(IdentityError::SerializationError);
    }
    let mut out: Vec<u8> = Vec::new();
    let mut i: usize = 0;
    while i < n
        invariant
            hex.is_ascii(),
            n == hex@.len(),
            n % 2 == 0,
            i % 2 == 0,
            i <= n,
            forall|j: int| 0 <= j < i ==> #[trigger] is_hex_char(hex@[j]),
            out@ == hex_bytes(hex@.subrange(0, i as int)),
        decreases n - i,
    {
        let hi = digit_at(hex, i);
        let lo = digit_at(hex, i + 1);
        match (hi, lo) {
            (Some(h), Some(l)) => {
                out.push(h * 16 + l);
                proof {
                    let done = hex@.subrange(0, i + 2);
                    assert(done.subrange(0, i as int) =~= hex@.subrange(0, i as int));
                    assert(done[i as int] == hex@[i as int]);
                    assert(done[i + 1] == hex@[i + 1]);
                    assert(out@ =~= hex_bytes(done));
                }
            },
            _ => {
                return Err(IdentityError::SerializationError);
            },
        }
        i = i + 2;
    }
    assert(hex@.subrange(0, n as int) =~= hex@);
    Ok(out)
}

} // verus!

//! The text form of raw key material: byte values in decimal, separated by
//! commas, such as `12,0,255`.
//!
//! The grammar is stated over the UTF-8 bytes of the text. A value is an
//! optional `+` followed by one or more decimal digits that denote a number
//! of at most 255. Nothing else is allowed: no blanks, no empty value, no
//! trailing comma.

use vstd::prelude::*;

verus! {

/// The byte `,`.
pub const COMMA: u8 = 44;

/// The byte `+`.
pub const PLUS: u8 = 43;

/// The byte `0`.
pub const ZERO: u8 = 48;

/// The byte `9`.
pub const NINE: u8 = 57;

pub open spec fn is_digit(b: u8) -> bool {
    ZERO <= b <= NINE
}

pub open spec fn all_digits(s: Seq<u8>) -> bool {
    forall|i: int| 0 <= i < s.len() ==> is_digit(#[trigger] s[i])
}

/// The number that a run of digits denotes; 0 for the empty run.
pub open spec fn digits_value(s: Seq<u8>) -> nat
    decreases s.len(),
{
    if s.len() == 0 {
        0
    } else {
        (10 * digits_value(s.drop_last()) + (s.last() - ZERO)) as nat
    }
}

/// The text of a value without its optional sign.
pub open spec fn unsigned_part(s: Seq<u8>) -> Seq<u8> {
    if s.len() > 0 && s[0] == PLUS {
        s.skip(1)
    } else {
        s
    }
}

/// The byte that the text of one value denotes.
pub open spec fn byte_of_text(s: Seq<u8>) -> Option<u8> {
    let digits = unsigned_part(s);
    if digits.len() > 0 && all_digits(digits) && digits_value(digits) <= 255 {
        Some(digits_value(digits) as u8)
    } else {
        None
    }
}

/// The place of the first comma in `s`, or the length of `s` if it has none.
pub open spec fn first_comma(s: Seq<u8>) -> nat
    decreases s.len(),
{
    if s.len() == 0 || s[0] == COMMA {
        0
    } else {
        1 + first_comma(s.skip(1))
    }
}

/// The bytes that a comma-separated text denotes: the value before the first
/// comma, then what the text after that comma denotes.
pub open spec fn byte_list_of_text(s: Seq<u8>) -> Option<Seq<u8>>
    decreases s.len(),
{
    let k = first_comma(s);
    match byte_of_text(s.take(k as int)) {
        None => None,
        Some(b) => if k >= s.len() {
            Some(seq![b])
        } else {
            match byte_list_of_text(s.skip(k as int + 1)) {
                None => None,
                Some(rest) => Some(seq![b] + rest),
            }
        },
    }
}

/// `found` in front of what the rest of the text denotes.
pub open spec fn continued(found: Seq<u8>, rest: Option<Seq<u8>>) -> Option<Seq<u8>> {
    match rest {
        None => None,
        Some(rest) => Some(found + rest),
    }
}

/// A comma-free stretch that ends at a comma or at the end of the text
/// reaches exactly to the first comma.
pub proof fn lemma_first_comma(s: Seq<u8>, k: int)
    requires
        0 <= k <= s.len(),
        forall|j: int| 0 <= j < k ==> s[j] != COMMA,
        k == s.len() || s[k] == COMMA,
    ensures
        first_comma(s) == k,
    decreases k,
{
    if k > 0 {
        let tail = s.skip(1);
        assert forall|j: int| 0 <= j < k - 1 implies tail[j] != COMMA by {
            assert(tail[j] == s[j + 1]);
        }
        lemma_first_comma(tail, k - 1);
    }
}

/// A longer run of digits denotes no smaller a number than its beginning.
pub proof fn lemma_digits_value_grows(s: Seq<u8>, k: int)
    requires
        0 <= k <= s.len(),
        all_digits(s),
    ensures
        digits_value(s.take(k)) <= digits_value(s),
    decreases s.len(),
{
    if k == s.len() {
        assert(s.take(k) =~= s);
    } else {
        let front = s.drop_last();
        assert(is_digit(s.last()));
        assert forall|i: int| 0 <= i < front.len() implies is_digit(#[trigger] front[i]) by {
            assert(front[i] == s[i]);
        }
        lemma_digits_value_grows(front, k);
        assert(front.take(k) =~= s.take(k));
    }
}

/// Reads one value: the bytes of `text` from `from` up to `to`.
pub fn parse_byte(text: &[u8], from: usize, to: usize) -> (value: Option<u8>)
    requires
        from <= to <= text@.len(),
    ensures
        value == byte_of_text(text@.subrange(from as int, to as int)),
{
    let ghost piece = text@.subrange(from as int, to as int);
    let first: usize = if from < to && text[from] == PLUS {
        from + 1
    } else {
        from
    };
    let ghost digits = text@.subrange(first as int, to as int);
    assert(digits =~= unsigned_part(piece));
    if first == to {
        return None;
    }
    let mut value: u16 = 0;
    let mut i: usize = first;
    while i < to
        invariant
            first <= i <= to <= text@.len(),
            digits == text@.subrange(first as int, to as int),
            digits == unsigned_part(text@.subrange(from as int, to as int)),
            from <= first < to,
            all_digits(digits.take(i - first)),
            value == digits_value(digits.take(i - first)),
            value <= 255,
        decreases to - i,
    {
        let b = text[i];
        let ghost seen = digits.take(i - first + 1);
        assert(seen.drop_last() =~= digits.take(i - first));
        assert(seen.last() == b);
        if b < ZERO || b > NINE {
            assert(!is_digit(digits[i - first]));
            return None;
        }
        assert(all_digits(seen)) by {
            assert forall|j: int| 0 <= j < seen.len() implies is_digit(#[trigger] seen[j]) by {
                if j < seen.len() - 1 {
                    assert(seen[j] == digits.take(i - first)[j]);
                }
            }
        }
        let next: u16 = value * 10 + (b - ZERO) as u16;
        assert(next == digits_value(seen));
        if next > 255 {
            proof {
                if all_digits(digits) {
                    lemma_digits_value_grows(digits, i - first + 1);
                }
            }
            return None;
        }
        value = next;
        i += 1;
    }
    assert(digits.take(i - first) =~= digits);
    Some(value as u8)
}

/// Reads a comma-separated list of byte values.
///
/// Returns the bytes in the order of the text, or `None` where the text is
/// not such a list.
pub fn parse_byte_list(text: &[u8]) -> (bytes: Option<Vec<u8>>)
    ensures
        bytes is Some <==> byte_list_of_text(text@) is Some,
        bytes matches Some(found) ==> byte_list_of_text(text@) == Some(found@),
{
    let mut found: Vec<u8> = Vec::new();
    let mut start: usize = 0;
    assert(text@.skip(0) =~= text@);
    loop
        invariant
            start <= text@.len(),
            byte_list_of_text(text@) == continued(
                found@,
                byte_list_of_text(text@.skip(start as int)),
            ),
        decreases text@.len() - start,
    {
        let mut end: usize = start;
        while end < text.len() && text[end] != COMMA
            invariant
                start <= end <= text@.len(),
                forall|j: int| start <= j < end ==> text@[j] != COMMA,
            decreases text@.len() - end,
        {
            end += 1;
        }
        let ghost rest = text@.skip(start as int);
        proof {
            assert forall|j: int| 0 <= j < end - start implies rest[j] != COMMA by {
                assert(rest[j] == text@[start + j]);
            }
            lemma_first_comma(rest, end - start);
            assert(rest.take(end - start) =~= text@.subrange(start as int, end as int));
        }
        match parse_byte(text, start, end) {
            None => {
                return None;
            },
            Some(b) => {
                let ghost before = found@;
                found.push(b);
                if end == text.len() {
                    assert(before + seq![b] =~= found@);
                    return Some(found);
                }
                proof {
                    assert(rest.skip(end - start + 1) =~= text@.skip(end + 1));
                    let tail = byte_list_of_text(text@.skip(end + 1));
                    if tail is Some {
                        assert(before + (seq![b] + tail->0) =~= found@ + tail->0);
                    }
                }
                start = end + 1;
            },
        }
    }
}

} // verus!

//! The trace context of a request.

use vstd::prelude::*;

verus! {

/// A trace context in the form in which the `traceparent` header carries it: four hexadecimal
/// numbers of two, thirty-two, sixteen and two digits, with a dash between each two.
#[derive(Clone, Copy, Debug, PartialEq, Eq, Structural)]
pub struct TraceParent {
    pub version: u8,
    pub trace_id: u128,
    pub parent_id: u64,
    pub flags: u8,
}

/// The length of a `traceparent` header.
pub const TRACEPARENT_LENGTH: usize = 55;

/// Whether a character is a hexadecimal digit.
pub open spec fn is_hex(c: char) -> bool {
    '0' <= c <= '9' || 'a' <= c <= 'f' || 'A' <= c <= 'F'
}

/// The value of a hexadecimal digit.
pub open spec fn hex_digit(c: char) -> nat {
    if '0' <= c <= '9' {
        (c as int - '0' as int) as nat
    } else if 'a' <= c <= 'f' {
        (c as int - 'a' as int + 10) as nat
    } else {
        (c as int - 'A' as int + 10) as nat
    }
}

/// The number that hexadecimal digits spell.
pub open spec fn hex_number(digits: Seq<char>) -> nat
    decreases digits.len(),
{
    if digits.len() == 0 {
        0
    } else {
        16 * hex_number(digits.drop_last()) + hex_digit(digits.last())
    }
}

/// Whether the characters from `from` to before `to` are hexadecimal digits.
pub open spec fn hex_at(text: Seq<char>, from: int, to: int) -> bool {
    forall|i: int| from <= i < to ==> is_hex(#[trigger] text[i])
}

/// Whether a text has the form of a `traceparent` header.
pub open spec fn is_traceparent(text: Seq<char>) -> bool {
    &&& text.len() == TRACEPARENT_LENGTH
    &&& hex_at(text, 0, 2)
    &&& text[2] == '-'
    &&& hex_at(text, 3, 35)
    &&& text[35] == '-'
    &&& hex_at(text, 36, 52)
    &&& text[52] == '-'
    &&& hex_at(text, 53, 55)
}

/// The trace context that a text spells, where it has the form of one.
pub open spec fn parsed_traceparent(text: Seq<char>) -> Option<TraceParent> {
    if is_traceparent(text) {
        Some(
            TraceParent {
                version: hex_number(text.subrange(0, 2)) as u8,
                trace_id: hex_number(text.subrange(3, 35)) as u128,
                parent_id: hex_number(text.subrange(36, 52)) as u64,
                flags: hex_number(text.subrange(53, 55)) as u8,
            },
        )
    } else {
        None
    }
}

/// Sixteen to the power of `n`.
spec fn pow16(n: nat) -> nat
    decreases n,
{
    if n == 0 {
        1
    } else {
        16 * pow16((n - 1) as nat)
    }
}

/// The digits of a hexadecimal number bound it.
proof fn lemma_hex_number_bound(digits: Seq<char>)
    requires
        hex_at(digits, 0, digits.len() as int),
    ensures
        hex_number(digits) < pow16(digits.len()),
    decreases digits.len(),
{
    if digits.len() > 0 {
        let rest = digits.drop_last();
        assert(hex_at(rest, 0, rest.len() as int)) by {
            assert forall|i: int| 0 <= i < rest.len() implies is_hex(#[trigger] rest[i]) by {
                assert(is_hex(digits[i]));
            }
        }
        lemma_hex_number_bound(rest);
        assert(is_hex(digits.last()));
        assert(hex_digit(digits.last()) < 16);
    }
}

/// Reads a hexadecimal digit.
fn hex_digit_of(c: char) -> (digit: Option<u8>)
    ensures
        match digit {
            Some(d) => is_hex(c) && d == hex_digit(c) && d < 16,
            None => !is_hex(c),
        },
{
    if '0' <= c && c <= '9' {
        Some((c as u32 - '0' as u32) as u8)
    } else if 'a' <= c && c <= 'f' {
        Some((c as u32 - 'a' as u32 + 10) as u8)
    } else if 'A' <= c && c <= 'F' {
        Some((c as u32 - 'A' as u32 + 10) as u8)
    } else {
        None
    }
}

/// Reads at most 32 hexadecimal digits.
fn parse_hex(bytes: &[u8], from: usize, to: usize, Ghost(text): Ghost<Seq<char>>) -> (number: Option<u128>)
    requires
        from <= to <= bytes@.len(),
        to - from <= 32,
        text.len() == bytes@.len(),
        forall|i: int| 0 <= i < text.len() ==> #[trigger] bytes@[i] as char == text[i],
    ensures
        match number {
            Some(n) => {
                &&& hex_at(text, from as int, to as int)
                &&& n == hex_number(text.subrange(from as int, to as int))
                &&& n < pow16((to - from) as nat)
            },
            None => !hex_at(text, from as int, to as int),
        },
{
    let mut number: u128 = 0;
    let mut i: usize = from;
    assert(text.subrange(from as int, from as int) =~= Seq::<char>::empty());
    while i < to
        invariant
            from <= i <= to <= bytes@.len(),
            to - from <= 32,
            text.len() == bytes@.len(),
            forall|j: int| 0 <= j < text.len() ==> #[trigger] bytes@[j] as char == text[j],
            hex_at(text, from as int, i as int),
            number == hex_number(text.subrange(from as int, i as int)),
        decreases to - i,
    {
        let ghost read = text.subrange(from as int, i as int);
        let ghost next = text.subrange(from as int, i + 1);
        match hex_digit_of(bytes[i] as char) {
            Some(d) => {
                proof {
                    assert(bytes@[i as int] as char == text[i as int]);
                    assert(next.drop_last() =~= read);
                    assert(next.last() == text[i as int]);
                    assert forall|j: int| 0 <= j < read.len() implies is_hex(#[trigger] read[j]) by {
                        assert(is_hex(text[from + j]));
                    }
                    lemma_hex_number_bound(read);
                    lemma_pow16_fits((i - from) as nat);
                }
                number = number * 16 + d as u128;
            },
            None => {
                assert(bytes@[i as int] as char == text[i as int]);
                return None;
            },
        }
        i += 1;
    }
    proof {
        let read = text.subrange(from as int, to as int);
        assert forall|j: int| 0 <= j < read.len() implies is_hex(#[trigger] read[j]) by {
            assert(is_hex(text[from + j]));
        }
        lemma_hex_number_bound(read);
    }
    Some(number)
}

/// Fewer than 32 hexadecimal digits leave room for one more.
proof fn lemma_pow16_fits(n: nat)
    requires
        n < 32,
    ensures
        16 * pow16(n) <= u128::MAX + 1,
{
    reveal_with_fuel(pow16, 33);
    lemma_pow16_monotonic(n, 31);
}

proof fn lemma_pow16_monotonic(a: nat, b: nat)
    requires
        a <= b,
    ensures
        pow16(a) <= pow16(b),
    decreases b - a,
{
    if a < b {
        lemma_pow16_monotonic(a, (b - 1) as nat);
    }
}

impl TraceParent {
    /// Reads a trace context from the text of a `traceparent` header.
    pub fn try_from(text: &str) -> (parsed: Option<TraceParent>)
        ensures
            parsed == parsed_traceparent(text@),
    {
        if !text.is_ascii() {
            proof {
                if is_traceparent(text@) {
                    lemma_traceparent_is_ascii(text@);
                }
            }
            return None;
        }
        let bytes = text.as_bytes();
        let ghost chars = text@;
        proof {
            vstd::utf8::is_ascii_chars_encode_utf8(chars);
            assert forall|i: int| 0 <= i < chars.len() implies #[trigger] bytes@[i] as char == chars[i] by {
                assert(chars[i] as u8 == bytes@[i]);
            }
        }
        if bytes.len() != TRACEPARENT_LENGTH {
            return None;
        }
        if bytes[2] as char != '-' || bytes[35] as char != '-' || bytes[52] as char != '-' {
            assert(bytes@[2] as char == chars[2] && bytes@[35] as char == chars[35] && bytes@[52] as char == chars[52]);
            return None;
        }
        assert(bytes@[2] as char == chars[2] && bytes@[35] as char == chars[35] && bytes@[52] as char == chars[52]);
        proof {
            reveal_with_fuel(pow16, 33);
        }
        match (
            parse_hex(bytes, 0, 2, Ghost(chars)),
            parse_hex(bytes, 3, 35, Ghost(chars)),
            parse_hex(bytes, 36, 52, Ghost(chars)),
            parse_hex(bytes, 53, 55, Ghost(chars)),
        ) {
            (Some(version), Some(trace_id), Some(parent_id), Some(flags)) => Some(
                TraceParent {
                    version: version as u8,
                    trace_id,
                    parent_id: parent_id as u64,
                    flags: flags as u8,
                },
            ),
            _ => None,
        }
    }
}

/// A text in the form of a `traceparent` header is ASCII.
proof fn lemma_traceparent_is_ascii(text: Seq<char>)
    requires
        is_traceparent(text),
    ensures
        vstd::utf8::is_ascii_chars(text),
{
    assert forall|i: int| 0 <= i < text.len() implies '\0' <= #[trigger] text[i] <= '\u{7f}' by {
        assert(is_hex(text[i]) || text[i] == '-');
    }
}

/// The text of a number in lower-case hexadecimal digits, of which there are `width`.
pub open spec fn hex_text(number: nat, width: nat) -> Seq<char>
    decreases width,
{
    if width == 0 {
        Seq::empty()
    } else {
        hex_text(number / 16, (width - 1) as nat).push("0123456789abcdef"@[(number % 16) as int])
    }
}

/// The text of a trace context.
pub open spec fn traceparent_text(t: TraceParent) -> Seq<char> {
    hex_text(t.version as nat, 2) + seq!['-'] + hex_text(t.trace_id as nat, 32) + seq!['-']
        + hex_text(t.parent_id as nat, 16) + seq!['-'] + hex_text(t.flags as nat, 2)
}

/// A character with an upper-case letter written as the lower-case one.
pub open spec fn lower_case_char(c: char) -> char {
    if 'A' <= c <= 'Z' {
        (c as int + 32) as char
    } else {
        c
    }
}

/// A text with each upper-case letter written as the lower-case one.
pub open spec fn lower_case(text: Seq<char>) -> Seq<char> {
    text.map_values(|c: char| lower_case_char(c))
}

/// Each lower-case hexadecimal digit has its value, and so has the upper-case one.
proof fn lemma_digit(c: char, value: nat)
    requires
        value < 16,
    ensures
        lower_case_char(c) == "0123456789abcdef"@[value as int] <==> is_hex(c) && hex_digit(c)
            == value,
        lower_case_char("0123456789abcdef"@[value as int]) == "0123456789abcdef"@[value as int],
{
    reveal_strlit("0123456789abcdef");
}

/// What is written in hexadecimal digits reads as the number that was written.
proof fn lemma_written_number_is_read(digits: Seq<char>, number: nat)
    requires
        number < pow16(digits.len()),
        lower_case(digits) == hex_text(number, digits.len()),
    ensures
        hex_at(digits, 0, digits.len() as int),
        hex_number(digits) == number,
    decreases digits.len(),
{
    if digits.len() > 0 {
        let rest = digits.drop_last();
        let written = hex_text(number, digits.len());
        assert(written.last() == "0123456789abcdef"@[(number % 16) as int]);
        assert(lower_case(digits).last() == lower_case_char(digits.last()));
        lemma_digit(digits.last(), number % 16);
        assert(lower_case(rest) =~= lower_case(digits).drop_last());
        assert(written.drop_last() =~= hex_text(number / 16, rest.len()));
        lemma_written_number_is_read(rest, number / 16);
        assert forall|i: int| 0 <= i < digits.len() implies is_hex(#[trigger] digits[i]) by {
            if i < rest.len() {
                assert(is_hex(rest[i]));
            }
        }
    }
}

/// A number that was read is written as it was read, but for the case of its letters.
proof fn lemma_read_number_is_written(digits: Seq<char>)
    requires
        hex_at(digits, 0, digits.len() as int),
    ensures
        hex_text(hex_number(digits), digits.len()) == lower_case(digits),
    decreases digits.len(),
{
    if digits.len() > 0 {
        let rest = digits.drop_last();
        assert forall|i: int| 0 <= i < rest.len() implies is_hex(#[trigger] rest[i]) by {
            assert(is_hex(digits[i]));
        }
        lemma_read_number_is_written(rest);
        assert(is_hex(digits.last()));
        lemma_digit(digits.last(), hex_digit(digits.last()));
        assert(lower_case(digits) =~= lower_case(rest).push(lower_case_char(digits.last())));
    } else {
        assert(lower_case(digits) =~= hex_text(0, 0));
    }
}

/// The text of a number has as many digits as it is given.
proof fn lemma_hex_text_length(number: nat, width: nat)
    ensures
        hex_text(number, width).len() == width,
    decreases width,
{
    if width > 0 {
        lemma_hex_text_length(number / 16, (width - 1) as nat);
    }
}

/// The text of a number is made of digits and of the letters up to `f`.
proof fn lemma_hex_text_is_plain(number: nat, width: nat)
    ensures
        forall|i: int|
            0 <= i < hex_text(number, width).len() ==> '-' <= #[trigger] hex_text(number, width)[i]
                <= 'f',
    decreases width,
{
    reveal_strlit("0123456789abcdef");
    if width > 0 {
        let rest = hex_text(number / 16, (width - 1) as nat);
        lemma_hex_text_is_plain(number / 16, (width - 1) as nat);
        assert forall|i: int| 0 <= i < hex_text(number, width).len() implies '-' <= #[trigger] hex_text(
            number,
            width,
        )[i] <= 'f' by {
            if i < rest.len() {
                assert(hex_text(number, width)[i] == rest[i]);
            }
        }
    }
}

/// The text of a trace context is made of dashes, digits and the letters up to `f`.
pub(crate) proof fn lemma_traceparent_text_is_plain(t: TraceParent)
    ensures
        forall|i: int|
            0 <= i < traceparent_text(t).len() ==> '-' <= #[trigger] traceparent_text(t)[i] <= 'f',
{
    lemma_hex_text_is_plain(t.version as nat, 2);
    lemma_hex_text_is_plain(t.trace_id as nat, 32);
    lemma_hex_text_is_plain(t.parent_id as nat, 16);
    lemma_hex_text_is_plain(t.flags as nat, 2);
    lemma_hex_text_length(t.version as nat, 2);
    lemma_hex_text_length(t.trace_id as nat, 32);
    lemma_hex_text_length(t.parent_id as nat, 16);
    lemma_hex_text_length(t.flags as nat, 2);
}

/// A part of a text in lower case is the lower case of that part.
proof fn lemma_lower_case_part(text: Seq<char>, from: int, to: int)
    requires
        0 <= from <= to <= text.len(),
    ensures
        lower_case(text).subrange(from, to) == lower_case(text.subrange(from, to)),
{
    assert(lower_case(text).subrange(from, to) =~= lower_case(text.subrange(from, to)));
}

/// A part of a text of hexadecimal digits spells a number that has so many digits.
proof fn lemma_part(text: Seq<char>, from: int, to: int)
    requires
        0 <= from <= to <= text.len(),
    ensures
        hex_at(text, from, to) <==> hex_at(text.subrange(from, to), 0, to - from),
        hex_at(text, from, to) ==> hex_number(text.subrange(from, to)) < pow16((to - from) as nat),
{
    let part = text.subrange(from, to);
    if hex_at(text, from, to) {
        assert forall|i: int| 0 <= i < part.len() implies is_hex(#[trigger] part[i]) by {
            assert(is_hex(text[from + i]));
        }
        lemma_hex_number_bound(part);
    }
    if hex_at(part, 0, to - from) {
        assert forall|i: int| from <= i < to implies is_hex(#[trigger] text[i]) by {
            assert(is_hex(part[i - from]));
        }
    }
}

/// The text of a trace context, part by part.
proof fn lemma_traceparent_text_parts(t: TraceParent)
    ensures
        ({
            let text = traceparent_text(t);
            &&& text.len() == 55
            &&& text.subrange(0, 2) == hex_text(t.version as nat, 2)
            &&& text[2] == '-'
            &&& text.subrange(3, 35) == hex_text(t.trace_id as nat, 32)
            &&& text[35] == '-'
            &&& text.subrange(36, 52) == hex_text(t.parent_id as nat, 16)
            &&& text[52] == '-'
            &&& text.subrange(53, 55) == hex_text(t.flags as nat, 2)
        }),
{
    lemma_hex_text_length(t.version as nat, 2);
    lemma_hex_text_length(t.trace_id as nat, 32);
    lemma_hex_text_length(t.parent_id as nat, 16);
    lemma_hex_text_length(t.flags as nat, 2);
    let text = traceparent_text(t);
    assert(text.subrange(0, 2) =~= hex_text(t.version as nat, 2));
    assert(text.subrange(3, 35) =~= hex_text(t.trace_id as nat, 32));
    assert(text.subrange(36, 52) =~= hex_text(t.parent_id as nat, 16));
    assert(text.subrange(53, 55) =~= hex_text(t.flags as nat, 2));
}

/// A text is read as a trace context exactly where it is the text of that trace context, whatever
/// the case of its letters. So each trace context is read back from its text, sampled or not, and
/// nothing else is read as one.
pub proof fn lemma_traceparent_is_read_back(text: Seq<char>, t: TraceParent)
    ensures
        parsed_traceparent(text) == Some(t) <==> lower_case(text) == traceparent_text(t),
        parsed_traceparent(traceparent_text(t)) == Some(t),
{
    lemma_traceparent_is_read(text, t);
    lemma_traceparent_is_read(traceparent_text(t), t);
    lemma_traceparent_text_is_lower_case(t);
}

proof fn lemma_hex_text_is_lower_case(number: nat, width: nat)
    ensures
        lower_case(hex_text(number, width)) == hex_text(number, width),
    decreases width,
{
    let text = hex_text(number, width);
    if width > 0 {
        lemma_hex_text_is_lower_case(number / 16, (width - 1) as nat);
        lemma_digit('0', number % 16);
        let rest = hex_text(number / 16, (width - 1) as nat);
        assert(lower_case(text) =~= lower_case(rest).push(lower_case_char(text.last())));
    } else {
        assert(lower_case(text) =~= text);
    }
}

proof fn lemma_traceparent_text_is_lower_case(t: TraceParent)
    ensures
        lower_case(traceparent_text(t)) == traceparent_text(t),
{
    lemma_hex_text_is_lower_case(t.version as nat, 2);
    lemma_hex_text_is_lower_case(t.trace_id as nat, 32);
    lemma_hex_text_is_lower_case(t.parent_id as nat, 16);
    lemma_hex_text_is_lower_case(t.flags as nat, 2);
    let dash = seq!['-'];
    assert(lower_case(dash) =~= dash);
    assert(lower_case(traceparent_text(t)) =~= lower_case(hex_text(t.version as nat, 2))
        + lower_case(dash) + lower_case(hex_text(t.trace_id as nat, 32)) + lower_case(dash)
        + lower_case(hex_text(t.parent_id as nat, 16)) + lower_case(dash) + lower_case(
        hex_text(t.flags as nat, 2),
    ));
}

proof fn lemma_traceparent_is_read(text: Seq<char>, t: TraceParent)
    ensures
        parsed_traceparent(text) == Some(t) <==> lower_case(text) == traceparent_text(t),
{
    lemma_traceparent_text_parts(t);
    reveal_with_fuel(pow16, 33);
    let lower = lower_case(text);
    if text.len() == 55 {
        lemma_lower_case_part(text, 0, 2);
        lemma_lower_case_part(text, 3, 35);
        lemma_lower_case_part(text, 36, 52);
        lemma_lower_case_part(text, 53, 55);
        lemma_part(text, 0, 2);
        lemma_part(text, 3, 35);
        lemma_part(text, 36, 52);
        lemma_part(text, 53, 55);
        assert(lower[2] == lower_case_char(text[2]));
        assert(lower[35] == lower_case_char(text[35]));
        assert(lower[52] == lower_case_char(text[52]));
    }
    if lower == traceparent_text(t) {
        lemma_written_number_is_read(text.subrange(0, 2), t.version as nat);
        lemma_written_number_is_read(text.subrange(3, 35), t.trace_id as nat);
        lemma_written_number_is_read(text.subrange(36, 52), t.parent_id as nat);
        lemma_written_number_is_read(text.subrange(53, 55), t.flags as nat);
        assert(is_traceparent(text));
    }
    if parsed_traceparent(text) == Some(t) {
        lemma_read_number_is_written(text.subrange(0, 2));
        lemma_read_number_is_written(text.subrange(3, 35));
        lemma_read_number_is_written(text.subrange(36, 52));
        lemma_read_number_is_written(text.subrange(53, 55));
        let written = traceparent_text(t);
        assert forall|i: int| 0 <= i < 55 implies lower[i] == written[i] by {
            if i < 2 {
                assert(lower[i] == lower.subrange(0, 2)[i]);
                assert(written[i] == written.subrange(0, 2)[i]);
            } else if 3 <= i < 35 {
                assert(lower[i] == lower.subrange(3, 35)[i - 3]);
                assert(written[i] == written.subrange(3, 35)[i - 3]);
            } else if 36 <= i < 52 {
                assert(lower[i] == lower.subrange(36, 52)[i - 36]);
                assert(written[i] == written.subrange(36, 52)[i - 36]);
            } else if 53 <= i {
                assert(lower[i] == lower.subrange(53, 55)[i - 53]);
                assert(written[i] == written.subrange(53, 55)[i - 53]);
            }
        }
        assert(lower =~= written);
    }
}

} // verus!

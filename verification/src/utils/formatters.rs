//! Formatting of durations and priorities, and truncation of text.

use vstd::prelude::*;
use vstd::string::StrSliceExecFns;
use vstd::string::StringExecFns;
use vstd::string::StringSliceAdditionalSpecFns;
use vstd::utf8::{decode_utf8, encode_utf8, is_char_boundary};
use crate::utils::text::{lemma_utf8_len_concat, lemma_utf8_len_push, utf8_len};

verus! {

/// The character of one decimal digit.
pub open spec fn digit_char(d: int) -> char {
    if d == 0 {
        '0'
    } else if d == 1 {
        '1'
    } else if d == 2 {
        '2'
    } else if d == 3 {
        '3'
    } else if d == 4 {
        '4'
    } else if d == 5 {
        '5'
    } else if d == 6 {
        '6'
    } else if d == 7 {
        '7'
    } else if d == 8 {
        '8'
    } else {
        '9'
    }
}

/// The decimal digits of a natural number, most significant first, without
/// leading zeros.
pub open spec fn decimal_digits(n: nat) -> Seq<char>
    decreases n,
{
    if n < 10 {
        seq![digit_char(n as int)]
    } else {
        decimal_digits(n / 10).push(digit_char((n % 10) as int))
    }
}

/// The quotient of `a` by a positive `b`, rounded toward zero.
pub open spec fn truncated_quotient(a: int, b: int) -> int {
    if a >= 0 {
        a / b
    } else {
        -((-a) / b)
    }
}

/// The text for an elapsed time given in whole days, whole hours and whole
/// minutes: the coarsest unit that is positive, or `now`.
pub open spec fn spec_format_elapsed(days: int, hours: int, minutes: int) -> Seq<char> {
    if days > 0 {
        decimal_digits(days as nat) + seq!['d', ' ', 'a', 'g', 'o']
    } else if hours > 0 {
        decimal_digits(hours as nat) + seq!['h', ' ', 'a', 'g', 'o']
    } else if minutes > 0 {
        decimal_digits(minutes as nat) + seq!['m', ' ', 'a', 'g', 'o']
    } else {
        seq!['n', 'o', 'w']
    }
}

/// The label of a priority.
pub open spec fn spec_format_priority(priority: i32) -> Seq<char> {
    if priority == 4 {
        "🔴 Urgent"@
    } else if priority == 3 {
        "🟡 High"@
    } else if priority == 2 {
        "🔵 Medium"@
    } else if priority == 1 {
        "⚪ Low"@
    } else {
        "❓ None"@
    }
}

/// Where a text of more than `max_len` bytes is cut: three bytes before
/// `max_len`, to leave room for the ellipsis, and never before the start.
pub open spec fn truncation_cut(max_len: usize) -> int {
    if max_len >= 3 {
        max_len - 3
    } else {
        0
    }
}

/// A text cut to `max_len` bytes: the text itself if it fits, else its bytes
/// up to the cut, followed by an ellipsis.
pub open spec fn spec_truncate_string(s: Seq<char>, max_len: usize) -> Seq<char> {
    if encode_utf8(s).len() <= max_len {
        s
    } else {
        decode_utf8(encode_utf8(s).subrange(0, truncation_cut(max_len))) + seq!['.', '.', '.']
    }
}

/// Whether a text can be cut to `max_len` bytes: it fits, or the cut falls
/// between two characters.
pub open spec fn spec_can_truncate(s: Seq<char>, max_len: usize) -> bool {
    encode_utf8(s).len() > max_len ==> is_char_boundary(encode_utf8(s), truncation_cut(max_len))
}

/// A text cut to a column of `max_width` bytes: the text itself if it fits;
/// else, in a column wider than three, its bytes up to three before
/// `max_width`, followed by an ellipsis; else its first `max_width`
/// characters.
pub open spec fn spec_truncate_text(text: Seq<char>, max_width: usize) -> Seq<char> {
    if encode_utf8(text).len() <= max_width {
        text
    } else if max_width > 3 {
        decode_utf8(encode_utf8(text).subrange(0, max_width - 3)) + seq!['.', '.', '.']
    } else if text.len() <= max_width {
        text
    } else {
        text.take(max_width as int)
    }
}

/// Whether a text can be cut to a column of `max_width` bytes: it fits, or
/// the column is no wider than three, or the cut falls between two
/// characters.
pub open spec fn spec_can_truncate_text(text: Seq<char>, max_width: usize) -> bool {
    encode_utf8(text).len() > max_width && max_width > 3 ==> is_char_boundary(
        encode_utf8(text),
        max_width - 3,
    )
}

/// `chrono::TimeDelta`, a span of time. Nothing of its inside is known
/// here.
#[verifier::external_type_specification]
#[verifier::external_body]
pub struct ExTimeDelta(chrono::TimeDelta);

/// The whole seconds of a duration, rounded toward zero: what
/// `chrono::TimeDelta::num_seconds` returns.
pub uninterp spec fn whole_seconds(d: chrono::TimeDelta) -> int;

/// `chrono::TimeDelta::num_days`: the whole seconds of the duration divided
/// by 86 400, rounded toward zero.
#[verifier::external_body]
fn num_days(d: &chrono::TimeDelta) -> (n: i64)
    ensures
        n == truncated_quotient(whole_seconds(*d), 86_400),
{
    d.num_days()
}

/// `chrono::TimeDelta::num_hours`: the whole seconds of the duration divided
/// by 3 600, rounded toward zero.
#[verifier::external_body]
fn num_hours(d: &chrono::TimeDelta) -> (n: i64)
    ensures
        n == truncated_quotient(whole_seconds(*d), 3_600),
{
    d.num_hours()
}

/// `chrono::TimeDelta::num_minutes`: the whole seconds of the duration
/// divided by 60, rounded toward zero.
#[verifier::external_body]
fn num_minutes(d: &chrono::TimeDelta) -> (n: i64)
    ensures
        n == truncated_quotient(whole_seconds(*d), 60),
{
    d.num_minutes()
}

/// The text of one decimal digit.
fn digit_str(d: u64) -> (r: &'static str)
    requires
        d < 10,
    ensures
        r@ == seq![digit_char(d as int)],
{
    proof {
        reveal_strlit("0");
        reveal_strlit("1");
        reveal_strlit("2");
        reveal_strlit("3");
        reveal_strlit("4");
        reveal_strlit("5");
        reveal_strlit("6");
        reveal_strlit("7");
        reveal_strlit("8");
        reveal_strlit("9");
    }
    let r = if d == 0 {
        "0"
    } else if d == 1 {
        "1"
    } else if d == 2 {
        "2"
    } else if d == 3 {
        "3"
    } else if d == 4 {
        "4"
    } else if d == 5 {
        "5"
    } else if d == 6 {
        "6"
    } else if d == 7 {
        "7"
    } else if d == 8 {
        "8"
    } else {
        "9"
    };
    assert(r@ =~= seq![digit_char(d as int)]);
    r
}

/// A natural number in decimal.
pub fn decimal_string(n: u64) -> (r: String)
    ensures
        r@ == decimal_digits(n as nat),
    decreases n,
{
    if n < 10 {
        String::from_str(digit_str(n))
    } else {
        let mut r = decimal_string(n / 10);
        r.append(digit_str(n % 10));
        assert(r@ =~= decimal_digits(n as nat));
        r
    }
}

/// The text for an elapsed time given in whole days, whole hours and whole
/// minutes, such as `3d ago`, `5h ago`, `12m ago` or `now`.
pub fn format_elapsed(days: i64, hours: i64, minutes: i64) -> (r: String)
    ensures
        r@ == spec_format_elapsed(days as int, hours as int, minutes as int),
{
    proof {
        reveal_strlit("d ago");
        reveal_strlit("h ago");
        reveal_strlit("m ago");
        reveal_strlit("now");
    }
    if days > 0 {
        let mut r = decimal_string(days as u64);
        r.append("d ago");
        assert(r@ =~= spec_format_elapsed(days as int, hours as int, minutes as int));
        r
    } else if hours > 0 {
        let mut r = decimal_string(hours as u64);
        r.append("h ago");
        assert(r@ =~= spec_format_elapsed(days as int, hours as int, minutes as int));
        r
    } else if minutes > 0 {
        let mut r = decimal_string(minutes as u64);
        r.append("m ago");
        assert(r@ =~= spec_format_elapsed(days as int, hours as int, minutes as int));
        r
    } else {
        let r = String::from_str("now");
        assert(r@ =~= spec_format_elapsed(days as int, hours as int, minutes as int));
        r
    }
}

/// The text for the time elapsed since a moment, such as `3d ago`: the whole
/// days if there is at least one, else the whole hours, else the whole
/// minutes, else `now`. A moment in the future gives `now`.
pub fn format_duration_since(elapsed: &chrono::TimeDelta) -> (r: String)
    ensures
        r@ == spec_format_elapsed(
            truncated_quotient(whole_seconds(*elapsed), 86_400),
            truncated_quotient(whole_seconds(*elapsed), 3_600),
            truncated_quotient(whole_seconds(*elapsed), 60),
        ),
{
    let days = num_days(elapsed);
    let hours = num_hours(elapsed);
    let minutes = num_minutes(elapsed);
    format_elapsed(days, hours, minutes)
}

/// The label of a priority: 4 is urgent, 3 high, 2 medium, 1 low, and every
/// other number is no priority.
pub fn format_priority(priority: i32) -> (r: &'static str)
    ensures
        r@ == spec_format_priority(priority),
{
    match priority {
        4 => "🔴 Urgent",
        3 => "🟡 High",
        2 => "🔵 Medium",
        1 => "⚪ Low",
        _ => "❓ None",
    }
}

/// Whether `truncate_string` accepts the text: it fits into `max_len` bytes,
/// or the cut falls between two characters.
pub fn can_truncate(s: &str, max_len: usize) -> (b: bool)
    ensures
        b == spec_can_truncate(s@, max_len),
{
    if s.as_bytes().len() <= max_len {
        true
    } else {
        s.is_char_boundary(max_len.saturating_sub(3))
    }
}

/// Cuts a text to `max_len` bytes. A text that fits is returned as it is. A
/// longer one is cut three bytes before `max_len` and gets an ellipsis,
/// which makes `max_len` bytes where `max_len` is at least 3.
pub fn truncate_string(s: &str, max_len: usize) -> (r: String)
    requires
        spec_can_truncate(s@, max_len),
    ensures
        r@ == spec_truncate_string(s@, max_len),
{
    if s.as_bytes().len() <= max_len {
        String::from_str(s)
    } else {
        let cut = max_len.saturating_sub(3);
        let (head, _) = s.split_at(cut);
        let mut r = String::from_str(head);
        proof {
            reveal_strlit("...");
            vstd::utf8::encode_utf8_decode_utf8(head@);
            assert("..."@ =~= seq!['.', '.', '.']);
        }
        r.append("...");
        r
    }
}

/// Cuts a text to `max_len` bytes where the cut falls between two
/// characters, and returns nothing where it would split one.
pub fn try_truncate_string(s: &str, max_len: usize) -> (r: Option<String>)
    ensures
        r is Some <==> spec_can_truncate(s@, max_len),
        r matches Some(t) ==> t@ == spec_truncate_string(s@, max_len),
{
    if can_truncate(s, max_len) {
        Some(truncate_string(s, max_len))
    } else {
        None
    }
}

/// A text that was cut ends in the ellipsis and takes three bytes more than
/// the cut, which is `max_len` bytes where `max_len` is three or more; a
/// text that was not cut is the text itself.
pub proof fn lemma_truncate_string_fits(s: Seq<char>, max_len: usize)
    requires
        spec_can_truncate(s, max_len),
    ensures
        utf8_len(s) <= max_len ==> spec_truncate_string(s, max_len) == s,
        utf8_len(s) > max_len ==> utf8_len(spec_truncate_string(s, max_len)) == truncation_cut(
            max_len,
        ) + 3,
        max_len >= 3 ==> utf8_len(spec_truncate_string(s, max_len)) <= max_len,
{
    if utf8_len(s) > max_len {
        lemma_cut_len(s, truncation_cut(max_len));
    }
}

/// A text cut to a column wider than three bytes fits into the column.
pub proof fn lemma_truncate_text_fits(text: Seq<char>, max_width: usize)
    requires
        spec_can_truncate_text(text, max_width),
        max_width > 3,
    ensures
        utf8_len(spec_truncate_text(text, max_width)) <= max_width,
        utf8_len(text) > max_width ==> utf8_len(spec_truncate_text(text, max_width))
            == max_width,
{
    if utf8_len(text) > max_width {
        lemma_cut_len(text, max_width - 3);
    }
}

/// The bytes of a text up to a cut between two characters, read as a text
/// and followed by an ellipsis, are three more than the cut.
proof fn lemma_cut_len(s: Seq<char>, cut: int)
    requires
        0 <= cut <= utf8_len(s),
        is_char_boundary(encode_utf8(s), cut),
    ensures
        utf8_len(decode_utf8(encode_utf8(s).subrange(0, cut)) + seq!['.', '.', '.']) == cut + 3,
{
    let bytes = encode_utf8(s);
    let head = bytes.subrange(0, cut);
    vstd::utf8::encode_utf8_valid_utf8(s);
    vstd::utf8::valid_utf8_split(bytes, cut);
    vstd::utf8::decode_utf8_encode_utf8(head);
    let dots = seq!['.', '.', '.'];
    lemma_utf8_len_concat(decode_utf8(head), dots);
    assert(dots =~= Seq::<char>::empty().push('.').push('.').push('.'));
    lemma_utf8_len_push(Seq::<char>::empty(), '.');
    lemma_utf8_len_push(Seq::<char>::empty().push('.'), '.');
    lemma_utf8_len_push(Seq::<char>::empty().push('.').push('.'), '.');
    assert(encode_utf8(Seq::<char>::empty()) =~= Seq::<u8>::empty());
    assert(vstd::utf8::encode_scalar('.' as u32).len() == 1);
}

/// Whether `truncate_text` accepts the text.
pub fn can_truncate_text(text: &str, max_width: usize) -> (b: bool)
    ensures
        b == spec_can_truncate_text(text@, max_width),
{
    if text.as_bytes().len() <= max_width || max_width <= 3 {
        true
    } else {
        text.is_char_boundary(max_width - 3)
    }
}

/// Cuts a text to a column of `max_width` bytes. A text that fits is
/// returned as it is. In a column wider than three a longer text is cut
/// three bytes before `max_width` and gets an ellipsis. In a narrower column
/// it is cut to its first `max_width` characters.
pub fn truncate_text(text: &str, max_width: usize) -> (r: String)
    requires
        spec_can_truncate_text(text@, max_width),
    ensures
        r@ == spec_truncate_text(text@, max_width),
{
    if text.as_bytes().len() <= max_width {
        String::from_str(text)
    } else if max_width > 3 {
        let (head, _) = text.split_at(max_width - 3);
        let mut r = String::from_str(head);
        proof {
            reveal_strlit("...");
            vstd::utf8::encode_utf8_decode_utf8(head@);
            assert("..."@ =~= seq!['.', '.', '.']);
        }
        r.append("...");
        r
    } else {
        let chars = text.unicode_len();
        if chars <= max_width {
            String::from_str(text)
        } else {
            let head = text.substring_char(0, max_width);
            assert(head@ =~= text@.take(max_width as int));
            String::from_str(head)
        }
    }
}

} // verus!

//! Wrapping of a text into lines of a given width.
//!
//! Widths are counted in bytes of UTF-8, as the width of a column is. A text
//! is first parted at its line breaks. A line that fits stays as it is. A
//! longer one is parted into words, which are put together again, with one
//! space between two words, into lines that fit; a word that is too long for
//! any line gets a line of its own.

use vstd::prelude::*;
use vstd::utf8::{encode_scalar, encode_utf8};
use crate::utils::text::{lemma_utf8_len_concat, lemma_utf8_len_push, utf8_len};

verus! {

/// Whether a character is white space: whether it has the Unicode property
/// White_Space. These are the tab, the line feed, the vertical tab, the form
/// feed, the carriage return and the space; the next line and the no-break
/// space; the Ogham space mark; the spaces of fixed width from the en quad to
/// the hair space; the line and the paragraph separator; the narrow no-break
/// space, the medium mathematical space and the ideographic space.
pub open spec fn spec_is_whitespace(c: char) -> bool {
    let u = c as u32;
    ||| 0x0009 <= u <= 0x000D
    ||| u == 0x0020
    ||| u == 0x0085
    ||| u == 0x00A0
    ||| u == 0x1680
    ||| 0x2000 <= u <= 0x200A
    ||| u == 0x2028
    ||| u == 0x2029
    ||| u == 0x202F
    ||| u == 0x205F
    ||| u == 0x3000
}

/// `char::is_whitespace` of std: whether the character has the Unicode
/// property White_Space, whose members `spec_is_whitespace` lists.
#[verifier::external_body]
fn is_whitespace(c: char) -> (b: bool)
    ensures
        b == spec_is_whitespace(c),
{
    c.is_whitespace()
}

/// `String::push` of std: appends the character to the end of the text.
#[verifier::external_body]
fn push_char(text: &mut String, c: char)
    ensures
        final(text)@ == old(text)@.push(c),
{
    text.push(c)
}

/// The characters of a text, in order.
fn chars_of(text: &str) -> (r: Vec<char>)
    ensures
        r@ == text@,
{
    let mut r: Vec<char> = Vec::new();
    for c in it: text.chars()
        invariant
            it.seq() == text@,
            r@ == text@.take(it.index() as int),
    {
        r.push(c);
        proof {
            assert(r@ =~= text@.take(it.index() + 1));
        }
    }
    proof {
        assert(text@.take(text@.len() as int) =~= text@);
    }
    r
}

/// The text made of the given characters, in order.
fn string_of(chars: &Vec<char>) -> (r: String)
    ensures
        r@ == chars@,
{
    let mut r = String::new();
    let mut i: usize = 0;
    while i < chars.len()
        invariant
            i <= chars.len(),
            r@ == chars@.take(i as int),
        decreases chars.len() - i,
    {
        push_char(&mut r, chars[i]);
        proof {
            assert(chars@.take(i + 1) =~= chars@.take(i as int).push(chars@[i as int]));
        }
        i += 1;
    }
    proof {
        assert(chars@.take(i as int) =~= chars@);
    }
    r
}

/// The views of the items, in order.
pub open spec fn views(lines: Seq<Vec<char>>) -> Seq<Seq<char>> {
    Seq::new(lines.len(), |i: int| lines[i]@)
}

/// The pieces of a text between its separators, in order. Two separators in
/// a row have an empty piece between them, and so have a separator and the
/// start or the end of the text: a text with `n` separators has `n + 1`
/// pieces.
pub open spec fn spec_split(s: Seq<char>, separator: char) -> Seq<Seq<char>>
    decreases s.len(),
{
    if s.len() == 0 {
        seq![Seq::<char>::empty()]
    } else {
        let pieces = spec_split(s.drop_last(), separator);
        if s.last() == separator {
            pieces.push(Seq::<char>::empty())
        } else {
            pieces.drop_last().push(pieces.last().push(s.last()))
        }
    }
}

/// The words of a text read so far: those that are complete, and the
/// characters of the one that is still open.
pub open spec fn scan_words(s: Seq<char>) -> (Seq<Seq<char>>, Seq<char>)
    decreases s.len(),
{
    if s.len() == 0 {
        (Seq::<Seq<char>>::empty(), Seq::<char>::empty())
    } else {
        let (done, open) = scan_words(s.drop_last());
        if spec_is_whitespace(s.last()) {
            if open.len() > 0 {
                (done.push(open), Seq::<char>::empty())
            } else {
                (done, open)
            }
        } else {
            (done, open.push(s.last()))
        }
    }
}

/// The words of a text: its longest runs of characters that are not white
/// space, in order. No word is empty.
pub open spec fn spec_words(s: Seq<char>) -> Seq<Seq<char>> {
    let (done, open) = scan_words(s);
    if open.len() > 0 {
        done.push(open)
    } else {
        done
    }
}

/// The lines filled so far from the given words, and the line that is still
/// open. A word joins the open line, after a space, while the line, the word
/// and one more byte fit into `width`; else the open line is closed and the
/// word opens the next.
pub open spec fn scan_wrap(words: Seq<Seq<char>>, width: nat) -> (Seq<Seq<char>>, Seq<char>)
    decreases words.len(),
{
    if words.len() == 0 {
        (Seq::<Seq<char>>::empty(), Seq::<char>::empty())
    } else {
        let (lines, open) = scan_wrap(words.drop_last(), width);
        let word = words.last();
        if utf8_len(open) + utf8_len(word) + 1 <= width {
            if open.len() > 0 {
                (lines, open.push(' ') + word)
            } else {
                (lines, word)
            }
        } else if open.len() > 0 {
            (lines.push(open), word)
        } else {
            (lines, word)
        }
    }
}

/// The lines that the given words fill.
pub open spec fn spec_wrap_words(words: Seq<Seq<char>>, width: nat) -> Seq<Seq<char>> {
    let (lines, open) = scan_wrap(words, width);
    if open.len() > 0 {
        lines.push(open)
    } else {
        lines
    }
}

/// The lines that one line of a text becomes: itself where it fits, else
/// the lines that its words fill.
pub open spec fn spec_wrap_line(line: Seq<char>, width: nat) -> Seq<Seq<char>> {
    if utf8_len(line) <= width {
        seq![line]
    } else {
        spec_wrap_words(spec_words(line), width)
    }
}

/// The lines that the given lines become, one after the other.
pub open spec fn spec_wrap_lines(lines: Seq<Seq<char>>, width: nat) -> Seq<Seq<char>>
    decreases lines.len(),
{
    if lines.len() == 0 {
        Seq::<Seq<char>>::empty()
    } else {
        spec_wrap_lines(lines.drop_last(), width) + spec_wrap_line(lines.last(), width)
    }
}

/// A text wrapped into lines of `width` bytes.
pub open spec fn spec_wrap_text(text: Seq<char>, width: nat) -> Seq<Seq<char>> {
    spec_wrap_lines(spec_split(text, '\n'), width)
}

/// The number of bytes of a character in UTF-8: one to four.
pub fn char_len_utf8(c: char) -> (n: usize)
    ensures
        n == encode_scalar(c as u32).len(),
        1 <= n <= 4,
{
    let u: u32 = c as u32;
    proof {
        vstd::utf8::char_is_scalar(c);
    }
    if u <= 0x7F {
        1
    } else if u <= 0x7FF {
        2
    } else if u <= 0xFFFF {
        3
    } else {
        4
    }
}

/// Whether a text fits into `width` bytes.
pub fn fits(text: &Vec<char>, width: usize) -> (b: bool)
    ensures
        b == (utf8_len(text@) <= width),
{
    let mut used: usize = 0;
    let mut i: usize = 0;
    proof {
        assert(text@.take(0) =~= Seq::<char>::empty());
        assert(encode_utf8(Seq::<char>::empty()) =~= Seq::<u8>::empty());
    }
    while i < text.len()
        invariant
            i <= text.len(),
            used == utf8_len(text@.take(i as int)),
            used <= width,
        decreases text.len() - i,
    {
        let n = char_len_utf8(text[i]);
        proof {
            assert(text@.take(i + 1) =~= text@.take(i as int).push(text@[i as int]));
            lemma_utf8_len_push(text@.take(i as int), text@[i as int]);
            assert(text@ =~= text@.take(i + 1) + text@.skip(i + 1));
            lemma_utf8_len_concat(text@.take(i + 1), text@.skip(i + 1));
        }
        if n > width - used {
            return false;
        }
        used += n;
        i += 1;
    }
    proof {
        assert(text@.take(i as int) =~= text@);
    }
    true
}

/// The pieces of a text between its separators.
pub fn split(text: &Vec<char>, separator: char) -> (r: Vec<Vec<char>>)
    ensures
        views(r@) == spec_split(text@, separator),
{
    let mut pieces: Vec<Vec<char>> = Vec::new();
    let mut open: Vec<char> = Vec::new();
    let mut i: usize = 0;
    proof {
        assert(text@.take(0) =~= Seq::<char>::empty());
        assert(views(pieces@).push(open@) =~= spec_split(text@.take(0), separator));
    }
    while i < text.len()
        invariant
            i <= text.len(),
            views(pieces@).push(open@) == spec_split(text@.take(i as int), separator),
        decreases text.len() - i,
    {
        let c = text[i];
        let ghost before = views(pieces@).push(open@);
        proof {
            assert(text@.take(i + 1).drop_last() =~= text@.take(i as int));
            assert(text@.take(i + 1).last() == c);
            assert(before.last() == open@);
            assert(before.drop_last() =~= views(pieces@));
        }
        if c == separator {
            pieces.push(open);
            open = Vec::new();
            proof {
                assert(views(pieces@).push(open@) =~= before.push(Seq::<char>::empty()));
            }
        } else {
            let ghost old_open = open@;
            open.push(c);
            proof {
                assert(views(pieces@).push(open@) =~= before.drop_last().push(old_open.push(c)));
            }
        }
        i += 1;
    }
    proof {
        assert(text@.take(i as int) =~= text@);
    }
    let ghost closed = views(pieces@).push(open@);
    pieces.push(open);
    proof {
        assert(views(pieces@) =~= closed);
    }
    pieces
}

/// The space left in a line of `width` bytes that holds `text`, or nothing
/// where the text does not fit.
fn room(text: &Vec<char>, width: usize) -> (r: Option<usize>)
    ensures
        match r {
            Some(left) => utf8_len(text@) + left == width,
            None => utf8_len(text@) > width,
        },
{
    let mut left: usize = width;
    let mut i: usize = 0;
    proof {
        assert(text@.take(0) =~= Seq::<char>::empty());
        assert(encode_utf8(Seq::<char>::empty()) =~= Seq::<u8>::empty());
    }
    while i < text.len()
        invariant
            i <= text.len(),
            utf8_len(text@.take(i as int)) + left == width,
        decreases text.len() - i,
    {
        let n = char_len_utf8(text[i]);
        proof {
            assert(text@.take(i + 1) =~= text@.take(i as int).push(text@[i as int]));
            lemma_utf8_len_push(text@.take(i as int), text@[i as int]);
            assert(text@ =~= text@.take(i + 1) + text@.skip(i + 1));
            lemma_utf8_len_concat(text@.take(i + 1), text@.skip(i + 1));
        }
        if n > left {
            return None;
        }
        left -= n;
        i += 1;
    }
    proof {
        assert(text@.take(i as int) =~= text@);
    }
    Some(left)
}

/// Whether a line, a word and one more byte fit into `width` bytes.
fn takes(open: &Vec<char>, word: &Vec<char>, width: usize) -> (b: bool)
    ensures
        b == (utf8_len(open@) + utf8_len(word@) + 1 <= width),
{
    match room(open, width) {
        Some(left) => match room(word, left) {
            Some(rest) => rest >= 1,
            None => false,
        },
        None => false,
    }
}

/// Adds the characters of `more` to the end of `line`.
fn extend(line: &mut Vec<char>, more: &Vec<char>)
    ensures
        final(line)@ == old(line)@ + more@,
{
    let mut i: usize = 0;
    while i < more.len()
        invariant
            i <= more.len(),
            line@ == old(line)@ + more@.take(i as int),
        decreases more.len() - i,
    {
        line.push(more[i]);
        proof {
            assert(more@.take(i + 1) =~= more@.take(i as int).push(more@[i as int]));
            assert(line@ =~= old(line)@ + more@.take(i + 1));
        }
        i += 1;
    }
    proof {
        assert(more@.take(i as int) =~= more@);
    }
}

/// The words of a text: its longest runs of characters that are not white
/// space.
pub fn words(text: &Vec<char>) -> (r: Vec<Vec<char>>)
    ensures
        views(r@) == spec_words(text@),
{
    let mut done: Vec<Vec<char>> = Vec::new();
    let mut open: Vec<char> = Vec::new();
    let mut i: usize = 0;
    proof {
        assert(text@.take(0) =~= Seq::<char>::empty());
        assert(views(done@) =~= Seq::<Seq<char>>::empty());
    }
    while i < text.len()
        invariant
            i <= text.len(),
            (views(done@), open@) == scan_words(text@.take(i as int)),
        decreases text.len() - i,
    {
        let c = text[i];
        let ghost before = views(done@);
        let ghost old_open = open@;
        proof {
            assert(text@.take(i + 1).drop_last() =~= text@.take(i as int));
            assert(text@.take(i + 1).last() == c);
        }
        if is_whitespace(c) {
            if open.len() > 0 {
                done.push(open);
                open = Vec::new();
                proof {
                    assert(views(done@) =~= before.push(old_open));
                }
            }
        } else {
            open.push(c);
            proof {
                assert(views(done@) =~= before);
            }
        }
        i += 1;
    }
    proof {
        assert(text@.take(i as int) =~= text@);
    }
    if open.len() > 0 {
        let ghost before = views(done@);
        done.push(open);
        proof {
            assert(views(done@) =~= before.push(open@));
        }
    }
    done
}

/// Fills lines of `width` bytes with the given words, one space between two
/// words of a line.
pub fn wrap_words(words: &Vec<Vec<char>>, width: usize) -> (r: Vec<Vec<char>>)
    ensures
        views(r@) == spec_wrap_words(views(words@), width as nat),
{
    let mut lines: Vec<Vec<char>> = Vec::new();
    let mut open: Vec<char> = Vec::new();
    let mut i: usize = 0;
    proof {
        assert(views(words@).take(0) =~= Seq::<Seq<char>>::empty());
        assert(views(lines@) =~= Seq::<Seq<char>>::empty());
    }
    while i < words.len()
        invariant
            i <= words.len(),
            (views(lines@), open@) == scan_wrap(views(words@).take(i as int), width as nat),
        decreases words.len() - i,
    {
        let word = &words[i];
        let ghost before = views(lines@);
        let ghost old_open = open@;
        proof {
            assert(views(words@).take(i + 1).drop_last() =~= views(words@).take(i as int));
            assert(views(words@).take(i + 1).last() == word@);
        }
        if takes(&open, word, width) {
            if open.len() > 0 {
                open.push(' ');
            }
            extend(&mut open, word);
            proof {
                assert(views(lines@) =~= before);
                if old_open.len() == 0 {
                    assert(open@ =~= word@);
                }
            }
        } else {
            if open.len() > 0 {
                lines.push(open);
                open = Vec::new();
                proof {
                    assert(views(lines@) =~= before.push(old_open));
                }
            }
            extend(&mut open, word);
            proof {
                assert(open@ =~= word@);
                if old_open.len() == 0 {
                    assert(views(lines@) =~= before);
                }
            }
        }
        i += 1;
    }
    proof {
        assert(views(words@).take(i as int) =~= views(words@));
    }
    if open.len() > 0 {
        let ghost before = views(lines@);
        lines.push(open);
        proof {
            assert(views(lines@) =~= before.push(open@));
        }
    }
    lines
}

/// Wraps one line: the line itself where it fits into `width` bytes, else
/// the lines that its words fill.
pub fn wrap_line(line: &Vec<char>, width: usize) -> (r: Vec<Vec<char>>)
    ensures
        views(r@) == spec_wrap_line(line@, width as nat),
{
    if fits(line, width) {
        let mut copy: Vec<char> = Vec::new();
        extend(&mut copy, line);
        let mut r: Vec<Vec<char>> = Vec::new();
        r.push(copy);
        proof {
            assert(copy@ =~= line@);
            assert(views(r@) =~= seq![line@]);
        }
        r
    } else {
        let parts = words(line);
        wrap_words(&parts, width)
    }
}

/// Wraps a text into lines of `width` bytes. The text is parted at its line
/// breaks; each part that fits is one line, and each longer part is filled
/// word by word into lines that fit. Only a word longer than `width` makes
/// a line longer than `width`.
pub fn wrap_text(text: &str, width: usize) -> (r: Vec<String>)
    ensures
        r@.len() == spec_wrap_text(text@, width as nat).len(),
        forall|i: int| 0 <= i < r@.len() ==> #[trigger] r@[i]@ == spec_wrap_text(
            text@,
            width as nat,
        )[i],
{
    let chars = chars_of(text);
    let parts = split(&chars, '\n');
    let mut out: Vec<String> = Vec::new();
    let mut i: usize = 0;
    proof {
        assert(views(parts@).take(0) =~= Seq::<Seq<char>>::empty());
    }
    while i < parts.len()
        invariant
            i <= parts.len(),
            out@.len() == spec_wrap_lines(views(parts@).take(i as int), width as nat).len(),
            forall|k: int| 0 <= k < out@.len() ==> #[trigger] out@[k]@ == spec_wrap_lines(
                views(parts@).take(i as int),
                width as nat,
            )[k],
        decreases parts.len() - i,
    {
        let wrapped = wrap_line(&parts[i], width);
        let ghost before = spec_wrap_lines(views(parts@).take(i as int), width as nat);
        proof {
            assert(views(parts@).take(i + 1).drop_last() =~= views(parts@).take(i as int));
            assert(views(parts@).take(i + 1).last() == parts@[i as int]@);
        }
        let mut j: usize = 0;
        while j < wrapped.len()
            invariant
                j <= wrapped.len(),
                out@.len() == before.len() + j,
                forall|k: int| 0 <= k < out@.len() ==> #[trigger] out@[k]@ == (before + views(
                    wrapped@,
                ))[k],
            decreases wrapped.len() - j,
        {
            out.push(string_of(&wrapped[j]));
            j += 1;
        }
        i += 1;
    }
    proof {
        assert(views(parts@).take(i as int) =~= views(parts@));
    }
    out
}

/// Every line that words fill either fits into the width or is one of the
/// words; and no line is empty as long as no word is.
pub proof fn lemma_wrapped_lines_fit(words: Seq<Seq<char>>, width: nat)
    requires
        forall|i: int| 0 <= i < words.len() ==> (#[trigger] words[i]).len() > 0,
    ensures
        forall|k: int|
            0 <= k < spec_wrap_words(words, width).len() ==> {
                let line = #[trigger] spec_wrap_words(words, width)[k];
                &&& line.len() > 0
                &&& utf8_len(line) <= width || words.contains(line)
            },
{
    lemma_scan_wrap_fits(words, width);
}

/// What `lemma_wrapped_lines_fit` says, of the closed lines and of the open
/// line.
proof fn lemma_scan_wrap_fits(words: Seq<Seq<char>>, width: nat)
    requires
        forall|i: int| 0 <= i < words.len() ==> (#[trigger] words[i]).len() > 0,
    ensures
        forall|k: int|
            0 <= k < scan_wrap(words, width).0.len() ==> {
                let line = #[trigger] scan_wrap(words, width).0[k];
                &&& line.len() > 0
                &&& utf8_len(line) <= width || words.contains(line)
            },
        words.len() > 0 ==> scan_wrap(words, width).1.len() > 0,
        words.len() == 0 ==> scan_wrap(words, width).1.len() == 0,
        utf8_len(scan_wrap(words, width).1) <= width || words.contains(scan_wrap(words, width).1),
    decreases words.len(),
{
    if words.len() == 0 {
        assert(encode_utf8(Seq::<char>::empty()) =~= Seq::<u8>::empty());
    } else {
        let rest = words.drop_last();
        let word = words.last();
        lemma_scan_wrap_fits(rest, width);
        let (lines, open) = scan_wrap(rest, width);
        assert(forall|x: Seq<char>| rest.contains(x) ==> words.contains(x)) by {
            assert forall|x: Seq<char>| rest.contains(x) implies words.contains(x) by {
                let i = choose|i: int| 0 <= i < rest.len() && rest[i] == x;
                assert(words[i] == x);
            }
        }
        assert(words.contains(word)) by {
            assert(words[words.len() - 1] == word);
        }
        if utf8_len(open) + utf8_len(word) + 1 <= width {
            if open.len() > 0 {
                lemma_utf8_len_push(open, ' ');
                lemma_utf8_len_concat(open.push(' '), word);
                assert(encode_scalar(' ' as u32).len() == 1);
            }
        }
    }
}

} // verus!

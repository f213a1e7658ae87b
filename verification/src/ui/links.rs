//! Links in message text: the text is split into lines, and each line into plain pieces and
//! the links that the link pattern finds in it (regex).

use regex::RegexBuilder;
use vstd::prelude::*;
use vstd::string::StringSliceAdditionalSpecFns;
use vstd::utf8::{
    decode_utf8, encode_utf8, is_char_boundary, is_char_boundary_iff_not_is_continuation_byte,
    is_char_boundary_start_end_of_seq, valid_utf8, valid_utf8_split,
};

use crate::order::chars_of;
use crate::text::string_from_chars;
use crate::ui::nodes::styled_match;
use crate::ui::styled::{Styled, Tint};

verus! {

broadcast use {vstd::utf8::encode_utf8_valid_utf8, vstd::utf8::encode_utf8_decode_utf8};

/// What a link looks like: a scheme, `://`, everything up to the next white space, and the
/// delimiter that ends it (or the end of the line).
pub const LINK_PATTERN: &'static str = "[^:/?#\\s]+://[^\\s]+(?:[\\s,.!?;:)\\]}>]|$)";

/// Whether the pattern builds as a multi-line regex with Unicode classes.
pub uninterp spec fn pattern_builds(pattern: Seq<char>) -> bool;

/// The byte ranges of the successive matches of the pattern in the text.
pub uninterp spec fn match_ranges(pattern: Seq<char>, text: Seq<char>) -> Seq<(usize, usize)>;

/// The ranges lie in the bytes, in order and without overlap, each starting and ending at a
/// character boundary.
pub open spec fn ranges_fit(ranges: Seq<(usize, usize)>, bytes: Seq<u8>) -> bool {
    &&& forall|i: int|
        0 <= i < ranges.len() ==> {
            &&& (#[trigger] ranges[i]).0 <= ranges[i].1 <= bytes.len()
            &&& is_char_boundary(bytes, ranges[i].0 as int)
            &&& is_char_boundary(bytes, ranges[i].1 as int)
        }
    &&& forall|i: int| 0 <= i < ranges.len() - 1 ==> (#[trigger] ranges[i]).1 <= ranges[i + 1].0
}

/// `RegexBuilder::new(pattern).multi_line(true).unicode(true).build()`, then `find_iter` on the
/// text, each match taken as its byte range (`Match::start`, `Match::end`); none where the
/// pattern does not build. regex documents that `find_iter` yields successive non-overlapping
/// matches, that a match starts no later than it ends, and that both offsets fall on character
/// boundaries of the text.
#[verifier::external_body]
fn find_matches(pattern: &str, text: &str) -> (r: Option<Vec<(usize, usize)>>)
    ensures
        r is Some <==> pattern_builds(pattern@),
        r matches Some(v) ==> v@ == match_ranges(pattern@, text@),
        r matches Some(v) ==> ranges_fit(v@, text.spec_bytes()),
{
    match RegexBuilder::new(pattern).multi_line(true).unicode(true).build() {
        Ok(re) => Some(re.find_iter(text).map(|m| (m.start(), m.end())).collect()),
        Err(_) => None,
    }
}

/// The text of the bytes from `a` to `b`.
pub open spec fn piece_text(bytes: Seq<u8>, a: int, b: int) -> Seq<char> {
    decode_utf8(bytes.subrange(a, b))
}

/// The pieces of a line from range `k` on, the text before starting at byte `from`: plain text
/// before each link, the link, and the plain text after the last link.
pub open spec fn pieces_from(bytes: Seq<u8>, ranges: Seq<(usize, usize)>, k: int, from: int) -> Seq<
    (Seq<char>, Tint),
>
    decreases ranges.len() - k,
{
    if k >= ranges.len() || k < 0 {
        if from < bytes.len() {
            seq![(piece_text(bytes, from, bytes.len() as int), Tint::Plain)]
        } else {
            seq![]
        }
    } else {
        let a = ranges[k].0 as int;
        let b = ranges[k].1 as int;
        (if from < a {
            seq![(piece_text(bytes, from, a), Tint::Plain)]
        } else {
            seq![]
        }) + seq![(piece_text(bytes, a, b), Tint::Link)] + pieces_from(bytes, ranges, k + 1, b)
    }
}

/// A character boundary of valid bytes at or after `a` is a boundary of the bytes from `a` on.
proof fn lemma_boundary_in_suffix(bytes: Seq<u8>, a: int, c: int)
    requires
        valid_utf8(bytes),
        is_char_boundary(bytes, a),
        is_char_boundary(bytes, c),
        0 <= a <= c <= bytes.len(),
    ensures
        valid_utf8(bytes.subrange(a, bytes.len() as int)),
        is_char_boundary(bytes.subrange(a, bytes.len() as int), c - a),
{
    valid_utf8_split(bytes, a);
    let s = bytes.subrange(a, bytes.len() as int);
    is_char_boundary_start_end_of_seq(s);
    if c < bytes.len() {
        is_char_boundary_iff_not_is_continuation_byte(bytes, c);
        is_char_boundary_iff_not_is_continuation_byte(s, c - a);
        assert(s[c - a] == bytes[c]);
    } else {
        assert(c - a == s.len());
    }
}

/// The text of a line's bytes from `a` to `b`, both character boundaries.
fn byte_piece(line: &str, a: usize, b: usize) -> (r: String)
    requires
        a <= b <= line.spec_bytes().len(),
        is_char_boundary(line.spec_bytes(), a as int),
        is_char_boundary(line.spec_bytes(), b as int),
    ensures
        r@ == piece_text(line.spec_bytes(), a as int, b as int),
{
    let ghost bytes = line.spec_bytes();
    proof {
        lemma_boundary_in_suffix(bytes, a as int, b as int);
    }
    let (_, tail) = line.split_at(a);
    let (mid, _) = tail.split_at(b - a);
    proof {
        assert(mid.spec_bytes() =~= bytes.subrange(a as int, b as int));
    }
    mid.to_owned()
}

/// Splits a line into plain pieces and links, the links being at the byte ranges given.
pub fn link_pieces(line: &str, ranges: &Vec<(usize, usize)>) -> (r: Vec<Styled>)
    requires
        ranges_fit(ranges@, line.spec_bytes()),
    ensures
        styled_match(r@, pieces_from(line.spec_bytes(), ranges@, 0, 0)),
{
    let ghost bytes = line.spec_bytes();
    let ghost total = pieces_from(bytes, ranges@, 0, 0);
    let n = line.as_bytes().len();
    let mut out: Vec<Styled> = Vec::new();
    let mut from: usize = 0;
    let mut k: usize = 0;
    proof {
        is_char_boundary_start_end_of_seq(bytes);
        let empty: Seq<(Seq<char>, Tint)> = Seq::empty();
        assert(empty + pieces_from(bytes, ranges@, 0, 0) =~= total);
        assert(styled_match(out@, empty));
    }
    assert(n == bytes.len());
    while k < ranges.len()
        invariant
            ranges_fit(ranges@, bytes),
            bytes == line.spec_bytes(),
            n == bytes.len(),
            total == pieces_from(bytes, ranges@, 0, 0),
            k <= ranges.len(),
            from <= n,
            is_char_boundary(bytes, from as int),
            k > 0 ==> from == ranges@[k - 1].1,
            k == 0 ==> from == 0,
            exists|acc: Seq<(Seq<char>, Tint)>|
                styled_match(out@, acc) && acc + pieces_from(bytes, ranges@, k as int, from as int)
                    == total,
        decreases ranges.len() - k,
    {
        let ghost acc = choose|acc: Seq<(Seq<char>, Tint)>|
            styled_match(out@, acc) && acc + pieces_from(bytes, ranges@, k as int, from as int)
                == total;
        let (a, b) = ranges[k];
        proof {
            assert(ranges@[k as int] == (a, b));
            if k > 0 {
                assert(ranges@[k - 1].1 <= ranges@[(k - 1) + 1].0);
            }
        }
        let ghost rest = pieces_from(bytes, ranges@, k + 1, b as int);
        let ghost before = if from < a {
            seq![(piece_text(bytes, from as int, a as int), Tint::Plain)]
        } else {
            seq![]
        };
        let ghost link = seq![(piece_text(bytes, a as int, b as int), Tint::Link)];
        assert(pieces_from(bytes, ranges@, k as int, from as int) == before + link + rest);
        if from < a {
            let t = byte_piece(line, from, a);
            out.push(Styled { text: t, tint: Tint::Plain });
        }
        let t = byte_piece(line, a, b);
        out.push(Styled { text: t, tint: Tint::Link });
        proof {
            let acc2 = acc + before + link;
            assert(acc2 + rest =~= total);
            assert(styled_match(out@, acc2));
        }
        from = b;
        k = k + 1;
    }
    let ghost acc = choose|acc: Seq<(Seq<char>, Tint)>|
        styled_match(out@, acc) && acc + pieces_from(bytes, ranges@, k as int, from as int)
            == total;
    if from < n {
        proof {
            is_char_boundary_start_end_of_seq(bytes);
        }
        let t = byte_piece(line, from, n);
        out.push(Styled { text: t, tint: Tint::Plain });
        proof {
            assert(styled_match(out@, acc + pieces_from(bytes, ranges@, k as int, from as int)));
        }
    } else {
        proof {
            assert(acc + pieces_from(bytes, ranges@, k as int, from as int) =~= acc);
        }
    }
    out
}

/// The pieces of a line: plain text and the links that the link pattern finds.
pub open spec fn line_pieces(line: Seq<char>) -> Seq<(Seq<char>, Tint)> {
    pieces_from(encode_utf8(line), match_ranges(LINK_PATTERN@, line), 0, 0)
}

/// The lines of a text, split at each line feed (a text without one is one line; a line feed
/// at the end leaves an empty last line).
pub open spec fn lines_of(s: Seq<char>) -> Seq<Seq<char>>
    decreases s.len(),
{
    if s.len() == 0 {
        seq![seq![]]
    } else {
        let init = lines_of(s.drop_last());
        if s.last() == '\n' {
            init.push(seq![])
        } else {
            init.update(init.len() - 1, init.last().push(s.last()))
        }
    }
}

proof fn lemma_lines_nonempty(s: Seq<char>)
    ensures
        lines_of(s).len() >= 1,
    decreases s.len(),
{
    if s.len() > 0 {
        lemma_lines_nonempty(s.drop_last());
    }
}

/// Splits a text into its lines.
fn split_lines(value: &str) -> (r: Vec<Vec<char>>)
    ensures
        r@.len() == lines_of(value@).len(),
        forall|i: int| 0 <= i < r@.len() ==> (#[trigger] r@[i])@ == lines_of(value@)[i],
{
    let chars = chars_of(value);
    let mut done: Vec<Vec<char>> = Vec::new();
    let mut current: Vec<char> = Vec::new();
    let mut i: usize = 0;
    while i < chars.len()
        invariant
            chars@ == value@,
            i <= chars.len(),
            done@.len() + 1 == lines_of(chars@.take(i as int)).len(),
            forall|j: int| 0 <= j < done@.len() ==> (#[trigger] done@[j])@ == lines_of(
                chars@.take(i as int),
            )[j],
            current@ == lines_of(chars@.take(i as int)).last(),
        decreases chars.len() - i,
    {
        let c = chars[i];
        proof {
            let t = chars@.take(i + 1);
            assert(t.drop_last() =~= chars@.take(i as int));
            assert(t.last() == c);
            lemma_lines_nonempty(chars@.take(i as int));
        }
        if c == '\n' {
            let line = current;
            done.push(line);
            current = Vec::new();
        } else {
            current.push(c);
        }
        i = i + 1;
    }
    proof {
        assert(chars@.take(i as int) =~= value@);
        lemma_lines_nonempty(value@);
    }
    done.push(current);
    done
}

/// Splits a text into lines, and each line into plain pieces and links (the link pieces tinted
/// `Link`); none where the link pattern does not build.
pub fn hyperlinked_lines(value: &str) -> (r: Option<Vec<Vec<Styled>>>)
    ensures
        r is Some <==> pattern_builds(LINK_PATTERN@),
        r matches Some(lines) ==> {
            &&& lines@.len() == lines_of(value@).len()
            &&& forall|i: int|
                0 <= i < lines@.len() ==> styled_match(
                    (#[trigger] lines@[i])@,
                    line_pieces(lines_of(value@)[i]),
                )
        },
{
    let split = split_lines(value);
    let mut lines: Vec<Vec<Styled>> = Vec::new();
    let mut i: usize = 0;
    proof {
        lemma_lines_nonempty(value@);
    }
    while i < split.len()
        invariant
            split@.len() == lines_of(value@).len(),
            forall|j: int| 0 <= j < split@.len() ==> (#[trigger] split@[j])@ == lines_of(value@)[j],
            i <= split.len(),
            lines@.len() == i,
            i > 0 ==> pattern_builds(LINK_PATTERN@),
            forall|j: int|
                0 <= j < i ==> styled_match((#[trigger] lines@[j])@, line_pieces(lines_of(value@)[j])),
        decreases split.len() - i,
    {
        let text = string_from_chars(split[i].clone());
        match find_matches(LINK_PATTERN, text.as_str()) {
            Some(ranges) => {
                let pieces = link_pieces(text.as_str(), &ranges);
                lines.push(pieces);
            },
            None => {
                return None;
            },
        }
        i = i + 1;
    }
    Some(lines)
}

} // verus!

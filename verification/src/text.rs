//! Text operations over the characters of a string.

use vstd::prelude::*;
use vstd::utf8::{decode_utf8, valid_utf8};

verus! {

/// `String::push` appends one character.
pub assume_specification[ String::push ](s: &mut String, c: char)
    ensures
        final(s)@ == old(s)@.push(c),
;

/// Whether a character has the Unicode property `White_Space`.
pub open spec fn is_white_space(c: char) -> bool {
    ||| '\u{9}' <= c <= '\u{d}'
    ||| c == ' '
    ||| c == '\u{85}'
    ||| c == '\u{a0}'
    ||| c == '\u{1680}'
    ||| '\u{2000}' <= c <= '\u{200a}'
    ||| c == '\u{2028}'
    ||| c == '\u{2029}'
    ||| c == '\u{202f}'
    ||| c == '\u{205f}'
    ||| c == '\u{3000}'
}

/// `char::is_whitespace` answers whether a character has the Unicode property `White_Space`, which
/// the characters listed above have and no others.
pub assume_specification[ char::is_whitespace ](c: char) -> (r: bool)
    ensures
        r == is_white_space(c),
;

/// What `String::from_utf8_lossy` makes of some bytes.
pub uninterp spec fn lossy_text(bytes: Seq<u8>) -> Seq<char>;

/// `String::from_utf8_lossy` depends on the bytes alone, and gives the text that they encode where
/// they are valid UTF-8. What replaces an invalid sequence is not stated.
#[verifier::external_body]
pub(crate) fn decode_lossy(bytes: &[u8]) -> (r: String)
    ensures
        r@ == lossy_text(bytes@),
        valid_utf8(bytes@) ==> r@ == decode_utf8(bytes@),
{
    String::from_utf8_lossy(bytes).into_owned()
}

/// Whether all characters of a text are ASCII characters.
pub open spec fn is_ascii_text(s: Seq<char>) -> bool {
    forall|i: int| 0 <= i < s.len() ==> #[trigger] s[i] <= '\u{7f}'
}

/// The small letter for a capital letter of ASCII, and any other character as it is.
pub open spec fn small_letter(c: char) -> char {
    if 'A' <= c <= 'Z' {
        (c as int + 32) as char
    } else {
        c
    }
}

/// The capital letter for a small letter of ASCII, and any other character as it is.
pub open spec fn capital_letter(c: char) -> char {
    if 'a' <= c <= 'z' {
        (c as int - 32) as char
    } else {
        c
    }
}

/// A text with small letters for its capital letters of ASCII.
pub open spec fn in_small_letters(s: Seq<char>) -> Seq<char> {
    s.map_values(|c: char| small_letter(c))
}

/// A text with capital letters for its small letters of ASCII.
pub open spec fn in_capital_letters(s: Seq<char>) -> Seq<char> {
    s.map_values(|c: char| capital_letter(c))
}

/// In small letters, it makes no difference which letters of a text were capital ones.
pub proof fn small_letters_hide_the_case(s: Seq<char>)
    ensures
        in_small_letters(in_capital_letters(s)) == in_small_letters(s),
        in_small_letters(in_small_letters(s)) == in_small_letters(s),
{
    assert(in_small_letters(in_capital_letters(s)) =~= in_small_letters(s));
    assert(in_small_letters(in_small_letters(s)) =~= in_small_letters(s));
}

/// What `str::to_lowercase` makes of a text.
pub uninterp spec fn lowercase(s: Seq<char>) -> Seq<char>;

/// `str::to_lowercase` depends on the text alone, and in a text of ASCII characters it puts a small
/// letter for each capital one. What it does to other characters is not stated.
#[verifier::external_body]
pub(crate) fn to_lowercase(s: &str) -> (r: String)
    ensures
        r@ == lowercase(s@),
        is_ascii_text(s@) ==> r@ == in_small_letters(s@),
{
    s.to_lowercase()
}

/// The characters of `s`, one by one.
pub fn chars_of(s: &str) -> (r: Vec<char>)
    ensures
        r@ == s@,
{
    let mut r: Vec<char> = Vec::new();
    for c in it: s.chars()
        invariant
            r@ == s@.take(it.index()),
            it.seq() == s@,
    {
        r.push(c);
    }
    assert(s@.take(s@.len() as int) =~= s@);
    r
}

/// The text made of the characters from `from` up to `to`.
pub fn text_between(chars: &Vec<char>, from: usize, to: usize) -> (r: String)
    requires
        from <= to <= chars@.len(),
    ensures
        r@ == chars@.subrange(from as int, to as int),
{
    let mut r = String::new();
    let mut i: usize = from;
    while i < to
        invariant
            from <= i <= to <= chars@.len(),
            r@ == chars@.subrange(from as int, i as int),
        decreases to - i,
    {
        r.push(chars[i]);
        i = i + 1;
    }
    r
}

/// Whether two texts are equal.
pub fn same_text(a: &str, b: &str) -> (r: bool)
    ensures
        r == (a@ == b@),
{
    let x = chars_of(a);
    let y = chars_of(b);
    if x.len() != y.len() {
        return false;
    }
    let mut i: usize = 0;
    while i < x.len()
        invariant
            i <= x@.len() == y@.len(),
            x@ == a@,
            y@ == b@,
            forall|k: int| 0 <= k < i ==> x@[k] == y@[k],
        decreases x@.len() - i,
    {
        if x[i] != y[i] {
            assert(a@[i as int] != b@[i as int]);
            return false;
        }
        i = i + 1;
    }
    assert(a@ =~= b@);
    true
}

/// `s` without the white space at its start.
pub open spec fn without_leading_space(s: Seq<char>) -> Seq<char>
    decreases s.len(),
{
    if s.len() > 0 && is_white_space(s[0]) {
        without_leading_space(s.skip(1))
    } else {
        s
    }
}

/// `s` without the white space at its end.
pub open spec fn without_trailing_space(s: Seq<char>) -> Seq<char>
    decreases s.len(),
{
    if s.len() > 0 && is_white_space(s.last()) {
        without_trailing_space(s.drop_last())
    } else {
        s
    }
}

/// `s` without the white space around it.
pub open spec fn trimmed(s: Seq<char>) -> Seq<char> {
    without_trailing_space(without_leading_space(s))
}

/// A trimmed text neither begins nor ends with white space.
pub proof fn trimmed_texts_have_no_space_around_them(s: Seq<char>)
    ensures
        trimmed(s).len() > 0 ==> !is_white_space(trimmed(s)[0]) && !is_white_space(
            trimmed(s).last(),
        ),
{
    leading_space_is_gone(s);
    trailing_space_is_gone(without_leading_space(s));
}

/// A text whose leading white space is gone does not begin with white space.
proof fn leading_space_is_gone(s: Seq<char>)
    ensures
        without_leading_space(s).len() > 0 ==> !is_white_space(without_leading_space(s)[0]),
    decreases s.len(),
{
    if s.len() > 0 && is_white_space(s[0]) {
        leading_space_is_gone(s.skip(1));
    }
}

/// A text whose trailing white space is gone does not end with white space, and begins as before.
proof fn trailing_space_is_gone(s: Seq<char>)
    ensures
        without_trailing_space(s).len() > 0 ==> {
            &&& !is_white_space(without_trailing_space(s).last())
            &&& without_trailing_space(s)[0] == s[0]
        },
    decreases s.len(),
{
    if s.len() > 0 && is_white_space(s.last()) {
        trailing_space_is_gone(s.drop_last());
    }
}

/// White space at the end of a text makes no difference to the trimmed text.
pub proof fn trimming_drops_what_follows(s: Seq<char>, c: char)
    requires
        is_white_space(c),
    ensures
        trimmed(s.push(c)) == trimmed(s),
    decreases s.len(),
{
    if s.len() == 0 {
        assert(s.push(c).skip(1) =~= s);
    } else if is_white_space(s[0]) {
        assert(s.push(c).skip(1) =~= s.skip(1).push(c));
        trimming_drops_what_follows(s.skip(1), c);
    } else {
        assert(s.push(c).drop_last() =~= s);
    }
}

/// A trimmed text is what stands between the white space at the start of a text and the white space
/// at its end: nothing else is lost.
pub proof fn only_white_space_is_trimmed(s: Seq<char>)
    ensures
        exists|from: int, to: int|
            {
                &&& 0 <= from <= to <= s.len()
                &&& #[trigger] s.subrange(from, to) == trimmed(s)
                &&& forall|i: int| 0 <= i < from ==> is_white_space(s[i])
                &&& forall|i: int| to <= i < s.len() ==> is_white_space(s[i])
            },
{
    let from = leading_space_is_white(s);
    let body = without_leading_space(s);
    let length = trailing_space_is_white(body);
    assert(s.subrange(from, from + length) =~= trimmed(s));
    assert forall|i: int| from + length <= i < s.len() implies is_white_space(s[i]) by {
        assert(body[i - from] == s[i]);
    }
}

/// What is missing at the start is white space.
proof fn leading_space_is_white(s: Seq<char>) -> (from: int)
    ensures
        0 <= from <= s.len(),
        without_leading_space(s) == s.skip(from),
        forall|i: int| 0 <= i < from ==> is_white_space(s[i]),
    decreases s.len(),
{
    if s.len() > 0 && is_white_space(s[0]) {
        let rest = leading_space_is_white(s.skip(1));
        assert(s.skip(1).skip(rest) =~= s.skip(rest + 1));
        assert forall|i: int| 0 <= i < rest + 1 implies is_white_space(s[i]) by {
            if i > 0 {
                assert(s.skip(1)[i - 1] == s[i]);
            }
        }
        rest + 1
    } else {
        assert(s.skip(0) =~= s);
        0
    }
}

/// What is missing at the end is white space.
proof fn trailing_space_is_white(s: Seq<char>) -> (length: int)
    ensures
        0 <= length <= s.len(),
        without_trailing_space(s) == s.take(length),
        forall|i: int| length <= i < s.len() ==> is_white_space(s[i]),
    decreases s.len(),
{
    if s.len() > 0 && is_white_space(s.last()) {
        let length = trailing_space_is_white(s.drop_last());
        assert(s.drop_last().take(length) =~= s.take(length));
        assert forall|i: int| length <= i < s.len() implies is_white_space(s[i]) by {
            if i < s.len() - 1 {
                assert(s.drop_last()[i] == s[i]);
            }
        }
        length
    } else {
        assert(s.take(s.len() as int) =~= s);
        s.len() as int
    }
}

/// The text without the white space around it.
pub fn trim(s: &str) -> (r: String)
    ensures
        r@ == trimmed(s@),
{
    let chars = chars_of(s);
    let mut from: usize = 0;
    assert(s@.skip(0) =~= s@);
    while from < chars.len() && chars[from].is_whitespace()
        invariant
            from <= chars@.len(),
            chars@ == s@,
            without_leading_space(s@) == without_leading_space(s@.skip(from as int)),
        decreases chars@.len() - from,
    {
        assert(s@.skip(from as int).skip(1) =~= s@.skip(from + 1));
        from = from + 1;
    }
    let ghost body = s@.skip(from as int);
    let mut to: usize = chars.len();
    assert(body =~= chars@.subrange(from as int, to as int));
    while from < to && chars[to - 1].is_whitespace()
        invariant
            from <= to <= chars@.len(),
            without_trailing_space(body) == without_trailing_space(
                chars@.subrange(from as int, to as int),
            ),
        decreases to - from,
    {
        assert(chars@.subrange(from as int, to as int).drop_last() =~= chars@.subrange(
            from as int,
            to - 1,
        ));
        to = to - 1;
    }
    text_between(&chars, from, to)
}

/// The pieces of `s` between the occurrences of `sep`.
pub open spec fn split_on(s: Seq<char>, sep: char) -> Seq<Seq<char>>
    decreases s.len(),
{
    if s.len() == 0 {
        seq![Seq::empty()]
    } else {
        let pieces = split_on(s.drop_last(), sep);
        if s.last() == sep {
            pieces.push(Seq::empty())
        } else {
            pieces.drop_last().push(pieces.last().push(s.last()))
        }
    }
}

/// The pieces put together again, with `sep` between them.
pub open spec fn joined(pieces: Seq<Seq<char>>, sep: char) -> Seq<char>
    decreases pieces.len(),
{
    if pieces.len() == 0 {
        Seq::empty()
    } else if pieces.len() == 1 {
        pieces[0]
    } else {
        joined(pieces.drop_last(), sep).push(sep) + pieces.last()
    }
}

/// There is at least one piece, none of them holds the separator, and joining the pieces gives the
/// text back.
pub proof fn splitting_is_undone_by_joining(s: Seq<char>, sep: char)
    ensures
        split_on(s, sep).len() >= 1,
        forall|i: int| 0 <= i < split_on(s, sep).len() ==> !(#[trigger] split_on(s, sep)[i]).contains(sep),
        joined(split_on(s, sep), sep) == s,
    decreases s.len(),
{
    if s.len() > 0 {
        splitting_is_undone_by_joining(s.drop_last(), sep);
        let before = split_on(s.drop_last(), sep);
        let after = split_on(s, sep);
        assert(s =~= s.drop_last().push(s.last()));
        if s.last() == sep {
            assert(after.drop_last() =~= before);
            assert(joined(after, sep) =~= s);
        } else {
            assert(after.drop_last() =~= before.drop_last());
            assert(joined(after, sep) =~= s);
            assert forall|i: int| 0 <= i < after.len() implies !(#[trigger] after[i]).contains(sep) by {
                if i < after.len() - 1 {
                    assert(after[i] == before[i]);
                } else {
                    assert(!before[i].contains(sep));
                    let piece = after[i];
                    assert forall|k: int| 0 <= k < piece.len() implies piece[k] != sep by {
                        if k < piece.len() - 1 {
                            assert(before[i][k] == piece[k]);
                        }
                    }
                }
            }
        }
    }
}

/// The pieces on both sides of a separator are those of the texts on its two sides.
pub proof fn splitting_goes_piece_by_piece(a: Seq<char>, b: Seq<char>, sep: char)
    ensures
        split_on(a.push(sep) + b, sep) == split_on(a, sep) + split_on(b, sep),
    decreases b.len(),
{
    let s = a.push(sep) + b;
    splitting_is_undone_by_joining(b, sep);
    if b.len() == 0 {
        assert(s =~= a.push(sep));
        assert(a.push(sep).drop_last() =~= a);
        assert(split_on(b, sep) =~= seq![Seq::empty()]);
        assert(split_on(s, sep) =~= split_on(a, sep) + split_on(b, sep));
    } else {
        splitting_goes_piece_by_piece(a, b.drop_last(), sep);
        splitting_is_undone_by_joining(b.drop_last(), sep);
        assert(s.drop_last() =~= a.push(sep) + b.drop_last());
        assert(split_on(s, sep) =~= split_on(a, sep) + split_on(b, sep));
    }
}

/// A text without the separator is one piece.
pub proof fn whole_texts_are_one_piece(s: Seq<char>, sep: char)
    requires
        !s.contains(sep),
    ensures
        split_on(s, sep) == seq![s],
    decreases s.len(),
{
    if s.len() > 0 {
        assert(s.contains(s.last())) by {
            assert(s[s.len() - 1] == s.last());
        }
        assert forall|c: char| s.drop_last().contains(c) implies s.contains(c) by {
            let i = choose|i: int| 0 <= i < s.len() - 1 && s.drop_last()[i] == c;
            assert(s[i] == c);
        }
        whole_texts_are_one_piece(s.drop_last(), sep);
        assert(s.drop_last().push(s.last()) =~= s);
        assert(split_on(s, sep) =~= seq![s]);
    } else {
        assert(s =~= Seq::empty());
        assert(split_on(s, sep) =~= seq![s]);
    }
}

/// The pieces of a text between the occurrences of `sep`.
pub fn split(s: &str, sep: char) -> (r: Vec<String>)
    ensures
        r.deep_view() == split_on(s@, sep),
{
    let chars = chars_of(s);
    let mut pieces: Vec<String> = Vec::new();
    let mut current = String::new();
    let mut i: usize = 0;
    assert(split_on(s@.take(0), sep) =~= pieces.deep_view().push(current@));
    while i < chars.len()
        invariant
            i <= chars@.len(),
            chars@ == s@,
            split_on(s@.take(i as int), sep) == pieces.deep_view().push(current@),
        decreases chars@.len() - i,
    {
        let ghost before = pieces.deep_view();
        assert(s@.take(i + 1).drop_last() =~= s@.take(i as int));
        assert(before.push(current@).drop_last() =~= before);
        if chars[i] == sep {
            pieces.push(current);
            current = String::new();
            assert(pieces.deep_view().push(current@) =~= split_on(s@.take(i + 1), sep));
        } else {
            current.push(chars[i]);
        }
        i = i + 1;
    }
    assert(s@.take(s@.len() as int) =~= s@);
    let ghost before = pieces.deep_view();
    pieces.push(current);
    assert(pieces.deep_view() =~= before.push(current@));
    pieces
}

/// What stands behind the last `sep` of a text, or the whole text where there is none.
pub fn after_last(s: &str, sep: char) -> (r: String)
    ensures
        r@ == split_on(s@, sep).last(),
{
    let chars = chars_of(s);
    let mut current = String::new();
    let mut i: usize = 0;
    while i < chars.len()
        invariant
            i <= chars@.len(),
            chars@ == s@,
            current@ == split_on(s@.take(i as int), sep).last(),
        decreases chars@.len() - i,
    {
        assert(s@.take(i + 1).drop_last() =~= s@.take(i as int));
        if chars[i] == sep {
            current = String::new();
        } else {
            current.push(chars[i]);
        }
        i = i + 1;
    }
    assert(s@.take(s@.len() as int) =~= s@);
    current
}

/// A line without the carriage return at its end.
pub open spec fn without_carriage_return(line: Seq<char>) -> Seq<char> {
    if line.len() > 0 && line.last() == '\r' {
        line.drop_last()
    } else {
        line
    }
}

/// The lines of `s`. A line ends with a line feed, which a carriage return may precede; the last
/// line needs no end.
pub open spec fn lines_of(s: Seq<char>) -> Seq<Seq<char>> {
    let pieces = split_on(s, '\n');
    let ended = pieces.drop_last().map_values(|line: Seq<char>| without_carriage_return(line));
    if pieces.last().len() == 0 {
        ended
    } else {
        ended.push(pieces.last())
    }
}

/// A text that does not begin with a separator has something before the first one.
proof fn first_piece_begins_the_text(s: Seq<char>, sep: char)
    requires
        s.len() > 0,
        s[0] != sep,
    ensures
        split_on(s, sep).len() > 0,
        split_on(s, sep)[0].len() > 0,
        split_on(s, sep)[0][0] == s[0],
    decreases s.len(),
{
    if s.len() == 1 {
        assert(split_on(s.drop_last(), sep) =~= seq![Seq::empty()]);
        assert(split_on(s, sep)[0] =~= seq![s[0]]);
    } else {
        first_piece_begins_the_text(s.drop_last(), sep);
    }
}

/// The first line of a text that does not begin with white space has something in it.
pub proof fn first_lines_of_trimmed_texts_are_not_empty(s: Seq<char>)
    requires
        s.len() > 0,
        !is_white_space(s[0]),
    ensures
        lines_of(s).len() > 0,
        lines_of(s)[0].len() > 0,
{
    first_piece_begins_the_text(s, '\n');
}

/// A text is read line by line: what stands before a line feed is the first line, without a carriage
/// return at its end, and the other lines are those of what follows. Without a line feed the whole
/// text is one line, and an empty text has none.
pub proof fn lines_end_with_line_feeds(line: Seq<char>, rest: Seq<char>)
    requires
        !line.contains('\n'),
    ensures
        line.len() == 0 ==> lines_of(line) == Seq::<Seq<char>>::empty(),
        line.len() > 0 ==> lines_of(line) == seq![line],
        line.len() == 0 || line.last() != '\r' ==> lines_of(line.push('\n') + rest) == seq![line]
            + lines_of(rest),
        lines_of(line.push('\r').push('\n') + rest) == seq![line] + lines_of(rest),
{
    whole_texts_are_one_piece(line, '\n');
    assert(seq![line].drop_last() =~= Seq::empty());
    assert(lines_of(line) =~= if line.len() == 0 {
        Seq::<Seq<char>>::empty()
    } else {
        seq![line]
    });
    first_line_is_taken_off(line, rest);
    let ended = line.push('\r');
    assert(!ended.contains('\n')) by {
        assert forall|i: int| 0 <= i < ended.len() implies ended[i] != '\n' by {
            if i < line.len() {
                assert(ended[i] == line[i]);
                assert(line.contains(line[i]));
            }
        }
    }
    first_line_is_taken_off(ended, rest);
    assert(ended.drop_last() =~= line);
}

/// What stands before the first line feed is the first line.
proof fn first_line_is_taken_off(line: Seq<char>, rest: Seq<char>)
    requires
        !line.contains('\n'),
    ensures
        lines_of(line.push('\n') + rest) == seq![without_carriage_return(line)] + lines_of(rest),
{
    whole_texts_are_one_piece(line, '\n');
    splitting_goes_piece_by_piece(line, rest, '\n');
    splitting_is_undone_by_joining(rest, '\n');
    let pieces = split_on(rest, '\n');
    let all = split_on(line.push('\n') + rest, '\n');
    assert(all =~= seq![line] + pieces);
    assert(all.drop_last() =~= seq![line] + pieces.drop_last());
    assert(lines_of(line.push('\n') + rest) =~= seq![without_carriage_return(line)] + lines_of(
        rest,
    ));
}

/// The lines of a text.
pub fn lines(s: &str) -> (r: Vec<String>)
    ensures
        r.deep_view() == lines_of(s@),
{
    let pieces = split(s, '\n');
    proof {
        splitting_is_undone_by_joining(s@, '\n');
    }
    let ghost all = pieces.deep_view();
    let mut r: Vec<String> = Vec::new();
    let mut i: usize = 0;
    while i < pieces.len() - 1
        invariant
            i < pieces@.len(),
            all == pieces.deep_view(),
            r.deep_view() == all.take(i as int).map_values(
                |line: Seq<char>| without_carriage_return(line),
            ),
        decreases pieces@.len() - i,
    {
        let chars = chars_of(pieces[i].as_str());
        let ghost before = r.deep_view();
        let line = if chars.len() > 0 && chars[chars.len() - 1] == '\r' {
            text_between(&chars, 0, chars.len() - 1)
        } else {
            text_between(&chars, 0, chars.len())
        };
        assert(line@ =~= without_carriage_return(all[i as int]));
        r.push(line);
        assert(r.deep_view() =~= before.push(line@));
        assert(all.take(i + 1) =~= all.take(i as int).push(all[i as int]));
        assert(r.deep_view() =~= all.take(i + 1).map_values(
            |line: Seq<char>| without_carriage_return(line),
        ));
        i = i + 1;
    }
    assert(all.take(i as int) =~= all.drop_last());
    let ghost before = r.deep_view();
    if !pieces[i].as_str().is_empty() {
        r.push(pieces[i].clone());
        assert(r.deep_view() =~= before.push(all.last()));
    }
    r
}

/// Whether `part` stands somewhere in `s`.
pub open spec fn occurs_in(part: Seq<char>, s: Seq<char>) -> bool {
    exists|i: int|
        0 <= i <= s.len() - part.len() && #[trigger] s.subrange(i, i + part.len()) == part
}

/// Whether `part` stands in `s` at the position `at`.
fn stands_at(s: &Vec<char>, part: &Vec<char>, at: usize) -> (r: bool)
    requires
        at + part@.len() <= s@.len(),
    ensures
        r == (s@.subrange(at as int, at + part@.len()) == part@),
{
    let room: usize = s.len();
    let mut i: usize = 0;
    while i < part.len()
        invariant
            at + part@.len() <= s@.len() == room,
            i <= part@.len(),
            forall|k: int| 0 <= k < i ==> s@[at + k] == part@[k],
        decreases part@.len() - i,
    {
        if s[at + i] != part[i] {
            assert(s@.subrange(at as int, at + part@.len())[i as int] != part@[i as int]);
            return false;
        }
        i = i + 1;
    }
    assert(s@.subrange(at as int, at + part@.len()) =~= part@);
    true
}

/// Whether `part` stands somewhere in `s`.
pub fn contains(s: &str, part: &str) -> (r: bool)
    ensures
        r == occurs_in(part@, s@),
{
    let text = chars_of(s);
    let wanted = chars_of(part);
    if wanted.len() > text.len() {
        return false;
    }
    let last: usize = text.len() - wanted.len();
    let mut at: usize = 0;
    while at < last
        invariant
            at <= last == text@.len() - wanted@.len(),
            text@ == s@,
            wanted@ == part@,
            forall|k: int| 0 <= k < at ==> #[trigger] s@.subrange(k, k + part@.len()) != part@,
        decreases last - at,
    {
        if stands_at(&text, &wanted, at) {
            return true;
        }
        at = at + 1;
    }
    stands_at(&text, &wanted, last)
}

/// Whether `s` begins with `start`.
pub fn starts_with(s: &str, start: &str) -> (r: bool)
    ensures
        r == start@.is_prefix_of(s@),
{
    let text = chars_of(s);
    let wanted = chars_of(start);
    wanted.len() <= text.len() && stands_at(&text, &wanted, 0)
}

/// What follows `start` in `s`, where `s` begins with it.
pub fn strip_prefix(s: &str, start: &str) -> (r: Option<String>)
    ensures
        r is Some <==> start@.is_prefix_of(s@),
        r matches Some(rest) ==> rest@ == s@.skip(start@.len() as int),
{
    let text = chars_of(s);
    let wanted = chars_of(start);
    if wanted.len() <= text.len() && stands_at(&text, &wanted, 0) {
        let rest = text_between(&text, wanted.len(), text.len());
        assert(rest@ =~= s@.skip(start@.len() as int));
        Some(rest)
    } else {
        None
    }
}

/// A text without the character `unwanted`.
pub fn without_char(s: &str, unwanted: char) -> (r: String)
    ensures
        r@ == s@.filter(|c: char| c != unwanted),
{
    let chars = chars_of(s);
    let mut r = String::new();
    let mut i: usize = 0;
    let ghost keep = |c: char| c != unwanted;
    assert(s@.take(0).filter(keep) =~= Seq::empty()) by {
        reveal(Seq::filter);
    }
    while i < chars.len()
        invariant
            i <= chars@.len(),
            chars@ == s@,
            keep == (|c: char| c != unwanted),
            r@ == s@.take(i as int).filter(keep),
        decreases chars@.len() - i,
    {
        assert(s@.take(i + 1).drop_last() =~= s@.take(i as int));
        reveal(Seq::filter);
        if chars[i] != unwanted {
            r.push(chars[i]);
        }
        i = i + 1;
    }
    assert(s@.take(s@.len() as int) =~= s@);
    r
}

/// Whether `c` is one of the ten decimal digits.
pub open spec fn is_digit(c: char) -> bool {
    '0' <= c <= '9'
}

/// The number that decimal digits write.
pub open spec fn decimal_value(digits: Seq<char>) -> nat
    decreases digits.len(),
{
    if digits.len() == 0 {
        0
    } else {
        decimal_value(digits.drop_last()) * 10 + (digits.last() as int - '0' as int) as nat
    }
}

/// The digits of a number that a plus sign may precede.
pub open spec fn without_plus(s: Seq<char>) -> Seq<char> {
    if s.len() > 0 && s[0] == '+' {
        s.skip(1)
    } else {
        s
    }
}

/// The number that `s` writes in decimal, where it writes one that a `u8` can hold.
pub open spec fn decimal_u8(s: Seq<char>) -> Option<u8> {
    let digits = without_plus(s);
    if digits.len() > 0 && (forall|i: int| 0 <= i < digits.len() ==> is_digit(digits[i]))
        && decimal_value(digits) <= u8::MAX {
        Some(decimal_value(digits) as u8)
    } else {
        None
    }
}

/// A digit is read as its number; one more digit multiplies what stands before it by ten; a plus sign
/// before digits makes no difference.
pub proof fn numbers_are_read_digit_by_digit(s: Seq<char>, digit: char)
    requires
        is_digit(digit),
    ensures
        decimal_u8(seq![digit]) == Some((digit as int - '0' as int) as u8),
        decimal_u8(s) matches Some(number) ==> decimal_u8(s.push(digit)) == if number * 10 + (
        digit as int - '0' as int) <= 255 {
            Some((number * 10 + (digit as int - '0' as int)) as u8)
        } else {
            None
        },
        s.len() > 0 && s[0] != '+' ==> decimal_u8(seq!['+'] + s) == decimal_u8(s),
{
    let one = seq![digit];
    assert(one.drop_last() =~= Seq::empty());
    assert(without_plus(one) == one);
    assert(decimal_value(Seq::<char>::empty()) == 0);
    if decimal_u8(s) is Some {
        let longer = s.push(digit);
        let digits = without_plus(s);
        assert(s.len() > 0);
        assert(without_plus(longer) =~= digits.push(digit));
        assert(digits.push(digit).drop_last() =~= digits);
        assert forall|i: int| 0 <= i < digits.push(digit).len() implies is_digit(
            digits.push(digit)[i],
        ) by {
            if i < digits.len() {
                assert(is_digit(digits[i]));
            }
        }
    }
    if s.len() > 0 && s[0] != '+' {
        assert((seq!['+'] + s).skip(1) =~= s);
    }
}

/// A text with anything but digits behind an optional plus sign is no number, and neither is one
/// without digits.
pub proof fn only_digits_make_numbers(s: Seq<char>, i: int)
    requires
        s.len() == 0 || s == seq!['+'] || (0 <= i < s.len() && !is_digit(s[i]) && (i > 0 || s[i]
            != '+')),
    ensures
        decimal_u8(s) is None,
{
    if s.len() > 0 && s != seq!['+'] {
        let digits = without_plus(s);
        let k = if s[0] == '+' {
            i - 1
        } else {
            i
        };
        assert(digits[k] == s[i]);
    }
}

/// The number that a text writes in decimal, where it writes one that a `u8` can hold.
pub fn parse_u8(s: &str) -> (r: Option<u8>)
    ensures
        r == decimal_u8(s@),
{
    let chars = chars_of(s);
    let from: usize = if chars.len() > 0 && chars[0] == '+' {
        1
    } else {
        0
    };
    let ghost digits = without_plus(s@);
    assert(digits =~= s@.skip(from as int));
    if from == chars.len() {
        return None;
    }
    let mut value: u32 = 0;
    let mut i: usize = from;
    while i < chars.len()
        invariant
            from <= i <= chars@.len(),
            chars@ == s@,
            digits == without_plus(s@),
            digits == s@.skip(from as int),
            value <= 256,
            value <= 255 ==> decimal_value(digits.take(i - from)) == value,
            value == 256 ==> decimal_value(digits.take(i - from)) > 255,
            forall|k: int| 0 <= k < i - from ==> is_digit(digits[k]),
        decreases chars@.len() - i,
    {
        let c: char = chars[i];
        if c < '0' || c > '9' {
            assert(!is_digit(digits[i - from]));
            return None;
        }
        assert(digits.take(i + 1 - from).drop_last() =~= digits.take(i - from));
        assert(digits.take(i + 1 - from).last() == chars@[i as int]);
        if value <= 255 {
            value = value * 10 + (c as u32 - '0' as u32);
            if value > 255 {
                value = 256;
            }
        }
        i = i + 1;
    }
    assert(digits.take(i - from) =~= digits);
    if value <= 255 {
        Some(value as u8)
    } else {
        None
    }
}

/// Lexicographic order by the code points of the characters.
pub open spec fn text_le(a: Seq<char>, b: Seq<char>) -> bool
    decreases a.len(),
{
    if a.len() == 0 {
        true
    } else if b.len() == 0 {
        false
    } else if a[0] != b[0] {
        a[0] < b[0]
    } else {
        text_le(a.skip(1), b.skip(1))
    }
}

/// Of two texts at least one comes before the other, and if each does they are equal.
pub proof fn text_order_is_total(a: Seq<char>, b: Seq<char>)
    ensures
        text_le(a, b) || text_le(b, a),
        text_le(a, b) && text_le(b, a) ==> a == b,
    decreases a.len(),
{
    if a.len() > 0 && b.len() > 0 {
        text_order_is_total(a.skip(1), b.skip(1));
        if a[0] == b[0] && a.skip(1) == b.skip(1) {
            assert(a =~= seq![a[0]] + a.skip(1));
            assert(b =~= seq![b[0]] + b.skip(1));
        }
    } else if a.len() == 0 && b.len() == 0 {
        assert(a =~= b);
    }
}

/// The order of texts is transitive.
pub proof fn text_order_is_transitive(a: Seq<char>, b: Seq<char>, c: Seq<char>)
    requires
        text_le(a, b),
        text_le(b, c),
    ensures
        text_le(a, c),
    decreases a.len(),
{
    if a.len() > 0 && b.len() > 0 && c.len() > 0 && a[0] == b[0] && b[0] == c[0] {
        text_order_is_transitive(a.skip(1), b.skip(1), c.skip(1));
    }
}

/// A text comes before every text that it begins.
pub proof fn prefix_comes_first(a: Seq<char>, b: Seq<char>)
    requires
        a.is_prefix_of(b),
    ensures
        text_le(a, b),
    decreases a.len(),
{
    if a.len() > 0 {
        assert(a[0] == b.subrange(0, a.len() as int)[0]);
        assert(a.skip(1) =~= b.skip(1).subrange(0, a.len() - 1)) by {
            assert(a =~= b.subrange(0, a.len() as int));
        }
        prefix_comes_first(a.skip(1), b.skip(1));
    }
}

/// Where two texts differ first, the smaller character decides.
pub proof fn the_first_difference_decides(a: Seq<char>, b: Seq<char>, at: int)
    requires
        0 <= at < a.len(),
        at < b.len(),
        a.take(at) == b.take(at),
        a[at] < b[at],
    ensures
        text_le(a, b),
        !text_le(b, a),
    decreases at,
{
    if at > 0 {
        assert(a[0] == a.take(at)[0] && b[0] == b.take(at)[0]);
        assert(a.skip(1).take(at - 1) =~= a.take(at).skip(1));
        assert(b.skip(1).take(at - 1) =~= b.take(at).skip(1));
        the_first_difference_decides(a.skip(1), b.skip(1), at - 1);
    }
}

/// Whether `a` comes before `b` in the order of texts, or equals it.
pub fn is_text_le(a: &str, b: &str) -> (r: bool)
    ensures
        r == text_le(a@, b@),
{
    let x = chars_of(a);
    let y = chars_of(b);
    let mut i: usize = 0;
    assert(a@.skip(0) =~= a@);
    assert(b@.skip(0) =~= b@);
    while i < x.len() && i < y.len()
        invariant
            i <= x@.len(),
            i <= y@.len(),
            x@ == a@,
            y@ == b@,
            text_le(a@, b@) == text_le(a@.skip(i as int), b@.skip(i as int)),
        decreases x@.len() - i,
    {
        if x[i] != y[i] {
            return x[i] < y[i];
        }
        assert(a@.skip(i as int).skip(1) =~= a@.skip(i + 1));
        assert(b@.skip(i as int).skip(1) =~= b@.skip(i + 1));
        i = i + 1;
    }
    i == x.len()
}

} // verus!

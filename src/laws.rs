//! Properties of the tokenizer and of the segmenter, stated over their specifications and
//! proved.

use vstd::prelude::*;
use crate::field::{
    after_hash, after_number, line_len, number_and_data, payload_of, split_marks, strip_line_end,
    subfields_of, tokenize, Error, FieldDataView, FieldView, ReadView, SUBFIELD_MARK,
};
use crate::record::{after_record, body_len, is_separator, skip_separators};
use crate::typed_record::{of_kind, view_kind, AnyTypedFieldView, FieldKind};
use crate::text::{
    all_digits, all_spaces, digits_value, is_digit_spec, is_space_spec, leading_digit_count,
    lemma_leading_digits_append, lemma_trim_append_spaces, lemma_trim_around,
    lemma_trim_start_spaces, trim, trim_end, trim_start,
};

verus! {

/// The line end does not change what trimming leaves.
proof fn lemma_trim_strip_line_end(line: Seq<char>)
    ensures
        trim(strip_line_end(line)) == trim(line),
{
    let s = if line.len() > 0 && line.last() == '\n' {
        line.drop_last()
    } else {
        line
    };
    if line.len() > 0 && line.last() == '\n' {
        assert(line == s + seq!['\n']);
        lemma_trim_append_spaces(s, seq!['\n']);
    }
    if s.len() > 0 && s.last() == '\r' {
        assert(s == s.drop_last() + seq!['\r']);
        lemma_trim_append_spaces(s.drop_last(), seq!['\r']);
    }
}

/// `c` when `present`, else nothing.
pub open spec fn optional(present: bool, c: char) -> Seq<char> {
    if present {
        seq![c]
    } else {
        Seq::empty()
    }
}

/// A field line with every part that the tokenizer tolerates: white space `pre` before it,
/// an optional `#`, white space `w0`, the number `digits`, white space `w1`, an optional
/// `:`, white space `w2`, the data `text`, and white space `post` (a line end among it).
pub open spec fn field_line(
    pre: Seq<char>,
    hash: bool,
    w0: Seq<char>,
    digits: Seq<char>,
    w1: Seq<char>,
    colon: bool,
    w2: Seq<char>,
    text: Seq<char>,
    post: Seq<char>,
) -> Seq<char> {
    pre + optional(hash, '#') + w0 + digits + w1 + optional(colon, ':') + w2 + text + post
}

/// The canonical form of a field line: `#<digits>: <text>`.
pub open spec fn canonical_line(digits: Seq<char>, text: Seq<char>) -> Seq<char> {
    seq!['#'] + digits + seq![':', ' '] + text
}

/// What a field line with the number `digits` and the data `text` reads as.
pub open spec fn field_of(digits: Seq<char>, text: Seq<char>) -> ReadView {
    if digits_value(digits) > u128::MAX {
        ReadView::Malformed(Error::NumberTooLarge)
    } else {
        ReadView::Parsed(FieldView { number: digits_value(digits) as u128, data: payload_of(text) })
    }
}

/// What follows the number reads as the data, when the data starts with neither white
/// space nor a second `:`.
proof fn lemma_after_number(w1: Seq<char>, colon: bool, w2: Seq<char>, text: Seq<char>)
    requires
        all_spaces(w1),
        all_spaces(w2),
        text.len() > 0,
        !is_space_spec(text[0]),
        colon || text[0] != ':',
    ensures
        after_number(w1 + optional(colon, ':') + w2 + text) == text,
{
    let c = optional(colon, ':');
    assert(w1 + c + w2 + text == w1 + (c + w2 + text));
    lemma_trim_start_spaces(w1, c + w2 + text);
    lemma_trim_start_spaces(w2, text);
    if colon {
        let r = c + w2 + text;
        assert(r[0] == ':');
        assert(r.drop_first() == w2 + text);
    } else {
        assert(c + w2 + text == w2 + text);
    }
}

/// Every tolerated form of a field line reads as the same field as the canonical form.
pub proof fn law_field_line_forms(
    pre: Seq<char>,
    hash: bool,
    w0: Seq<char>,
    digits: Seq<char>,
    w1: Seq<char>,
    colon: bool,
    w2: Seq<char>,
    text: Seq<char>,
    post: Seq<char>,
)
    requires
        all_spaces(pre),
        all_spaces(w0),
        all_spaces(w1),
        all_spaces(w2),
        all_spaces(post),
        digits.len() > 0,
        all_digits(digits),
        text.len() > 0,
        !is_space_spec(text[0]),
        !is_space_spec(text.last()),
        colon || text[0] != ':',
        colon || w1.len() + w2.len() > 0 || !is_digit_spec(text[0]),
    ensures
        tokenize(field_line(pre, hash, w0, digits, w1, colon, w2, text, post)) == field_of(
            digits,
            text,
        ),
        tokenize(field_line(pre, hash, w0, digits, w1, colon, w2, text, post)) == tokenize(
            canonical_line(digits, text),
        ),
{
    lemma_field_line(pre, hash, w0, digits, w1, colon, w2, text, post);
    lemma_field_line(
        Seq::empty(),
        true,
        Seq::empty(),
        digits,
        Seq::empty(),
        true,
        seq![' '],
        text,
        Seq::empty(),
    );
    assert(field_line(
        Seq::empty(),
        true,
        Seq::empty(),
        digits,
        Seq::empty(),
        true,
        seq![' '],
        text,
        Seq::empty(),
    ) == canonical_line(digits, text));
}

proof fn lemma_field_line(
    pre: Seq<char>,
    hash: bool,
    w0: Seq<char>,
    digits: Seq<char>,
    w1: Seq<char>,
    colon: bool,
    w2: Seq<char>,
    text: Seq<char>,
    post: Seq<char>,
)
    requires
        all_spaces(pre),
        all_spaces(w0),
        all_spaces(w1),
        all_spaces(w2),
        all_spaces(post),
        digits.len() > 0,
        all_digits(digits),
        text.len() > 0,
        !is_space_spec(text[0]),
        !is_space_spec(text.last()),
        colon || text[0] != ':',
        colon || w1.len() + w2.len() > 0 || !is_digit_spec(text[0]),
    ensures
        tokenize(field_line(pre, hash, w0, digits, w1, colon, w2, text, post)) == field_of(
            digits,
            text,
        ),
{
    let line = field_line(pre, hash, w0, digits, w1, colon, w2, text, post);
    let rest = w1 + optional(colon, ':') + w2 + text;
    let h = digits + rest;
    assert(is_digit_spec(digits[0]));
    assert(h[0] == digits[0]);
    let x = if hash {
        seq!['#'] + w0 + h
    } else {
        h
    };
    let lead = if hash {
        pre
    } else {
        pre + w0
    };
    assert(line == lead + x + post);
    assert(all_spaces(lead));
    assert(x.last() == text.last());
    lemma_trim_around(lead, x, post);
    lemma_trim_strip_line_end(line);
    let t = trim(strip_line_end(line));
    assert(t == x);
    if hash {
        assert(x.drop_first() == w0 + h);
        lemma_trim_start_spaces(w0, h);
    }
    assert(after_hash(t) == h);
    lemma_leading_digits_append(digits, rest);
    assert(rest.len() > 0);
    if w1.len() > 0 {
        assert(rest[0] == w1[0]);
    } else if colon {
        assert(rest[0] == ':');
    } else if w2.len() > 0 {
        assert(rest[0] == w2[0]);
    } else {
        assert(rest[0] == text[0]);
    }
    assert(leading_digit_count(rest) == 0);
    assert(h.take(digits.len() as int) == digits);
    assert(h.skip(digits.len() as int) == rest);
    lemma_after_number(w1, colon, w2, text);
    assert(number_and_data(t) == (digits, text));
}

/// Each subfield that the split gives has a text of at least one character.
proof fn lemma_subfield_texts_nonempty(pieces: Seq<Seq<char>>)
    ensures
        forall|i: int|
            0 <= i < subfields_of(pieces).len() ==> (#[trigger] subfields_of(pieces)[i]).1.len() > 0,
    decreases pieces.len(),
{
    if pieces.len() > 0 {
        let init = pieces.drop_last();
        lemma_subfield_texts_nonempty(init);
        let subs = subfields_of(pieces);
        let last = pieces.last();
        if last.len() >= 2 {
            assert forall|i: int| 0 <= i < subs.len() implies (#[trigger] subs[i]).1.len() > 0 by {
                if i < subs.len() - 1 {
                    assert(subs[i] == subfields_of(init)[i]);
                } else {
                    assert(subs[i] == (last[0], last.drop_first()));
                }
            }
        }
    }
}

/// A line never reads as a field with empty data: a full line's text is not empty, nor is
/// the text of any subfield. A line with a number but no data reads as nothing.
pub proof fn law_no_empty_field(line: Seq<char>)
    ensures
        tokenize(line) matches ReadView::Parsed(f) ==> match f.data {
            FieldDataView::FullLine(t) => t.len() > 0,
            FieldDataView::Subfields(s) => forall|i: int| 0 <= i < s.len() ==> (#[trigger] s[i]).1.len() > 0,
        },
        ({
            let (number, data) = number_and_data(trim(line));
            number.len() > 0 && data.len() == 0 ==> tokenize(line) == ReadView::Empty
        }),
{
    lemma_trim_strip_line_end(line);
    let (number, data) = number_and_data(trim(line));
    lemma_subfield_texts_nonempty(split_marks(data));
    if number.len() > 0 {
        assert(trim(line).len() > 0);
    }
}

/// A line that is not blank and does not start with a number, after an optional `#` and
/// white space, reads as an error, and never as a field.
pub proof fn law_no_number(line: Seq<char>)
    requires
        trim(line).len() > 0,
        leading_digit_count(after_hash(trim(line))) == 0,
    ensures
        tokenize(line) == ReadView::Malformed(Error::NoNumberPresent),
{
    lemma_trim_strip_line_end(line);
    assert(number_and_data(trim(line)).0.len() == 0);
}

/// The pieces joined again, with a subfield mark between each two.
pub open spec fn join_marks(pieces: Seq<Seq<char>>) -> Seq<char>
    decreases pieces.len(),
{
    if pieces.len() == 0 {
        Seq::empty()
    } else if pieces.len() == 1 {
        pieces[0]
    } else {
        join_marks(pieces.drop_last()) + seq![SUBFIELD_MARK] + pieces.last()
    }
}

/// The subfields written out again: a mark, the marker and the text for each.
pub open spec fn rejoin(subfields: Seq<(char, Seq<char>)>) -> Seq<char>
    decreases subfields.len(),
{
    if subfields.len() == 0 {
        Seq::empty()
    } else {
        rejoin(subfields.drop_last()) + seq![SUBFIELD_MARK, subfields.last().0]
            + subfields.last().1
    }
}

/// The pieces of two or more characters, each after a mark.
pub open spec fn marked_long_pieces(pieces: Seq<Seq<char>>) -> Seq<char>
    decreases pieces.len(),
{
    if pieces.len() == 0 {
        Seq::empty()
    } else if pieces.last().len() >= 2 {
        marked_long_pieces(pieces.drop_last()) + seq![SUBFIELD_MARK] + pieces.last()
    } else {
        marked_long_pieces(pieces.drop_last())
    }
}

/// The number of pieces of two or more characters.
pub open spec fn long_piece_count(pieces: Seq<Seq<char>>) -> nat
    decreases pieces.len(),
{
    if pieces.len() == 0 {
        0
    } else if pieces.last().len() >= 2 {
        long_piece_count(pieces.drop_last()) + 1
    } else {
        long_piece_count(pieces.drop_last())
    }
}

proof fn lemma_split_join(s: Seq<char>)
    ensures
        split_marks(s).len() >= 1,
        join_marks(split_marks(s)) == s,
    decreases s.len(),
{
    if s.len() > 0 {
        let t = s.drop_last();
        lemma_split_join(t);
        let p = split_marks(t);
        assert(s == t + seq![s.last()]);
        if s.last() == SUBFIELD_MARK {
            assert(split_marks(s).drop_last() == p);
        } else {
            let q = p.update(p.len() - 1, p.last().push(s.last()));
            assert(q.drop_last() == p.drop_last());
            if p.len() > 1 {
                assert(join_marks(p) == join_marks(p.drop_last()) + seq![SUBFIELD_MARK] + p.last());
            }
        }
    }
}

proof fn lemma_first_piece_empty(s: Seq<char>)
    requires
        s.len() > 0,
        s[0] == SUBFIELD_MARK,
    ensures
        split_marks(s).len() >= 2,
        split_marks(s)[0].len() == 0,
    decreases s.len(),
{
    let t = s.drop_last();
    if s.len() == 1 {
        assert(t.len() == 0);
        assert(split_marks(t) == seq![Seq::<char>::empty()]);
        assert(s.last() == SUBFIELD_MARK);
        assert(split_marks(s) == seq![Seq::<char>::empty()].push(Seq::<char>::empty()));
    } else {
        assert(t[0] == s[0]);
        lemma_first_piece_empty(t);
        let p = split_marks(t);
        if s.last() == SUBFIELD_MARK {
            assert(split_marks(s) == p.push(Seq::<char>::empty()));
            assert(split_marks(s)[0] == p[0]);
        } else {
            assert(split_marks(s) == p.update(p.len() - 1, p.last().push(s.last())));
            assert(split_marks(s)[0] == p[0]);
        }
    }
}

proof fn lemma_rejoin_marked(pieces: Seq<Seq<char>>)
    ensures
        rejoin(subfields_of(pieces)) == marked_long_pieces(pieces),
        subfields_of(pieces).len() == long_piece_count(pieces),
    decreases pieces.len(),
{
    if pieces.len() > 0 {
        lemma_rejoin_marked(pieces.drop_last());
        let last = pieces.last();
        if last.len() >= 2 {
            let subs = subfields_of(pieces);
            assert(subs.drop_last() == subfields_of(pieces.drop_last()));
            assert(seq![SUBFIELD_MARK] + last == seq![SUBFIELD_MARK, last[0]] + last.drop_first());
        }
    }
}

proof fn lemma_marked_join(pieces: Seq<Seq<char>>)
    requires
        pieces.len() >= 1,
        pieces[0].len() == 0,
        forall|i: int| 1 <= i < pieces.len() ==> (#[trigger] pieces[i]).len() >= 2,
    ensures
        marked_long_pieces(pieces) == join_marks(pieces),
    decreases pieces.len(),
{
    if pieces.len() == 1 {
        assert(pieces.drop_last().len() == 0);
        assert(marked_long_pieces(pieces.drop_last()) == Seq::<char>::empty());
        assert(pieces.last() == pieces[0]);
        assert(pieces[0] == Seq::<char>::empty());
    } else {
        let init = pieces.drop_last();
        assert forall|i: int| 1 <= i < init.len() implies (#[trigger] init[i]).len() >= 2 by {
            assert(init[i] == pieces[i]);
        }
        assert(init[0] == pieces[0]);
        lemma_marked_join(init);
        assert(pieces.last() == pieces[pieces.len() - 1]);
        assert(pieces.last().len() >= 2);
    }
}

/// Splitting a subfielded data portion and writing its subfields out again gives the data
/// without the pieces that hold a marker and no text: there are as many subfields as pieces
/// of two or more characters, and when every piece has a text the data comes back whole.
pub proof fn law_subfield_round_trip(data: Seq<char>)
    requires
        data.len() > 0,
        data[0] == SUBFIELD_MARK,
    ensures
        rejoin(subfields_of(split_marks(data))) == marked_long_pieces(split_marks(data)),
        subfields_of(split_marks(data)).len() == long_piece_count(split_marks(data)),
        (forall|i: int|
            1 <= i < split_marks(data).len() ==> (#[trigger] split_marks(data)[i]).len() >= 2)
            ==> rejoin(subfields_of(split_marks(data))) == data,
{
    let pieces = split_marks(data);
    lemma_rejoin_marked(pieces);
    lemma_split_join(data);
    lemma_first_piece_empty(data);
    if forall|i: int| 1 <= i < pieces.len() ==> (#[trigger] pieces[i]).len() >= 2 {
        lemma_marked_join(pieces);
    }
}

/// `n` stars.
pub open spec fn stars(n: nat) -> Seq<char> {
    Seq::new(n, |i: int| '*')
}

/// One or more `*`, with white space before and after, is a separator line.
pub proof fn law_star_lines_separate(before: Seq<char>, n: nat, after: Seq<char>)
    requires
        all_spaces(before),
        all_spaces(after),
        n >= 1,
    ensures
        is_separator(before + stars(n) + after),
{
    lemma_trim_around(before, stars(n), after);
}

/// The start that trimming keeps begins at or before each non-space character.
proof fn lemma_trim_start_keeps(s: Seq<char>, i: int) -> (m: int)
    requires
        0 <= i < s.len(),
        !is_space_spec(s[i]),
    ensures
        0 <= m <= i,
        trim_start(s) == s.skip(m),
    decreases s.len(),
{
    if is_space_spec(s[0]) {
        let t = s.drop_first();
        assert(t[i - 1] == s[i]);
        let m = lemma_trim_start_keeps(t, i - 1);
        assert(t.skip(m) == s.skip(m + 1));
        m + 1
    } else {
        assert(s.skip(0) == s);
        0
    }
}

/// The end that trimming keeps reaches past each non-space character.
proof fn lemma_trim_end_keeps(s: Seq<char>, i: int) -> (n: int)
    requires
        0 <= i < s.len(),
        !is_space_spec(s[i]),
    ensures
        i < n <= s.len(),
        trim_end(s) == s.take(n),
    decreases s.len(),
{
    if is_space_spec(s.last()) {
        let t = s.drop_last();
        assert(t[i] == s[i]);
        let n = lemma_trim_end_keeps(t, i);
        assert(t.take(n) == s.take(n));
        n
    } else {
        assert(s.take(s.len() as int) == s);
        s.len() as int
    }
}

/// A line that holds a character that is neither `*` nor white space is no separator line.
pub proof fn law_other_lines_do_not_separate(line: Seq<char>, i: int)
    requires
        0 <= i < line.len(),
        line[i] != '*',
        !is_space_spec(line[i]),
    ensures
        !is_separator(line),
{
    let m = lemma_trim_start_keeps(line, i);
    let u = trim_start(line);
    assert(u[i - m] == line[i]);
    let n = lemma_trim_end_keeps(u, i - m);
    assert(trim(line)[i - m] == line[i]);
}

/// Asking a record for the fields of a kind gives nothing exactly when the record holds no
/// field of that kind.
pub proof fn law_no_fields_of_kind(fields: Seq<AnyTypedFieldView>, k: FieldKind)
    ensures
        of_kind(fields, k).len() == 0 <==> forall|i: int|
            0 <= i < fields.len() ==> view_kind(#[trigger] fields[i]) != k,
    decreases fields.len(),
{
    if fields.len() > 0 {
        let t = fields.drop_first();
        law_no_fields_of_kind(t, k);
        if of_kind(fields, k).len() == 0 {
            assert forall|i: int| 0 <= i < fields.len() implies view_kind(#[trigger] fields[i])
                != k by {
                if i > 0 {
                    assert(fields[i] == t[i - 1]);
                }
            }
        } else if view_kind(fields[0]) != k {
            let j = choose|j: int| 0 <= j < t.len() && view_kind(#[trigger] t[j]) == k;
            assert(fields[j + 1] == t[j]);
        }
    }
}

/// The first line of `a`, a line feed, then `b` is `a` and the line feed, when `a` holds no
/// line feed.
proof fn lemma_line_len_prefix(a: Seq<char>, b: Seq<char>)
    requires
        forall|i: int| 0 <= i < a.len() ==> a[i] != '\n',
    ensures
        line_len(a + seq!['\n'] + b) == a.len() + 1,
        (a + seq!['\n'] + b).take(a.len() as int + 1) == a + seq!['\n'],
        (a + seq!['\n'] + b).skip(a.len() as int + 1) == b,
    decreases a.len(),
{
    let s = a + seq!['\n'] + b;
    if a.len() == 0 {
        assert(s[0] == '\n');
    } else {
        assert(s[0] == a[0]);
        assert(s.drop_first() == a.drop_first() + seq!['\n'] + b);
        lemma_line_len_prefix(a.drop_first(), b);
    }
    assert(s.take(a.len() as int + 1) == a + seq!['\n']);
    assert(s.skip(a.len() as int + 1) == b);
}

/// A record that starts with a field line ends at the next line when that line is a
/// separator line, and the text after the separator line is what is left; any other next
/// line belongs to the record.
pub proof fn law_separator_line_ends_record(line: Seq<char>, next: Seq<char>, rest: Seq<char>)
    requires
        forall|i: int| 0 <= i < line.len() ==> line[i] != '\n',
        forall|i: int| 0 <= i < next.len() ==> next[i] != '\n',
        !is_separator(line),
    ensures
        ({
            let text = line + seq!['\n'] + next + seq!['\n'] + rest;
            &&& skip_separators(text) == text
            &&& is_separator(next) ==> body_len(text) == line.len() + 1 && after_record(text) == rest
            &&& !is_separator(next) ==> body_len(text) == line.len() + next.len() + 2 + body_len(rest)
        }),
{
    let tail = next + seq!['\n'] + rest;
    let text = line + seq!['\n'] + tail;
    assert(text == line + seq!['\n'] + next + seq!['\n'] + rest);
    lemma_line_len_prefix(line, tail);
    lemma_line_len_prefix(next, rest);
    lemma_trim_append_spaces(line, seq!['\n']);
    lemma_trim_append_spaces(next, seq!['\n']);
    assert(!is_separator(line + seq!['\n']));
    assert(is_separator(next + seq!['\n']) == is_separator(next));
    assert(text.skip(line.len() as int + 1) == tail);
    assert(text.len() > 0);
    assert(skip_separators(text) == text);
    assert(body_len(text) == line.len() + 1 + body_len(tail));
    assert(tail.len() > 0);
    if is_separator(next) {
        assert(body_len(tail) == 0);
        assert(after_record(text) == tail.skip(line_len(tail) as int));
    } else {
        assert(body_len(tail) == next.len() + 1 + body_len(rest));
    }
}

} // verus!

//! Fields: the tokenizer that turns one line into a field, and the reader that walks the
//! lines of a text.

use vstd::prelude::*;
use crate::text::{
    chars_of, digits_end, digits_value, is_digit_spec, leading_digit_count, parse_decimal, skip_spaces, string_from,
    trim, trim_bounds, trim_start,
};

verus! {

/// One marker-tagged part of a field's data.
#[derive(Debug, Clone)]
pub struct Subfield {
    pub marker: char,
    pub text: String,
}

/// The data of a field: either the whole text or its subfields.
#[derive(Debug, Clone)]
pub enum FieldData {
    FullLine { text: String },
    Subfields { subfields: Vec<Subfield> },
}

/// A numbered field of a record.
#[derive(Debug, Clone)]
pub struct Field {
    pub number: u128,
    pub data: FieldData,
}

/// Why a line could not be read as a field.
#[derive(Debug, Clone, Copy, PartialEq, Eq, Structural)]
pub enum Error {
    /// The line does not start with a field number.
    NoNumberPresent,
    /// The field number does not fit in a `u128`.
    NumberTooLarge,
}

/// What one line holds.
#[derive(Debug, Clone)]
pub enum FieldReadResult {
    /// A field.
    Parsed(Field),
    /// A line that is not a field.
    Malformed(Error),
    /// A line with nothing to read: blank, or a number without data.
    Empty,
    /// No line is left.
    End,
}

/// The data of a field as values.
pub enum FieldDataView {
    FullLine(Seq<char>),
    Subfields(Seq<(char, Seq<char>)>),
}

/// A field as values.
pub struct FieldView {
    pub number: u128,
    pub data: FieldDataView,
}

/// What one line holds, as values.
pub enum ReadView {
    Parsed(FieldView),
    Malformed(Error),
    Empty,
    End,
}

impl View for Subfield {
    type V = (char, Seq<char>);

    open spec fn view(&self) -> (char, Seq<char>) {
        (self.marker, self.text@)
    }
}

/// The views of a sequence of subfields.
pub open spec fn subfield_views(s: Seq<Subfield>) -> Seq<(char, Seq<char>)> {
    s.map_values(|x: Subfield| x@)
}

proof fn lemma_views_push(s: Seq<Subfield>, x: Subfield)
    ensures
        subfield_views(s.push(x)) == subfield_views(s).push(x@),
{
    let l = subfield_views(s.push(x));
    let r = subfield_views(s).push(x@);
    assert(l.len() == r.len());
    assert forall|i: int| 0 <= i < l.len() implies l[i] == r[i] by {
        if i < s.len() {
            assert(s.push(x)[i] == s[i]);
        } else {
            assert(s.push(x)[i] == x);
        }
    }
    assert(l =~= r);
}

impl View for FieldData {
    type V = FieldDataView;

    open spec fn view(&self) -> FieldDataView {
        match self {
            FieldData::FullLine { text } => FieldDataView::FullLine(text@),
            FieldData::Subfields { subfields } => FieldDataView::Subfields(subfield_views(subfields@)),
        }
    }
}

impl View for Field {
    type V = FieldView;

    open spec fn view(&self) -> FieldView {
        FieldView { number: self.number, data: self.data@ }
    }
}

impl View for FieldReadResult {
    type V = ReadView;

    open spec fn view(&self) -> ReadView {
        match self {
            FieldReadResult::Parsed(f) => ReadView::Parsed(f@),
            FieldReadResult::Malformed(e) => ReadView::Malformed(*e),
            FieldReadResult::Empty => ReadView::Empty,
            FieldReadResult::End => ReadView::End,
        }
    }
}

/// The character that opens a subfield.
pub const SUBFIELD_MARK: char = '^';

/// `s` split at each subfield mark; the marks themselves are dropped.
pub open spec fn split_marks(s: Seq<char>) -> Seq<Seq<char>>
    decreases s.len(),
{
    if s.len() == 0 {
        seq![Seq::empty()]
    } else {
        let init = split_marks(s.drop_last());
        if s.last() == SUBFIELD_MARK {
            init.push(Seq::empty())
        } else {
            init.update(init.len() - 1, init.last().push(s.last()))
        }
    }
}

/// The subfields that the pieces of a split give: each piece of two or more characters
/// gives its first character as the marker and the rest as the text.
pub open spec fn subfields_of(pieces: Seq<Seq<char>>) -> Seq<(char, Seq<char>)>
    decreases pieces.len(),
{
    if pieces.len() == 0 {
        Seq::empty()
    } else {
        let init = subfields_of(pieces.drop_last());
        let last = pieces.last();
        if last.len() >= 2 {
            init.push((last[0], last.drop_first()))
        } else {
            init
        }
    }
}

/// The payload that a data portion gives.
pub open spec fn payload_of(data: Seq<char>) -> FieldDataView {
    if data.len() > 0 && data[0] == SUBFIELD_MARK {
        FieldDataView::Subfields(subfields_of(split_marks(data)))
    } else {
        FieldDataView::FullLine(data)
    }
}

/// `line` without one trailing line feed, then without one trailing carriage return.
pub open spec fn strip_line_end(line: Seq<char>) -> Seq<char> {
    let s = if line.len() > 0 && line.last() == '\n' {
        line.drop_last()
    } else {
        line
    };
    if s.len() > 0 && s.last() == '\r' {
        s.drop_last()
    } else {
        s
    }
}

/// A trimmed line without its optional `#` and the white space after it.
pub open spec fn after_hash(t: Seq<char>) -> Seq<char> {
    if t.len() > 0 && t[0] == '#' {
        trim_start(t.drop_first())
    } else {
        t
    }
}

/// What follows the number: without white space, an optional `:`, and white space again.
pub open spec fn after_number(rest: Seq<char>) -> Seq<char> {
    let r = trim_start(rest);
    if r.len() > 0 && r[0] == ':' {
        trim_start(r.drop_first())
    } else {
        r
    }
}

/// The number part and the data part of a trimmed line.
pub open spec fn number_and_data(t: Seq<char>) -> (Seq<char>, Seq<char>) {
    let h = after_hash(t);
    let n = leading_digit_count(h) as int;
    (h.take(n), after_number(h.skip(n)))
}

/// What the tokenizer makes of one line.
pub open spec fn tokenize(line: Seq<char>) -> ReadView {
    let t = trim(strip_line_end(line));
    let (number, data) = number_and_data(t);
    if t.len() == 0 {
        ReadView::Empty
    } else if number.len() == 0 {
        ReadView::Malformed(Error::NoNumberPresent)
    } else if data.len() == 0 {
        ReadView::Empty
    } else if digits_value(number) > u128::MAX {
        ReadView::Malformed(Error::NumberTooLarge)
    } else {
        ReadView::Parsed(FieldView { number: digits_value(number) as u128, data: payload_of(data) })
    }
}

/// The bounds of the number part and of the data part of the trimmed line `v[from..to]`:
/// the number is `v[r.0..r.1]` and the data is `v[r.2..to]`.
fn number_and_data_bounds(v: &Vec<char>, from: usize, to: usize) -> (r: (usize, usize, usize))
    requires
        from <= to <= v@.len(),
    ensures
        from <= r.0 <= r.1 <= r.2 <= to,
        forall|j: int| r.0 <= j < r.1 ==> is_digit_spec(#[trigger] v@[j]),
        number_and_data(v@.subrange(from as int, to as int)) == (
            v@.subrange(r.0 as int, r.1 as int),
            v@.subrange(r.2 as int, to as int),
        ),
{
    let ghost t = v@.subrange(from as int, to as int);
    let mut start = from;
    if start < to && v[start] == '#' {
        assert(t.drop_first() == v@.subrange(from + 1, to as int));
        start = skip_spaces(v, from + 1, to);
    }
    assert(after_hash(t) == v@.subrange(start as int, to as int));
    let number_end = digits_end(v, start, to);
    let ghost h = v@.subrange(start as int, to as int);
    assert(h.take(number_end - start) == v@.subrange(start as int, number_end as int));
    assert(h.skip(number_end - start) == v@.subrange(number_end as int, to as int));
    let mut data = skip_spaces(v, number_end, to);
    if data < to && v[data] == ':' {
        assert(v@.subrange(data as int, to as int).drop_first() == v@.subrange(data + 1, to as int));
        data = skip_spaces(v, data + 1, to);
    }
    (start, number_end, data)
}

/// The number part and the data part of a trimmed line: the line may start with `#` and
/// white space, the number may be followed by white space, `:` and white space.
pub fn get_number_and_data_parts(line: &str) -> (r: (&str, &str))
    ensures
        (r.0@, r.1@) == number_and_data(line@),
{
    let v = chars_of(line);
    let (start, number_end, data) = number_and_data_bounds(&v, 0, v.len());
    assert(v@.subrange(0, v@.len() as int) == v@);
    (line.substring_char(start, number_end), line.substring_char(data, v.len()))
}

/// The subfields of the data `v[from..to]`, which starts with the subfield mark.
fn split_subfields(v: &Vec<char>, from: usize, to: usize) -> (r: Vec<Subfield>)
    requires
        from <= to <= v@.len(),
    ensures
        subfield_views(r@) == subfields_of(split_marks(v@.subrange(from as int, to as int))),
{
    let mut out: Vec<Subfield> = Vec::new();
    let mut start = from;
    let mut i = from;
    let ghost mut pieces: Seq<Seq<char>> = seq![Seq::empty()];
    assert(v@.subrange(from as int, from as int) == Seq::<char>::empty());
    while i < to
        invariant
            from <= start <= i <= to <= v@.len(),
            pieces == split_marks(v@.subrange(from as int, i as int)),
            pieces.len() >= 1,
            pieces.last() == v@.subrange(start as int, i as int),
            subfield_views(out@) == subfields_of(pieces.drop_last()),
        decreases to - i,
    {
        let ghost before = v@.subrange(from as int, i as int);
        assert(v@.subrange(from as int, i + 1).drop_last() == before);
        assert(v@.subrange(from as int, i + 1).last() == v@[i as int]);
        if v[i] == SUBFIELD_MARK {
            if i - start >= 2 {
                let text = string_from(v, start + 1, i);
                let sub = Subfield { marker: v[start], text };
                let ghost old_out = out@;
                let ghost sub_view = sub;
                out.push(sub);
                proof {
                    let piece = v@.subrange(start as int, i as int);
                    assert(piece.drop_first() == v@.subrange(start + 1, i as int));
                    assert(piece[0] == v@[start as int]);
                    assert(out@ == old_out.push(sub_view));
                    lemma_views_push(old_out, sub_view);
                    assert(sub_view@ == (piece[0], piece.drop_first()));
                    assert(subfield_views(out@) =~= subfield_views(old_out).push(
                        (piece[0], piece.drop_first()),
                    ));
                }
            }
            proof {
                assert(pieces.push(Seq::empty()).drop_last() == pieces);
                pieces = pieces.push(Seq::empty());
            }
            start = i + 1;
            assert(v@.subrange(start as int, i + 1) == Seq::<char>::empty());
        } else {
            proof {
                let next = pieces.update(pieces.len() - 1, pieces.last().push(v@[i as int]));
                assert(next.drop_last() == pieces.drop_last());
                pieces = next;
            }
            assert(v@.subrange(start as int, i + 1) == v@.subrange(start as int, i as int).push(
                v@[i as int],
            ));
        }
        i = i + 1;
    }
    if to - start >= 2 {
        let text = string_from(v, start + 1, to);
        let sub = Subfield { marker: v[start], text };
        let ghost old_out = out@;
        let ghost sub_view = sub;
        out.push(sub);
        proof {
            let piece = v@.subrange(start as int, to as int);
            assert(piece.drop_first() == v@.subrange(start + 1, to as int));
            assert(piece[0] == v@[start as int]);
            assert(out@ == old_out.push(sub_view));
            lemma_views_push(old_out, sub_view);
            assert(subfield_views(out@) =~= subfield_views(old_out).push(
                (piece[0], piece.drop_first()),
            ));
        }
    }
    out
}

/// The payload that the data portion `v[from..to]` gives.
fn payload(v: &Vec<char>, from: usize, to: usize) -> (r: FieldData)
    requires
        from <= to <= v@.len(),
    ensures
        r@ == payload_of(v@.subrange(from as int, to as int)),
{
    if from < to && v[from] == SUBFIELD_MARK {
        FieldData::Subfields { subfields: split_subfields(v, from, to) }
    } else {
        FieldData::FullLine { text: string_from(v, from, to) }
    }
}

/// What the line `v[from..to]` holds.
fn tokenize_range(v: &Vec<char>, from: usize, to: usize) -> (r: FieldReadResult)
    requires
        from <= to <= v@.len(),
    ensures
        r@ == tokenize(v@.subrange(from as int, to as int)),
{
    let ghost line = v@.subrange(from as int, to as int);
    let mut end = to;
    if end > from && v[end - 1] == '\n' {
        end = end - 1;
    }
    if end > from && v[end - 1] == '\r' {
        end = end - 1;
    }
    assert(strip_line_end(line) == v@.subrange(from as int, end as int));
    let (start, stop) = trim_bounds(v, from, end);
    let (number_start, number_end, data) = number_and_data_bounds(v, start, stop);
    if start == stop {
        return FieldReadResult::Empty;
    }
    if number_start == number_end {
        return FieldReadResult::Malformed(Error::NoNumberPresent);
    }
    if data == stop {
        return FieldReadResult::Empty;
    }
    match parse_decimal(v, number_start, number_end) {
        None => FieldReadResult::Malformed(Error::NumberTooLarge),
        Some(number) => FieldReadResult::Parsed(Field { number, data: payload(v, data, stop) }),
    }
}

/// What one line holds: a field, a malformed line, or nothing (a blank line, or a number
/// without data). A trailing line feed and carriage return are ignored.
pub fn tokenize_line(line: &str) -> (r: FieldReadResult)
    ensures
        r@ == tokenize(line@),
{
    let v = chars_of(line);
    assert(v@.subrange(0, v@.len() as int) == v@);
    tokenize_range(&v, 0, v.len())
}

/// The length of the first line of `s`, its line feed included.
pub open spec fn line_len(s: Seq<char>) -> nat
    decreases s.len(),
{
    if s.len() == 0 {
        0
    } else if s[0] == '\n' {
        1
    } else {
        1 + line_len(s.drop_first())
    }
}

/// The first line of a text is part of it, and is not empty when the text is not.
pub proof fn lemma_line_len_bounds(s: Seq<char>)
    ensures
        line_len(s) <= s.len(),
        s.len() > 0 ==> line_len(s) > 0,
    decreases s.len(),
{
    if s.len() > 0 {
        lemma_line_len_bounds(s.drop_first());
    }
}

/// The items that the lines of `s` give, in order: a field or an error for each line that is
/// not empty.
pub open spec fn fields_of(s: Seq<char>) -> Seq<Result<FieldView, Error>>
    decreases s.len(),
{
    if s.len() == 0 {
        Seq::empty()
    } else {
        let k = line_len(s) as int;
        proof {
            lemma_line_len_bounds(s);
        }
        let rest = fields_of(s.skip(k));
        match tokenize(s.take(k)) {
            ReadView::Parsed(f) => seq![Ok(f)] + rest,
            ReadView::Malformed(e) => seq![Err(e)] + rest,
            _ => rest,
        }
    }
}

/// The view of one item that a reader yields.
pub open spec fn item_view(r: Result<Field, Error>) -> Result<FieldView, Error> {
    match r {
        Ok(f) => Ok(f@),
        Err(e) => Err(e),
    }
}

/// The views of a sequence of items.
pub open spec fn items_view(s: Seq<Result<Field, Error>>) -> Seq<Result<FieldView, Error>> {
    s.map_values(|r: Result<Field, Error>| item_view(r))
}

/// The end of the line that starts at `from` in `v[..to]`, its line feed included.
pub fn find_line_end(v: &Vec<char>, from: usize, to: usize) -> (r: usize)
    requires
        from <= to <= v@.len(),
    ensures
        from <= r <= to,
        r - from == line_len(v@.subrange(from as int, to as int)),
{
    let mut i = from;
    while i < to && v[i] != '\n'
        invariant
            from <= i <= to <= v@.len(),
            line_len(v@.subrange(from as int, to as int)) == (i - from) + line_len(
                v@.subrange(i as int, to as int),
            ),
        decreases to - i,
    {
        assert(v@.subrange(i as int, to as int).drop_first() == v@.subrange(i + 1, to as int));
        i = i + 1;
    }
    if i < to {
        i + 1
    } else {
        i
    }
}

/// The items that the lines of `v[from..to]` give.
pub fn read_fields(v: &Vec<char>, from: usize, to: usize) -> (r: Vec<Result<Field, Error>>)
    requires
        from <= to <= v@.len(),
    ensures
        items_view(r@) == fields_of(v@.subrange(from as int, to as int)),
{
    let mut out: Vec<Result<Field, Error>> = Vec::new();
    let mut i = from;
    while i < to
        invariant
            from <= i <= to <= v@.len(),
            items_view(out@) + fields_of(v@.subrange(i as int, to as int)) == fields_of(
                v@.subrange(from as int, to as int),
            ),
        decreases to - i,
    {
        let end = find_line_end(v, i, to);
        let ghost rest = v@.subrange(i as int, to as int);
        proof {
            lemma_line_len_bounds(rest);
            assert(rest.take(end - i) == v@.subrange(i as int, end as int));
            assert(rest.skip(end - i) == v@.subrange(end as int, to as int));
        }
        let ghost old_out = out@;
        match tokenize_range(v, i, end) {
            FieldReadResult::Parsed(f) => {
                let ghost item = Ok::<Field, Error>(f);
                out.push(Ok(f));
                assert(items_view(out@) =~= items_view(old_out).push(item_view(item)));
            },
            FieldReadResult::Malformed(e) => {
                let ghost item = Err::<Field, Error>(e);
                out.push(Err(e));
                assert(items_view(out@) =~= items_view(old_out).push(item_view(item)));
            },
            _ => {},
        }
        i = end;
    }
    out
}

/// Reads the fields of a text line by line.
#[derive(Debug)]
pub struct FieldsReader {
    input: Vec<char>,
    pos: usize,
}

impl FieldsReader {
    /// The text that is left to read.
    pub closed spec fn rest(&self) -> Seq<char> {
        self.input@.subrange(self.pos as int, self.input@.len() as int)
    }

    pub closed spec fn wf(&self) -> bool {
        self.pos <= self.input@.len()
    }

    /// A reader at the start of `input`.
    pub fn new(input: &str) -> (r: Self)
        ensures
            r.wf(),
            r.rest() == input@,
    {
        let input = chars_of(input);
        assert(input@.subrange(0, input@.len() as int) == input@);
        FieldsReader { input, pos: 0 }
    }

    /// Reads one line and says what it holds; `End` when no line is left.
    pub fn read(&mut self) -> (r: FieldReadResult)
        requires
            old(self).wf(),
        ensures
            final(self).wf(),
            old(self).rest().len() == 0 ==> r@ == ReadView::End && final(self).rest() == old(
                self,
            ).rest(),
            old(self).rest().len() > 0 ==> {
                let k = line_len(old(self).rest()) as int;
                &&& r@ == tokenize(old(self).rest().take(k))
                &&& final(self).rest() == old(self).rest().skip(k)
            },
    {
        let len = self.input.len();
        if self.pos == len {
            return FieldReadResult::End;
        }
        let end = find_line_end(&self.input, self.pos, len);
        let r = tokenize_range(&self.input, self.pos, end);
        proof {
            let rest = self.rest();
            assert(rest.take(end - self.pos) == self.input@.subrange(self.pos as int, end as int));
            assert(rest.skip(end - self.pos) == self.input@.subrange(end as int, len as int));
        }
        self.pos = end;
        r
    }

    /// The next field or malformed line; lines with nothing to read are passed over.
    /// `None` when no line is left.
    pub fn next(&mut self) -> (r: Option<Result<Field, Error>>)
        requires
            old(self).wf(),
        ensures
            final(self).wf(),
            fields_of(old(self).rest()).len() == 0 ==> r is None && fields_of(final(self).rest()).len()
                == 0,
            fields_of(old(self).rest()).len() > 0 ==> {
                &&& r matches Some(item) && item_view(item) == fields_of(old(self).rest())[0]
                &&& fields_of(final(self).rest()) == fields_of(old(self).rest()).drop_first()
            },
    {
        loop
            invariant
                self.wf(),
                fields_of(self.rest()) == fields_of(old(self).rest()),
            decreases self.rest().len(),
        {
            let ghost before = self.rest();
            proof {
                lemma_line_len_bounds(before);
            }
            match self.read() {
                FieldReadResult::Parsed(f) => {
                    return Some(Ok(f));
                },
                FieldReadResult::Malformed(e) => {
                    return Some(Err(e));
                },
                FieldReadResult::End => {
                    return None;
                },
                FieldReadResult::Empty => {},
            }
        }
    }

    /// All the items that are left, in order.
    pub fn read_all(&mut self) -> (r: Vec<Result<Field, Error>>)
        requires
            old(self).wf(),
        ensures
            final(self).wf(),
            items_view(r@) == fields_of(old(self).rest()),
            fields_of(final(self).rest()).len() == 0,
    {
        let len = self.input.len();
        let r = read_fields(&self.input, self.pos, len);
        self.pos = len;
        assert(self.rest().len() == 0);
        r
    }
}

/// The texts of the subfields with marker `m`, in order.
pub open spec fn texts_with(subfields: Seq<(char, Seq<char>)>, m: char) -> Seq<Seq<char>>
    decreases subfields.len(),
{
    if subfields.len() == 0 {
        Seq::empty()
    } else {
        let init = texts_with(subfields.drop_last(), m);
        if subfields.last().0 == m {
            init.push(subfields.last().1)
        } else {
            init
        }
    }
}

/// The texts of the subfields of `d` with marker `m`; none for a full line.
pub open spec fn subfield_texts(d: FieldDataView, m: char) -> Seq<Seq<char>> {
    match d {
        FieldDataView::FullLine(_) => Seq::empty(),
        FieldDataView::Subfields(s) => texts_with(s, m),
    }
}

/// The text of a full line; none for subfields.
pub open spec fn singular_text(d: FieldDataView) -> Option<Seq<char>> {
    match d {
        FieldDataView::FullLine(t) => Some(t),
        FieldDataView::Subfields(_) => None,
    }
}

/// The views of a sequence of string slices.
pub open spec fn str_views(s: Seq<&str>) -> Seq<Seq<char>> {
    s.map_values(|x: &str| x@)
}

impl FieldData {
    /// The text of a full line; `None` for subfields.
    pub fn as_singular_text(&self) -> (r: Option<&str>)
        ensures
            r matches Some(t) ==> singular_text(self@) == Some(t@),
            r is None ==> singular_text(self@) is None,
    {
        match self {
            FieldData::FullLine { text } => Some(text.as_str()),
            FieldData::Subfields { .. } => None,
        }
    }

    /// The texts of the subfields with marker `marker`, in order; none for a full line.
    pub fn get_subfields(&self, marker: char) -> (r: Vec<&str>)
        ensures
            str_views(r@) == subfield_texts(self@, marker),
    {
        let mut out: Vec<&str> = Vec::new();
        match self {
            FieldData::FullLine { .. } => {
                assert(str_views(out@) =~= Seq::<Seq<char>>::empty());
            },
            FieldData::Subfields { subfields } => {
                let ghost all = subfield_views(subfields@);
                let mut i: usize = 0;
                while i < subfields.len()
                    invariant
                        i <= subfields@.len(),
                        all == subfield_views(subfields@),
                        str_views(out@) == texts_with(all.take(i as int), marker),
                    decreases subfields@.len() - i,
                {
                    assert(all.take(i + 1).drop_last() == all.take(i as int));
                    assert(all.take(i + 1).last() == subfields@[i as int]@);
                    if subfields[i].marker == marker {
                        let t = subfields[i].text.as_str();
                        let ghost old_out = out@;
                        out.push(t);
                        assert(str_views(out@) =~= str_views(old_out).push(t@));
                    }
                    i = i + 1;
                }
                assert(all.take(i as int) == all);
            },
        }
        out
    }
}

} // verus!

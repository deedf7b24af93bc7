//! Records: groups of field lines that a separator line of `*` ends.

use vstd::prelude::*;
use crate::field::{
    fields_of, find_line_end, item_view, items_view, lemma_line_len_bounds, line_len,
    read_fields, Error, Field, FieldView,
};
use crate::text::{chars_of, trim, trim_bounds};

verus! {

/// The items of one record, in the order of its lines.
pub type Record = Vec<Result<Field, Error>>;

/// The fields of one record, without the lines that could not be read.
pub type ErrorlessRecord = Vec<Field>;

/// The views of a sequence of fields.
pub open spec fn field_views(s: Seq<Field>) -> Seq<FieldView> {
    s.map_values(|f: Field| f@)
}

/// The fields among `items`, in order.
pub open spec fn oks_of(items: Seq<Result<FieldView, Error>>) -> Seq<FieldView>
    decreases items.len(),
{
    if items.len() == 0 {
        Seq::empty()
    } else {
        let init = oks_of(items.drop_last());
        match items.last() {
            Ok(f) => init.push(f),
            Err(_) => init,
        }
    }
}

/// The fields of `record`, in order, with the malformed lines left out.
pub fn record_remove_errors(record: Record) -> (r: ErrorlessRecord)
    ensures
        field_views(r@) == oks_of(items_view(record@)),
{
    let ghost items = items_view(record@);
    let mut out: Vec<Field> = Vec::new();
    for item in it: record
        invariant
            items == items_view(it.seq()),
            field_views(out@) == oks_of(items.take(it.index() as int)),
    {
        let ghost i = it.index() as int;
        assert(items.take(i + 1).drop_last() == items.take(i));
        assert(items.take(i + 1).last() == item_view(item));
        match item {
            Ok(f) => {
                let ghost old_out = out@;
                out.push(f);
                assert(field_views(out@) =~= field_views(old_out).push(f@));
            },
            Err(_) => {},
        }
    }
    assert(items.take(items.len() as int) == items);
    out
}

/// A line is a separator when, without white space at its ends, it is one or more `*`.
pub open spec fn is_separator(line: Seq<char>) -> bool {
    let t = trim(line);
    t.len() > 0 && forall|i: int| 0 <= i < t.len() ==> t[i] == '*'
}

/// `s` without the separator lines at its start.
pub open spec fn skip_separators(s: Seq<char>) -> Seq<char>
    decreases s.len(),
{
    if s.len() > 0 && is_separator(s.take(line_len(s) as int)) {
        proof {
            lemma_line_len_bounds(s);
        }
        skip_separators(s.skip(line_len(s) as int))
    } else {
        s
    }
}

/// The length of the lines at the start of `s` before the first separator line.
pub open spec fn body_len(s: Seq<char>) -> nat
    decreases s.len(),
{
    if s.len() == 0 {
        0
    } else {
        let k = line_len(s);
        proof {
            lemma_line_len_bounds(s);
        }
        if is_separator(s.take(k as int)) {
            0
        } else {
            k + body_len(s.skip(k as int))
        }
    }
}

/// What follows the record at the start of `s`: its lines, then the separator line if any.
pub open spec fn after_record(s: Seq<char>) -> Seq<char> {
    let t = s.skip(body_len(s) as int);
    t.skip(line_len(t) as int)
}

/// Whether `v[from..to]` is one or more times `c`, and nothing else.
fn only_char(v: &Vec<char>, from: usize, to: usize, c: char) -> (r: bool)
    requires
        from <= to <= v@.len(),
    ensures
        r == (from < to && forall|i: int| from <= i < to ==> v@[i] == c),
{
    let mut i = from;
    while i < to
        invariant
            from <= i <= to <= v@.len(),
            forall|j: int| from <= j < i ==> v@[j] == c,
        decreases to - i,
    {
        if v[i] != c {
            return false;
        }
        i = i + 1;
    }
    from < to
}

/// Whether `text` is one or more times `c`, and nothing else.
pub fn does_string_only_has_a_char(text: &str, c: char) -> (r: bool)
    ensures
        r == (text@.len() > 0 && forall|i: int| 0 <= i < text@.len() ==> text@[i] == c),
{
    let v = chars_of(text);
    only_char(&v, 0, v.len(), c)
}

/// Whether the line `v[from..to]` is a separator line.
fn separator_at(v: &Vec<char>, from: usize, to: usize) -> (r: bool)
    requires
        from <= to <= v@.len(),
    ensures
        r == is_separator(v@.subrange(from as int, to as int)),
{
    let (start, end) = trim_bounds(v, from, to);
    let r = only_char(v, start, end, '*');
    proof {
        let t = v@.subrange(start as int, end as int);
        if r {
            assert forall|i: int| 0 <= i < t.len() implies t[i] == '*' by {
                assert(t[i] == v@[start + i]);
            }
        } else if start < end {
            let j = choose|j: int| start <= j < end && v@[j] != '*';
            assert(t[j - start] == v@[j]);
        }
    }
    r
}

/// Whether `line` is a separator line: one or more `*` with white space at most around them.
pub fn is_separator_line(line: &str) -> (r: bool)
    ensures
        r == is_separator(line@),
{
    let v = chars_of(line);
    assert(v@.subrange(0, v@.len() as int) == v@);
    separator_at(&v, 0, v.len())
}

/// Reads the records of a text one at a time.
#[derive(Debug)]
pub struct RecordsReader {
    input: Vec<char>,
    pos: usize,
}

impl RecordsReader {
    /// The text that is left to read.
    pub closed spec fn rest(&self) -> Seq<char> {
        self.input@.subrange(self.pos as int, self.input@.len() as int)
    }

    pub closed spec fn wf(&self) -> bool {
        self.pos <= self.input@.len()
    }

    /// A reader at the start of `input`.
    pub fn new(input: &str) -> (r: Self)
        ensures
            r.wf(),
            r.rest() == input@,
    {
        let input = chars_of(input);
        assert(input@.subrange(0, input@.len() as int) == input@);
        RecordsReader { input, pos: 0 }
    }

    /// The next record: the items of the lines up to the next separator line, which is
    /// consumed with them. Separator lines with no line before them are passed over; `None`
    /// when no other line is left.
    pub fn next(&mut self) -> (r: Option<Record>)
        requires
            old(self).wf(),
        ensures
            final(self).wf(),
            ({
                let t = skip_separators(old(self).rest());
                &&& t.len() == 0 ==> r is None && final(self).rest().len() == 0
                &&& t.len() > 0 ==> {
                    &&& r matches Some(record) && items_view(record@) == fields_of(
                        t.take(body_len(t) as int),
                    )
                    &&& final(self).rest() == after_record(t)
                }
            }),
    {
        let len = self.input.len();
        let mut start = self.pos;
        loop
            invariant
                self.wf(),
                len == self.input@.len(),
                self.pos <= start <= len,
                skip_separators(self.input@.subrange(start as int, len as int)) == skip_separators(
                    old(self).rest(),
                ),
                self.input@ == old(self).input@,
                self.pos == old(self).pos,
            ensures
                start <= len,
                skip_separators(old(self).rest()) == self.input@.subrange(start as int, len as int),
            decreases len - start,
        {
            let ghost s = self.input@.subrange(start as int, len as int);
            if start == len {
                break;
            }
            let end = find_line_end(&self.input, start, len);
            proof {
                lemma_line_len_bounds(s);
                assert(s.take(end - start) == self.input@.subrange(start as int, end as int));
                assert(s.skip(end - start) == self.input@.subrange(end as int, len as int));
            }
            if !separator_at(&self.input, start, end) {
                break;
            }
            start = end;
        }
        if start == len {
            self.pos = len;
            return None;
        }
        let ghost t = self.input@.subrange(start as int, len as int);
        let mut stop = start;
        loop
            invariant
                start <= stop <= len == self.input@.len(),
                t == self.input@.subrange(start as int, len as int),
                body_len(t) == (stop - start) + body_len(self.input@.subrange(stop as int, len as int)),
            ensures
                start <= stop <= len,
                body_len(t) == stop - start,
                body_len(self.input@.subrange(stop as int, len as int)) == 0,
            decreases len - stop,
        {
            let ghost s = self.input@.subrange(stop as int, len as int);
            if stop == len {
                break;
            }
            let end = find_line_end(&self.input, stop, len);
            proof {
                lemma_line_len_bounds(s);
                assert(s.take(end - stop) == self.input@.subrange(stop as int, end as int));
                assert(s.skip(end - stop) == self.input@.subrange(end as int, len as int));
            }
            if separator_at(&self.input, stop, end) {
                break;
            }
            stop = end;
        }
        let record = read_fields(&self.input, start, stop);
        let next = find_line_end(&self.input, stop, len);
        proof {
            assert(t.take(stop - start) == self.input@.subrange(start as int, stop as int));
            assert(t.skip(stop - start) == self.input@.subrange(stop as int, len as int));
            assert(self.input@.subrange(stop as int, len as int).skip(next - stop)
                == self.input@.subrange(next as int, len as int));
        }
        self.pos = next;
        Some(record)
    }
}

} // verus!

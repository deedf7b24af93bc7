//! Helpers shared by the field parsers.

use vstd::prelude::*;
use crate::field::str_views;
use crate::typed_record::ParseTypedFieldError;

verus! {

/// The only text among `texts`: `None` when there is none, an error when there are more.
pub open spec fn at_most_one(texts: Seq<Seq<char>>) -> Result<Option<Seq<char>>, ParseTypedFieldError> {
    if texts.len() == 0 {
        Ok(None)
    } else if texts.len() == 1 {
        Ok(Some(texts[0]))
    } else {
        Err(ParseTypedFieldError::MoreThanOneSubfield)
    }
}

/// The texts one after the other.
pub open spec fn joined(texts: Seq<Seq<char>>) -> Seq<char>
    decreases texts.len(),
{
    if texts.len() == 0 {
        Seq::empty()
    } else {
        joined(texts.drop_last()) + texts.last()
    }
}

/// The texts joined into one; `None` when there is none.
pub open spec fn concatenated(texts: Seq<Seq<char>>) -> Option<Seq<char>> {
    if texts.len() == 0 {
        None
    } else {
        Some(joined(texts))
    }
}

/// The view of an optional text.
pub open spec fn opt_view(o: Option<&str>) -> Option<Seq<char>> {
    match o {
        Some(s) => Some(s@),
        None => None,
    }
}

/// The view of an optional string.
pub open spec fn opt_string_view(o: Option<String>) -> Option<Seq<char>> {
    match o {
        Some(s) => Some(s@),
        None => None,
    }
}

/// The only one of the texts of a subfield that may occur at most once.
pub fn expect_max_one_subfield(subfields: Vec<&str>) -> (r: Result<Option<&str>, ParseTypedFieldError>)
    ensures
        r matches Ok(o) ==> at_most_one(str_views(subfields@)) == Ok::<_, ParseTypedFieldError>(opt_view(o)),
        r matches Err(e) ==> at_most_one(str_views(subfields@)) == Err::<Option<Seq<char>>, _>(e),
{
    if subfields.len() == 0 {
        Ok(None)
    } else if subfields.len() == 1 {
        Ok(Some(subfields[0]))
    } else {
        Err(ParseTypedFieldError::MoreThanOneSubfield)
    }
}

/// All the texts of a subfield that may repeat, joined in order; `None` when there is none.
pub fn concat_subfields(subfields: Vec<&str>) -> (r: Option<String>)
    ensures
        opt_string_view(r) == concatenated(str_views(subfields@)),
{
    if subfields.len() == 0 {
        return None;
    }
    let ghost texts = str_views(subfields@);
    let mut out = String::new();
    let mut i: usize = 0;
    while i < subfields.len()
        invariant
            i <= subfields@.len(),
            texts == str_views(subfields@),
            out@ == joined(texts.take(i as int)),
        decreases subfields@.len() - i,
    {
        assert(texts.take(i + 1).drop_last() == texts.take(i as int));
        assert(texts.take(i + 1).last() == subfields@[i as int]@);
        out.append(subfields[i]);
        i = i + 1;
    }
    assert(texts.take(i as int) == texts);
    Some(out)
}

} // verus!

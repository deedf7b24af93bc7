//! Typed fields of the identification block (0XX).

use vstd::prelude::*;
use crate::field::{singular_text, subfield_texts, FieldData, FieldDataView};
use crate::text::{
    chars_of, digits_value, is_digit, is_digit_spec, lemma_digits_value_below, parse_decimal, pow10,
    trim, trim_bounds,
};
use crate::typed_record::util::{
    at_most_one, concat_subfields, concatenated, expect_max_one_subfield, opt_string_view, opt_view,
};
use crate::typed_record::{ParseTypedFieldError, TimeUnit, TypedField};

verus! {

/// 001 Record identifier.
#[derive(Debug, Clone)]
pub struct Field001RecordId {
    pub id: String,
}

impl View for Field001RecordId {
    type V = Seq<char>;

    open spec fn view(&self) -> Seq<char> {
        self.id@
    }
}

/// The identifier that a field's data gives: its whole text; subfields are refused.
pub open spec fn record_id_of(d: FieldDataView) -> Result<Seq<char>, ParseTypedFieldError> {
    match singular_text(d) {
        Some(t) => Ok(t),
        None => Err(ParseTypedFieldError::SubfieldsNotAllowed),
    }
}

impl From<String> for Field001RecordId {
    fn from(value: String) -> (r: Self) {
        Self { id: value }
    }
}

impl vstd::std_specs::convert::FromSpecImpl<String> for Field001RecordId {
    open spec fn obeys_from_spec() -> bool {
        true
    }

    open spec fn from_spec(v: String) -> Self {
        Field001RecordId { id: v }
    }
}

impl Field001RecordId {
    /// The identifier held by a full line.
    pub fn try_from_data(data: FieldData) -> (r: Result<Self, ParseTypedFieldError>)
        ensures
            r matches Ok(f) ==> record_id_of(data@) == Ok::<_, ParseTypedFieldError>(f@),
            r matches Err(e) ==> record_id_of(data@) == Err::<Seq<char>, _>(e),
    {
        match data {
            FieldData::FullLine { text } => Ok(Field001RecordId { id: text }),
            FieldData::Subfields { .. } => Err(ParseTypedFieldError::SubfieldsNotAllowed),
        }
    }
}

/// 003 Persistent record identifier.
#[derive(Debug, Clone)]
pub struct Field003PersistentRecordId {
    pub id: String,
}

impl View for Field003PersistentRecordId {
    type V = Seq<char>;

    open spec fn view(&self) -> Seq<char> {
        self.id@
    }
}

impl From<String> for Field003PersistentRecordId {
    fn from(value: String) -> (r: Self) {
        Self { id: value }
    }
}

impl vstd::std_specs::convert::FromSpecImpl<String> for Field003PersistentRecordId {
    open spec fn obeys_from_spec() -> bool {
        true
    }

    open spec fn from_spec(v: String) -> Self {
        Field003PersistentRecordId { id: v }
    }
}

impl Field003PersistentRecordId {
    /// The identifier held by a full line.
    pub fn try_from_data(data: FieldData) -> (r: Result<Self, ParseTypedFieldError>)
        ensures
            r matches Ok(f) ==> record_id_of(data@) == Ok::<_, ParseTypedFieldError>(f@),
            r matches Err(e) ==> record_id_of(data@) == Err::<Seq<char>, _>(e),
    {
        match data {
            FieldData::FullLine { text } => Ok(Field003PersistentRecordId { id: text }),
            FieldData::Subfields { .. } => Err(ParseTypedFieldError::SubfieldsNotAllowed),
        }
    }
}

/// 005 Version identifier: `yyyymmddHHMMSS.T`.
#[derive(Debug, Clone, Copy, PartialEq, Eq, Structural)]
pub struct Field005Version {
    pub year: u16,
    pub month: u16,
    pub day: u16,
    pub hour: u16,
    pub minute: u16,
    pub second: u16,
    /// The number after the point, kept as it is written.
    pub t: u32,
}

impl Default for Field005Version {
    fn default() -> (r: Self)
        ensures
            r == (Field005Version { year: 0, month: 0, day: 0, hour: 0, minute: 0, second: 0, t: 0 }),
    {
        Field005Version { year: 0, month: 0, day: 0, hour: 0, minute: 0, second: 0, t: 0 }
    }
}

/// The index of the first point in `s`, or its length.
pub open spec fn first_point(s: Seq<char>) -> nat
    decreases s.len(),
{
    if s.len() == 0 {
        0
    } else if s[0] == '.' {
        0
    } else {
        1 + first_point(s.drop_first())
    }
}

/// What follows the first point of `s`; nothing when there is none.
pub open spec fn after_point(s: Seq<char>) -> Seq<char> {
    let p = first_point(s) as int;
    if p < s.len() {
        s.skip(p + 1)
    } else {
        Seq::empty()
    }
}

/// Where the digits of unit `k` start: four for the year, then two for each other unit.
pub open spec fn unit_start(k: int) -> int {
    if k == 0 {
        0
    } else {
        2 * k + 2
    }
}

/// Where the digits of unit `k` end.
pub open spec fn unit_end(k: int) -> int {
    2 * k + 4
}

/// The value of unit `k` in `base`; zero when `base` stops before it.
pub open spec fn unit_value(base: Seq<char>, k: int) -> u16 {
    if unit_end(k) <= base.len() {
        digits_value(base.subrange(unit_start(k), unit_end(k))) as u16
    } else {
        0
    }
}

/// The unit that a date and time of `n` digits stops inside, if any.
pub open spec fn cut_unit(n: int) -> Option<TimeUnit> {
    if 0 < n < 4 {
        Some(TimeUnit::Year)
    } else if n == 5 {
        Some(TimeUnit::Month)
    } else if n == 7 {
        Some(TimeUnit::Day)
    } else if n == 9 {
        Some(TimeUnit::Hour)
    } else if n == 11 {
        Some(TimeUnit::Minute)
    } else if n == 13 {
        Some(TimeUnit::Second)
    } else {
        None
    }
}

/// What a version text gives. The text, without white space at its ends, holds digits and
/// at most one point. The digits before the point are read four for the year, then two for
/// each later unit; units after the end of the digits are zero, and digits after the
/// seconds are not read. The digits after the point are the number `t`.
pub open spec fn version_of(text: Seq<char>) -> Result<Field005Version, ParseTypedFieldError> {
    let v = trim(text);
    let p = first_point(v) as int;
    let base = v.take(p);
    let t = after_point(v);
    if exists|i: int| 0 <= i < v.len() && !is_digit_spec(#[trigger] v[i]) && v[i] != '.' {
        Err(ParseTypedFieldError::InvalidCharacters)
    } else if exists|i: int| 0 <= i < t.len() && #[trigger] t[i] == '.' {
        Err(ParseTypedFieldError::MultiplePoints)
    } else if digits_value(t) > u32::MAX {
        Err(ParseTypedFieldError::NumberTooLarge)
    } else {
        match cut_unit(base.len() as int) {
            Some(u) => Err(ParseTypedFieldError::MissingUnit(u)),
            None => Ok(
                Field005Version {
                    year: unit_value(base, 0),
                    month: unit_value(base, 1),
                    day: unit_value(base, 2),
                    hour: unit_value(base, 3),
                    minute: unit_value(base, 4),
                    second: unit_value(base, 5),
                    t: digits_value(t) as u32,
                },
            ),
        }
    }
}

/// The value of unit `k` of the digits `v[from..from + n]`.
fn unit_at(v: &Vec<char>, from: usize, n: usize, k: usize) -> (r: u16)
    requires
        from + n <= v.len(),
        k < 6,
        forall|j: int| from <= j < from + n ==> is_digit_spec(#[trigger] v@[j]),
    ensures
        r == unit_value(v@.subrange(from as int, from + n), k as int),
{
    let start: usize = if k == 0 {
        0
    } else {
        2 * k + 2
    };
    let end: usize = 2 * k + 4;
    if end > n {
        return 0;
    }
    let ghost base = v@.subrange(from as int, from + n);
    let ghost digits = v@.subrange(from + start, from + end);
    assert(base.subrange(start as int, end as int) == digits);
    proof {
        assert forall|j: int| 0 <= j < digits.len() implies is_digit_spec(#[trigger] digits[j]) by {
            assert(digits[j] == v@[from + start + j]);
        }
        lemma_digits_value_below(digits);
        assert(pow10(0) == 1);
        assert(pow10(1) == 10);
        assert(pow10(2) == 100);
        assert(pow10(3) == 1000);
        assert(pow10(4) == 10000);
    }
    match parse_decimal(v, from + start, from + end) {
        Some(value) => value as u16,
        None => 0,
    }
}

impl Field005Version {
    /// Reads a version text, as `version_of` describes.
    pub fn parse_text(value: &str) -> (r: Result<Self, ParseTypedFieldError>)
        ensures
            r == version_of(value@),
    {
        let v = chars_of(value);
        assert(v@.subrange(0, v@.len() as int) == v@);
        let (s, e) = trim_bounds(&v, 0, v.len());
        let ghost text = v@.subrange(s as int, e as int);
        assert(trim(value@) == text);
        let mut i = s;
        while i < e
            invariant
                s <= i <= e <= v@.len(),
                text == v@.subrange(s as int, e as int),
                trim(value@) == text,
                forall|j: int| s <= j < i ==> is_digit_spec(#[trigger] v@[j]) || v@[j] == '.',
            decreases e - i,
        {
            if !is_digit(v[i]) && v[i] != '.' {
                assert(text[i - s] == v@[i as int]);
                assert(exists|k: int|
                    0 <= k < text.len() && !is_digit_spec(#[trigger] text[k]) && text[k] != '.');
                assert(version_of(value@) == Err::<Field005Version, _>(
                    ParseTypedFieldError::InvalidCharacters,
                ));
                return Err(ParseTypedFieldError::InvalidCharacters);
            }
            i = i + 1;
        }
        assert forall|j: int| 0 <= j < text.len() implies is_digit_spec(#[trigger] text[j])
            || text[j] == '.' by {
            assert(text[j] == v@[s + j]);
        }
        let mut p = s;
        while p < e && v[p] != '.'
            invariant
                s <= p <= e <= v@.len(),
                text == v@.subrange(s as int, e as int),
                first_point(text) == (p - s) + first_point(v@.subrange(p as int, e as int)),
                forall|j: int| s <= j < p ==> v@[j] != '.',
            decreases e - p,
        {
            assert(v@.subrange(p as int, e as int).drop_first() == v@.subrange(p + 1, e as int));
            p = p + 1;
        }
        assert(p < e ==> v@.subrange(p as int, e as int)[0] == '.');
        assert(first_point(text) == p - s);
        let t_start = if p < e {
            p + 1
        } else {
            e
        };
        let ghost t = if p < e {
            text.skip(p + 1 - s)
        } else {
            Seq::empty()
        };
        assert(t == v@.subrange(t_start as int, e as int));
        let mut j = t_start;
        while j < e
            invariant
                t_start <= j <= e <= v@.len(),
                t == v@.subrange(t_start as int, e as int),
                text == v@.subrange(s as int, e as int),
                trim(value@) == text,
                first_point(text) == p - s,
                p < e ==> t == text.skip(p + 1 - s),
                p >= e ==> t == Seq::<char>::empty(),
                forall|k: int| 0 <= k < text.len() ==> is_digit_spec(#[trigger] text[k]) || text[k] == '.',
                forall|k: int| t_start <= k < j ==> v@[k] != '.',
            decreases e - j,
        {
            if v[j] == '.' {
                assert(t[j - t_start] == '.');
                assert(first_point(text) == p - s);
                assert(!exists|k: int|
                    0 <= k < text.len() && !is_digit_spec(#[trigger] text[k]) && text[k] != '.');
                assert(exists|k: int| 0 <= k < t.len() && #[trigger] t[k] == '.');
                assert(t == after_point(trim(value@)));
                return Err(ParseTypedFieldError::MultiplePoints);
            }
            j = j + 1;
        }
        assert forall|k: int| t_start <= k < e implies is_digit_spec(#[trigger] v@[k]) by {
            assert(text[k - s] == v@[k]);
        }
        let tail: u32 = match parse_decimal(&v, t_start, e) {
            None => {
                return Err(ParseTypedFieldError::NumberTooLarge);
            },
            Some(n) => {
                if n > u32::MAX as u128 {
                    return Err(ParseTypedFieldError::NumberTooLarge);
                }
                n as u32
            },
        };
        let n = p - s;
        let ghost base = text.take(n as int);
        assert(base == v@.subrange(s as int, p as int));
        if 0 < n && n < 4 {
            return Err(ParseTypedFieldError::MissingUnit(TimeUnit::Year));
        } else if n == 5 {
            return Err(ParseTypedFieldError::MissingUnit(TimeUnit::Month));
        } else if n == 7 {
            return Err(ParseTypedFieldError::MissingUnit(TimeUnit::Day));
        } else if n == 9 {
            return Err(ParseTypedFieldError::MissingUnit(TimeUnit::Hour));
        } else if n == 11 {
            return Err(ParseTypedFieldError::MissingUnit(TimeUnit::Minute));
        } else if n == 13 {
            return Err(ParseTypedFieldError::MissingUnit(TimeUnit::Second));
        }
        assert forall|k: int| s <= k < s + n implies is_digit_spec(#[trigger] v@[k]) by {
            assert(text[k - s] == v@[k]);
        }
        Ok(
            Field005Version {
                year: unit_at(&v, s, n, 0),
                month: unit_at(&v, s, n, 1),
                day: unit_at(&v, s, n, 2),
                hour: unit_at(&v, s, n, 3),
                minute: unit_at(&v, s, n, 4),
                second: unit_at(&v, s, n, 5),
                t: tail,
            },
        )
    }

    /// Reads the version held by a full line.
    pub fn try_from_data(data: FieldData) -> (r: Result<Self, ParseTypedFieldError>)
        ensures
            r == match singular_text(data@) {
                Some(t) => version_of(t),
                None => Err(ParseTypedFieldError::SubfieldsNotAllowed),
            },
    {
        match data.as_singular_text() {
            Some(text) => Self::parse_text(text),
            None => Err(ParseTypedFieldError::SubfieldsNotAllowed),
        }
    }
}

/// 010 International Standard Book Number (ISBN).
#[derive(Debug, Clone)]
pub struct Field010Isbn {
    /// $a Number (ISBN).
    pub isbn: String,
    /// $b Qualification (repeatable).
    pub clarifications: Option<String>,
    /// $d Terms of availability and/or price.
    pub price: Option<String>,
    /// $z Erroneous ISBN.
    pub errorneous_isbn: Option<String>,
    /// $9 Print run (repeatable).
    pub circulation: Option<String>,
}

/// An ISBN field as values.
pub struct IsbnView {
    pub isbn: Seq<char>,
    pub clarifications: Option<Seq<char>>,
    pub price: Option<Seq<char>>,
    pub errorneous_isbn: Option<Seq<char>>,
    pub circulation: Option<Seq<char>>,
}

impl View for Field010Isbn {
    type V = IsbnView;

    open spec fn view(&self) -> IsbnView {
        IsbnView {
            isbn: self.isbn@,
            clarifications: opt_string_view(self.clarifications),
            price: opt_string_view(self.price),
            errorneous_isbn: opt_string_view(self.errorneous_isbn),
            circulation: opt_string_view(self.circulation),
        }
    }
}

/// What a field's data gives as an ISBN field: `a`, `z` and `d` occur at most once (checked
/// in that order), `a` is required, and the repeated `b` and `9` are joined.
pub open spec fn isbn_of(d: FieldDataView) -> Result<IsbnView, ParseTypedFieldError> {
    match (
        at_most_one(subfield_texts(d, 'a')),
        at_most_one(subfield_texts(d, 'z')),
        at_most_one(subfield_texts(d, 'd')),
    ) {
        (Err(e), _, _) => Err(e),
        (_, Err(e), _) => Err(e),
        (_, _, Err(e)) => Err(e),
        (Ok(None), _, _) => Err(ParseTypedFieldError::MissingSubfield),
        (Ok(Some(isbn)), Ok(errorneous_isbn), Ok(price)) => Ok(
            IsbnView {
                isbn,
                clarifications: concatenated(subfield_texts(d, 'b')),
                price,
                errorneous_isbn,
                circulation: concatenated(subfield_texts(d, '9')),
            },
        ),
    }
}

/// An owned copy of an optional text.
fn owned(o: Option<&str>) -> (r: Option<String>)
    ensures
        opt_string_view(r) == opt_view(o),
{
    match o {
        Some(s) => Some(s.to_owned()),
        None => None,
    }
}

impl Field010Isbn {
    /// Reads an ISBN field from its subfields.
    pub fn try_from_data(data: FieldData) -> (r: Result<Self, ParseTypedFieldError>)
        ensures
            r matches Ok(f) ==> isbn_of(data@) == Ok::<_, ParseTypedFieldError>(f@),
            r matches Err(e) ==> isbn_of(data@) == Err::<IsbnView, _>(e),
    {
        let isbn = expect_max_one_subfield(data.get_subfields('a'));
        let errorneous_isbn = expect_max_one_subfield(data.get_subfields('z'));
        let price = expect_max_one_subfield(data.get_subfields('d'));
        let clarifications = concat_subfields(data.get_subfields('b'));
        let circulation = concat_subfields(data.get_subfields('9'));
        let isbn = match isbn {
            Err(e) => {
                return Err(e);
            },
            Ok(i) => i,
        };
        let errorneous_isbn = match errorneous_isbn {
            Err(e) => {
                return Err(e);
            },
            Ok(z) => z,
        };
        let price = match price {
            Err(e) => {
                return Err(e);
            },
            Ok(p) => p,
        };
        let isbn = match isbn {
            None => {
                return Err(ParseTypedFieldError::MissingSubfield);
            },
            Some(i) => i,
        };
        Ok(
            Field010Isbn {
                isbn: isbn.to_owned(),
                clarifications,
                price: owned(price),
                errorneous_isbn: owned(errorneous_isbn),
                circulation,
            },
        )
    }
}


/// A typed field of each kind knows its number.
impl TypedField for Field001RecordId {
    fn field_number(&self) -> (r: u128)
        ensures
            r == 1,
    {
        1
    }
}

impl TypedField for Field003PersistentRecordId {
    fn field_number(&self) -> (r: u128)
        ensures
            r == 3,
    {
        3
    }
}

impl TypedField for Field005Version {
    fn field_number(&self) -> (r: u128)
        ensures
            r == 5,
    {
        5
    }
}

impl TypedField for Field010Isbn {
    fn field_number(&self) -> (r: u128)
        ensures
            r == 10,
    {
        10
    }
}

/// 011 International Standard Serial Number (ISSN).
#[derive(Debug, Clone, Default)]
pub struct Field011Issn {
    /// $a Number (ISSN).
    pub issn: Option<String>,
    /// $b Qualification.
    pub clarifications: Option<String>,
    /// $d Terms of availability and/or price (repeatable).
    pub price: Option<String>,
    /// $f ISSN-L, the linking ISSN.
    pub issn_l: Option<String>,
    /// $g Cancelled ISSN-L (repeatable).
    pub cancelled_issn_l: Option<String>,
    /// $y Cancelled ISSN (repeatable).
    pub canelled_issn: Option<String>,
    /// $z Erroneous ISSN or ISSN-L (repeatable).
    pub errorneous_issn: Option<String>,
    /// $9 Print run (repeatable).
    pub circulation: Option<String>,
}

impl TypedField for Field011Issn {
    fn field_number(&self) -> (r: u128)
        ensures
            r == 11,
    {
        11
    }
}

/// 012 Fingerprint identifier (repeatable).
#[derive(Debug, Clone, Default)]
pub struct Field012Fingerprint {
    /// $a Fingerprint.
    pub fingerprint: Option<String>,
    /// $2 Fingerprint system code.
    pub system_code_fingerprint: Option<String>,
    /// $5 Institution and copy to which the field applies.
    pub organization_and_instance: Option<String>,
    /// $9 Inventory number of the copy.
    pub instance_inventory_number: Option<String>,
}

impl TypedField for Field012Fingerprint {
    fn field_number(&self) -> (r: u128)
        ensures
            r == 12,
    {
        12
    }
}

/// 013 International Standard Music Number (ISMN) (repeatable).
#[derive(Debug, Clone, Default)]
pub struct Field013Ismn {
    /// $a Number (ISMN).
    pub ismn: Option<String>,
    /// $b Qualification.
    pub clarifications: Option<String>,
    /// $d Terms of availability and/or price.
    pub price: Option<String>,
    /// $z Erroneous ISMN (repeatable).
    pub errorneous_ismn: Option<String>,
    /// $9 Print run (repeatable).
    pub circulation: Option<String>,
}

impl TypedField for Field013Ismn {
    fn field_number(&self) -> (r: u128)
        ensures
            r == 13,
    {
        13
    }
}

/// 014 Article identifier (repeatable).
#[derive(Debug, Clone, Default)]
pub struct Field014ArticleId {
    /// $a Article identifier.
    pub id: Option<String>,
    /// $z Erroneous article identifier (repeatable).
    pub errorneous_id: Option<String>,
    /// $2 System code.
    pub system_code: Option<String>,
}

impl TypedField for Field014ArticleId {
    fn field_number(&self) -> (r: u128)
        ensures
            r == 14,
    {
        14
    }
}

/// 015 International Standard Technical Report Number (ISRN) (repeatable).
#[derive(Debug, Clone, Default)]
pub struct Field015Isrn {
    /// $a Number (ISRN).
    pub isrn: Option<String>,
    /// $b Qualification.
    pub clarifications: Option<String>,
    /// $d Terms of availability and/or price.
    pub price: Option<String>,
    /// $z Erroneous ISRN (repeatable).
    pub erroneous_isrn: Option<String>,
    /// $9 Print run (repeatable).
    pub circulation: Option<String>,
}

impl TypedField for Field015Isrn {
    fn field_number(&self) -> (r: u128)
        ensures
            r == 15,
    {
        15
    }
}

/// 016 International Standard Recording Code (ISRC) (repeatable).
#[derive(Debug, Clone, Default)]
pub struct Field016Isrc {
    /// $a Number (ISRC).
    pub isrc: Option<String>,
    /// $b Qualification.
    pub clarifications: Option<String>,
    /// $d Terms of availability and/or price.
    pub price: Option<String>,
    /// $z Erroneous ISRC (repeatable).
    pub erroneous_isrc: Option<String>,
    /// $9 Print run (repeatable).
    pub circulation: Option<String>,
}

impl TypedField for Field016Isrc {
    fn field_number(&self) -> (r: u128)
        ensures
            r == 16,
    {
        16
    }
}

/// 017 Other standard identifier (repeatable).
#[derive(Debug, Clone, Default)]
pub struct Field017OtherStandardId {
    /// $a Standard number.
    pub standard_number: Option<String>,
    /// $b Qualification.
    pub clarifications: Option<String>,
    /// $d Terms of availability and/or price.
    pub price: Option<String>,
    /// $z Erroneous number or code (repeatable).
    pub erroneous_number: Option<String>,
    /// $2 Source of number or code.
    pub source: Option<String>,
    /// $9 Print run (repeatable).
    pub circulation: Option<String>,
}

impl TypedField for Field017OtherStandardId {
    fn field_number(&self) -> (r: u128)
        ensures
            r == 17,
    {
        17
    }
}

/// 020 National bibliography number (repeatable).
#[derive(Debug, Clone, Default)]
pub struct Field020NationalBibliographyNumber {
    /// $a Country code.
    pub country_code: Option<String>,
    /// $b Number.
    pub number: Option<String>,
    /// $z Erroneous number (repeatable).
    pub erroneous_number: Option<String>,
    /// $9 Main title of the Russian Book Chamber edition.
    pub main_title: Option<String>,
}

impl TypedField for Field020NationalBibliographyNumber {
    fn field_number(&self) -> (r: u128)
        ensures
            r == 20,
    {
        20
    }
}

/// 021 Legal deposit number (repeatable).
#[derive(Debug, Clone, Default)]
pub struct Field021StateRegistrationNumber {
    /// $a Country code.
    pub country_code: Option<String>,
    /// $b Number.
    pub number: Option<String>,
    /// $z Erroneous legal deposit number (repeatable).
    pub erroneous_number: Option<String>,
    /// $9 Number of the registration sheet.
    pub registration_sheet_number: Option<String>,
}

impl TypedField for Field021StateRegistrationNumber {
    fn field_number(&self) -> (r: u128)
        ensures
            r == 21,
    {
        21
    }
}

/// 022 Government publication number (repeatable).
#[derive(Debug, Clone, Default)]
pub struct Field022GovernmentPublicationNumber {
    /// $a Country code.
    pub country_code: Option<String>,
    /// $b Number.
    pub number: Option<String>,
    /// $z Erroneous number (repeatable).
    pub erroneous_number: Option<String>,
}

impl TypedField for Field022GovernmentPublicationNumber {
    fn field_number(&self) -> (r: u128)
        ensures
            r == 22,
    {
        22
    }
}

/// 029 Document number (standards, technical and unpublished documents) (repeatable).
#[derive(Debug, Clone, Default)]
pub struct Field029DocumentNumber {
    /// $a Country or international organisation that assigned the number.
    pub country_or_org: Option<String>,
    /// $b Number (repeatable).
    pub number: Option<String>,
    /// $c Type of document number.
    pub document_number_type: Option<String>,
    /// $d International classification index (repeatable).
    pub international_classification_index: Option<String>,
    /// $f Organisation.
    pub organization: Option<String>,
}

impl TypedField for Field029DocumentNumber {
    fn field_number(&self) -> (r: u128)
        ensures
            r == 29,
    {
        29
    }
}

/// 033 Persistent record identifier of another system (repeatable).
#[derive(Debug, Clone, Default)]
pub struct Field033PersistentId {
    /// $a Record identifier.
    pub record_id: Option<String>,
    /// $z Cancelled or erroneous persistent record identifier (repeatable).
    pub erroneous_or_canceled_id: Option<String>,
}

impl TypedField for Field033PersistentId {
    fn field_number(&self) -> (r: u128)
        ensures
            r == 33,
    {
        33
    }
}

/// 035 Other system control numbers (repeatable).
#[derive(Debug, Clone, Default)]
pub struct Field035OtherSystemNumbers {
    /// $a Record identifier.
    pub record_id: Option<String>,
    /// $z Cancelled or erroneous record identifier (repeatable).
    pub erroneous_or_canceled_id: Option<String>,
}

impl TypedField for Field035OtherSystemNumbers {
    fn field_number(&self) -> (r: u128)
        ensures
            r == 35,
    {
        35
    }
}

/// 036 Music incipit (repeatable).
#[derive(Debug, Clone, Default)]
pub struct Field036MusicalIncipit {
    /// $a Number of work.
    pub work_number: Option<String>,
    /// $b Number of movement.
    pub part_number: Option<String>,
    /// $c Number of incipit.
    pub incipit_number: Option<String>,
    /// $d Voice or instrument.
    pub voice_or_instrument: Option<String>,
    /// $e Role.
    pub role: Option<String>,
    /// $f Movement caption or heading (repeatable).
    pub part_title: Option<String>,
    /// $g Key or mode.
    pub tonality_or_mode: Option<String>,
    /// $m Clef.
    pub key: Option<String>,
    /// $n Key signature.
    pub key_signature: Option<String>,
    /// $o Time signature.
    pub time_signature: Option<String>,
    /// $p Musical notation.
    pub musical_notation: Option<String>,
    /// $q Comments, free text (repeatable).
    pub comments: Option<String>,
    /// $r Note in coded form.
    pub encoded_note: Option<String>,
    /// $t Text incipit (repeatable).
    pub literary_incipit: Option<String>,
    /// $u Uniform resource identifier (repeatable).
    pub uri: Option<String>,
    /// $z Language of text (repeatable).
    pub text_language: Option<String>,
    /// $2 System code of the musical notation.
    pub notation_system_code: Option<String>,
}

impl TypedField for Field036MusicalIncipit {
    fn field_number(&self) -> (r: u128)
        ensures
            r == 36,
    {
        36
    }
}

/// 039 Patent application number (repeatable).
#[derive(Debug, Clone, Default)]
pub struct Field039PatentApplicationNumber {
    /// $a Country.
    pub country: Option<String>,
    /// $b Application number.
    pub application_number: Option<String>,
    /// $c Date of application.
    pub submission_date: Option<String>,
}

impl TypedField for Field039PatentApplicationNumber {
    fn field_number(&self) -> (r: u128)
        ensures
            r == 39,
    {
        39
    }
}

/// 071 Publisher's number (repeatable).
#[derive(Debug, Clone, Default)]
pub struct Field071PublisherNumber {
    /// $a Number assigned by the agency.
    pub assigned_number: Option<String>,
    /// $b Source.
    pub source: Option<String>,
    /// $c Qualification.
    pub clarification: Option<String>,
    /// $d Terms of availability and/or price.
    pub price: Option<String>,
    /// $z Erroneous number (repeatable).
    pub erroneous_number: Option<String>,
}

impl TypedField for Field071PublisherNumber {
    fn field_number(&self) -> (r: u128)
        ensures
            r == 71,
    {
        71
    }
}

/// 073 International Article Number (EAN) (repeatable).
#[derive(Debug, Clone, Default)]
pub struct Field073Ean {
    /// $a Standard number (EAN).
    pub standard_number: Option<String>,
    /// $b Qualification.
    pub clarifications: Option<String>,
    /// $c Additional codes following the standard number or code.
    pub additional_codes: Option<String>,
    /// $d Terms of availability and/or price.
    pub availability_or_price: Option<String>,
    /// $z Erroneous number or code (repeatable).
    pub erroneous_number: Option<String>,
    /// $9 Print run (repeatable).
    pub circulation: Option<String>,
}

impl TypedField for Field073Ean {
    fn field_number(&self) -> (r: u128)
        ensures
            r == 73,
    {
        73
    }
}

/// 079 Publisher's numbers other than for sound recordings and music (obsolete) (repeatable).
#[derive(Debug, Clone, Default)]
pub struct Field079PublisherNumbers {
    /// $a Publisher's number assigned by the agency.
    pub assigned_number: Option<String>,
    /// $b Source.
    pub source: Option<String>,
    /// $d Terms of availability and/or price.
    pub price: Option<String>,
    /// $z Erroneous number (repeatable).
    pub erroneous_number: Option<String>,
}

impl TypedField for Field079PublisherNumbers {
    fn field_number(&self) -> (r: u128)
        ensures
            r == 79,
    {
        79
    }
}

} // verus!

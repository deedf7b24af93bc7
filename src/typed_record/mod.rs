//! Typed fields: a registry from field numbers to parsers, and records of typed fields.

mod fields0xx;
mod fields1xx;
mod fields2xx;
pub mod util;

pub use fields0xx::{
    after_point, cut_unit, first_point, isbn_of, record_id_of, unit_end, unit_start, unit_value,
    version_of, Field001RecordId, Field003PersistentRecordId, Field005Version, Field010Isbn,
    Field011Issn, Field012Fingerprint, Field013Ismn, Field014ArticleId, Field015Isrn,
    Field016Isrc, Field017OtherStandardId, Field020NationalBibliographyNumber,
    Field021StateRegistrationNumber, Field022GovernmentPublicationNumber, Field029DocumentNumber,
    Field033PersistentId, Field035OtherSystemNumbers, Field036MusicalIncipit,
    Field039PatentApplicationNumber, Field071PublisherNumber, Field073Ean,
    Field079PublisherNumbers, IsbnView,
};
pub use fields1xx::{
    AnniversaryEditionIndicator, BiographyCode, CharacterSets, ConferenceCode, ContentFormCode,
    DateType, DocumentForm, GovernmentPublicationCode, HigherEducationDegreeCode, IllustrationCode,
    Field100GeneralProcessingData, Field101Language, Field102CountryOfPublication,
    Field105TextMaterials, Field106DocumentForm, IndexIndicator, LiteraryGenreCode,
    TargetAudienceCode, TitleGraphics, TransliterationCode,
};
pub use fields2xx::{header_markers, header_of, Field200Header};

use vstd::prelude::*;
use crate::field::{singular_text, Field, FieldData, FieldDataView, FieldView};

verus! {

/// Why a field could not be turned into a typed field.
#[derive(Debug, Clone, Copy, PartialEq, Eq, Structural)]
pub enum ParseTypedFieldError {
    /// No parser is registered for the field number.
    UnknownFieldNumber,
    /// The field has subfields where its whole text was expected.
    SubfieldsNotAllowed,
    /// A subfield that may occur at most once occurs more often.
    MoreThanOneSubfield,
    /// A required subfield is missing.
    MissingSubfield,
    /// A numeric text holds a character that is neither a digit nor a point.
    InvalidCharacters,
    /// A numeric text holds more than one point.
    MultiplePoints,
    /// A number does not fit its field.
    NumberTooLarge,
    /// A date and time stops inside one of its units.
    MissingUnit(TimeUnit),
}

/// The units of a date and time, in the order they are written.
#[derive(Debug, Clone, Copy, PartialEq, Eq, Structural)]
pub enum TimeUnit {
    Year,
    Month,
    Day,
    Hour,
    Minute,
    Second,
}

/// A typed field knows the number of the field it was read from.
pub trait TypedField {
    fn field_number(&self) -> u128;
}

/// A field of one of the kinds that have a parser.
#[derive(Debug, Clone)]
pub enum AnyTypedField {
    Field001RecordId(Field001RecordId),
    Field003PersistentRecordId(Field003PersistentRecordId),
    Field005Version(Field005Version),
    Field010Isbn(Field010Isbn),
    Field200Header(Field200Header),
}

/// A typed field as values.
pub enum AnyTypedFieldView {
    RecordId(Seq<char>),
    PersistentRecordId(Seq<char>),
    Version(Field005Version),
    Isbn(IsbnView),
    Header(Seq<Option<Seq<char>>>),
}

impl View for AnyTypedField {
    type V = AnyTypedFieldView;

    open spec fn view(&self) -> AnyTypedFieldView {
        match self {
            AnyTypedField::Field001RecordId(f) => AnyTypedFieldView::RecordId(f@),
            AnyTypedField::Field003PersistentRecordId(f) => AnyTypedFieldView::PersistentRecordId(f@),
            AnyTypedField::Field005Version(f) => AnyTypedFieldView::Version(*f),
            AnyTypedField::Field010Isbn(f) => AnyTypedFieldView::Isbn(f@),
            AnyTypedField::Field200Header(f) => AnyTypedFieldView::Header(f@),
        }
    }
}

/// The kinds of field that have a parser.
#[derive(Debug, Clone, Copy, PartialEq, Eq, Structural)]
pub enum FieldKind {
    RecordId,
    PersistentRecordId,
    Version,
    Isbn,
    Header,
}

/// The field number of each kind.
pub open spec fn kind_number(k: FieldKind) -> u128 {
    match k {
        FieldKind::RecordId => 1,
        FieldKind::PersistentRecordId => 3,
        FieldKind::Version => 5,
        FieldKind::Isbn => 10,
        FieldKind::Header => 200,
    }
}

/// The kind of a typed field.
pub open spec fn view_kind(v: AnyTypedFieldView) -> FieldKind {
    match v {
        AnyTypedFieldView::RecordId(_) => FieldKind::RecordId,
        AnyTypedFieldView::PersistentRecordId(_) => FieldKind::PersistentRecordId,
        AnyTypedFieldView::Version(_) => FieldKind::Version,
        AnyTypedFieldView::Isbn(_) => FieldKind::Isbn,
        AnyTypedFieldView::Header(_) => FieldKind::Header,
    }
}

/// The registered kinds, in the order of their numbers.
pub open spec fn registered() -> Seq<FieldKind> {
    seq![
        FieldKind::RecordId,
        FieldKind::PersistentRecordId,
        FieldKind::Version,
        FieldKind::Isbn,
        FieldKind::Header,
    ]
}

/// The kind registered for a field number, if any.
pub open spec fn kind_of_number(n: u128) -> Option<FieldKind> {
    if exists|i: int| 0 <= i < registered().len() && kind_number(#[trigger] registered()[i]) == n {
        Some(
            registered()[choose|i: int|
                0 <= i < registered().len() && kind_number(#[trigger] registered()[i]) == n],
        )
    } else {
        None
    }
}

/// What the parser of kind `k` makes of a field's data.
pub open spec fn parse_kind(k: FieldKind, d: FieldDataView) -> Result<
    AnyTypedFieldView,
    ParseTypedFieldError,
> {
    match k {
        FieldKind::RecordId => match record_id_of(d) {
            Ok(t) => Ok(AnyTypedFieldView::RecordId(t)),
            Err(e) => Err(e),
        },
        FieldKind::PersistentRecordId => match record_id_of(d) {
            Ok(t) => Ok(AnyTypedFieldView::PersistentRecordId(t)),
            Err(e) => Err(e),
        },
        FieldKind::Version => match singular_text(d) {
            None => Err(ParseTypedFieldError::SubfieldsNotAllowed),
            Some(t) => match version_of(t) {
                Ok(v) => Ok(AnyTypedFieldView::Version(v)),
                Err(e) => Err(e),
            },
        },
        FieldKind::Isbn => match isbn_of(d) {
            Ok(v) => Ok(AnyTypedFieldView::Isbn(v)),
            Err(e) => Err(e),
        },
        FieldKind::Header => Ok(AnyTypedFieldView::Header(header_of(d))),
    }
}

/// What the registry makes of a field: the parser of its number, or an error when there is
/// none.
pub open spec fn typed_of(f: FieldView) -> Result<AnyTypedFieldView, ParseTypedFieldError> {
    match kind_of_number(f.number) {
        None => Err(ParseTypedFieldError::UnknownFieldNumber),
        Some(k) => parse_kind(k, f.data),
    }
}

/// The view of a parse result.
pub open spec fn typed_result_view(r: Result<AnyTypedField, ParseTypedFieldError>) -> Result<
    AnyTypedFieldView,
    ParseTypedFieldError,
> {
    match r {
        Ok(f) => Ok(f@),
        Err(e) => Err(e),
    }
}

/// A parser of one kind of field.
pub trait ParseTypedField {
    /// What the parser makes of a field's data.
    spec fn parse_spec(data: FieldDataView) -> Result<AnyTypedFieldView, ParseTypedFieldError>;

    fn parse(data: FieldData) -> (r: Result<AnyTypedField, ParseTypedFieldError>)
        ensures
            typed_result_view(r) == Self::parse_spec(data@),
    ;
}

impl ParseTypedField for Field001RecordId {
    open spec fn parse_spec(data: FieldDataView) -> Result<AnyTypedFieldView, ParseTypedFieldError> {
        parse_kind(FieldKind::RecordId, data)
    }

    fn parse(data: FieldData) -> (r: Result<AnyTypedField, ParseTypedFieldError>) {
        match Field001RecordId::try_from_data(data) {
            Ok(f) => Ok(AnyTypedField::Field001RecordId(f)),
            Err(e) => Err(e),
        }
    }
}

impl ParseTypedField for Field003PersistentRecordId {
    open spec fn parse_spec(data: FieldDataView) -> Result<AnyTypedFieldView, ParseTypedFieldError> {
        parse_kind(FieldKind::PersistentRecordId, data)
    }

    fn parse(data: FieldData) -> (r: Result<AnyTypedField, ParseTypedFieldError>) {
        match Field003PersistentRecordId::try_from_data(data) {
            Ok(f) => Ok(AnyTypedField::Field003PersistentRecordId(f)),
            Err(e) => Err(e),
        }
    }
}

impl ParseTypedField for Field005Version {
    open spec fn parse_spec(data: FieldDataView) -> Result<AnyTypedFieldView, ParseTypedFieldError> {
        parse_kind(FieldKind::Version, data)
    }

    fn parse(data: FieldData) -> (r: Result<AnyTypedField, ParseTypedFieldError>) {
        match Field005Version::try_from_data(data) {
            Ok(f) => Ok(AnyTypedField::Field005Version(f)),
            Err(e) => Err(e),
        }
    }
}

impl ParseTypedField for Field010Isbn {
    open spec fn parse_spec(data: FieldDataView) -> Result<AnyTypedFieldView, ParseTypedFieldError> {
        parse_kind(FieldKind::Isbn, data)
    }

    fn parse(data: FieldData) -> (r: Result<AnyTypedField, ParseTypedFieldError>) {
        match Field010Isbn::try_from_data(data) {
            Ok(f) => Ok(AnyTypedField::Field010Isbn(f)),
            Err(e) => Err(e),
        }
    }
}

impl ParseTypedField for Field200Header {
    open spec fn parse_spec(data: FieldDataView) -> Result<AnyTypedFieldView, ParseTypedFieldError> {
        parse_kind(FieldKind::Header, data)
    }

    fn parse(data: FieldData) -> (r: Result<AnyTypedField, ParseTypedFieldError>) {
        Ok(AnyTypedField::Field200Header(Field200Header::from_data(data)))
    }
}

impl FieldKind {
    /// The field number of the kind.
    pub fn number(&self) -> (r: u128)
        ensures
            r == kind_number(*self),
    {
        match self {
            FieldKind::RecordId => 1,
            FieldKind::PersistentRecordId => 3,
            FieldKind::Version => 5,
            FieldKind::Isbn => 10,
            FieldKind::Header => 200,
        }
    }

    /// The name of the type that holds fields of the kind.
    pub fn struct_name(&self) -> (r: &'static str)
        ensures
            r@ == match *self {
                FieldKind::RecordId => "Field001RecordId"@,
                FieldKind::PersistentRecordId => "Field003PersistentRecordId"@,
                FieldKind::Version => "Field005Version"@,
                FieldKind::Isbn => "Field010Isbn"@,
                FieldKind::Header => "Field200Header"@,
            },
    {
        match self {
            FieldKind::RecordId => "Field001RecordId",
            FieldKind::PersistentRecordId => "Field003PersistentRecordId",
            FieldKind::Version => "Field005Version",
            FieldKind::Isbn => "Field010Isbn",
            FieldKind::Header => "Field200Header",
        }
    }

    /// Runs the parser of the kind on a field's data.
    pub fn parse(&self, data: FieldData) -> (r: Result<AnyTypedField, ParseTypedFieldError>)
        ensures
            typed_result_view(r) == parse_kind(*self, data@),
    {
        match self {
            FieldKind::RecordId => <Field001RecordId as ParseTypedField>::parse(data),
            FieldKind::PersistentRecordId => <Field003PersistentRecordId as ParseTypedField>::parse(
                data,
            ),
            FieldKind::Version => <Field005Version as ParseTypedField>::parse(data),
            FieldKind::Isbn => <Field010Isbn as ParseTypedField>::parse(data),
            FieldKind::Header => <Field200Header as ParseTypedField>::parse(data),
        }
    }
}

/// The table of the kinds that have a parser, in the order of their numbers.
pub fn registered_kinds() -> (r: Vec<FieldKind>)
    ensures
        r@ == registered(),
{
    let r = vec![
        FieldKind::RecordId,
        FieldKind::PersistentRecordId,
        FieldKind::Version,
        FieldKind::Isbn,
        FieldKind::Header,
    ];
    assert(r@ =~= registered());
    r
}

/// The kind registered for a field number, looked up in the table.
pub fn kind_for_number(number: u128) -> (r: Option<FieldKind>)
    ensures
        r == kind_of_number(number),
{
    let table = registered_kinds();
    let mut i: usize = 0;
    while i < table.len()
        invariant
            i <= table@.len(),
            table@ == registered(),
            forall|j: int| 0 <= j < i ==> kind_number(#[trigger] table@[j]) != number,
        decreases table@.len() - i,
    {
        if table[i].number() == number {
            proof {
                let c = choose|j: int|
                    0 <= j < registered().len() && kind_number(#[trigger] registered()[j]) == number;
                assert(c == i);
            }
            return Some(table[i]);
        }
        i = i + 1;
    }
    None
}

/// Turns a field into a typed field with the parser registered for its number.
pub fn parse_typed_field(field: Field) -> (r: Result<AnyTypedField, ParseTypedFieldError>)
    ensures
        typed_result_view(r) == typed_of(field@),
{
    match kind_for_number(field.number) {
        None => Err(ParseTypedFieldError::UnknownFieldNumber),
        Some(kind) => kind.parse(field.data),
    }
}

impl AnyTypedField {
    /// The kind of the field.
    pub fn kind(&self) -> (r: FieldKind)
        ensures
            r == view_kind(self@),
    {
        match self {
            AnyTypedField::Field001RecordId(_) => FieldKind::RecordId,
            AnyTypedField::Field003PersistentRecordId(_) => FieldKind::PersistentRecordId,
            AnyTypedField::Field005Version(_) => FieldKind::Version,
            AnyTypedField::Field010Isbn(_) => FieldKind::Isbn,
            AnyTypedField::Field200Header(_) => FieldKind::Header,
        }
    }

    /// The number of the field that it was read from.
    pub fn field_number(&self) -> (r: u128)
        ensures
            r == kind_number(view_kind(self@)),
    {
        self.kind().number()
    }
}

/// The views of a sequence of typed fields.
pub open spec fn typed_views(s: Seq<AnyTypedField>) -> Seq<AnyTypedFieldView> {
    s.map_values(|f: AnyTypedField| f@)
}

/// The typed fields that the registry makes of `fields`, in order.
pub open spec fn typed_oks(fields: Seq<FieldView>) -> Seq<AnyTypedFieldView>
    decreases fields.len(),
{
    if fields.len() == 0 {
        Seq::empty()
    } else {
        let init = typed_oks(fields.drop_last());
        match typed_of(fields.last()) {
            Ok(t) => init.push(t),
            Err(_) => init,
        }
    }
}

/// The errors that the registry reports for `fields`, in order.
pub open spec fn typed_errs(fields: Seq<FieldView>) -> Seq<ParseTypedFieldError>
    decreases fields.len(),
{
    if fields.len() == 0 {
        Seq::empty()
    } else {
        let init = typed_errs(fields.drop_last());
        match typed_of(fields.last()) {
            Ok(_) => init,
            Err(e) => init.push(e),
        }
    }
}

/// The fields of kind `k` among `s`, in order.
pub open spec fn of_kind(s: Seq<AnyTypedFieldView>, k: FieldKind) -> Seq<AnyTypedFieldView>
    decreases s.len(),
{
    if s.len() == 0 {
        Seq::empty()
    } else if view_kind(s[0]) == k {
        seq![s[0]] + of_kind(s.drop_first(), k)
    } else {
        of_kind(s.drop_first(), k)
    }
}

/// The typed fields of a record.
#[derive(Debug, Clone)]
pub struct TypedRecord {
    pub fields: Vec<AnyTypedField>,
}

impl View for TypedRecord {
    type V = Seq<AnyTypedFieldView>;

    open spec fn view(&self) -> Seq<AnyTypedFieldView> {
        typed_views(self.fields@)
    }
}

/// The views of a sequence of fields.
pub open spec fn field_seq_views(s: Seq<Field>) -> Seq<FieldView> {
    s.map_values(|f: Field| f@)
}

impl TypedRecord {
    /// Types each field with the registry: the fields that parse make the record, in order;
    /// each other field gives one error, in order.
    pub fn parse(fields: Vec<Field>) -> (r: (Self, Vec<ParseTypedFieldError>))
        ensures
            r.0@ == typed_oks(field_seq_views(fields@)),
            r.1@ == typed_errs(field_seq_views(fields@)),
    {
        let ghost all = field_seq_views(fields@);
        let mut oks: Vec<AnyTypedField> = Vec::new();
        let mut errs: Vec<ParseTypedFieldError> = Vec::new();
        for field in it: fields
            invariant
                all == field_seq_views(it.seq()),
                typed_views(oks@) == typed_oks(all.take(it.index() as int)),
                errs@ == typed_errs(all.take(it.index() as int)),
        {
            let ghost i = it.index() as int;
            assert(all.take(i + 1).drop_last() == all.take(i));
            assert(all.take(i + 1).last() == field@);
            match parse_typed_field(field) {
                Ok(t) => {
                    let ghost old_oks = oks@;
                    oks.push(t);
                    assert(typed_views(oks@) =~= typed_views(old_oks).push(t@));
                },
                Err(e) => {
                    errs.push(e);
                },
            }
        }
        assert(all.take(all.len() as int) == all);
        (TypedRecord { fields: oks }, errs)
    }

    /// The fields of kind `kind`, in order. The record is not changed, so each call yields
    /// the same fields.
    pub fn get_fields(&self, kind: FieldKind) -> (r: TypedFieldsView<'_>)
        ensures
            r.wf(),
            r@ == of_kind(self@, kind),
    {
        TypedFieldsView::new(&self.fields, kind)
    }
}

/// The fields of one kind in a record, yielded one at a time.
pub struct TypedFieldsView<'a> {
    items: &'a Vec<AnyTypedField>,
    pos: usize,
    kind: FieldKind,
}

impl<'a> View for TypedFieldsView<'a> {
    type V = Seq<AnyTypedFieldView>;

    /// The fields still to come.
    closed spec fn view(&self) -> Seq<AnyTypedFieldView> {
        of_kind(typed_views(self.items@).skip(self.pos as int), self.kind)
    }
}

impl<'a> TypedFieldsView<'a> {
    pub closed spec fn wf(&self) -> bool {
        self.pos <= self.items@.len()
    }

    /// The fields of kind `kind` among `items`.
    pub fn new(items: &'a Vec<AnyTypedField>, kind: FieldKind) -> (r: Self)
        ensures
            r.wf(),
            r@ == of_kind(typed_views(items@), kind),
    {
        let r = TypedFieldsView { items, pos: 0, kind };
        assert(typed_views(items@).skip(0) == typed_views(items@));
        r
    }

    /// The next field of the kind; `None` when there is none left.
    pub fn next(&mut self) -> (r: Option<&'a AnyTypedField>)
        requires
            old(self).wf(),
        ensures
            final(self).wf(),
            old(self)@.len() == 0 ==> r is None && final(self)@.len() == 0,
            old(self)@.len() > 0 ==> {
                &&& r matches Some(f) && f@ == old(self)@[0]
                &&& final(self)@ == old(self)@.drop_first()
            },
    {
        let items: &'a Vec<AnyTypedField> = self.items;
        while self.pos < items.len()
            invariant
                self.wf(),
                items == self.items,
                self.kind == old(self).kind,
                self.items == old(self).items,
                self@ == old(self)@,
            decreases items@.len() - self.pos,
        {
            let item = &items[self.pos];
            let ghost rest = typed_views(items@).skip(self.pos as int);
            assert(rest.drop_first() == typed_views(items@).skip(self.pos + 1));
            assert(rest[0] == item@);
            self.pos = self.pos + 1;
            if item.kind() == self.kind {
                return Some(item);
            }
        }
        None
    }
}

} // verus!

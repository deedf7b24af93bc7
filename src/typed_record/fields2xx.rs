//! Typed fields of the descriptive information block (2XX).

use vstd::prelude::*;
use crate::field::{subfield_texts, FieldData, FieldDataView};
use crate::typed_record::util::{concat_subfields, concatenated, opt_string_view};
use crate::typed_record::TypedField;

verus! {

/// 200 Title and statement of responsibility. Every subfield may repeat; the repetitions
/// are joined.
#[derive(Debug, Clone)]
pub struct Field200Header {
    /// $a Title proper.
    pub main_title: Option<String>,
    /// $b General material designation.
    pub general_material_notion: Option<String>,
    /// $d Parallel title proper.
    pub parallel_title: Option<String>,
    /// $e Other title information.
    pub title_related_info: Option<String>,
    /// $f First statement of responsibility.
    pub main_responsibility: Option<String>,
    /// $g Subsequent statement of responsibility.
    pub other_responsibility: Option<String>,
    /// $h Number of a part.
    pub part_number: Option<String>,
    /// $i Name of a part.
    pub part_name: Option<String>,
    /// $j Inclusive dates.
    pub end_dates: Option<String>,
    /// $k Bulk dates.
    pub main_documents_dates: Option<String>,
    /// $r Title page information following the title proper.
    pub title_page_info: Option<String>,
    /// $v Volume designation.
    pub volume_notion: Option<String>,
    /// $z Language of parallel title proper.
    pub parallel_title_lang: Option<String>,
    /// $5 Institution and copy to which the field applies.
    pub org_and_instance: Option<String>,
}

/// The markers of the title field, in the order of its members.
pub open spec fn header_markers() -> Seq<char> {
    seq!['a', 'b', 'd', 'e', 'f', 'g', 'h', 'i', 'j', 'k', 'r', 'v', 'z', '5']
}

impl View for Field200Header {
    type V = Seq<Option<Seq<char>>>;

    /// The members in the order of `header_markers`.
    open spec fn view(&self) -> Seq<Option<Seq<char>>> {
        seq![
            opt_string_view(self.main_title),
            opt_string_view(self.general_material_notion),
            opt_string_view(self.parallel_title),
            opt_string_view(self.title_related_info),
            opt_string_view(self.main_responsibility),
            opt_string_view(self.other_responsibility),
            opt_string_view(self.part_number),
            opt_string_view(self.part_name),
            opt_string_view(self.end_dates),
            opt_string_view(self.main_documents_dates),
            opt_string_view(self.title_page_info),
            opt_string_view(self.volume_notion),
            opt_string_view(self.parallel_title_lang),
            opt_string_view(self.org_and_instance),
        ]
    }
}

/// What a field's data gives as a title field: for each marker, its texts joined.
pub open spec fn header_of(d: FieldDataView) -> Seq<Option<Seq<char>>> {
    header_markers().map_values(|m: char| concatenated(subfield_texts(d, m)))
}

impl Field200Header {
    /// Reads a title field from its subfields.
    pub fn from_data(data: FieldData) -> (r: Self)
        ensures
            r@ == header_of(data@),
    {
        let r = Field200Header {
            main_title: concat_subfields(data.get_subfields('a')),
            general_material_notion: concat_subfields(data.get_subfields('b')),
            parallel_title: concat_subfields(data.get_subfields('d')),
            title_related_info: concat_subfields(data.get_subfields('e')),
            main_responsibility: concat_subfields(data.get_subfields('f')),
            other_responsibility: concat_subfields(data.get_subfields('g')),
            part_number: concat_subfields(data.get_subfields('h')),
            part_name: concat_subfields(data.get_subfields('i')),
            end_dates: concat_subfields(data.get_subfields('j')),
            main_documents_dates: concat_subfields(data.get_subfields('k')),
            title_page_info: concat_subfields(data.get_subfields('r')),
            volume_notion: concat_subfields(data.get_subfields('v')),
            parallel_title_lang: concat_subfields(data.get_subfields('z')),
            org_and_instance: concat_subfields(data.get_subfields('5')),
        };
        assert(r@ =~= header_of(data@));
        r
    }
}

impl TypedField for Field200Header {
    fn field_number(&self) -> (r: u128)
        ensures
            r == 200,
    {
        200
    }
}

} // verus!

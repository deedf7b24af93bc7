//! Coded values of the coded information block (1XX), and its fields.

use vstd::prelude::*;
use crate::text::same_text;

verus! {

/// Type of publication date. A code outside the table is kept as `Other`.
#[derive(Debug, Clone, PartialEq, Eq)]
pub enum DateType {
    /// `a`: Continuing resource, current.
    CurrentOngoingResource,
    /// `b`: Continuing resource, ceased.
    OngoingResourceWithEndedPublication,
    /// `c`: Continuing resource, status unknown.
    OngoingResourceWithUnknownStatus,
    /// `d`: Monograph complete when issued, or issued within one calendar year.
    MonographPublishedInOneYear,
    /// `e`: Reproduction of a document.
    ReproducedDocument,
    /// `f`: Monograph, date of publication uncertain.
    MonographWithUnknownPublicationDate,
    /// `g`: Monograph whose publication continues for more than a year.
    MonographPublishedForMoreThanOneYear,
    /// `h`: Monograph with both date of publication and copyright or privilege date.
    MonographWithActualPublicationDateAndCopyrightDate,
    /// `i`: Monograph with both release or issue date and production date.
    MonographWithProductionAndRealizationDate,
    /// `j`: Document with a detailed date of publication.
    DocumentWithExactPublicationDate,
    /// `k`: Monograph with both publication and manufacture dates.
    MonographWithDifferentEditionAndManufacturingDates,
    /// `l`: Inclusive dates of a collection.
    ExtremeDatesCollection,
    /// `u`: Dates of publication unknown.
    UnknownPublicationDate,
    Other(String),
}

impl vstd::std_specs::convert::FromSpecImpl<String> for DateType {
    open spec fn obeys_from_spec() -> bool {
        true
    }

    open spec fn from_spec(v: String) -> Self {
        if v@ == "a"@ {
            DateType::CurrentOngoingResource
        } else if v@ == "b"@ {
            DateType::OngoingResourceWithEndedPublication
        } else if v@ == "c"@ {
            DateType::OngoingResourceWithUnknownStatus
        } else if v@ == "d"@ {
            DateType::MonographPublishedInOneYear
        } else if v@ == "e"@ {
            DateType::ReproducedDocument
        } else if v@ == "f"@ {
            DateType::MonographWithUnknownPublicationDate
        } else if v@ == "g"@ {
            DateType::MonographPublishedForMoreThanOneYear
        } else if v@ == "h"@ {
            DateType::MonographWithActualPublicationDateAndCopyrightDate
        } else if v@ == "i"@ {
            DateType::MonographWithProductionAndRealizationDate
        } else if v@ == "j"@ {
            DateType::DocumentWithExactPublicationDate
        } else if v@ == "k"@ {
            DateType::MonographWithDifferentEditionAndManufacturingDates
        } else if v@ == "l"@ {
            DateType::ExtremeDatesCollection
        } else if v@ == "u"@ {
            DateType::UnknownPublicationDate
        } else {
            DateType::Other(v)
        }
    }
}

impl From<String> for DateType {
    /// The value of a code.
    fn from(value: String) -> (r: Self) {
        let code = value.as_str();
        if same_text(code, "a") {
            DateType::CurrentOngoingResource
        } else if same_text(code, "b") {
            DateType::OngoingResourceWithEndedPublication
        } else if same_text(code, "c") {
            DateType::OngoingResourceWithUnknownStatus
        } else if same_text(code, "d") {
            DateType::MonographPublishedInOneYear
        } else if same_text(code, "e") {
            DateType::ReproducedDocument
        } else if same_text(code, "f") {
            DateType::MonographWithUnknownPublicationDate
        } else if same_text(code, "g") {
            DateType::MonographPublishedForMoreThanOneYear
        } else if same_text(code, "h") {
            DateType::MonographWithActualPublicationDateAndCopyrightDate
        } else if same_text(code, "i") {
            DateType::MonographWithProductionAndRealizationDate
        } else if same_text(code, "j") {
            DateType::DocumentWithExactPublicationDate
        } else if same_text(code, "k") {
            DateType::MonographWithDifferentEditionAndManufacturingDates
        } else if same_text(code, "l") {
            DateType::ExtremeDatesCollection
        } else if same_text(code, "u") {
            DateType::UnknownPublicationDate
        } else {
            DateType::Other(value)
        }
    }
}

/// Target audience code. A code outside the table is kept as `Other`.
#[derive(Debug, Clone, PartialEq, Eq)]
pub enum TargetAudienceCode {
    /// `a`: Juvenile, general.
    YouthGeneral,
    /// `b`: Pre-primary, 0-5.
    PreschoolChildren,
    /// `c`: Primary, 5-10.
    YoungerChildren,
    /// `d`: Children, 9-14.
    MiddleAgeChildren,
    /// `e`: Young adult, 14-20.
    Youth14to20,
    /// `k`: Adult, serious.
    AdultsScientific,
    /// `m`: Adult, general.
    AdultsGeneral,
    /// `u`: Unknown.
    Unknown,
    Other(String),
}

impl vstd::std_specs::convert::FromSpecImpl<String> for TargetAudienceCode {
    open spec fn obeys_from_spec() -> bool {
        true
    }

    open spec fn from_spec(v: String) -> Self {
        if v@ == "a"@ {
            TargetAudienceCode::YouthGeneral
        } else if v@ == "b"@ {
            TargetAudienceCode::PreschoolChildren
        } else if v@ == "c"@ {
            TargetAudienceCode::YoungerChildren
        } else if v@ == "d"@ {
            TargetAudienceCode::MiddleAgeChildren
        } else if v@ == "e"@ {
            TargetAudienceCode::Youth14to20
        } else if v@ == "k"@ {
            TargetAudienceCode::AdultsScientific
        } else if v@ == "m"@ {
            TargetAudienceCode::AdultsGeneral
        } else if v@ == "u"@ {
            TargetAudienceCode::Unknown
        } else {
            TargetAudienceCode::Other(v)
        }
    }
}

impl From<String> for TargetAudienceCode {
    /// The value of a code.
    fn from(value: String) -> (r: Self) {
        let code = value.as_str();
        if same_text(code, "a") {
            TargetAudienceCode::YouthGeneral
        } else if same_text(code, "b") {
            TargetAudienceCode::PreschoolChildren
        } else if same_text(code, "c") {
            TargetAudienceCode::YoungerChildren
        } else if same_text(code, "d") {
            TargetAudienceCode::MiddleAgeChildren
        } else if same_text(code, "e") {
            TargetAudienceCode::Youth14to20
        } else if same_text(code, "k") {
            TargetAudienceCode::AdultsScientific
        } else if same_text(code, "m") {
            TargetAudienceCode::AdultsGeneral
        } else if same_text(code, "u") {
            TargetAudienceCode::Unknown
        } else {
            TargetAudienceCode::Other(value)
        }
    }
}

/// Government publication code. A code outside the table is kept as `Other`.
#[derive(Debug, Clone, PartialEq, Eq)]
pub enum GovernmentPublicationCode {
    /// `a`: Federal or national.
    FederalNational,
    /// `b`: State, province, territory.
    RepublicState,
    /// `c`: County or department.
    RegionArea,
    /// `d`: Local: municipal, city and so on.
    LocalMunicipal,
    /// `e`: Inter-territorial, below the national level.
    Interterritorial,
    /// `f`: Intergovernmental.
    Intergovernmental,
    /// `g`: Government in exile or clandestine.
    ExiledGovernment,
    /// `h`: Level undetermined.
    UndefinedLevel,
    /// `u`: Unknown.
    Unknown,
    /// `y`: Not a government publication.
    NonGovernmentPublication,
    /// `z`: Other administrative level.
    OtherLevel,
    Other(String),
}

impl vstd::std_specs::convert::FromSpecImpl<String> for GovernmentPublicationCode {
    open spec fn obeys_from_spec() -> bool {
        true
    }

    open spec fn from_spec(v: String) -> Self {
        if v@ == "a"@ {
            GovernmentPublicationCode::FederalNational
        } else if v@ == "b"@ {
            GovernmentPublicationCode::RepublicState
        } else if v@ == "c"@ {
            GovernmentPublicationCode::RegionArea
        } else if v@ == "d"@ {
            GovernmentPublicationCode::LocalMunicipal
        } else if v@ == "e"@ {
            GovernmentPublicationCode::Interterritorial
        } else if v@ == "f"@ {
            GovernmentPublicationCode::Intergovernmental
        } else if v@ == "g"@ {
            GovernmentPublicationCode::ExiledGovernment
        } else if v@ == "h"@ {
            GovernmentPublicationCode::UndefinedLevel
        } else if v@ == "u"@ {
            GovernmentPublicationCode::Unknown
        } else if v@ == "y"@ {
            GovernmentPublicationCode::NonGovernmentPublication
        } else if v@ == "z"@ {
            GovernmentPublicationCode::OtherLevel
        } else {
            GovernmentPublicationCode::Other(v)
        }
    }
}

impl From<String> for GovernmentPublicationCode {
    /// The value of a code.
    fn from(value: String) -> (r: Self) {
        let code = value.as_str();
        if same_text(code, "a") {
            GovernmentPublicationCode::FederalNational
        } else if same_text(code, "b") {
            GovernmentPublicationCode::RepublicState
        } else if same_text(code, "c") {
            GovernmentPublicationCode::RegionArea
        } else if same_text(code, "d") {
            GovernmentPublicationCode::LocalMunicipal
        } else if same_text(code, "e") {
            GovernmentPublicationCode::Interterritorial
        } else if same_text(code, "f") {
            GovernmentPublicationCode::Intergovernmental
        } else if same_text(code, "g") {
            GovernmentPublicationCode::ExiledGovernment
        } else if same_text(code, "h") {
            GovernmentPublicationCode::UndefinedLevel
        } else if same_text(code, "u") {
            GovernmentPublicationCode::Unknown
        } else if same_text(code, "y") {
            GovernmentPublicationCode::NonGovernmentPublication
        } else if same_text(code, "z") {
            GovernmentPublicationCode::OtherLevel
        } else {
            GovernmentPublicationCode::Other(value)
        }
    }
}

/// Transliteration code. A code outside the table is kept as `Other`.
#[derive(Debug, Clone, PartialEq, Eq)]
pub enum TransliterationCode {
    /// `a`: ISO transliteration scheme.
    IsoRules,
    /// `b`: Other scheme.
    OtherRules,
    /// `c`: Several schemes: ISO or other.
    MultipleSystems,
    /// `y`: No transliteration scheme used.
    NoTransliteration,
    Other(String),
}

impl vstd::std_specs::convert::FromSpecImpl<String> for TransliterationCode {
    open spec fn obeys_from_spec() -> bool {
        true
    }

    open spec fn from_spec(v: String) -> Self {
        if v@ == "a"@ {
            TransliterationCode::IsoRules
        } else if v@ == "b"@ {
            TransliterationCode::OtherRules
        } else if v@ == "c"@ {
            TransliterationCode::MultipleSystems
        } else if v@ == "y"@ {
            TransliterationCode::NoTransliteration
        } else {
            TransliterationCode::Other(v)
        }
    }
}

impl From<String> for TransliterationCode {
    /// The value of a code.
    fn from(value: String) -> (r: Self) {
        let code = value.as_str();
        if same_text(code, "a") {
            TransliterationCode::IsoRules
        } else if same_text(code, "b") {
            TransliterationCode::OtherRules
        } else if same_text(code, "c") {
            TransliterationCode::MultipleSystems
        } else if same_text(code, "y") {
            TransliterationCode::NoTransliteration
        } else {
            TransliterationCode::Other(value)
        }
    }
}

/// Character sets. A code outside the table is kept as `Other`.
#[derive(Debug, Clone, PartialEq, Eq)]
pub enum CharacterSets {
    /// `01`: ISO 646, IRV version (basic Latin set).
    Iso646,
    /// `02`: ISO registration #37 (basic Cyrillic set).
    Iso37,
    /// `03`: ISO 5426 (extended Latin set).
    Iso5426,
    /// `04`: ISO DIS 5427 (extended Cyrillic set).
    Iso5427,
    /// `05`: ISO 5428 (Greek set).
    Iso5428,
    /// `06`: ISO 6438 (African coded character set).
    Iso6438,
    /// `07`: ISO 10586 (Georgian character set).
    Iso10586,
    /// `08`: ISO 8957 (Hebrew set), table 1.
    Iso8957Table1,
    /// `09`: ISO 8957 (Hebrew set), table 2.
    Iso8957Table2,
    /// `10`: Reserved.
    Reserved,
    /// `11`: ISO 5426-2 (Latin characters of minor European languages and obsolete typography).
    Iso54262,
    /// `50`: ISO 10646 (Unicode, UTF-8).
    Iso10646Unicode,
    /// `79`: Code page 866.
    CodePage866,
    /// `89`: WIN 1251.
    Win1251,
    /// `99`: KOI-8.
    Koi8,
    Other(String),
}

impl vstd::std_specs::convert::FromSpecImpl<String> for CharacterSets {
    open spec fn obeys_from_spec() -> bool {
        true
    }

    open spec fn from_spec(v: String) -> Self {
        if v@ == "01"@ {
            CharacterSets::Iso646
        } else if v@ == "02"@ {
            CharacterSets::Iso37
        } else if v@ == "03"@ {
            CharacterSets::Iso5426
        } else if v@ == "04"@ {
            CharacterSets::Iso5427
        } else if v@ == "05"@ {
            CharacterSets::Iso5428
        } else if v@ == "06"@ {
            CharacterSets::Iso6438
        } else if v@ == "07"@ {
            CharacterSets::Iso10586
        } else if v@ == "08"@ {
            CharacterSets::Iso8957Table1
        } else if v@ == "09"@ {
            CharacterSets::Iso8957Table2
        } else if v@ == "10"@ {
            CharacterSets::Reserved
        } else if v@ == "11"@ {
            CharacterSets::Iso54262
        } else if v@ == "50"@ {
            CharacterSets::Iso10646Unicode
        } else if v@ == "79"@ {
            CharacterSets::CodePage866
        } else if v@ == "89"@ {
            CharacterSets::Win1251
        } else if v@ == "99"@ {
            CharacterSets::Koi8
        } else {
            CharacterSets::Other(v)
        }
    }
}

impl From<String> for CharacterSets {
    /// The value of a code.
    fn from(value: String) -> (r: Self) {
        let code = value.as_str();
        if same_text(code, "01") {
            CharacterSets::Iso646
        } else if same_text(code, "02") {
            CharacterSets::Iso37
        } else if same_text(code, "03") {
            CharacterSets::Iso5426
        } else if same_text(code, "04") {
            CharacterSets::Iso5427
        } else if same_text(code, "05") {
            CharacterSets::Iso5428
        } else if same_text(code, "06") {
            CharacterSets::Iso6438
        } else if same_text(code, "07") {
            CharacterSets::Iso10586
        } else if same_text(code, "08") {
            CharacterSets::Iso8957Table1
        } else if same_text(code, "09") {
            CharacterSets::Iso8957Table2
        } else if same_text(code, "10") {
            CharacterSets::Reserved
        } else if same_text(code, "11") {
            CharacterSets::Iso54262
        } else if same_text(code, "50") {
            CharacterSets::Iso10646Unicode
        } else if same_text(code, "79") {
            CharacterSets::CodePage866
        } else if same_text(code, "89") {
            CharacterSets::Win1251
        } else if same_text(code, "99") {
            CharacterSets::Koi8
        } else {
            CharacterSets::Other(value)
        }
    }
}

/// Script of the title. A code outside the table is kept as `Other`.
#[derive(Debug, Clone, PartialEq, Eq)]
pub enum TitleGraphics {
    /// `ba`: Latin.
    Latin,
    /// `ca`: Cyrillic.
    Cyrillic,
    /// `da`: Japanese, script undefined.
    JapaneseUndetermined,
    /// `db`: Japanese, kanji.
    JapaneseKanji,
    /// `dc`: Japanese, kana.
    JapaneseKana,
    /// `ea`: Chinese.
    Chinese,
    /// `fa`: Arabic.
    Arabic,
    /// `ga`: Greek.
    Greek,
    /// `ha`: Hebrew.
    Hebrew,
    /// `ia`: Thai.
    Thai,
    /// `ja`: Devanagari.
    Devanagari,
    /// `ka`: Korean.
    Korean,
    /// `la`: Tamil.
    Tamil,
    /// `ma`: Georgian.
    Georgian,
    /// `mb`: Armenian.
    Armenian,
    Other(String),
}

impl vstd::std_specs::convert::FromSpecImpl<String> for TitleGraphics {
    open spec fn obeys_from_spec() -> bool {
        true
    }

    open spec fn from_spec(v: String) -> Self {
        if v@ == "ba"@ {
            TitleGraphics::Latin
        } else if v@ == "ca"@ {
            TitleGraphics::Cyrillic
        } else if v@ == "da"@ {
            TitleGraphics::JapaneseUndetermined
        } else if v@ == "db"@ {
            TitleGraphics::JapaneseKanji
        } else if v@ == "dc"@ {
            TitleGraphics::JapaneseKana
        } else if v@ == "ea"@ {
            TitleGraphics::Chinese
        } else if v@ == "fa"@ {
            TitleGraphics::Arabic
        } else if v@ == "ga"@ {
            TitleGraphics::Greek
        } else if v@ == "ha"@ {
            TitleGraphics::Hebrew
        } else if v@ == "ia"@ {
            TitleGraphics::Thai
        } else if v@ == "ja"@ {
            TitleGraphics::Devanagari
        } else if v@ == "ka"@ {
            TitleGraphics::Korean
        } else if v@ == "la"@ {
            TitleGraphics::Tamil
        } else if v@ == "ma"@ {
            TitleGraphics::Georgian
        } else if v@ == "mb"@ {
            TitleGraphics::Armenian
        } else {
            TitleGraphics::Other(v)
        }
    }
}

impl From<String> for TitleGraphics {
    /// The value of a code.
    fn from(value: String) -> (r: Self) {
        let code = value.as_str();
        if same_text(code, "ba") {
            TitleGraphics::Latin
        } else if same_text(code, "ca") {
            TitleGraphics::Cyrillic
        } else if same_text(code, "da") {
            TitleGraphics::JapaneseUndetermined
        } else if same_text(code, "db") {
            TitleGraphics::JapaneseKanji
        } else if same_text(code, "dc") {
            TitleGraphics::JapaneseKana
        } else if same_text(code, "ea") {
            TitleGraphics::Chinese
        } else if same_text(code, "fa") {
            TitleGraphics::Arabic
        } else if same_text(code, "ga") {
            TitleGraphics::Greek
        } else if same_text(code, "ha") {
            TitleGraphics::Hebrew
        } else if same_text(code, "ia") {
            TitleGraphics::Thai
        } else if same_text(code, "ja") {
            TitleGraphics::Devanagari
        } else if same_text(code, "ka") {
            TitleGraphics::Korean
        } else if same_text(code, "la") {
            TitleGraphics::Tamil
        } else if same_text(code, "ma") {
            TitleGraphics::Georgian
        } else if same_text(code, "mb") {
            TitleGraphics::Armenian
        } else {
            TitleGraphics::Other(value)
        }
    }
}

/// Illustration codes. A code outside the table is kept as `Other`.
#[derive(Debug, Clone, PartialEq, Eq)]
pub enum IllustrationCode {
    /// `a`: Illustrations.
    Illustrations,
    /// `b`: Maps.
    Maps,
    /// `c`: Portraits.
    Portraits,
    /// `d`: Nautical charts.
    NauticalMaps,
    /// `e`: Plans.
    Plans,
    /// `f`: Plates.
    Inserts,
    /// `g`: Music.
    MusicalWorks,
    /// `h`: Facsimiles.
    Facsimiles,
    /// `i`: Coats of arms.
    CoatsOfArms,
    /// `j`: Genealogical tables.
    GenealogicalTables,
    /// `k`: Forms.
    Forms,
    /// `l`: Samples.
    Samples,
    /// `m`: Sound recordings.
    SoundRecordings,
    /// `n`: Transparencies.
    Transparencies,
    /// `o`: Illuminations.
    DecorationsAndOrnaments,
    /// `y`: No illustrations.
    NoIllustrations,
    Other(String),
}

impl vstd::std_specs::convert::FromSpecImpl<String> for IllustrationCode {
    open spec fn obeys_from_spec() -> bool {
        true
    }

    open spec fn from_spec(v: String) -> Self {
        if v@ == "a"@ {
            IllustrationCode::Illustrations
        } else if v@ == "b"@ {
            IllustrationCode::Maps
        } else if v@ == "c"@ {
            IllustrationCode::Portraits
        } else if v@ == "d"@ {
            IllustrationCode::NauticalMaps
        } else if v@ == "e"@ {
            IllustrationCode::Plans
        } else if v@ == "f"@ {
            IllustrationCode::Inserts
        } else if v@ == "g"@ {
            IllustrationCode::MusicalWorks
        } else if v@ == "h"@ {
            IllustrationCode::Facsimiles
        } else if v@ == "i"@ {
            IllustrationCode::CoatsOfArms
        } else if v@ == "j"@ {
            IllustrationCode::GenealogicalTables
        } else if v@ == "k"@ {
            IllustrationCode::Forms
        } else if v@ == "l"@ {
            IllustrationCode::Samples
        } else if v@ == "m"@ {
            IllustrationCode::SoundRecordings
        } else if v@ == "n"@ {
            IllustrationCode::Transparencies
        } else if v@ == "o"@ {
            IllustrationCode::DecorationsAndOrnaments
        } else if v@ == "y"@ {
            IllustrationCode::NoIllustrations
        } else {
            IllustrationCode::Other(v)
        }
    }
}

impl From<String> for IllustrationCode {
    /// The value of a code.
    fn from(value: String) -> (r: Self) {
        let code = value.as_str();
        if same_text(code, "a") {
            IllustrationCode::Illustrations
        } else if same_text(code, "b") {
            IllustrationCode::Maps
        } else if same_text(code, "c") {
            IllustrationCode::Portraits
        } else if same_text(code, "d") {
            IllustrationCode::NauticalMaps
        } else if same_text(code, "e") {
            IllustrationCode::Plans
        } else if same_text(code, "f") {
            IllustrationCode::Inserts
        } else if same_text(code, "g") {
            IllustrationCode::MusicalWorks
        } else if same_text(code, "h") {
            IllustrationCode::Facsimiles
        } else if same_text(code, "i") {
            IllustrationCode::CoatsOfArms
        } else if same_text(code, "j") {
            IllustrationCode::GenealogicalTables
        } else if same_text(code, "k") {
            IllustrationCode::Forms
        } else if same_text(code, "l") {
            IllustrationCode::Samples
        } else if same_text(code, "m") {
            IllustrationCode::SoundRecordings
        } else if same_text(code, "n") {
            IllustrationCode::Transparencies
        } else if same_text(code, "o") {
            IllustrationCode::DecorationsAndOrnaments
        } else if same_text(code, "y") {
            IllustrationCode::NoIllustrations
        } else {
            IllustrationCode::Other(value)
        }
    }
}

/// Form of contents codes. A code outside the table is kept as `Other`.
#[derive(Debug, Clone, PartialEq, Eq)]
pub enum ContentFormCode {
    /// `7`: Academic work below the level of a doctoral thesis.
    PreDoctoralThesis,
    /// `a`: Bibliography.
    BibliographicPublication,
    /// `b`: Catalogue.
    Catalog,
    /// `c`: Index.
    Index,
    /// `d`: Abstract or summary.
    Abstract,
    /// `e`: Dictionary.
    Dictionary,
    /// `f`: Encyclopaedia.
    Encyclopedia,
    /// `g`: Directory.
    GeneralReferenceBook,
    /// `h`: Project description.
    ProjectDescription,
    /// `i`: Statistics.
    StatisticalData,
    /// `j`: Programmed text book.
    Textbook,
    /// `k`: Patent.
    PatentDocument,
    /// `l`: Standard.
    Standard,
    /// `m`: Dissertation or thesis (original).
    DissertationOriginal,
    /// `n`: Laws and legislation.
    LawsAndLegislations,
    /// `o`: Numeric table.
    DigitalTables,
    /// `p`: Technical report.
    TechnicalReport,
    /// `q`: Examination paper.
    ExaminationSheet,
    /// `r`: Literature survey or review.
    LiteraryReview,
    /// `s`: Treaties.
    Contracts,
    /// `t`: Cartoons or comic strips.
    CartoonsOrComics,
    /// `v`: Dissertation or thesis (revised).
    RevisedDissertation,
    /// `w`: Religious text.
    ReligiousTexts,
    Other(String),
}

impl vstd::std_specs::convert::FromSpecImpl<String> for ContentFormCode {
    open spec fn obeys_from_spec() -> bool {
        true
    }

    open spec fn from_spec(v: String) -> Self {
        if v@ == "7"@ {
            ContentFormCode::PreDoctoralThesis
        } else if v@ == "a"@ {
            ContentFormCode::BibliographicPublication
        } else if v@ == "b"@ {
            ContentFormCode::Catalog
        } else if v@ == "c"@ {
            ContentFormCode::Index
        } else if v@ == "d"@ {
            ContentFormCode::Abstract
        } else if v@ == "e"@ {
            ContentFormCode::Dictionary
        } else if v@ == "f"@ {
            ContentFormCode::Encyclopedia
        } else if v@ == "g"@ {
            ContentFormCode::GeneralReferenceBook
        } else if v@ == "h"@ {
            ContentFormCode::ProjectDescription
        } else if v@ == "i"@ {
            ContentFormCode::StatisticalData
        } else if v@ == "j"@ {
            ContentFormCode::Textbook
        } else if v@ == "k"@ {
            ContentFormCode::PatentDocument
        } else if v@ == "l"@ {
            ContentFormCode::Standard
        } else if v@ == "m"@ {
            ContentFormCode::DissertationOriginal
        } else if v@ == "n"@ {
            ContentFormCode::LawsAndLegislations
        } else if v@ == "o"@ {
            ContentFormCode::DigitalTables
        } else if v@ == "p"@ {
            ContentFormCode::TechnicalReport
        } else if v@ == "q"@ {
            ContentFormCode::ExaminationSheet
        } else if v@ == "r"@ {
            ContentFormCode::LiteraryReview
        } else if v@ == "s"@ {
            ContentFormCode::Contracts
        } else if v@ == "t"@ {
            ContentFormCode::CartoonsOrComics
        } else if v@ == "v"@ {
            ContentFormCode::RevisedDissertation
        } else if v@ == "w"@ {
            ContentFormCode::ReligiousTexts
        } else {
            ContentFormCode::Other(v)
        }
    }
}

impl From<String> for ContentFormCode {
    /// The value of a code.
    fn from(value: String) -> (r: Self) {
        let code = value.as_str();
        if same_text(code, "7") {
            ContentFormCode::PreDoctoralThesis
        } else if same_text(code, "a") {
            ContentFormCode::BibliographicPublication
        } else if same_text(code, "b") {
            ContentFormCode::Catalog
        } else if same_text(code, "c") {
            ContentFormCode::Index
        } else if same_text(code, "d") {
            ContentFormCode::Abstract
        } else if same_text(code, "e") {
            ContentFormCode::Dictionary
        } else if same_text(code, "f") {
            ContentFormCode::Encyclopedia
        } else if same_text(code, "g") {
            ContentFormCode::GeneralReferenceBook
        } else if same_text(code, "h") {
            ContentFormCode::ProjectDescription
        } else if same_text(code, "i") {
            ContentFormCode::StatisticalData
        } else if same_text(code, "j") {
            ContentFormCode::Textbook
        } else if same_text(code, "k") {
            ContentFormCode::PatentDocument
        } else if same_text(code, "l") {
            ContentFormCode::Standard
        } else if same_text(code, "m") {
            ContentFormCode::DissertationOriginal
        } else if same_text(code, "n") {
            ContentFormCode::LawsAndLegislations
        } else if same_text(code, "o") {
            ContentFormCode::DigitalTables
        } else if same_text(code, "p") {
            ContentFormCode::TechnicalReport
        } else if same_text(code, "q") {
            ContentFormCode::ExaminationSheet
        } else if same_text(code, "r") {
            ContentFormCode::LiteraryReview
        } else if same_text(code, "s") {
            ContentFormCode::Contracts
        } else if same_text(code, "t") {
            ContentFormCode::CartoonsOrComics
        } else if same_text(code, "v") {
            ContentFormCode::RevisedDissertation
        } else if same_text(code, "w") {
            ContentFormCode::ReligiousTexts
        } else {
            ContentFormCode::Other(value)
        }
    }
}

/// Conference or meeting code. A code outside the table is kept as `Other`.
#[derive(Debug, Clone, PartialEq, Eq)]
pub enum ConferenceCode {
    /// `0`: Not a conference publication.
    NotConferencePublication,
    /// `1`: Conference publication.
    ConferencePublication,
    Other(String),
}

impl vstd::std_specs::convert::FromSpecImpl<String> for ConferenceCode {
    open spec fn obeys_from_spec() -> bool {
        true
    }

    open spec fn from_spec(v: String) -> Self {
        if v@ == "0"@ {
            ConferenceCode::NotConferencePublication
        } else if v@ == "1"@ {
            ConferenceCode::ConferencePublication
        } else {
            ConferenceCode::Other(v)
        }
    }
}

impl From<String> for ConferenceCode {
    /// The value of a code.
    fn from(value: String) -> (r: Self) {
        let code = value.as_str();
        if same_text(code, "0") {
            ConferenceCode::NotConferencePublication
        } else if same_text(code, "1") {
            ConferenceCode::ConferencePublication
        } else {
            ConferenceCode::Other(value)
        }
    }
}

/// Festschrift indicator. A code outside the table is kept as `Other`.
#[derive(Debug, Clone, PartialEq, Eq)]
pub enum AnniversaryEditionIndicator {
    /// `0`: Not a festschrift.
    NotAnniversaryEdition,
    /// `1`: Festschrift.
    AnniversaryEdition,
    Other(String),
}

impl vstd::std_specs::convert::FromSpecImpl<String> for AnniversaryEditionIndicator {
    open spec fn obeys_from_spec() -> bool {
        true
    }

    open spec fn from_spec(v: String) -> Self {
        if v@ == "0"@ {
            AnniversaryEditionIndicator::NotAnniversaryEdition
        } else if v@ == "1"@ {
            AnniversaryEditionIndicator::AnniversaryEdition
        } else {
            AnniversaryEditionIndicator::Other(v)
        }
    }
}

impl From<String> for AnniversaryEditionIndicator {
    /// The value of a code.
    fn from(value: String) -> (r: Self) {
        let code = value.as_str();
        if same_text(code, "0") {
            AnniversaryEditionIndicator::NotAnniversaryEdition
        } else if same_text(code, "1") {
            AnniversaryEditionIndicator::AnniversaryEdition
        } else {
            AnniversaryEditionIndicator::Other(value)
        }
    }
}

/// Index indicator. A code outside the table is kept as `Other`.
#[derive(Debug, Clone, PartialEq, Eq)]
pub enum IndexIndicator {
    /// `0`: No index.
    NoIndex,
    /// `1`: Index present.
    IndexPresent,
    Other(String),
}

impl vstd::std_specs::convert::FromSpecImpl<String> for IndexIndicator {
    open spec fn obeys_from_spec() -> bool {
        true
    }

    open spec fn from_spec(v: String) -> Self {
        if v@ == "0"@ {
            IndexIndicator::NoIndex
        } else if v@ == "1"@ {
            IndexIndicator::IndexPresent
        } else {
            IndexIndicator::Other(v)
        }
    }
}

impl From<String> for IndexIndicator {
    /// The value of a code.
    fn from(value: String) -> (r: Self) {
        let code = value.as_str();
        if same_text(code, "0") {
            IndexIndicator::NoIndex
        } else if same_text(code, "1") {
            IndexIndicator::IndexPresent
        } else {
            IndexIndicator::Other(value)
        }
    }
}

/// Literature code. A code outside the table is kept as `Other`.
#[derive(Debug, Clone, PartialEq, Eq)]
pub enum LiteraryGenreCode {
    /// `a`: Fiction.
    Fiction,
    /// `b`: Drama.
    Drama,
    /// `c`: Essays.
    Essays,
    /// `d`: Humour, satire.
    HumorAndSatire,
    /// `e`: Letters.
    Letters,
    /// `f`: Short stories.
    ShortStories,
    /// `g`: Poetry.
    Poetry,
    /// `h`: Speeches and other rhetorical forms.
    SpeechesAndRhetoric,
    /// `y`: Not a literary text.
    NonLiteraryText,
    /// `z`: Mixed and other literary forms.
    MixedAndOtherForms,
    Other(String),
}

impl vstd::std_specs::convert::FromSpecImpl<String> for LiteraryGenreCode {
    open spec fn obeys_from_spec() -> bool {
        true
    }

    open spec fn from_spec(v: String) -> Self {
        if v@ == "a"@ {
            LiteraryGenreCode::Fiction
        } else if v@ == "b"@ {
            LiteraryGenreCode::Drama
        } else if v@ == "c"@ {
            LiteraryGenreCode::Essays
        } else if v@ == "d"@ {
            LiteraryGenreCode::HumorAndSatire
        } else if v@ == "e"@ {
            LiteraryGenreCode::Letters
        } else if v@ == "f"@ {
            LiteraryGenreCode::ShortStories
        } else if v@ == "g"@ {
            LiteraryGenreCode::Poetry
        } else if v@ == "h"@ {
            LiteraryGenreCode::SpeechesAndRhetoric
        } else if v@ == "y"@ {
            LiteraryGenreCode::NonLiteraryText
        } else if v@ == "z"@ {
            LiteraryGenreCode::MixedAndOtherForms
        } else {
            LiteraryGenreCode::Other(v)
        }
    }
}

impl From<String> for LiteraryGenreCode {
    /// The value of a code.
    fn from(value: String) -> (r: Self) {
        let code = value.as_str();
        if same_text(code, "a") {
            LiteraryGenreCode::Fiction
        } else if same_text(code, "b") {
            LiteraryGenreCode::Drama
        } else if same_text(code, "c") {
            LiteraryGenreCode::Essays
        } else if same_text(code, "d") {
            LiteraryGenreCode::HumorAndSatire
        } else if same_text(code, "e") {
            LiteraryGenreCode::Letters
        } else if same_text(code, "f") {
            LiteraryGenreCode::ShortStories
        } else if same_text(code, "g") {
            LiteraryGenreCode::Poetry
        } else if same_text(code, "h") {
            LiteraryGenreCode::SpeechesAndRhetoric
        } else if same_text(code, "y") {
            LiteraryGenreCode::NonLiteraryText
        } else if same_text(code, "z") {
            LiteraryGenreCode::MixedAndOtherForms
        } else {
            LiteraryGenreCode::Other(value)
        }
    }
}

/// Biography code. A code outside the table is kept as `Other`.
#[derive(Debug, Clone, PartialEq, Eq)]
pub enum BiographyCode {
    /// `a`: Autobiography.
    Autobiography,
    /// `b`: Individual biography.
    BiographyOfAnIndividual,
    /// `c`: Collective biography.
    CollectiveBiography,
    /// `d`: Contains biographical information.
    BiographicalCollection,
    /// `y`: Not a biography.
    NotBiography,
    Other(String),
}

impl vstd::std_specs::convert::FromSpecImpl<String> for BiographyCode {
    open spec fn obeys_from_spec() -> bool {
        true
    }

    open spec fn from_spec(v: String) -> Self {
        if v@ == "a"@ {
            BiographyCode::Autobiography
        } else if v@ == "b"@ {
            BiographyCode::BiographyOfAnIndividual
        } else if v@ == "c"@ {
            BiographyCode::CollectiveBiography
        } else if v@ == "d"@ {
            BiographyCode::BiographicalCollection
        } else if v@ == "y"@ {
            BiographyCode::NotBiography
        } else {
            BiographyCode::Other(v)
        }
    }
}

impl From<String> for BiographyCode {
    /// The value of a code.
    fn from(value: String) -> (r: Self) {
        let code = value.as_str();
        if same_text(code, "a") {
            BiographyCode::Autobiography
        } else if same_text(code, "b") {
            BiographyCode::BiographyOfAnIndividual
        } else if same_text(code, "c") {
            BiographyCode::CollectiveBiography
        } else if same_text(code, "d") {
            BiographyCode::BiographicalCollection
        } else if same_text(code, "y") {
            BiographyCode::NotBiography
        } else {
            BiographyCode::Other(value)
        }
    }
}

/// Degree of higher professional education. A code outside the table is kept as `Other`.
#[derive(Debug, Clone, PartialEq, Eq)]
pub enum HigherEducationDegreeCode {
    /// `aa`: Higher school, incomplete higher education.
    IncompleteHigherEducation,
    /// `ab`: Higher school, bachelor.
    Bachelor,
    /// `ac`: Higher school, specialist.
    Specialist,
    /// `ad`: Higher school, master.
    Master,
    /// `au`: Higher school, unknown.
    UnknownHigherEducation,
    /// `ba`: Postgraduate study, candidate of sciences.
    PostgraduateCandidate,
    /// `ca`: Doctoral study, doctor of sciences.
    PostdoctoralDoctor,
    Other(String),
}

impl vstd::std_specs::convert::FromSpecImpl<String> for HigherEducationDegreeCode {
    open spec fn obeys_from_spec() -> bool {
        true
    }

    open spec fn from_spec(v: String) -> Self {
        if v@ == "aa"@ {
            HigherEducationDegreeCode::IncompleteHigherEducation
        } else if v@ == "ab"@ {
            HigherEducationDegreeCode::Bachelor
        } else if v@ == "ac"@ {
            HigherEducationDegreeCode::Specialist
        } else if v@ == "ad"@ {
            HigherEducationDegreeCode::Master
        } else if v@ == "au"@ {
            HigherEducationDegreeCode::UnknownHigherEducation
        } else if v@ == "ba"@ {
            HigherEducationDegreeCode::PostgraduateCandidate
        } else if v@ == "ca"@ {
            HigherEducationDegreeCode::PostdoctoralDoctor
        } else {
            HigherEducationDegreeCode::Other(v)
        }
    }
}

impl From<String> for HigherEducationDegreeCode {
    /// The value of a code.
    fn from(value: String) -> (r: Self) {
        let code = value.as_str();
        if same_text(code, "aa") {
            HigherEducationDegreeCode::IncompleteHigherEducation
        } else if same_text(code, "ab") {
            HigherEducationDegreeCode::Bachelor
        } else if same_text(code, "ac") {
            HigherEducationDegreeCode::Specialist
        } else if same_text(code, "ad") {
            HigherEducationDegreeCode::Master
        } else if same_text(code, "au") {
            HigherEducationDegreeCode::UnknownHigherEducation
        } else if same_text(code, "ba") {
            HigherEducationDegreeCode::PostgraduateCandidate
        } else if same_text(code, "ca") {
            HigherEducationDegreeCode::PostdoctoralDoctor
        } else {
            HigherEducationDegreeCode::Other(value)
        }
    }
}

/// Form of item: the medium. A code outside the table is kept as `Other`.
#[derive(Debug, Clone, PartialEq, Eq)]
pub enum DocumentForm {
    /// `d`: Large print.
    LargePrint,
    /// `e`: Newspaper format.
    NewspaperFormat,
    /// `f`: Braille or Moon script.
    BrailleAndMoonFonts,
    /// `g`: Microprint.
    Microprint,
    /// `h`: Hand-written.
    Handwritten,
    /// `i`: Multimedia (for example printed material with a microfiche).
    MultiMedia,
    /// `j`: Mini-print.
    MiniPrint,
    /// `r`: Regular print.
    RegularPrint,
    /// `s`: Electronic resource.
    ElectronicResource,
    /// `t`: Microform.
    Microform,
    /// `z`: Other form of type.
    OtherFontForms,
    Other(String),
}

impl vstd::std_specs::convert::FromSpecImpl<String> for DocumentForm {
    open spec fn obeys_from_spec() -> bool {
        true
    }

    open spec fn from_spec(v: String) -> Self {
        if v@ == "d"@ {
            DocumentForm::LargePrint
        } else if v@ == "e"@ {
            DocumentForm::NewspaperFormat
        } else if v@ == "f"@ {
            DocumentForm::BrailleAndMoonFonts
        } else if v@ == "g"@ {
            DocumentForm::Microprint
        } else if v@ == "h"@ {
            DocumentForm::Handwritten
        } else if v@ == "i"@ {
            DocumentForm::MultiMedia
        } else if v@ == "j"@ {
            DocumentForm::MiniPrint
        } else if v@ == "r"@ {
            DocumentForm::RegularPrint
        } else if v@ == "s"@ {
            DocumentForm::ElectronicResource
        } else if v@ == "t"@ {
            DocumentForm::Microform
        } else if v@ == "z"@ {
            DocumentForm::OtherFontForms
        } else {
            DocumentForm::Other(v)
        }
    }
}

impl From<String> for DocumentForm {
    /// The value of a code.
    fn from(value: String) -> (r: Self) {
        let code = value.as_str();
        if same_text(code, "d") {
            DocumentForm::LargePrint
        } else if same_text(code, "e") {
            DocumentForm::NewspaperFormat
        } else if same_text(code, "f") {
            DocumentForm::BrailleAndMoonFonts
        } else if same_text(code, "g") {
            DocumentForm::Microprint
        } else if same_text(code, "h") {
            DocumentForm::Handwritten
        } else if same_text(code, "i") {
            DocumentForm::MultiMedia
        } else if same_text(code, "j") {
            DocumentForm::MiniPrint
        } else if same_text(code, "r") {
            DocumentForm::RegularPrint
        } else if same_text(code, "s") {
            DocumentForm::ElectronicResource
        } else if same_text(code, "t") {
            DocumentForm::Microform
        } else if same_text(code, "z") {
            DocumentForm::OtherFontForms
        } else {
            DocumentForm::Other(value)
        }
    }
}


/// 100 General processing data.
#[derive(Debug, Clone)]
pub struct Field100GeneralProcessingData {
    /// $a/0-7 Date entered on file (mandatory).
    pub date_input: String,
    /// $a/8 Type of publication date, which tells what dates 1 and 2 are (mandatory).
    pub date_type: DateType,
    /// $a/9-12 Date 1 (mandatory).
    pub date_1: String,
    /// $a/13-16 Date 2 (mandatory where the type of date asks for it).
    pub date_2: String,
    /// $a/17-19 Target audience code.
    pub target_audience_code: Option<TargetAudienceCode>,
    /// $a/20 Government publication code.
    pub publication_code: Option<GovernmentPublicationCode>,
    /// $a/21 Modified record code.
    pub modified_record_code: Option<char>,
    /// $a/22-24 Language of cataloguing.
    pub cataloging_language: Option<String>,
    /// $a/25 Transliteration code.
    pub transliteration_code: Option<TransliterationCode>,
    /// $a/26-29 Character sets (mandatory).
    pub character_sets: CharacterSets,
    /// $a/30-33 Additional character sets.
    pub extra_character_sets: Option<CharacterSets>,
    /// $a/34-35 Script of title.
    pub title_graphics: Option<TitleGraphics>,
}

/// 101 Language of the item.
#[derive(Debug, Clone, Default)]
pub struct Field101Language {
    /// $a Language of text, soundtrack and so on.
    pub language_text: Option<String>,
    /// $b Language of an intermediate translation.
    pub language_intermediate_translation: Option<String>,
    /// $c Language of original work.
    pub language_original: Option<String>,
    /// $d Language of summary.
    pub language_summary: Option<String>,
    /// $e Language of contents page.
    pub language_contents: Option<String>,
    /// $f Language of title page.
    pub language_title_page: Option<String>,
    /// $g Language of title proper.
    pub language_main_title: Option<String>,
    /// $h Language of libretto.
    pub language_libretto: Option<String>,
    /// $i Language of accompanying material.
    pub language_supporting_material: Option<String>,
    /// $j Language of subtitles.
    pub language_subtitles: Option<String>,
}

/// 102 Country of publication or production.
#[derive(Debug, Clone, Default)]
pub struct Field102CountryOfPublication {
    /// $a Country of publication.
    pub country_of_publication: Option<String>,
    /// $b Locality of publication, non-ISO.
    pub place_of_publication_non_iso: Option<String>,
    /// $c Locality of publication, ISO.
    pub place_of_publication_iso: Option<String>,
    /// $2 Source of a code other than ISO.
    pub code_system: Option<String>,
}

/// 105 Coded data field: textual material, monographic.
#[derive(Debug, Clone)]
pub struct Field105TextMaterials {
    /// $a/0-3 Illustration codes.
    pub illustration_codes: Vec<IllustrationCode>,
    /// $a/4-7 Form of contents codes.
    pub content_form_codes: Vec<ContentFormCode>,
    /// $a/8 Conference or meeting code.
    pub conference_code: Option<ConferenceCode>,
    /// $a/9 Festschrift indicator.
    pub anniversary_edition_indicator: Option<AnniversaryEditionIndicator>,
    /// $a/10 Index indicator.
    pub index_indicator: Option<IndexIndicator>,
    /// $a/11 Literature code.
    pub literary_genre_code: Option<LiteraryGenreCode>,
    /// $a/12 Biography code.
    pub biography_code: Option<BiographyCode>,
    /// $9 Degree of higher professional education.
    pub higher_education_degree_code: Option<HigherEducationDegreeCode>,
}

/// 106 Coded data field: form of item.
#[derive(Debug, Clone)]
pub struct Field106DocumentForm {
    /// $a Form of item, coded: the medium.
    pub document_form: Option<DocumentForm>,
}

} // verus!

use rusmarc_raw::field::{tokenize_line, Field, FieldData, FieldReadResult};
use rusmarc_raw::text::get_leading_digits;
use rusmarc_raw::typed_record::util::{concat_subfields, expect_max_one_subfield};
use rusmarc_raw::typed_record::{
    kind_for_number, parse_typed_field, registered_kinds, AnyTypedField, CharacterSets,
    ContentFormCode, DateType, Field001RecordId, Field003PersistentRecordId, Field005Version,
    Field010Isbn, Field011Issn, Field200Header, FieldKind, ParseTypedField, ParseTypedFieldError,
    TimeUnit, TitleGraphics, TypedField, TypedRecord,
};

fn field(line: &str) -> Field {
    match tokenize_line(line) {
        FieldReadResult::Parsed(f) => f,
        other => panic!("{:?}", other),
    }
}

fn version(text: &str) -> Result<Field005Version, ParseTypedFieldError> {
    Field005Version::parse_text(text)
}

#[test]
fn version_reads_every_unit() {
    let v = match parse_typed_field(field("#5: 20230131120000.0\n")) {
        Ok(AnyTypedField::Field005Version(v)) => v,
        other => panic!("{:?}", other),
    };
    assert_eq!((v.year, v.month, v.day, v.hour, v.minute, v.second, v.t), (2023, 1, 31, 12, 0, 0, 0));
}

#[test]
fn version_with_tail_number() {
    let v = version("19991231235958.42").unwrap();
    assert_eq!((v.year, v.month, v.day, v.hour, v.minute, v.second, v.t), (1999, 12, 31, 23, 59, 58, 42));
}

#[test]
fn version_without_point() {
    let v = version("20230131120000").unwrap();
    assert_eq!((v.year, v.second, v.t), (2023, 0, 0));
}

#[test]
fn version_with_fewer_units() {
    let v = version("202301").unwrap();
    assert_eq!((v.year, v.month, v.day), (2023, 1, 0));
    assert_eq!(version(""), Ok(Field005Version::default()));
    assert_eq!(version(".7").unwrap().t, 7);
}

#[test]
fn version_digits_after_seconds_are_not_read() {
    let v = version("202301311200009").unwrap();
    assert_eq!((v.year, v.second), (2023, 0));
}

#[test]
fn version_cut_inside_a_unit() {
    assert_eq!(version("202"), Err(ParseTypedFieldError::MissingUnit(TimeUnit::Year)));
    assert_eq!(version("20230"), Err(ParseTypedFieldError::MissingUnit(TimeUnit::Month)));
    assert_eq!(version("2023013"), Err(ParseTypedFieldError::MissingUnit(TimeUnit::Day)));
    assert_eq!(version("202301311"), Err(ParseTypedFieldError::MissingUnit(TimeUnit::Hour)));
    assert_eq!(version("20230131120"), Err(ParseTypedFieldError::MissingUnit(TimeUnit::Minute)));
    assert_eq!(version("2023013112000.5"), Err(ParseTypedFieldError::MissingUnit(TimeUnit::Second)));
}

#[test]
fn version_errors() {
    assert_eq!(version("2023-01"), Err(ParseTypedFieldError::InvalidCharacters));
    assert_eq!(version("2023.1.2"), Err(ParseTypedFieldError::MultiplePoints));
    assert_eq!(version("2023.4294967296"), Err(ParseTypedFieldError::NumberTooLarge));
    assert_eq!(version("2023.4294967295").unwrap().t, u32::MAX);
    let subs = field("#5: ^a2023").data;
    assert_eq!(Field005Version::try_from_data(subs), Err(ParseTypedFieldError::SubfieldsNotAllowed));
}

#[test]
fn version_is_trimmed() {
    assert_eq!(version("  2023 ").unwrap().year, 2023);
}

#[test]
fn isbn_with_one_of_each() {
    match parse_typed_field(field("#10: ^aX^bY^bZ")) {
        Ok(AnyTypedField::Field010Isbn(f)) => {
            assert_eq!(f.isbn, "X");
            assert_eq!(f.clarifications, Some("YZ".to_string()));
            assert_eq!(f.price, None);
            assert_eq!(f.errorneous_isbn, None);
            assert_eq!(f.circulation, None);
        }
        other => panic!("{:?}", other),
    }
}

#[test]
fn isbn_all_members() {
    let f = Field010Isbn::try_from_data(field("#10: ^a978-5^d100 rub^z123^91000^9+500").data).unwrap();
    assert_eq!(f.isbn, "978-5");
    assert_eq!(f.price, Some("100 rub".to_string()));
    assert_eq!(f.errorneous_isbn, Some("123".to_string()));
    assert_eq!(f.circulation, Some("1000+500".to_string()));
}

#[test]
fn at_most_one_subfield() {
    let data = field("#10: ^aX^bY^bZ").data;
    assert_eq!(expect_max_one_subfield(data.get_subfields('a')), Ok(Some("X")));
    assert_eq!(
        expect_max_one_subfield(data.get_subfields('b')),
        Err(ParseTypedFieldError::MoreThanOneSubfield)
    );
    assert_eq!(expect_max_one_subfield(data.get_subfields('c')), Ok(None));
    assert_eq!(expect_max_one_subfield(vec![]), Ok(None));
    assert_eq!(expect_max_one_subfield(vec!["a", "b"]), Err(ParseTypedFieldError::MoreThanOneSubfield));
}

#[test]
fn isbn_errors() {
    let two = field("#10: ^aX^aY").data;
    assert_eq!(Field010Isbn::try_from_data(two).unwrap_err(), ParseTypedFieldError::MoreThanOneSubfield);
    let none = field("#10: ^bY").data;
    assert_eq!(Field010Isbn::try_from_data(none).unwrap_err(), ParseTypedFieldError::MissingSubfield);
    let line = field("#10: 978").data;
    assert_eq!(Field010Isbn::try_from_data(line).unwrap_err(), ParseTypedFieldError::MissingSubfield);
    let z = field("#10: ^bY^z1^z2").data;
    assert_eq!(Field010Isbn::try_from_data(z).unwrap_err(), ParseTypedFieldError::MoreThanOneSubfield);
}

#[test]
fn concatenation() {
    assert_eq!(concat_subfields(vec![]), None);
    assert_eq!(concat_subfields(vec!["a", "bc", ""]), Some("abc".to_string()));
}

#[test]
fn record_ids() {
    match parse_typed_field(field("#3: persistent-7")) {
        Ok(AnyTypedField::Field003PersistentRecordId(f)) => assert_eq!(f.id, "persistent-7"),
        other => panic!("{:?}", other),
    }
    let subs = field("#1: ^aid").data;
    assert_eq!(Field001RecordId::try_from_data(subs).unwrap_err(), ParseTypedFieldError::SubfieldsNotAllowed);
    assert_eq!(Field001RecordId::from("x".to_string()).id, "x");
    assert_eq!(Field003PersistentRecordId::from("y".to_string()).id, "y");
}

#[test]
fn header_joins_repeated_subfields() {
    let h = Field200Header::from_data(field("#200: ^aWar ^aand Peace^fLeo Tolstoy^5lib").data);
    assert_eq!(h.main_title, Some("War and Peace".to_string()));
    assert_eq!(h.main_responsibility, Some("Leo Tolstoy".to_string()));
    assert_eq!(h.org_and_instance, Some("lib".to_string()));
    assert_eq!(h.parallel_title, None);
    let line = Field200Header::from_data(FieldData::FullLine { text: "t".to_string() });
    assert_eq!(line.main_title, None);
}

#[test]
fn unknown_number_is_an_error() {
    assert_eq!(parse_typed_field(field("#999: x")).unwrap_err(), ParseTypedFieldError::UnknownFieldNumber);
    assert_eq!(parse_typed_field(field("#11: ^a1")).unwrap_err(), ParseTypedFieldError::UnknownFieldNumber);
}

#[test]
fn typed_record_partitions_in_order() {
    let fields = vec![
        field("#1: first"),
        field("#999: unknown"),
        field("#10: ^bno isbn"),
        field("#200: ^aTitle"),
        field("#1: second"),
    ];
    let (record, errors) = TypedRecord::parse(fields);
    assert_eq!(errors, vec![ParseTypedFieldError::UnknownFieldNumber, ParseTypedFieldError::MissingSubfield]);
    let numbers: Vec<u128> = record.fields.iter().map(|f| f.field_number()).collect();
    assert_eq!(numbers, vec![1, 200, 1]);
    let ids: Vec<String> = {
        let mut view = record.get_fields(FieldKind::RecordId);
        let mut out = Vec::new();
        while let Some(AnyTypedField::Field001RecordId(f)) = view.next() {
            out.push(f.id.clone());
        }
        out
    };
    assert_eq!(ids, vec!["first".to_string(), "second".to_string()]);
}

#[test]
fn absent_kind_gives_nothing_each_time() {
    let (record, _) = TypedRecord::parse(vec![field("#1: a")]);
    for _ in 0..2 {
        let mut view = record.get_fields(FieldKind::Isbn);
        assert!(view.next().is_none());
        assert!(view.next().is_none());
    }
    let count = |record: &TypedRecord| {
        let mut view = record.get_fields(FieldKind::RecordId);
        let mut n = 0;
        while view.next().is_some() {
            n += 1;
        }
        n
    };
    assert_eq!(count(&record), 1);
    assert_eq!(count(&record), 1);
}

#[test]
fn registry_numbers_match_declarations() {
    let kinds = registered_kinds();
    assert_eq!(kinds.len(), 5);
    for kind in kinds {
        let name = kind.struct_name();
        assert!(name.starts_with("Field"));
        let digits = get_leading_digits(&name[5..]);
        assert_eq!(digits.parse::<u128>().unwrap(), kind.number(), "{}", name);
        assert_eq!(kind_for_number(kind.number()), Some(kind));
    }
    assert_eq!(kind_for_number(2), None);
    assert_eq!(Field001RecordId::from("a".to_string()).field_number(), 1);
    assert_eq!(Field005Version::default().field_number(), 5);
    assert_eq!(Field011Issn::default().field_number(), 11);
}

#[test]
fn parsers_through_the_trait() {
    let r = <Field001RecordId as ParseTypedField>::parse(FieldData::FullLine { text: "q".to_string() });
    assert!(matches!(r, Ok(AnyTypedField::Field001RecordId(_))));
    let r = FieldKind::Version.parse(FieldData::FullLine { text: "2024".to_string() });
    match r {
        Ok(AnyTypedField::Field005Version(v)) => assert_eq!(v.year, 2024),
        other => panic!("{:?}", other),
    }
}

#[test]
fn coded_values() {
    assert_eq!(DateType::from("a".to_string()), DateType::CurrentOngoingResource);
    assert_eq!(DateType::from("u".to_string()), DateType::UnknownPublicationDate);
    assert_eq!(DateType::from("q".to_string()), DateType::Other("q".to_string()));
    assert_eq!(CharacterSets::from("50".to_string()), CharacterSets::Iso10646Unicode);
    assert_eq!(CharacterSets::from("5".to_string()), CharacterSets::Other("5".to_string()));
    assert_eq!(TitleGraphics::from("ca".to_string()), TitleGraphics::Cyrillic);
    assert_eq!(TitleGraphics::from("zz".to_string()), TitleGraphics::Other("zz".to_string()));
    assert_eq!(ContentFormCode::from("7".to_string()), ContentFormCode::PreDoctoralThesis);
    assert_eq!(ContentFormCode::from("z".to_string()), ContentFormCode::Other("z".to_string()));
}

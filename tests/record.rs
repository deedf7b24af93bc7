use rusmarc_raw::field::{Error, FieldData};
use rusmarc_raw::record::{
    does_string_only_has_a_char, is_separator_line, record_remove_errors, RecordsReader,
};
use rusmarc_raw::typed_record::{AnyTypedField, FieldKind, TypedRecord};

#[test]
fn two_records_and_their_ids() {
    let mut reader = RecordsReader::new("#1: id-001\n#2: some other field\n*****\n#1: id-002\n");
    let first = reader.next().unwrap();
    let numbers: Vec<u128> = first.iter().map(|f| f.as_ref().unwrap().number).collect();
    assert_eq!(numbers, vec![1, 2]);
    let second = reader.next().unwrap();
    let numbers: Vec<u128> = second.iter().map(|f| f.as_ref().unwrap().number).collect();
    assert_eq!(numbers, vec![1]);
    assert!(reader.next().is_none());

    let (typed, errors) = TypedRecord::parse(record_remove_errors(first));
    assert_eq!(errors.len(), 1);
    let mut ids = typed.get_fields(FieldKind::RecordId);
    match ids.next() {
        Some(AnyTypedField::Field001RecordId(f)) => assert_eq!(f.id, "id-001"),
        other => panic!("{:?}", other),
    }
    assert!(ids.next().is_none());
    assert_eq!(typed.fields.len(), 1);
}

#[test]
fn separator_lines() {
    for line in ["*", "*****", "  *  ", "\t***\r\n", "*\n"] {
        assert!(is_separator_line(line), "{:?}", line);
    }
    for line in ["*a", "a*", "* *", "", "   ", "**x**", "#1: *"] {
        assert!(!is_separator_line(line), "{:?}", line);
    }
}

#[test]
fn separator_with_white_space_ends_a_record() {
    let mut reader = RecordsReader::new("#1: a\n   **  \r\n#1: b\n");
    assert_eq!(reader.next().unwrap().len(), 1);
    assert_eq!(reader.next().unwrap().len(), 1);
    assert!(reader.next().is_none());
}

#[test]
fn star_with_other_text_does_not_end_a_record() {
    let mut reader = RecordsReader::new("#1: a\n*x\n#2: b\n");
    let record = reader.next().unwrap();
    assert_eq!(record.len(), 3);
    assert!(matches!(record[1], Err(Error::NoNumberPresent)));
    assert!(reader.next().is_none());
}

#[test]
fn leading_separators_are_passed_over() {
    let mut reader = RecordsReader::new("*****\n*\n#1: a\n*****\n*****\n#2: b");
    let first = reader.next().unwrap();
    assert_eq!(first.len(), 1);
    assert_eq!(first[0].as_ref().unwrap().number, 1);
    let second = reader.next().unwrap();
    assert_eq!(second[0].as_ref().unwrap().number, 2);
    assert!(reader.next().is_none());
}

#[test]
fn empty_input_has_no_record() {
    assert!(RecordsReader::new("").next().is_none());
    assert!(RecordsReader::new("***\n  *\n").next().is_none());
}

#[test]
fn blank_lines_between_fields_are_ignored() {
    let mut reader = RecordsReader::new("\n#1: a\n\n\n#2: ^xy\n*");
    let record = reader.next().unwrap();
    assert_eq!(record.len(), 2);
    match &record[1].as_ref().unwrap().data {
        FieldData::Subfields { subfields } => assert_eq!(subfields[0].text, "y"),
        other => panic!("{:?}", other),
    }
    assert!(reader.next().is_none());
}

#[test]
fn errors_are_removed_in_order() {
    let mut reader = RecordsReader::new("#3: c\nbad\n#1: a\n: x\n#2: b\n");
    let fields = record_remove_errors(reader.next().unwrap());
    let numbers: Vec<u128> = fields.iter().map(|f| f.number).collect();
    assert_eq!(numbers, vec![3, 1, 2]);
}

#[test]
fn only_one_char() {
    assert!(does_string_only_has_a_char("***", '*'));
    assert!(does_string_only_has_a_char("a", 'a'));
    assert!(!does_string_only_has_a_char("", '*'));
    assert!(!does_string_only_has_a_char("*a*", '*'));
}

use rusmarc_raw::field::{
    get_number_and_data_parts, tokenize_line, Error, Field, FieldData, FieldReadResult,
    FieldsReader,
};
use rusmarc_raw::text::get_leading_digits;

fn full_line(r: FieldReadResult) -> (u128, String) {
    match r {
        FieldReadResult::Parsed(Field { number, data: FieldData::FullLine { text } }) => (number, text),
        other => panic!("expected a full line, got {:?}", other),
    }
}

fn subfields(r: FieldReadResult) -> (u128, Vec<(char, String)>) {
    match r {
        FieldReadResult::Parsed(Field { number, data: FieldData::Subfields { subfields } }) => {
            (number, subfields.into_iter().map(|s| (s.marker, s.text)).collect())
        }
        other => panic!("expected subfields, got {:?}", other),
    }
}

#[test]
fn canonical_line_reads_as_field() {
    assert_eq!(full_line(tokenize_line("#1: id-001")), (1, "id-001".to_string()));
}

#[test]
fn tolerated_forms_read_as_canonical() {
    let forms = [
        "#1: id-001",
        "1: id-001",
        "#1 id-001",
        "1 id-001",
        "#  1  :   id-001",
        "   #1:id-001   ",
        "#1: id-001\n",
        "#1: id-001\r\n",
        "\t1\t:\tid-001\t\n",
    ];
    for form in forms {
        assert_eq!(full_line(tokenize_line(form)), (1, "id-001".to_string()), "{:?}", form);
    }
}

#[test]
fn data_may_start_with_a_digit_after_white_space() {
    assert_eq!(full_line(tokenize_line("#12 5abc")), (12, "5abc".to_string()));
}

#[test]
fn only_one_colon_is_stripped() {
    assert_eq!(full_line(tokenize_line("#7: :x")), (7, ":x".to_string()));
}

#[test]
fn subfields_split_at_marks() {
    let expected = vec![('a', "X".to_string()), ('b', "Y".to_string()), ('b', "Z".to_string())];
    assert_eq!(subfields(tokenize_line("#10: ^aX^bY^bZ\n")), (10, expected));
}

#[test]
fn marker_only_pieces_are_dropped() {
    let expected = vec![('b', "Y".to_string()), ('c', "long text".to_string())];
    assert_eq!(subfields(tokenize_line("#200: ^a^bY^^clong text^")), (200, expected));
}

#[test]
fn subfield_count_equals_long_pieces() {
    let (_, subs) = subfields(tokenize_line("#1: ^aone^btwo^c^dfour"));
    assert_eq!(subs.len(), 3);
    let rejoined: String = subs.iter().map(|(m, t)| format!("^{}{}", m, t)).collect();
    assert_eq!(rejoined, "^aone^btwo^dfour");
}

#[test]
fn subfield_texts_keep_multibyte_characters() {
    let expected = vec![('я', "ц".to_string())];
    assert_eq!(subfields(tokenize_line("#3: ^яц^ж")), (3, expected));
}

#[test]
fn number_without_data_is_empty() {
    for line in ["#12:", "#12: ", "12", "#12 :  \r\n", "  #5  "] {
        assert!(matches!(tokenize_line(line), FieldReadResult::Empty), "{:?}", line);
    }
}

#[test]
fn blank_line_is_empty() {
    for line in ["", "\n", "   \r\n", "\t"] {
        assert!(matches!(tokenize_line(line), FieldReadResult::Empty), "{:?}", line);
    }
}

#[test]
fn line_without_number_is_malformed() {
    for line in ["abc", "#: x", "# x", ": 12", "*****x"] {
        assert!(
            matches!(tokenize_line(line), FieldReadResult::Malformed(Error::NoNumberPresent)),
            "{:?}",
            line
        );
    }
}

#[test]
fn number_wider_than_u128_is_malformed() {
    let line = "#340282366920938463463374607431768211456: x";
    assert!(matches!(tokenize_line(line), FieldReadResult::Malformed(Error::NumberTooLarge)));
    let line = "#340282366920938463463374607431768211455: x";
    assert_eq!(full_line(tokenize_line(line)), (u128::MAX, "x".to_string()));
}

#[test]
fn reserved_number_reads() {
    assert_eq!(full_line(tokenize_line("2147483647: x")), (2147483647, "x".to_string()));
}

#[test]
fn number_and_data_parts() {
    assert_eq!(get_number_and_data_parts("#12 : abc"), ("12", "abc"));
    assert_eq!(get_number_and_data_parts("12abc"), ("12", "abc"));
    assert_eq!(get_number_and_data_parts("# 7"), ("7", ""));
    assert_eq!(get_number_and_data_parts("x"), ("", "x"));
}

#[test]
fn leading_digits() {
    assert_eq!(get_leading_digits("001RecordId"), "001");
    assert_eq!(get_leading_digits("RecordId"), "");
    assert_eq!(get_leading_digits("123"), "123");
    assert_eq!(get_leading_digits(""), "");
}

#[test]
fn reader_reads_line_by_line() {
    let mut reader = FieldsReader::new("#1: a\n\nxyz\n#2: ^ab\n");
    assert_eq!(full_line(reader.read()), (1, "a".to_string()));
    assert!(matches!(reader.read(), FieldReadResult::Empty));
    assert!(matches!(reader.read(), FieldReadResult::Malformed(Error::NoNumberPresent)));
    assert_eq!(subfields(reader.read()), (2, vec![('a', "b".to_string())]));
    assert!(matches!(reader.read(), FieldReadResult::End));
    assert!(matches!(reader.read(), FieldReadResult::End));
}

#[test]
fn reader_skips_empty_lines() {
    let mut reader = FieldsReader::new("\n#1: a\n   \n#2:\nbad\n#3: c");
    let first = reader.next().unwrap().unwrap();
    assert_eq!(first.number, 1);
    assert!(matches!(reader.next(), Some(Err(Error::NoNumberPresent))));
    let third = reader.next().unwrap().unwrap();
    assert_eq!(third.number, 3);
    assert!(reader.next().is_none());
    assert!(reader.next().is_none());
}

#[test]
fn reader_reads_all() {
    let mut reader = FieldsReader::new("#1: a\r\n#2: b\r\n");
    let items = reader.read_all();
    assert_eq!(items.len(), 2);
    assert!(reader.next().is_none());
}

#[test]
fn singular_text_and_subfields_of_data() {
    let line = FieldData::FullLine { text: "abc".to_string() };
    assert_eq!(line.as_singular_text(), Some("abc"));
    assert!(line.get_subfields('a').is_empty());
    let subs = match tokenize_line("#1: ^ax^by^az") {
        FieldReadResult::Parsed(f) => f.data,
        other => panic!("{:?}", other),
    };
    assert_eq!(subs.as_singular_text(), None);
    assert_eq!(subs.get_subfields('a'), vec!["x", "z"]);
    assert_eq!(subs.get_subfields('c'), Vec::<&str>::new());
}

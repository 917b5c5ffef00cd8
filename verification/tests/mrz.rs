use rust_qr::mrz::{
    clean_line, extract_field, extract_names, normalize_line, pad_line, parse_mrz_from_lines,
    parse_mrz_text, parse_td1, parse_td2, parse_td3, usable_lines, MrzError,
};

const TD3_LINE_1: &str = "P<UTOERIKSSON<<ANNA<MARIA<<<<<<<<<<<<<<<<<<<";
const TD3_LINE_2: &str = "L898902C36UTO7408122F1204159ZE184226B<<<<<10";
const TD2_LINE_1: &str = "I<UTOERIKSSON<<ANNA<MARIA<<<<<<<<<<<";
const TD2_LINE_2: &str = "D231458907UTO7408122F1204159<<<<<<<6";
const TD1_LINE_1: &str = "I<UTOD231458907ABC<<<<<<<<<<<<";
const TD1_LINE_2: &str = "7408122F1204159UTO<<<<<<<<<<<6";
const TD1_LINE_3: &str = "ERIKSSON<<ANNA<MARIA<<<<<<<<<<";

fn owned(lines: &[&str]) -> Vec<String> {
    lines.iter().map(|l| l.to_string()).collect()
}

#[test]
fn td3_passport_round_trip() {
    let text = format!("{}\n{}", TD3_LINE_1, TD3_LINE_2);
    let record = parse_mrz_text(&text).unwrap();
    assert_eq!(record.document_type, "TD3");
    assert_eq!(record.issuing_country, "UTO");
    assert_eq!(record.surname, "ERIKSSON");
    assert_eq!(record.given_names, "ANNA MARIA");
    assert_eq!(record.document_number, "L898902C3");
    assert_eq!(record.nationality, "UTO");
    assert_eq!(record.date_of_birth, "740812");
    assert_eq!(record.sex, "F");
    assert_eq!(record.date_of_expiry, "120415");
    assert_eq!(record.optional_data, "ZE184226B");
    assert_eq!(record.raw_mrz, vec![TD3_LINE_1.to_string(), TD3_LINE_2.to_string()]);
    assert_eq!(record.confidence_percent, 75);
    assert_eq!(record.confidence_percent as f32 / 100.0, 0.75);
}

#[test]
fn sex_is_the_raw_character_at_its_offset() {
    let mut second: Vec<char> = TD3_LINE_2.chars().collect();
    second[20] = 'M';
    let second: String = second.into_iter().collect();
    let record = parse_td3(&owned(&[TD3_LINE_1, &second])).unwrap();
    assert_eq!(record.sex, "M");
    second_line_is_kept(&record.raw_mrz[1], &second);
}

fn second_line_is_kept(kept: &str, given: &str) {
    assert_eq!(kept, given);
}

#[test]
fn td2_official_document() {
    let record = parse_mrz_from_lines(&owned(&[TD2_LINE_1, TD2_LINE_2])).unwrap();
    assert_eq!(record.document_type, "TD2");
    assert_eq!(record.issuing_country, "UTO");
    assert_eq!(record.surname, "ERIKSSON");
    assert_eq!(record.given_names, "ANNA MARIA");
    assert_eq!(record.document_number, "D23145890");
    assert_eq!(record.nationality, "UTO");
    assert_eq!(record.date_of_birth, "740812");
    assert_eq!(record.sex, "F");
    assert_eq!(record.date_of_expiry, "120415");
    assert_eq!(record.optional_data, "");
    assert_eq!(record.raw_mrz, vec![TD2_LINE_1.to_string(), TD2_LINE_2.to_string()]);
    assert_eq!(record.confidence_percent, 75);
}

#[test]
fn td1_identity_card() {
    let record = parse_mrz_from_lines(&owned(&[TD1_LINE_1, TD1_LINE_2, TD1_LINE_3])).unwrap();
    assert_eq!(record.document_type, "TD1");
    assert_eq!(record.issuing_country, "UTO");
    assert_eq!(record.document_number, "D23145890");
    assert_eq!(record.optional_data, "ABC");
    assert_eq!(record.date_of_birth, "740812");
    assert_eq!(record.sex, "F");
    assert_eq!(record.date_of_expiry, "120415");
    assert_eq!(record.nationality, "UTO");
    assert_eq!(record.surname, "ERIKSSON");
    assert_eq!(record.given_names, "ANNA MARIA");
    assert_eq!(
        record.raw_mrz,
        vec![TD1_LINE_1.to_string(), TD1_LINE_2.to_string(), TD1_LINE_3.to_string()]
    );
    assert_eq!(record.confidence_percent, 75);
}

#[test]
fn three_lines_are_td1_whatever_their_length() {
    let long = "A".repeat(50);
    let record = parse_mrz_from_lines(&owned(&[&long, &long, &long])).unwrap();
    assert_eq!(record.document_type, "TD1");
    assert_eq!(record.raw_mrz, vec!["A".repeat(30), "A".repeat(30), "A".repeat(30)]);
}

#[test]
fn two_lines_are_td3_from_forty_characters_on() {
    let first = "B".repeat(40);
    let second = "C".repeat(25);
    let record = parse_mrz_from_lines(&owned(&[&first, &second])).unwrap();
    assert_eq!(record.document_type, "TD3");
    assert_eq!(record.raw_mrz[0], format!("{}<<<<", first));
    assert_eq!(record.raw_mrz[1], format!("{}{}", second, "<".repeat(19)));
}

#[test]
fn two_lines_are_td2_under_forty_characters() {
    let first = "B".repeat(39);
    let second = "C".repeat(44);
    let record = parse_mrz_from_lines(&owned(&[&first, &second])).unwrap();
    assert_eq!(record.document_type, "TD2");
    assert_eq!(record.raw_mrz[0], "B".repeat(36));
    assert_eq!(record.raw_mrz[1], "C".repeat(36));
}

#[test]
fn zero_in_a_name_becomes_the_letter() {
    let (surname, given) = extract_names("D0E<<J0HN<<<<");
    assert_eq!(surname, "DOE");
    assert_eq!(given, "JOHN");
    let (only, none) = extract_names("J0HN");
    assert_eq!(only, "JOHN");
    assert_eq!(none, "");
}

#[test]
fn names_split_at_the_first_two_delimiters() {
    assert_eq!(
        extract_names("VAN<DER<BERG<<JAN<PIETER<<IGNORED<<X"),
        ("VAN DER BERG".to_string(), "JAN PIETER".to_string())
    );
    assert_eq!(extract_names("A<<<B"), ("A".to_string(), "B".to_string()));
    assert_eq!(extract_names("<<<"), ("".to_string(), "".to_string()));
    assert_eq!(extract_names("SMITH<<"), ("SMITH".to_string(), "".to_string()));
    assert_eq!(extract_names(""), ("".to_string(), "".to_string()));
    assert_eq!(extract_names("<A<<B<"), ("A".to_string(), "B".to_string()));
}

#[test]
fn letter_o_in_the_date_of_birth_becomes_zero_but_not_in_the_expiry() {
    let second = "L898902C36UTO74O8122F12O4159ZE184226B<<<<<10";
    let record = parse_td3(&owned(&[TD3_LINE_1, second])).unwrap();
    assert_eq!(record.date_of_birth, "740812");
    assert_eq!(record.date_of_expiry, "12O415");
    let card = parse_td1(&owned(&[TD1_LINE_1, "74O8122F12O4159UTO<<<<<<<<<<<6", TD1_LINE_3])).unwrap();
    assert_eq!(card.date_of_birth, "740812");
    assert_eq!(card.date_of_expiry, "12O415");
}

#[test]
fn text_is_normalized_before_it_is_parsed() {
    let text = "  p<utoeriksson<<anna<maria<<<<<<<<<<<<<<<<<<<\t\r\nnoise\n\n \
                L898902C3 6UTO 7408122 F1204159 ZE184226B<<<<<10 \n";
    let record = parse_mrz_text(text).unwrap();
    assert_eq!(record.document_type, "TD3");
    assert_eq!(record.surname, "ERIKSSON");
    assert_eq!(record.given_names, "ANNA MARIA");
    assert_eq!(record.document_number, "L898902C3");
    assert_eq!(record.raw_mrz, vec![TD3_LINE_1.to_string(), TD3_LINE_2.to_string()]);
}

#[test]
fn normalize_line_uppercases_and_cleans() {
    assert_eq!(normalize_line(" ab c<d\t"), "ABC<D");
    assert_eq!(normalize_line("stra\u{df}e"), "STRASSE");
    assert_eq!(clean_line(" ab C \u{a0}"), "abC");
    assert_eq!(clean_line("\u{2003}X Y\u{3000}"), "XY");
    assert_eq!(clean_line("   "), "");
    assert_eq!(clean_line("A\tB"), "A\tB");
}

#[test]
fn lines_under_twenty_characters_do_not_count() {
    let nineteen = "A".repeat(19);
    let twenty = "B".repeat(20);
    let text = format!("{}\n{}\n\n{}", nineteen, twenty, "short");
    assert_eq!(usable_lines(&text), vec![twenty.clone()]);
    assert_eq!(usable_lines(""), Vec::<String>::new());
    assert_eq!(usable_lines("\n\n"), Vec::<String>::new());
    let spaced = "a ".repeat(20);
    assert_eq!(usable_lines(&spaced), vec!["A".repeat(20)]);
}

#[test]
fn text_without_a_usable_line_is_rejected() {
    assert_eq!(parse_mrz_text("").unwrap_err(), MrzError::NoValidLines);
    assert_eq!(parse_mrz_text("too short\nalso short").unwrap_err(), MrzError::NoValidLines);
    assert_eq!(parse_mrz_from_lines(&[]).unwrap_err(), MrzError::NoValidLines);
}

#[test]
fn other_line_counts_are_rejected() {
    let line = "A".repeat(30);
    assert_eq!(
        parse_mrz_text(&line).unwrap_err(),
        MrzError::UnsupportedLineCount { count: 1 }
    );
    let four = format!("{0}\n{0}\n{0}\n{0}", line);
    assert_eq!(
        parse_mrz_text(&four).unwrap_err(),
        MrzError::UnsupportedLineCount { count: 4 }
    );
    assert_eq!(
        parse_td1(&owned(&[&line, &line])).unwrap_err(),
        MrzError::UnsupportedLineCount { count: 2 }
    );
    assert_eq!(
        parse_td2(&owned(&[&line])).unwrap_err(),
        MrzError::UnsupportedLineCount { count: 1 }
    );
    assert_eq!(
        parse_td3(&owned(&[&line, &line, &line])).unwrap_err(),
        MrzError::UnsupportedLineCount { count: 3 }
    );
}

#[test]
fn pad_line_fills_with_the_filler_or_cuts() {
    assert_eq!(pad_line("ABC", 6), "ABC<<<");
    assert_eq!(pad_line("ABCDEF", 6), "ABCDEF");
    assert_eq!(pad_line("ABCDEFGH", 6), "ABCDEF");
    assert_eq!(pad_line("", 3), "<<<");
    assert_eq!(pad_line("ABC", 0), "");
    assert_eq!(pad_line("\u{e9}\u{e9}\u{e9}", 2), "\u{e9}\u{e9}");
}

#[test]
fn extract_field_clamps_to_the_line() {
    assert_eq!(extract_field("ABCDEF", 2, 5), "CDE");
    assert_eq!(extract_field("ABCDEF", 4, 10), "EF");
    assert_eq!(extract_field("ABCDEF", 6, 8), "");
    assert_eq!(extract_field("ABCDEF", 9, 12), "");
    assert_eq!(extract_field("ABCDEF", 0, 0), "");
    assert_eq!(extract_field("ABCDEF", 3, 2), "");
    assert_eq!(extract_field("ABCDEF", 0, 6), "ABCDEF");
}

#[test]
fn trailing_fillers_leave_number_and_optional_data() {
    let record = parse_td3(&owned(&[TD3_LINE_1, "AB<<<<<<<6UTO7408122F1204159<<<<<<<<<<<<<<10"])).unwrap();
    assert_eq!(record.document_number, "AB");
    assert_eq!(record.optional_data, "");
    let inner = parse_td3(&owned(&[TD3_LINE_1, "A<B<<<<<<6UTO7408122F1204159X<Y<<<<<<<<<<<10"])).unwrap();
    assert_eq!(inner.document_number, "A<B");
    assert_eq!(inner.optional_data, "X<Y");
}

#[test]
fn short_lines_are_filled_before_fields_are_read() {
    let record = parse_td3(&owned(&[&TD3_LINE_1[..40], &TD3_LINE_2[..30]])).unwrap();
    assert_eq!(record.raw_mrz[0], TD3_LINE_1);
    assert_eq!(record.raw_mrz[1], format!("{}{}", &TD3_LINE_2[..30], "<".repeat(14)));
    assert_eq!(record.optional_data, "ZE");
    assert_eq!(record.given_names, "ANNA MARIA");
}

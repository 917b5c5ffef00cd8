//! The machine-readable zone of a travel document: from the text that was
//! read off it to the document's fields, by the fixed layouts of ICAO 9303.

use crate::text::{
    chars_of, lines_of, remove_char, replace_char, replaced, slice, split_lines, string_of,
    strip_end, texts, trim, trim_end_char, trimmed, uppercase_of, without,
};
use vstd::prelude::*;

verus! {

/// The character that fills unused room in a machine-readable zone.
pub const FILLER: char = '<';

/// A line counts only if it has at least this many characters.
pub const MIN_LINE_LEN: usize = 20;

/// Of two lines, the first has at least this many characters in a passport.
pub const TD3_MIN_FIRST_LINE: usize = 40;

/// The score given to every record, in hundredths.
pub const CONFIDENCE_PERCENT: u8 = 75;

/// Why a text is not a machine-readable zone.
#[derive(Debug, Clone, Copy, PartialEq, Eq, Structural)]
pub enum MrzError {
    /// No line of the text is long enough to count.
    NoValidLines,
    /// The lines that count are neither two nor three.
    UnsupportedLineCount { count: usize },
}

/// The fields of a machine-readable zone.
#[derive(Debug, Clone)]
pub struct MRZResult {
    /// `TD1`, `TD2` or `TD3`.
    pub document_type: String,
    pub document_number: String,
    /// Six digits, `YYMMDD`.
    pub date_of_birth: String,
    /// Six digits, `YYMMDD`.
    pub date_of_expiry: String,
    pub nationality: String,
    pub sex: String,
    pub surname: String,
    pub given_names: String,
    pub optional_data: String,
    pub issuing_country: String,
    /// The lines the fields were taken from, each at its layout's width.
    pub raw_mrz: Vec<String>,
    /// A fixed score in hundredths; no field is checked for it.
    pub confidence_percent: u8,
}

/// What an `MRZResult` holds, as mathematical values.
pub struct MrzModel {
    pub document_type: Seq<char>,
    pub document_number: Seq<char>,
    pub date_of_birth: Seq<char>,
    pub date_of_expiry: Seq<char>,
    pub nationality: Seq<char>,
    pub sex: Seq<char>,
    pub surname: Seq<char>,
    pub given_names: Seq<char>,
    pub optional_data: Seq<char>,
    pub issuing_country: Seq<char>,
    pub raw_mrz: Seq<Seq<char>>,
    pub confidence_percent: int,
}

impl View for MRZResult {
    type V = MrzModel;

    open spec fn view(&self) -> MrzModel {
        MrzModel {
            document_type: self.document_type@,
            document_number: self.document_number@,
            date_of_birth: self.date_of_birth@,
            date_of_expiry: self.date_of_expiry@,
            nationality: self.nationality@,
            sex: self.sex@,
            surname: self.surname@,
            given_names: self.given_names@,
            optional_data: self.optional_data@,
            issuing_country: self.issuing_country@,
            raw_mrz: texts(self.raw_mrz@),
            confidence_percent: self.confidence_percent as int,
        }
    }
}

/// The model of a parser's answer.
pub open spec fn answer_model(answer: Result<MRZResult, MrzError>) -> Result<MrzModel, MrzError> {
    match answer {
        Ok(record) => Ok(record@),
        Err(e) => Err(e),
    }
}

/// A line at a layout's width: cut off there if it is longer, filled up with
/// `<` if it is shorter.
pub open spec fn padded(line: Seq<char>, width: nat) -> Seq<char> {
    if line.len() >= width {
        line.take(width as int)
    } else {
        line + Seq::new((width - line.len()) as nat, |i: int| FILLER)
    }
}

/// The characters of `line` from `start` up to `end`, as far as the line has
/// them.
pub open spec fn field(line: Seq<char>, start: int, end: int) -> Seq<char> {
    let stop = if end <= line.len() {
        end
    } else {
        line.len() as int
    };
    if 0 <= start < stop {
        line.subrange(start, stop)
    } else {
        Seq::empty()
    }
}

/// The two-character delimiter `<<` stands at `i`.
pub open spec fn delimiter_at(s: Seq<char>, i: int) -> bool {
    0 <= i && i + 1 < s.len() && s[i] == FILLER && s[i + 1] == FILLER
}

/// The place of the first delimiter at or after `from`, or the length of `s`
/// where there is none.
pub open spec fn next_delimiter(s: Seq<char>, from: int) -> int
    decreases s.len() - from,
{
    if from >= s.len() {
        s.len() as int
    } else if delimiter_at(s, from) {
        from
    } else {
        next_delimiter(s, from + 1)
    }
}

/// The part of a name field before its first delimiter.
pub open spec fn surname_segment(s: Seq<char>) -> Seq<char> {
    s.subrange(0, next_delimiter(s, 0))
}

/// The part of a name field between its first delimiter and the next;
/// nothing where the field has no delimiter.
pub open spec fn given_segment(s: Seq<char>) -> Seq<char> {
    let first = next_delimiter(s, 0);
    if first >= s.len() {
        Seq::empty()
    } else {
        s.subrange(first + 2, next_delimiter(s, first + 2))
    }
}

/// A name as it is read from its segment: fillers become spaces, the spaces
/// at both ends go, and every digit `0` becomes the letter `O`.
pub open spec fn name_of(segment: Seq<char>) -> Seq<char> {
    replaced(trimmed(replaced(segment, FILLER, ' ')), '0', 'O')
}

/// A date of birth as it is read from its field: every letter `O` becomes
/// the digit `0`.
pub open spec fn birth_date_of(digits: Seq<char>) -> Seq<char> {
    replaced(digits, 'O', '0')
}

/// The record of an identity card: three lines of 30 characters.
pub open spec fn td1_model(lines: Seq<Seq<char>>) -> MrzModel {
    let line1 = padded(lines[0], 30);
    let line2 = padded(lines[1], 30);
    let line3 = padded(lines[2], 30);
    MrzModel {
        document_type: "TD1"@,
        document_number: trim_end_char(field(line1, 5, 14), FILLER),
        date_of_birth: birth_date_of(field(line2, 0, 6)),
        date_of_expiry: field(line2, 8, 14),
        nationality: field(line2, 15, 18),
        sex: field(line2, 7, 8),
        surname: name_of(surname_segment(line3)),
        given_names: name_of(given_segment(line3)),
        optional_data: trim_end_char(field(line1, 15, 30), FILLER),
        issuing_country: field(line1, 2, 5),
        raw_mrz: seq![line1, line2, line3],
        confidence_percent: CONFIDENCE_PERCENT as int,
    }
}

/// The record of a document of two lines of `width` characters, whose
/// optional data ends before `optional_end`.
pub open spec fn two_line_model(
    lines: Seq<Seq<char>>,
    width: nat,
    optional_end: int,
    document_type: Seq<char>,
) -> MrzModel {
    let line1 = padded(lines[0], width);
    let line2 = padded(lines[1], width);
    let names = field(line1, 5, width as int);
    MrzModel {
        document_type,
        document_number: trim_end_char(field(line2, 0, 9), FILLER),
        date_of_birth: birth_date_of(field(line2, 13, 19)),
        date_of_expiry: field(line2, 21, 27),
        nationality: field(line2, 10, 13),
        sex: field(line2, 20, 21),
        surname: name_of(surname_segment(names)),
        given_names: name_of(given_segment(names)),
        optional_data: trim_end_char(field(line2, 28, optional_end), FILLER),
        issuing_country: field(line1, 2, 5),
        raw_mrz: seq![line1, line2],
        confidence_percent: CONFIDENCE_PERCENT as int,
    }
}

/// The record of an official document: two lines of 36 characters.
pub open spec fn td2_model(lines: Seq<Seq<char>>) -> MrzModel {
    two_line_model(lines, 36, 35, "TD2"@)
}

/// The record of a passport: two lines of 44 characters.
pub open spec fn td3_model(lines: Seq<Seq<char>>) -> MrzModel {
    two_line_model(lines, 44, 42, "TD3"@)
}

/// What a list of lines parses to: three lines are an identity card; two are
/// a passport if the first has 40 characters or more, and an official
/// document if not; no line, or another number of lines, is an error.
pub open spec fn parse_lines(lines: Seq<Seq<char>>) -> Result<MrzModel, MrzError> {
    if lines.len() == 0 {
        Err(MrzError::NoValidLines)
    } else if lines.len() == 3 {
        Ok(td1_model(lines))
    } else if lines.len() == 2 {
        if lines[0].len() >= TD3_MIN_FIRST_LINE {
            Ok(td3_model(lines))
        } else {
            Ok(td2_model(lines))
        }
    } else {
        Err(MrzError::UnsupportedLineCount { count: lines.len() as usize })
    }
}

/// A line in upper case, cleaned: its spaces taken out, then the whitespace
/// at its ends.
pub open spec fn cleaned(upper: Seq<char>) -> Seq<char> {
    trimmed(without(upper, ' '))
}

/// A line as the parser reads it: in upper case and cleaned.
pub open spec fn normalized(line: Seq<char>) -> Seq<char> {
    cleaned(uppercase_of(line))
}

/// Of the given lines, normalized, those that are long enough to count.
pub open spec fn usable(lines: Seq<Seq<char>>) -> Seq<Seq<char>>
    decreases lines.len(),
{
    if lines.len() == 0 {
        lines
    } else {
        let line = normalized(lines.last());
        if line.len() >= MIN_LINE_LEN {
            usable(lines.drop_last()).push(line)
        } else {
            usable(lines.drop_last())
        }
    }
}

/// What a text parses to.
pub open spec fn parse_text(text: Seq<char>) -> Result<MrzModel, MrzError> {
    parse_lines(usable(lines_of(text)))
}

/// Brings a line to a layout's width: see `padded`.
pub fn pad_line(line: &str, length: usize) -> (out: String)
    ensures
        out@ == padded(line@, length as nat),
{
    let chars = chars_of(line);
    if chars.len() >= length {
        string_of(&slice(&chars, 0, length))
    } else {
        let mut out = chars;
        while out.len() < length
            invariant
                line@.len() <= out@.len() <= length,
                out@ =~= line@ + Seq::new((out@.len() - line@.len()) as nat, |i: int| FILLER),
            decreases length - out@.len(),
        {
            out.push(FILLER);
        }
        string_of(&out)
    }
}

/// Takes a field out of a line: see `field`.
pub fn extract_field(line: &str, start: usize, end: usize) -> (out: String)
    ensures
        out@ == field(line@, start as int, end as int),
{
    let chars = chars_of(line);
    let stop: usize = if end <= chars.len() {
        end
    } else {
        chars.len()
    };
    if start < stop {
        string_of(&slice(&chars, start, stop))
    } else {
        String::new()
    }
}

/// Finds the first delimiter at or after `from`.
fn find_delimiter(chars: &Vec<char>, from: usize) -> (at: usize)
    requires
        from <= chars@.len(),
    ensures
        at == next_delimiter(chars@, from as int),
        from <= at <= chars@.len(),
        at < chars@.len() ==> at + 2 <= chars@.len(),
{
    let mut i: usize = from;
    while i < chars.len()
        invariant
            from <= i <= chars@.len(),
            next_delimiter(chars@, from as int) == next_delimiter(chars@, i as int),
        decreases chars@.len() - i,
    {
        if i + 1 < chars.len() && chars[i] == FILLER && chars[i + 1] == FILLER {
            return i;
        }
        i = i + 1;
    }
    i
}

/// Reads a name from its segment: see `name_of`.
fn read_name(segment: &Vec<char>) -> (name: String)
    ensures
        name@ == name_of(segment@),
{
    let spaced = replace_char(segment, FILLER, ' ');
    let inner = trim(&spaced);
    let corrected = replace_char(&inner, '0', 'O');
    string_of(&corrected)
}

/// Splits a name field into surname and given names.
pub fn extract_names(name_field: &str) -> (names: (String, String))
    ensures
        names.0@ == name_of(surname_segment(name_field@)),
        names.1@ == name_of(given_segment(name_field@)),
{
    let chars = chars_of(name_field);
    let first = find_delimiter(&chars, 0);
    let surname = read_name(&slice(&chars, 0, first));
    let given_names = if first >= chars.len() {
        read_name(&Vec::new())
    } else {
        let second = find_delimiter(&chars, first + 2);
        read_name(&slice(&chars, first + 2, second))
    };
    (surname, given_names)
}

/// Reads a date of birth from its field: see `birth_date_of`.
fn read_birth_date(line: &str, start: usize, end: usize) -> (date: String)
    ensures
        date@ == birth_date_of(field(line@, start as int, end as int)),
{
    let digits = extract_field(line, start, end);
    string_of(&replace_char(&chars_of(digits.as_str()), 'O', '0'))
}

/// Takes a field out of a line and drops the fillers at its end.
fn read_stripped(line: &str, start: usize, end: usize) -> (out: String)
    ensures
        out@ == trim_end_char(field(line@, start as int, end as int), FILLER),
{
    let whole = extract_field(line, start, end);
    string_of(&strip_end(&chars_of(whole.as_str()), FILLER))
}

/// Parses an identity card: three lines of 30 characters.
pub fn parse_td1(lines: &[String]) -> (r: Result<MRZResult, MrzError>)
    ensures
        lines@.len() == 3 ==> answer_model(r) == Ok::<MrzModel, MrzError>(td1_model(texts(lines@))),
        lines@.len() != 3 ==> r is Err && r->Err_0 == (MrzError::UnsupportedLineCount {
            count: lines.len(),
        }),
{
    if lines.len() != 3 {
        return Err(MrzError::UnsupportedLineCount { count: lines.len() });
    }
    let line1 = pad_line(lines[0].as_str(), 30);
    let line2 = pad_line(lines[1].as_str(), 30);
    let line3 = pad_line(lines[2].as_str(), 30);
    let names = extract_names(line3.as_str());
    let document_number = read_stripped(line1.as_str(), 5, 14);
    let issuing_country = extract_field(line1.as_str(), 2, 5);
    let optional_data = read_stripped(line1.as_str(), 15, 30);
    let date_of_birth = read_birth_date(line2.as_str(), 0, 6);
    let sex = extract_field(line2.as_str(), 7, 8);
    let date_of_expiry = extract_field(line2.as_str(), 8, 14);
    let nationality = extract_field(line2.as_str(), 15, 18);
    let ghost rows = seq![line1@, line2@, line3@];
    let mut raw_mrz: Vec<String> = Vec::new();
    raw_mrz.push(line1);
    raw_mrz.push(line2);
    raw_mrz.push(line3);
    assert(texts(raw_mrz@) =~= rows);
    let record = MRZResult {
        document_type: "TD1".to_owned(),
        document_number,
        date_of_birth,
        date_of_expiry,
        nationality,
        sex,
        surname: names.0,
        given_names: names.1,
        optional_data,
        issuing_country,
        raw_mrz,
        confidence_percent: CONFIDENCE_PERCENT,
    };
    assert(record@ == td1_model(texts(lines@)));
    Ok(record)
}

/// Parses a document of two lines of `width` characters.
fn parse_two_lines(lines: &[String], width: usize, optional_end: usize, document_type: &str) -> (r:
    MRZResult)
    requires
        lines@.len() == 2,
    ensures
        r@ == two_line_model(texts(lines@), width as nat, optional_end as int, document_type@),
{
    let line1 = pad_line(lines[0].as_str(), width);
    let line2 = pad_line(lines[1].as_str(), width);
    let name_field = extract_field(line1.as_str(), 5, width);
    let names = extract_names(name_field.as_str());
    let issuing_country = extract_field(line1.as_str(), 2, 5);
    let document_number = read_stripped(line2.as_str(), 0, 9);
    let nationality = extract_field(line2.as_str(), 10, 13);
    let date_of_birth = read_birth_date(line2.as_str(), 13, 19);
    let sex = extract_field(line2.as_str(), 20, 21);
    let date_of_expiry = extract_field(line2.as_str(), 21, 27);
    let optional_data = read_stripped(line2.as_str(), 28, optional_end);
    let ghost rows = seq![line1@, line2@];
    let mut raw_mrz: Vec<String> = Vec::new();
    raw_mrz.push(line1);
    raw_mrz.push(line2);
    assert(texts(raw_mrz@) =~= rows);
    MRZResult {
        document_type: document_type.to_owned(),
        document_number,
        date_of_birth,
        date_of_expiry,
        nationality,
        sex,
        surname: names.0,
        given_names: names.1,
        optional_data,
        issuing_country,
        raw_mrz,
        confidence_percent: CONFIDENCE_PERCENT,
    }
}

/// Parses an official document: two lines of 36 characters.
pub fn parse_td2(lines: &[String]) -> (r: Result<MRZResult, MrzError>)
    ensures
        lines@.len() == 2 ==> answer_model(r) == Ok::<MrzModel, MrzError>(td2_model(texts(lines@))),
        lines@.len() != 2 ==> r is Err && r->Err_0 == (MrzError::UnsupportedLineCount {
            count: lines.len(),
        }),
{
    if lines.len() != 2 {
        return Err(MrzError::UnsupportedLineCount { count: lines.len() });
    }
    Ok(parse_two_lines(lines, 36, 35, "TD2"))
}

/// Parses a passport: two lines of 44 characters.
pub fn parse_td3(lines: &[String]) -> (r: Result<MRZResult, MrzError>)
    ensures
        lines@.len() == 2 ==> answer_model(r) == Ok::<MrzModel, MrzError>(td3_model(texts(lines@))),
        lines@.len() != 2 ==> r is Err && r->Err_0 == (MrzError::UnsupportedLineCount {
            count: lines.len(),
        }),
{
    if lines.len() != 2 {
        return Err(MrzError::UnsupportedLineCount { count: lines.len() });
    }
    Ok(parse_two_lines(lines, 44, 42, "TD3"))
}

/// Parses the lines of a machine-readable zone, told apart by their number
/// and the length of the first: see `parse_lines`.
pub fn parse_mrz_from_lines(lines: &[String]) -> (r: Result<MRZResult, MrzError>)
    ensures
        answer_model(r) == parse_lines(texts(lines@)),
{
    if lines.len() == 0 {
        Err(MrzError::NoValidLines)
    } else if lines.len() == 3 {
        parse_td1(lines)
    } else if lines.len() == 2 {
        if chars_of(lines[0].as_str()).len() >= TD3_MIN_FIRST_LINE {
            parse_td3(lines)
        } else {
            parse_td2(lines)
        }
    } else {
        Err(MrzError::UnsupportedLineCount { count: lines.len() })
    }
}

/// Cleans a line that is in upper case already: see `cleaned`.
pub fn clean_line(upper: &str) -> (out: String)
    ensures
        out@ == cleaned(upper@),
{
    string_of(&trim(&remove_char(&chars_of(upper), ' ')))
}

/// Normalizes one line of the text: see `normalized`.
pub fn normalize_line(line: &str) -> (out: String)
    ensures
        out@ == normalized(line@),
{
    let upper = line.to_uppercase();
    clean_line(upper.as_str())
}

/// The lines of a text that count, normalized.
pub fn usable_lines(text: &str) -> (kept: Vec<String>)
    ensures
        texts(kept@) == usable(lines_of(text@)),
{
    let lines = split_lines(text);
    let mut kept: Vec<String> = Vec::new();
    let mut i: usize = 0;
    assert(texts(lines@).take(0) =~= Seq::<Seq<char>>::empty());
    assert(texts(kept@) =~= Seq::<Seq<char>>::empty());
    while i < lines.len()
        invariant
            i <= lines@.len(),
            texts(kept@) == usable(texts(lines@).take(i as int)),
        decreases lines@.len() - i,
    {
        assert(texts(lines@).take(i + 1).drop_last() =~= texts(lines@).take(i as int));
        let ghost before = texts(kept@);
        let line = normalize_line(lines[i].as_str());
        if chars_of(line.as_str()).len() >= MIN_LINE_LEN {
            kept.push(line);
            assert(texts(kept@) =~= before.push(line@));
        }
        i = i + 1;
    }
    assert(texts(lines@).take(i as int) =~= texts(lines@));
    kept
}

/// Parses the text read off a machine-readable zone.
pub fn parse_mrz_text(mrz_text: &str) -> (r: Result<MRZResult, MrzError>)
    ensures
        answer_model(r) == parse_text(mrz_text@),
{
    let lines = usable_lines(mrz_text);
    if lines.len() == 0 {
        return Err(MrzError::NoValidLines);
    }
    parse_mrz_from_lines(lines.as_slice())
}

} // verus!

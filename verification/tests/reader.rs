use bats_pitch::{CodeSet, DecodeError, ErrorKind, Field, FieldReader};

fn error(kind: ErrorKind, field: Field, offset: usize, raw: &str) -> DecodeError {
    DecodeError { kind, field, offset, raw: raw.to_string() }
}

#[test]
fn take_cuts_fields_left_to_right() {
    let mut reader = FieldReader::new("abcdefgh");
    assert_eq!(reader.take(Field::Symbol, 3), Ok("abc"));
    assert_eq!(reader.take(Field::Symbol, 0), Ok(""));
    assert_eq!(reader.take(Field::Symbol, 4), Ok("defg"));
    assert_eq!(reader.take(Field::Symbol, 1), Ok("h"));
    assert_eq!(reader.take(Field::Symbol, 0), Ok(""));
}

#[test]
fn take_fails_without_moving() {
    let mut reader = FieldReader::new("abcde");
    assert_eq!(reader.take(Field::Timestamp, 2), Ok("ab"));
    assert_eq!(
        reader.take(Field::Symbol, 4),
        Err(error(ErrorKind::LengthError, Field::Symbol, 2, "cde"))
    );
    assert_eq!(reader.take(Field::Symbol, 3), Ok("cde"));
    assert_eq!(
        reader.take(Field::Price, 1),
        Err(error(ErrorKind::LengthError, Field::Price, 5, ""))
    );
    assert_eq!(
        FieldReader::new("").take(Field::Timestamp, 8),
        Err(error(ErrorKind::LengthError, Field::Timestamp, 0, ""))
    );
}

#[test]
fn take_counts_characters() {
    let mut reader = FieldReader::new("ÄÖ←πxy");
    assert_eq!(reader.take(Field::Symbol, 2), Ok("ÄÖ"));
    assert_eq!(reader.take(Field::Symbol, 3), Ok("←πx"));
    assert_eq!(
        reader.take(Field::Symbol, 2),
        Err(error(ErrorKind::LengthError, Field::Symbol, 5, "y"))
    );
}

#[test]
fn reader_converts_each_kind_of_field() {
    let mut reader = FieldReader::new("00042zzSAAPL  BAML");
    assert_eq!(reader.numeral(Field::Shares, 5, 10, 100), Ok(42));
    assert_eq!(reader.numeral(Field::OrderId, 2, 36, u64::MAX), Ok(1295));
    assert_eq!(reader.any_char(Field::Side), Ok('S'));
    assert_eq!(reader.text(Field::Symbol, 6), Ok("AAPL  ".to_string()));
    assert_eq!(reader.optional_part_id(Field::ParticipantId), Ok("BAML".to_string()));
    assert_eq!(reader.optional_part_id(Field::ParticipantId), Ok(String::new()));
    assert_eq!(
        reader.any_char(Field::Display),
        Err(error(ErrorKind::LengthError, Field::Display, 18, ""))
    );
}

#[test]
fn reader_reports_where_a_field_fails() {
    let mut reader = FieldReader::new("0004200x42QS");
    assert_eq!(
        reader.numeral(Field::Shares, 5, 10, 41),
        Err(error(ErrorKind::FormatError, Field::Shares, 0, "00042"))
    );
    assert_eq!(reader.numeral(Field::Shares, 5, 10, 42), Ok(42));
    assert_eq!(
        reader.numeral(Field::Price, 5, 10, u64::MAX),
        Err(error(ErrorKind::FormatError, Field::Price, 5, "00x42"))
    );
    assert_eq!(reader.text(Field::Symbol, 5), Ok("00x42".to_string()));
    assert_eq!(
        reader.code(Field::MsgType, CodeSet::AddOrderType),
        Err(error(ErrorKind::InvalidEnum, Field::MsgType, 10, "Q"))
    );
    assert_eq!(
        reader.optional_part_id(Field::ParticipantId),
        Err(error(ErrorKind::FormatError, Field::ParticipantId, 10, "QS"))
    );
    assert_eq!(
        reader.text(Field::Symbol, 3),
        Err(error(ErrorKind::LengthError, Field::Symbol, 10, "QS"))
    );
    assert_eq!(reader.any_char(Field::Side), Ok('Q'));
    assert_eq!(reader.any_char(Field::Side), Ok('S'));
}

#[test]
fn code_sets_hold_their_codes() {
    let sets = [
        (CodeSet::AddOrderType, "Ad"),
        (CodeSet::AuctionSummaryType, "J"),
        (CodeSet::AuctionUpdateType, "I"),
        (CodeSet::AuctionPhase, "OCHI"),
    ];
    for (set, codes) in sets {
        for code in 0u8..128 {
            let c = code as char;
            assert_eq!(set.contains(c), codes.contains(c), "{:?} {:?}", set, c);
        }
    }
}

#[test]
fn code_is_checked_against_its_set() {
    assert_eq!(FieldReader::new("A").code(Field::MsgType, CodeSet::AddOrderType), Ok('A'));
    assert_eq!(FieldReader::new("d").code(Field::MsgType, CodeSet::AddOrderType), Ok('d'));
    assert_eq!(
        FieldReader::new("D").code(Field::MsgType, CodeSet::AddOrderType),
        Err(error(ErrorKind::InvalidEnum, Field::MsgType, 0, "D"))
    );
    assert_eq!(
        FieldReader::new("").code(Field::MsgType, CodeSet::AddOrderType),
        Err(error(ErrorKind::LengthError, Field::MsgType, 0, ""))
    );
}

#[test]
fn error_keeps_a_copy_of_what_was_found() {
    let found = String::from("00x42");
    let e = DecodeError::new(ErrorKind::FormatError, Field::Price, 34, &found);
    drop(found);
    assert_eq!(e, error(ErrorKind::FormatError, Field::Price, 34, "00x42"));
    assert_ne!(e, error(ErrorKind::LengthError, Field::Price, 34, "00x42"));
    assert_ne!(e, error(ErrorKind::FormatError, Field::Shares, 34, "00x42"));
    assert_ne!(e, error(ErrorKind::FormatError, Field::Price, 35, "00x42"));
    assert_ne!(e, error(ErrorKind::FormatError, Field::Price, 34, "00x4"));
}

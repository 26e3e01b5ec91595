use bats_pitch::{AddOrderMsg, AuctionSummaryMsg, AuctionUpdateMsg, BATSMsgFactory};
use bats_pitch::{BATSMessage, DecodeError, ErrorKind, Field};

const ADD_ORDER: &str = "28800168A1K27GA00000YS000100AAPL  0001831900Y";
const ADD_ORDER_LONG: &str = "28800169d1K27GA00000YS000100AAPL  0001831900YBAML";
const AUCTION_SUMMARY: &str = "28800168JAAPLSPOTC00010068000000020000";
const AUCTION_UPDATE: &str = "28800168IAAPLSPOTC00010068000000020000000001000000015034000001309800";

fn prefix(line: &str, n: usize) -> String {
    line.chars().take(n).collect()
}

fn error(kind: ErrorKind, field: Field, offset: usize, raw: &str) -> DecodeError {
    DecodeError { kind, field, offset, raw: raw.to_string() }
}

#[test]
fn test_parse_auction_summary() {
    let msg = "28800168JAAPLSPOTC00010068000000020000";
    let res = AuctionSummaryMsg::parse_msg(msg);
    println!("{:?}", res);
    assert!(res.is_ok());
}

#[test]
fn test_parse_add_order() {
    let msg = "28800168A1K27GA00000YS000100AAPL  0001831900Y";
    let msg_long = "28800169d1K27GA00000YS000100AAPL  0001831900YBAML";

    let res = AddOrderMsg::parse_msg(msg);
    println!("{:?}", res);
    assert!(res.is_ok());

    let o = res.unwrap();
    assert_eq!(o.timestamp, 28800168);
    assert_eq!(o.msg_type, 'A');
    assert_eq!(o.order_id, 204969015920664610);
    assert_eq!(o.side, 'S');
    assert_eq!(o.shares, 100);
    assert_eq!(o.symbol, "AAPL  ");
    assert_eq!(o.price, 1831900);
    assert_eq!(o.display, 'Y');

    let res = AddOrderMsg::parse_msg(msg_long);
    println!("{:?}", res);
    assert!(res.is_ok());
}

#[test]
fn test_parse_auction_update() {
    let msg = "28800168IAAPLSPOTC00010068000000020000000001000000015034000001309800";
    let res = AuctionUpdateMsg::parse_msg(msg);
    println!("{:?}", res);
    assert!(res.is_ok());
}

#[test]
fn test_factory() {
    let obj = BATSMsgFactory::parse("28800168A1K27GA00000YS000100AAPL  0001831900Y").unwrap();
    println!("Return result from msg factory {:?}", obj);
    let msg_obj: Option<AddOrderMsg> = obj.into();
    assert!(msg_obj.is_some());
    println!("After into {:?}", msg_obj);

    let obj = BATSMsgFactory::parse("28800168JAAPLSPOTC00010068000000020000").unwrap();
    println!("Return result from msg factory {:?}", obj);
    let msg_obj: Option<AuctionSummaryMsg> = obj.into();
    println!("After into {:?}", msg_obj);
    assert!(msg_obj.is_some());
}

#[test]
fn add_order_short_form_has_every_field() {
    let o = AddOrderMsg::parse_msg(ADD_ORDER).unwrap();
    assert_eq!(
        o,
        AddOrderMsg {
            timestamp: 28800168,
            msg_type: 'A',
            order_id: 204969015920664610,
            side: 'S',
            shares: 100,
            symbol: "AAPL  ".to_string(),
            price: 1831900,
            display: 'Y',
            part_id: String::new(),
        }
    );
}

#[test]
fn add_order_long_form_has_participant_id() {
    let o = AddOrderMsg::parse_msg(ADD_ORDER_LONG).unwrap();
    assert_eq!(o.timestamp, 28800169);
    assert_eq!(o.msg_type, 'd');
    assert_eq!(o.order_id, 204969015920664610);
    assert_eq!(o.side, 'S');
    assert_eq!(o.shares, 100);
    assert_eq!(o.symbol, "AAPL  ");
    assert_eq!(o.price, 1831900);
    assert_eq!(o.display, 'Y');
    assert_eq!(o.part_id, "BAML");
}

#[test]
fn auction_summary_has_every_field() {
    let m = AuctionSummaryMsg::parse_msg(AUCTION_SUMMARY).unwrap();
    assert_eq!(
        m,
        AuctionSummaryMsg {
            timestamp: 28800168,
            msg_type: 'J',
            symbol: "AAPLSPOT".to_string(),
            auction_type: 'C',
            price: 1006800,
            shares: 20000,
        }
    );
}

#[test]
fn auction_update_has_every_field() {
    let m = AuctionUpdateMsg::parse_msg(AUCTION_UPDATE).unwrap();
    assert_eq!(
        m,
        AuctionUpdateMsg {
            timestamp: 28800168,
            msg_type: 'I',
            symbol: "AAPLSPOT".to_string(),
            auction_type: 'C',
            reference_price: 1006800,
            buyshares: 20000,
            sellshares: 10000,
            indicative_price: 1503400,
            auction_only_price: 1309800,
        }
    );
}

#[test]
fn auction_update_takes_each_phase() {
    for phase in ['O', 'C', 'H', 'I'] {
        let line = format!("28800168IAAPLSPOT{}{}", phase, "0".repeat(50));
        let m = AuctionUpdateMsg::parse_msg(&line).unwrap();
        assert_eq!(m.auction_type, phase);
    }
}

#[test]
fn auction_update_rejects_unknown_phase() {
    let line = format!("28800168IAAPLSPOTZ{}", "0".repeat(50));
    assert_eq!(
        AuctionUpdateMsg::parse_msg(&line),
        Err(error(ErrorKind::InvalidEnum, Field::AuctionType, 17, "Z"))
    );
}

#[test]
fn wrong_message_type_is_invalid_enum() {
    assert_eq!(
        AddOrderMsg::parse_msg(AUCTION_SUMMARY),
        Err(error(ErrorKind::InvalidEnum, Field::MsgType, 8, "J"))
    );
    assert_eq!(
        AuctionSummaryMsg::parse_msg(AUCTION_UPDATE),
        Err(error(ErrorKind::InvalidEnum, Field::MsgType, 8, "I"))
    );
    assert_eq!(
        AuctionUpdateMsg::parse_msg(ADD_ORDER),
        Err(error(ErrorKind::InvalidEnum, Field::MsgType, 8, "A"))
    );
}

#[test]
fn truncated_add_order_is_length_error() {
    for n in 0..45 {
        let res = AddOrderMsg::parse_msg(&prefix(ADD_ORDER, n));
        assert_eq!(res.unwrap_err().kind, ErrorKind::LengthError, "length {}", n);
    }
}

#[test]
fn truncated_auction_summary_is_length_error() {
    for n in 0..38 {
        let res = AuctionSummaryMsg::parse_msg(&prefix(AUCTION_SUMMARY, n));
        assert_eq!(res.unwrap_err().kind, ErrorKind::LengthError, "length {}", n);
    }
}

#[test]
fn truncated_auction_update_is_length_error() {
    for n in 0..68 {
        let res = AuctionUpdateMsg::parse_msg(&prefix(AUCTION_UPDATE, n));
        assert_eq!(res.unwrap_err().kind, ErrorKind::LengthError, "length {}", n);
    }
}

#[test]
fn length_error_names_the_field_that_is_cut() {
    assert_eq!(
        AddOrderMsg::parse_msg("288"),
        Err(error(ErrorKind::LengthError, Field::Timestamp, 0, "288"))
    );
    assert_eq!(
        AddOrderMsg::parse_msg("28800168"),
        Err(error(ErrorKind::LengthError, Field::MsgType, 8, ""))
    );
    assert_eq!(
        AddOrderMsg::parse_msg("28800168A1K27"),
        Err(error(ErrorKind::LengthError, Field::OrderId, 9, "1K27"))
    );
    assert_eq!(
        AddOrderMsg::parse_msg(&prefix(ADD_ORDER, 44)),
        Err(error(ErrorKind::LengthError, Field::Display, 44, ""))
    );
    assert_eq!(
        AuctionSummaryMsg::parse_msg(&prefix(AUCTION_SUMMARY, 30)),
        Err(error(ErrorKind::LengthError, Field::Shares, 28, "00"))
    );
    assert_eq!(
        AuctionUpdateMsg::parse_msg(&prefix(AUCTION_UPDATE, 60)),
        Err(error(ErrorKind::LengthError, Field::AuctionOnlyPrice, 58, "00"))
    );
}

#[test]
fn first_failing_field_decides() {
    assert_eq!(
        AddOrderMsg::parse_msg("2880016XA"),
        Err(error(ErrorKind::FormatError, Field::Timestamp, 0, "2880016X"))
    );
    assert_eq!(
        AddOrderMsg::parse_msg("2880016XQ1K27GA00000YS00010ZAAPL  0001831900Y"),
        Err(error(ErrorKind::FormatError, Field::Timestamp, 0, "2880016X"))
    );
    assert_eq!(
        AddOrderMsg::parse_msg("28800168Q1K27GA00000YS00010ZAAPL  0001831900Y"),
        Err(error(ErrorKind::InvalidEnum, Field::MsgType, 8, "Q"))
    );
    assert_eq!(
        AddOrderMsg::parse_msg("28800168A1K27GA00000YS00010ZAAPL  0001831900Y"),
        Err(error(ErrorKind::FormatError, Field::Shares, 22, "00010Z"))
    );
}

#[test]
fn malformed_numbers_are_format_errors() {
    assert_eq!(
        AddOrderMsg::parse_msg("28800168A1K27GA-0000YS000100AAPL  0001831900Y"),
        Err(error(ErrorKind::FormatError, Field::OrderId, 9, "1K27GA-0000Y"))
    );
    assert_eq!(
        AddOrderMsg::parse_msg("28800168A1K27GA00000YS000100AAPL  +001831900Y"),
        Err(error(ErrorKind::FormatError, Field::Price, 34, "+001831900"))
    );
    assert_eq!(
        AuctionSummaryMsg::parse_msg("+8800168JAAPLSPOTC00010068000000020000"),
        Err(error(ErrorKind::FormatError, Field::Timestamp, 0, "+8800168"))
    );
}

#[test]
fn share_count_must_fit_32_bits() {
    let fits = AuctionSummaryMsg::parse_msg("28800168JAAPLSPOTC00010068004294967295").unwrap();
    assert_eq!(fits.shares, 4294967295);
    assert_eq!(
        AuctionSummaryMsg::parse_msg("28800168JAAPLSPOTC00010068004294967296"),
        Err(error(ErrorKind::FormatError, Field::Shares, 28, "4294967296"))
    );
    let line = format!("28800168IAAPLSPOTC0001006800{}9999999999{}", "0000020000", "0".repeat(20));
    assert_eq!(
        AuctionUpdateMsg::parse_msg(&line),
        Err(error(ErrorKind::FormatError, Field::SellShares, 38, "9999999999"))
    );
}

#[test]
fn participant_id_is_absent_or_four_characters() {
    for extra in ["B", "BA", "BAM", "BAMLX", "BAMLBAML"] {
        let line = format!("{}{}", ADD_ORDER, extra);
        assert_eq!(
            AddOrderMsg::parse_msg(&line),
            Err(error(ErrorKind::FormatError, Field::ParticipantId, 45, extra))
        );
    }
}

#[test]
fn auction_lines_may_run_on() {
    let summary = format!("{}  trailing", AUCTION_SUMMARY);
    assert_eq!(
        AuctionSummaryMsg::parse_msg(&summary),
        AuctionSummaryMsg::parse_msg(AUCTION_SUMMARY)
    );
    let update = format!("{}X", AUCTION_UPDATE);
    assert_eq!(AuctionUpdateMsg::parse_msg(&update), AuctionUpdateMsg::parse_msg(AUCTION_UPDATE));
}

#[test]
fn widths_count_characters() {
    let o = AddOrderMsg::parse_msg("28800168A1K27GA00000YS000100ÄÖ←π  0001831900¥").unwrap();
    assert_eq!(o.symbol, "ÄÖ←π  ");
    assert_eq!(o.price, 1831900);
    assert_eq!(o.display, '¥');
    assert_eq!(o.part_id, "");
    let long = AddOrderMsg::parse_msg("28800168A1K27GA00000YS000100AAPL  0001831900YBÄML").unwrap();
    assert_eq!(long.part_id, "BÄML");
}

#[test]
fn decoding_is_repeatable() {
    assert_eq!(AddOrderMsg::parse_msg(ADD_ORDER), AddOrderMsg::parse_msg(ADD_ORDER));
    let bad = AddOrderMsg::parse_msg("garbage");
    assert!(bad.is_err());
    assert!(AddOrderMsg::parse_msg(ADD_ORDER).is_ok());
    assert_eq!(bad, AddOrderMsg::parse_msg("garbage"));
}

#[test]
fn factory_wraps_what_the_shape_decodes() {
    assert_eq!(
        BATSMsgFactory::parse(ADD_ORDER),
        Ok(BATSMessage::AddOrderMsg(AddOrderMsg::parse_msg(ADD_ORDER).unwrap()))
    );
    assert_eq!(
        BATSMsgFactory::parse(ADD_ORDER_LONG),
        Ok(BATSMessage::AddOrderMsg(AddOrderMsg::parse_msg(ADD_ORDER_LONG).unwrap()))
    );
    assert_eq!(
        BATSMsgFactory::parse(AUCTION_SUMMARY),
        Ok(BATSMessage::AuctionSummaryMsg(AuctionSummaryMsg::parse_msg(AUCTION_SUMMARY).unwrap()))
    );
    assert_eq!(
        BATSMsgFactory::parse(AUCTION_UPDATE),
        Ok(BATSMessage::AuctionUpdateMsg(AuctionUpdateMsg::parse_msg(AUCTION_UPDATE).unwrap()))
    );
}

#[test]
fn factory_hands_on_the_error_of_the_shape() {
    assert_eq!(
        BATSMsgFactory::parse("28800168A1K27GA00000YS00010ZAAPL  0001831900Y"),
        Err(error(ErrorKind::FormatError, Field::Shares, 22, "00010Z"))
    );
    assert_eq!(
        BATSMsgFactory::parse("28800168J"),
        Err(error(ErrorKind::LengthError, Field::Symbol, 9, ""))
    );
    assert_eq!(
        BATSMsgFactory::parse("2880016XI"),
        Err(error(ErrorKind::FormatError, Field::Timestamp, 0, "2880016X"))
    );
}

#[test]
fn factory_rejects_unknown_message_type() {
    assert_eq!(
        BATSMsgFactory::parse("28800168X1K27GA00000YS000100AAPL  0001831900Y"),
        Err(error(ErrorKind::UnrecognizedDiscriminant, Field::MsgType, 8, "X"))
    );
    for code in 0u8..128 {
        let c = code as char;
        if c == 'A' || c == 'd' || c == 'J' || c == 'I' {
            continue;
        }
        let line = format!("28800168{}{}", c, "0".repeat(59));
        let res = BATSMsgFactory::parse(&line);
        assert_eq!(
            res,
            Err(error(ErrorKind::UnrecognizedDiscriminant, Field::MsgType, 8, &c.to_string()))
        );
    }
    assert_eq!(
        BATSMsgFactory::parse("garbage!?"),
        Err(error(ErrorKind::UnrecognizedDiscriminant, Field::MsgType, 8, "?"))
    );
}

#[test]
fn factory_needs_the_message_type() {
    for n in 0..9 {
        assert_eq!(
            BATSMsgFactory::parse(&prefix(ADD_ORDER, n)),
            Err(error(ErrorKind::LengthError, Field::MsgType, 8, "")),
            "length {}",
            n
        );
    }
}

#[test]
fn narrowing_to_another_shape_is_none() {
    let add = || BATSMsgFactory::parse(ADD_ORDER).unwrap();
    let summary = || BATSMsgFactory::parse(AUCTION_SUMMARY).unwrap();
    let update = || BATSMsgFactory::parse(AUCTION_UPDATE).unwrap();

    let a: Option<AddOrderMsg> = add().into();
    let s: Option<AuctionSummaryMsg> = add().into();
    let u: Option<AuctionUpdateMsg> = add().into();
    assert_eq!(a, Some(AddOrderMsg::parse_msg(ADD_ORDER).unwrap()));
    assert_eq!(s, None);
    assert_eq!(u, None);

    let a: Option<AddOrderMsg> = summary().into();
    let s: Option<AuctionSummaryMsg> = summary().into();
    let u: Option<AuctionUpdateMsg> = summary().into();
    assert_eq!(a, None);
    assert_eq!(s, Some(AuctionSummaryMsg::parse_msg(AUCTION_SUMMARY).unwrap()));
    assert_eq!(u, None);

    let a: Option<AddOrderMsg> = update().into();
    let s: Option<AuctionSummaryMsg> = update().into();
    let u: Option<AuctionUpdateMsg> = update().into();
    assert_eq!(a, None);
    assert_eq!(s, None);
    assert_eq!(u, Some(AuctionUpdateMsg::parse_msg(AUCTION_UPDATE).unwrap()));
}

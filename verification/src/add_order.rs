//! The add-order message.
//!
//! | field          | offset | width | content                         |
//! |----------------|--------|-------|---------------------------------|
//! | timestamp      | 0      | 8     | decimal                         |
//! | message type   | 8      | 1     | `A` or `d`                      |
//! | order id       | 9      | 12    | base 36                         |
//! | side           | 21     | 1     | any character                   |
//! | shares         | 22     | 6     | decimal                         |
//! | symbol         | 28     | 6     | text                            |
//! | price          | 34     | 10    | decimal                         |
//! | display        | 44     | 1     | any character                   |
//! | participant id | 45     | 0 / 4 | text, absent on the short form  |

use vstd::prelude::*;
use crate::error::{DecodeError, DecodeErrorView, ErrorKind, Field};
use crate::reader::{
    char_field, code_field, field_chars, lemma_field_errors_report_from, numeral_field,
    optional_field, reports_from, text_field, CodeSet, FieldReader,
};
use crate::scalar::{
    is_numeral, lemma_limits, lemma_numeral_below_limit, numeral_value, BASE36, DECIMAL,
    PART_ID_WIDTH,
};

verus! {

/// Characters in an add-order line without a participant id.
pub const ADD_ORDER_WIDTH: usize = 45;

/// A decoded add-order message.
#[derive(Debug, PartialEq, Eq)]
pub struct AddOrderMsg {
    pub timestamp: u32,
    pub msg_type: char,
    pub order_id: u64,
    pub side: char,
    pub shares: u32,
    pub symbol: String,
    pub price: u64,
    pub display: char,
    /// Empty where the line carries no participant id.
    pub part_id: String,
}

/// The mathematical value of an [`AddOrderMsg`].
pub struct AddOrderView {
    pub timestamp: u32,
    pub msg_type: char,
    pub order_id: u64,
    pub side: char,
    pub shares: u32,
    pub symbol: Seq<char>,
    pub price: u64,
    pub display: char,
    pub part_id: Seq<char>,
}

impl View for AddOrderMsg {
    type V = AddOrderView;

    open spec fn view(&self) -> AddOrderView {
        AddOrderView {
            timestamp: self.timestamp,
            msg_type: self.msg_type,
            order_id: self.order_id,
            side: self.side,
            shares: self.shares,
            symbol: self.symbol@,
            price: self.price,
            display: self.display,
            part_id: self.part_id@,
        }
    }
}

impl AddOrderView {
    /// What holds of every add order that was decoded from a line: its type is
    /// one of the two add-order codes, its numbers have no more digits than
    /// their fields are wide, and its texts have the width of their fields.
    pub open spec fn wf(self) -> bool {
        &&& CodeSet::AddOrderType.admits(self.msg_type)
        &&& self.timestamp < 100_000_000
        &&& self.order_id < 4_738_381_338_321_616_896
        &&& self.shares < 1_000_000
        &&& self.symbol.len() == 6
        &&& self.price < 10_000_000_000
        &&& (self.part_id.len() == 0 || self.part_id.len() == PART_ID_WIDTH)
    }
}

/// What decoding `line` as an add order gives: the fields are read at their
/// offsets, each on its own; the first field in layout order that fails
/// decides the error, and where none fails the message holds their values.
pub open spec fn decode_add_order(line: Seq<char>) -> Result<AddOrderView, DecodeErrorView> {
    let timestamp = numeral_field(line, Field::Timestamp, 0, 8, DECIMAL as nat, u32::MAX as nat);
    let msg_type = code_field(line, Field::MsgType, 8, CodeSet::AddOrderType);
    let order_id = numeral_field(line, Field::OrderId, 9, 12, BASE36 as nat, u64::MAX as nat);
    let side = char_field(line, Field::Side, 21);
    let shares = numeral_field(line, Field::Shares, 22, 6, DECIMAL as nat, u32::MAX as nat);
    let symbol = text_field(line, Field::Symbol, 28, 6);
    let price = numeral_field(line, Field::Price, 34, 10, DECIMAL as nat, u64::MAX as nat);
    let display = char_field(line, Field::Display, 44);
    let part_id = optional_field(line, Field::ParticipantId, 45, PART_ID_WIDTH as nat);
    if let Err(e) = timestamp {
        Err(e)
    } else if let Err(e) = msg_type {
        Err(e)
    } else if let Err(e) = order_id {
        Err(e)
    } else if let Err(e) = side {
        Err(e)
    } else if let Err(e) = shares {
        Err(e)
    } else if let Err(e) = symbol {
        Err(e)
    } else if let Err(e) = price {
        Err(e)
    } else if let Err(e) = display {
        Err(e)
    } else if let Err(e) = part_id {
        Err(e)
    } else {
        Ok(
            AddOrderView {
                timestamp: timestamp->Ok_0 as u32,
                msg_type: msg_type->Ok_0,
                order_id: order_id->Ok_0 as u64,
                side: side->Ok_0,
                shares: shares->Ok_0 as u32,
                symbol: symbol->Ok_0,
                price: price->Ok_0 as u64,
                display: display->Ok_0,
                part_id: part_id->Ok_0,
            },
        )
    }
}

impl AddOrderMsg {
    /// Decodes an add-order line.
    pub fn parse_msg(msg: &str) -> (res: Result<AddOrderMsg, DecodeError>)
        ensures
            match res {
                Ok(m) => decode_add_order(msg@) == Ok::<AddOrderView, DecodeErrorView>(m@),
                Err(e) => decode_add_order(msg@) == Err::<AddOrderView, DecodeErrorView>(e@),
            },
            res matches Ok(m) ==> m@.wf(),
    {
        proof {
            law_add_order_decoded_wf(msg@);
        }
        let mut reader = FieldReader::new(msg);
        let timestamp: u64 = reader.numeral(Field::Timestamp, 8, DECIMAL, u32::MAX as u64)?;
        let msg_type: char = reader.code(Field::MsgType, CodeSet::AddOrderType)?;
        let order_id: u64 = reader.numeral(Field::OrderId, 12, BASE36, u64::MAX)?;
        let side: char = reader.any_char(Field::Side)?;
        let shares: u64 = reader.numeral(Field::Shares, 6, DECIMAL, u32::MAX as u64)?;
        let symbol: String = reader.text(Field::Symbol, 6)?;
        let price: u64 = reader.numeral(Field::Price, 10, DECIMAL, u64::MAX)?;
        let display: char = reader.any_char(Field::Display)?;
        let part_id: String = reader.optional_part_id(Field::ParticipantId)?;
        Ok(
            AddOrderMsg {
                timestamp: timestamp as u32,
                msg_type,
                order_id,
                side,
                shares: shares as u32,
                symbol,
                price,
                display,
                part_id,
            },
        )
    }
}

/// Every field that `line` is long enough to hold in full has characters of
/// its class: the decimal fields digits, the order id base-36 digits, the
/// message type one of its codes.
pub open spec fn add_order_fields_valid(line: Seq<char>) -> bool {
    &&& line.len() >= 8 ==> is_numeral(field_chars(line, 0, 8), DECIMAL as nat)
    &&& line.len() >= 9 ==> CodeSet::AddOrderType.admits(line[8])
    &&& line.len() >= 21 ==> is_numeral(field_chars(line, 9, 12), BASE36 as nat)
    &&& line.len() >= 28 ==> is_numeral(field_chars(line, 22, 6), DECIMAL as nat)
    &&& line.len() >= 44 ==> is_numeral(field_chars(line, 34, 10), DECIMAL as nat)
}

/// `line` is a well-formed add order: it has the length of the short or of
/// the long form, and each of its fields has characters of its class.
pub open spec fn add_order_well_formed(line: Seq<char>) -> bool {
    &&& line.len() == ADD_ORDER_WIDTH || line.len() == ADD_ORDER_WIDTH + PART_ID_WIDTH
    &&& add_order_fields_valid(line)
}

/// The numerals of an add-order line fit the numbers that hold them.
proof fn lemma_add_order_numerals_fit(line: Seq<char>)
    ensures
        line.len() >= 8 && is_numeral(field_chars(line, 0, 8), DECIMAL as nat) ==> numeral_value(
            field_chars(line, 0, 8),
            DECIMAL as nat,
        ) < 100_000_000,
        line.len() >= 21 && is_numeral(field_chars(line, 9, 12), BASE36 as nat) ==> numeral_value(
            field_chars(line, 9, 12),
            BASE36 as nat,
        ) < 4_738_381_338_321_616_896,
        line.len() >= 28 && is_numeral(field_chars(line, 22, 6), DECIMAL as nat) ==> numeral_value(
            field_chars(line, 22, 6),
            DECIMAL as nat,
        ) < 1_000_000,
        line.len() >= 44 && is_numeral(field_chars(line, 34, 10), DECIMAL as nat)
            ==> numeral_value(field_chars(line, 34, 10), DECIMAL as nat) < 10_000_000_000,
{
    lemma_limits();
    if line.len() >= 8 && is_numeral(field_chars(line, 0, 8), DECIMAL as nat) {
        lemma_numeral_below_limit(field_chars(line, 0, 8), DECIMAL as nat);
    }
    if line.len() >= 21 && is_numeral(field_chars(line, 9, 12), BASE36 as nat) {
        lemma_numeral_below_limit(field_chars(line, 9, 12), BASE36 as nat);
    }
    if line.len() >= 28 && is_numeral(field_chars(line, 22, 6), DECIMAL as nat) {
        lemma_numeral_below_limit(field_chars(line, 22, 6), DECIMAL as nat);
    }
    if line.len() >= 44 && is_numeral(field_chars(line, 34, 10), DECIMAL as nat) {
        lemma_numeral_below_limit(field_chars(line, 34, 10), DECIMAL as nat);
    }
}

/// Every decoded add order is well formed.
pub proof fn law_add_order_decoded_wf(line: Seq<char>)
    ensures
        decode_add_order(line) matches Ok(m) ==> m.wf(),
{
    lemma_add_order_numerals_fit(line);
}

/// A well-formed add-order line decodes, and each field of the message is the
/// value of the characters at that field's place in the line.
pub proof fn law_add_order_decodes_well_formed(line: Seq<char>)
    requires
        add_order_well_formed(line),
    ensures
        decode_add_order(line) == Ok::<AddOrderView, DecodeErrorView>(
            AddOrderView {
                timestamp: numeral_value(line.subrange(0, 8), 10) as u32,
                msg_type: line[8],
                order_id: numeral_value(line.subrange(9, 21), 36) as u64,
                side: line[21],
                shares: numeral_value(line.subrange(22, 28), 10) as u32,
                symbol: line.subrange(28, 34),
                price: numeral_value(line.subrange(34, 44), 10) as u64,
                display: line[44],
                part_id: line.subrange(45, line.len() as int),
            },
        ),
{
    lemma_add_order_numerals_fit(line);
}

/// Only well-formed add-order lines decode.
pub proof fn law_add_order_decodes_only_well_formed(line: Seq<char>)
    ensures
        decode_add_order(line) is Ok <==> add_order_well_formed(line),
{
    lemma_add_order_numerals_fit(line);
}

/// A line shorter than an add order never decodes. It fails with
/// `LengthError` exactly when every field that it holds in full is valid;
/// otherwise the first invalid field decides.
pub proof fn law_add_order_short_line(line: Seq<char>)
    requires
        line.len() < ADD_ORDER_WIDTH,
    ensures
        decode_add_order(line) is Err,
        decode_add_order(line)->Err_0.kind == ErrorKind::LengthError <==> add_order_fields_valid(
            line,
        ),
{
    lemma_add_order_numerals_fit(line);
}

/// A well-formed add-order line that was cut short fails with `LengthError`.
pub proof fn law_add_order_truncated(full: Seq<char>, n: int)
    requires
        add_order_well_formed(full),
        0 <= n < ADD_ORDER_WIDTH,
    ensures
        decode_add_order(full.take(n)) matches Err(e) && e.kind == ErrorKind::LengthError,
{
    let line = full.take(n);
    if n >= 8 {
        assert(field_chars(line, 0, 8) =~= field_chars(full, 0, 8));
    }
    if n >= 21 {
        assert(field_chars(line, 9, 12) =~= field_chars(full, 9, 12));
    }
    if n >= 28 {
        assert(field_chars(line, 22, 6) =~= field_chars(full, 22, 6));
    }
    if n >= 44 {
        assert(field_chars(line, 34, 10) =~= field_chars(full, 34, 10));
    }
    law_add_order_short_line(line);
}

/// The error of a line that does not decode reports the characters that the
/// line holds at the offset of the field that failed.
pub proof fn law_add_order_error_reports_from_line(line: Seq<char>)
    ensures
        decode_add_order(line) matches Err(e) ==> reports_from(e, line),
{
    lemma_field_errors_report_from(line, Field::Timestamp, 0, 8);
    lemma_field_errors_report_from(line, Field::MsgType, 8, 1);
    lemma_field_errors_report_from(line, Field::OrderId, 9, 12);
    lemma_field_errors_report_from(line, Field::Side, 21, 1);
    lemma_field_errors_report_from(line, Field::Shares, 22, 6);
    lemma_field_errors_report_from(line, Field::Symbol, 28, 6);
    lemma_field_errors_report_from(line, Field::Price, 34, 10);
    lemma_field_errors_report_from(line, Field::Display, 44, 1);
    lemma_field_errors_report_from(line, Field::ParticipantId, 45, 0);
}

} // verus!

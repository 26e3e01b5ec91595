//! The auction-summary message.
//!
//! | field        | offset | width | content       |
//! |--------------|--------|-------|---------------|
//! | timestamp    | 0      | 8     | decimal       |
//! | message type | 8      | 1     | `J`           |
//! | symbol       | 9      | 8     | text          |
//! | auction type | 17     | 1     | any character |
//! | price        | 18     | 10    | decimal       |
//! | shares       | 28     | 10    | decimal       |
//!
//! Characters after the last field are not looked at.

use vstd::prelude::*;
use crate::error::{DecodeError, DecodeErrorView, ErrorKind, Field};
use crate::reader::{
    char_field, code_field, field_chars, lemma_field_errors_report_from, numeral_field,
    reports_from, text_field, CodeSet, FieldReader,
};
use crate::scalar::{is_numeral, lemma_limits, lemma_numeral_below_limit, numeral_value, DECIMAL};

verus! {

/// Characters in the fields of an auction-summary line.
pub const AUCTION_SUMMARY_WIDTH: usize = 38;

/// A decoded auction-summary message.
#[derive(Debug, PartialEq, Eq)]
pub struct AuctionSummaryMsg {
    pub timestamp: u32,
    pub msg_type: char,
    pub symbol: String,
    pub auction_type: char,
    pub price: u64,
    pub shares: u32,
}

/// The mathematical value of an [`AuctionSummaryMsg`].
pub struct AuctionSummaryView {
    pub timestamp: u32,
    pub msg_type: char,
    pub symbol: Seq<char>,
    pub auction_type: char,
    pub price: u64,
    pub shares: u32,
}

impl View for AuctionSummaryMsg {
    type V = AuctionSummaryView;

    open spec fn view(&self) -> AuctionSummaryView {
        AuctionSummaryView {
            timestamp: self.timestamp,
            msg_type: self.msg_type,
            symbol: self.symbol@,
            auction_type: self.auction_type,
            price: self.price,
            shares: self.shares,
        }
    }
}

impl AuctionSummaryView {
    /// What holds of every auction summary that was decoded from a line: its
    /// type is the auction-summary code, its numbers have no more digits than
    /// their fields are wide, and its symbol has the width of its field.
    pub open spec fn wf(self) -> bool {
        &&& CodeSet::AuctionSummaryType.admits(self.msg_type)
        &&& self.timestamp < 100_000_000
        &&& self.symbol.len() == 8
        &&& self.price < 10_000_000_000
    }
}

/// What decoding `line` as an auction summary gives: the fields are read at
/// their offsets, each on its own; the first field in layout order that fails
/// decides the error, and where none fails the message holds their values.
pub open spec fn decode_auction_summary(line: Seq<char>) -> Result<
    AuctionSummaryView,
    DecodeErrorView,
> {
    let timestamp = numeral_field(line, Field::Timestamp, 0, 8, DECIMAL as nat, u32::MAX as nat);
    let msg_type = code_field(line, Field::MsgType, 8, CodeSet::AuctionSummaryType);
    let symbol = text_field(line, Field::Symbol, 9, 8);
    let auction_type = char_field(line, Field::AuctionType, 17);
    let price = numeral_field(line, Field::Price, 18, 10, DECIMAL as nat, u64::MAX as nat);
    let shares = numeral_field(line, Field::Shares, 28, 10, DECIMAL as nat, u32::MAX as nat);
    if let Err(e) = timestamp {
        Err(e)
    } else if let Err(e) = msg_type {
        Err(e)
    } else if let Err(e) = symbol {
        Err(e)
    } else if let Err(e) = auction_type {
        Err(e)
    } else if let Err(e) = price {
        Err(e)
    } else if let Err(e) = shares {
        Err(e)
    } else {
        Ok(
            AuctionSummaryView {
                timestamp: timestamp->Ok_0 as u32,
                msg_type: msg_type->Ok_0,
                symbol: symbol->Ok_0,
                auction_type: auction_type->Ok_0,
                price: price->Ok_0 as u64,
                shares: shares->Ok_0 as u32,
            },
        )
    }
}

impl AuctionSummaryMsg {
    /// Decodes an auction-summary line.
    pub fn parse_msg(msg: &str) -> (res: Result<AuctionSummaryMsg, DecodeError>)
        ensures
            match res {
                Ok(m) => decode_auction_summary(msg@) == Ok::<AuctionSummaryView, DecodeErrorView>(
                    m@,
                ),
                Err(e) => decode_auction_summary(msg@) == Err::<
                    AuctionSummaryView,
                    DecodeErrorView,
                >(e@),
            },
            res matches Ok(m) ==> m@.wf(),
    {
        proof {
            law_auction_summary_decoded_wf(msg@);
        }
        let mut reader = FieldReader::new(msg);
        let timestamp: u64 = reader.numeral(Field::Timestamp, 8, DECIMAL, u32::MAX as u64)?;
        let msg_type: char = reader.code(Field::MsgType, CodeSet::AuctionSummaryType)?;
        let symbol: String = reader.text(Field::Symbol, 8)?;
        let auction_type: char = reader.any_char(Field::AuctionType)?;
        let price: u64 = reader.numeral(Field::Price, 10, DECIMAL, u64::MAX)?;
        let shares: u64 = reader.numeral(Field::Shares, 10, DECIMAL, u32::MAX as u64)?;
        Ok(
            AuctionSummaryMsg {
                timestamp: timestamp as u32,
                msg_type,
                symbol,
                auction_type,
                price,
                shares: shares as u32,
            },
        )
    }
}

/// Every field that `line` is long enough to hold in full has characters of
/// its class: the decimal fields digits, with a share count that fits 32 bits,
/// and the message type its code.
pub open spec fn auction_summary_fields_valid(line: Seq<char>) -> bool {
    &&& line.len() >= 8 ==> is_numeral(field_chars(line, 0, 8), DECIMAL as nat)
    &&& line.len() >= 9 ==> CodeSet::AuctionSummaryType.admits(line[8])
    &&& line.len() >= 28 ==> is_numeral(field_chars(line, 18, 10), DECIMAL as nat)
    &&& line.len() >= 38 ==> {
        &&& is_numeral(field_chars(line, 28, 10), DECIMAL as nat)
        &&& numeral_value(field_chars(line, 28, 10), DECIMAL as nat) <= u32::MAX
    }
}

/// `line` is a well-formed auction summary: it is long enough for all the
/// fields, and each of them has characters of its class.
pub open spec fn auction_summary_well_formed(line: Seq<char>) -> bool {
    &&& line.len() >= AUCTION_SUMMARY_WIDTH
    &&& auction_summary_fields_valid(line)
}

/// The numerals of an auction-summary line that cannot exceed the numbers
/// that hold them.
proof fn lemma_auction_summary_numerals_fit(line: Seq<char>)
    ensures
        line.len() >= 8 && is_numeral(field_chars(line, 0, 8), DECIMAL as nat) ==> numeral_value(
            field_chars(line, 0, 8),
            DECIMAL as nat,
        ) < 100_000_000,
        line.len() >= 28 && is_numeral(field_chars(line, 18, 10), DECIMAL as nat)
            ==> numeral_value(field_chars(line, 18, 10), DECIMAL as nat) < 10_000_000_000,
{
    lemma_limits();
    if line.len() >= 8 && is_numeral(field_chars(line, 0, 8), DECIMAL as nat) {
        lemma_numeral_below_limit(field_chars(line, 0, 8), DECIMAL as nat);
    }
    if line.len() >= 28 && is_numeral(field_chars(line, 18, 10), DECIMAL as nat) {
        lemma_numeral_below_limit(field_chars(line, 18, 10), DECIMAL as nat);
    }
}

/// Every decoded auction summary is well formed.
pub proof fn law_auction_summary_decoded_wf(line: Seq<char>)
    ensures
        decode_auction_summary(line) matches Ok(m) ==> m.wf(),
{
    lemma_auction_summary_numerals_fit(line);
}

/// A well-formed auction-summary line decodes, and each field of the message
/// is the value of the characters at that field's place in the line.
pub proof fn law_auction_summary_decodes_well_formed(line: Seq<char>)
    requires
        auction_summary_well_formed(line),
    ensures
        decode_auction_summary(line) == Ok::<AuctionSummaryView, DecodeErrorView>(
            AuctionSummaryView {
                timestamp: numeral_value(line.subrange(0, 8), 10) as u32,
                msg_type: line[8],
                symbol: line.subrange(9, 17),
                auction_type: line[17],
                price: numeral_value(line.subrange(18, 28), 10) as u64,
                shares: numeral_value(line.subrange(28, 38), 10) as u32,
            },
        ),
{
    lemma_auction_summary_numerals_fit(line);
}

/// Only well-formed auction-summary lines decode.
pub proof fn law_auction_summary_decodes_only_well_formed(line: Seq<char>)
    ensures
        decode_auction_summary(line) is Ok <==> auction_summary_well_formed(line),
{
    lemma_auction_summary_numerals_fit(line);
}

/// A line shorter than an auction summary never decodes. It fails with
/// `LengthError` exactly when every field that it holds in full is valid;
/// otherwise the first invalid field decides.
pub proof fn law_auction_summary_short_line(line: Seq<char>)
    requires
        line.len() < AUCTION_SUMMARY_WIDTH,
    ensures
        decode_auction_summary(line) is Err,
        decode_auction_summary(line)->Err_0.kind == ErrorKind::LengthError
            <==> auction_summary_fields_valid(line),
{
    lemma_auction_summary_numerals_fit(line);
}

/// A well-formed auction-summary line that was cut short fails with
/// `LengthError`.
pub proof fn law_auction_summary_truncated(full: Seq<char>, n: int)
    requires
        auction_summary_well_formed(full),
        0 <= n < AUCTION_SUMMARY_WIDTH,
    ensures
        decode_auction_summary(full.take(n)) matches Err(e) && e.kind == ErrorKind::LengthError,
{
    let line = full.take(n);
    if n >= 8 {
        assert(field_chars(line, 0, 8) =~= field_chars(full, 0, 8));
    }
    if n >= 28 {
        assert(field_chars(line, 18, 10) =~= field_chars(full, 18, 10));
    }
    law_auction_summary_short_line(line);
}

/// The error of a line that does not decode reports the characters that the
/// line holds at the offset of the field that failed.
pub proof fn law_auction_summary_error_reports_from_line(line: Seq<char>)
    ensures
        decode_auction_summary(line) matches Err(e) ==> reports_from(e, line),
{
    lemma_field_errors_report_from(line, Field::Timestamp, 0, 8);
    lemma_field_errors_report_from(line, Field::MsgType, 8, 1);
    lemma_field_errors_report_from(line, Field::Symbol, 9, 8);
    lemma_field_errors_report_from(line, Field::AuctionType, 17, 1);
    lemma_field_errors_report_from(line, Field::Price, 18, 10);
    lemma_field_errors_report_from(line, Field::Shares, 28, 10);
}

} // verus!

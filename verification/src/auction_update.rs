//! The auction-update message.
//!
//! | field              | offset | width | content                 |
//! |--------------------|--------|-------|-------------------------|
//! | timestamp          | 0      | 8     | decimal                 |
//! | message type       | 8      | 1     | `I`                     |
//! | symbol             | 9      | 8     | text                    |
//! | auction phase      | 17     | 1     | `O`, `C`, `H` or `I`    |
//! | reference price    | 18     | 10    | decimal                 |
//! | buy shares         | 28     | 10    | decimal                 |
//! | sell shares        | 38     | 10    | decimal                 |
//! | indicative price   | 48     | 10    | decimal                 |
//! | auction-only price | 58     | 10    | decimal                 |
//!
//! Characters after the last field are not looked at.

use vstd::prelude::*;
use crate::error::{DecodeError, DecodeErrorView, ErrorKind, Field};
use crate::reader::{
    code_field, field_chars, lemma_field_errors_report_from, numeral_field, reports_from,
    text_field, CodeSet, FieldReader,
};
use crate::scalar::{is_numeral, lemma_limits, lemma_numeral_below_limit, numeral_value, DECIMAL};

verus! {

/// Characters in the fields of an auction-update line.
pub const AUCTION_UPDATE_WIDTH: usize = 68;

/// A decoded auction-update message.
#[derive(Debug, PartialEq, Eq)]
pub struct AuctionUpdateMsg {
    pub timestamp: u32,
    pub msg_type: char,
    pub symbol: String,
    /// The phase of the auction.
    pub auction_type: char,
    pub reference_price: u64,
    pub buyshares: u32,
    pub sellshares: u32,
    pub indicative_price: u64,
    pub auction_only_price: u64,
}

/// The mathematical value of an [`AuctionUpdateMsg`].
pub struct AuctionUpdateView {
    pub timestamp: u32,
    pub msg_type: char,
    pub symbol: Seq<char>,
    pub auction_type: char,
    pub reference_price: u64,
    pub buyshares: u32,
    pub sellshares: u32,
    pub indicative_price: u64,
    pub auction_only_price: u64,
}

impl View for AuctionUpdateMsg {
    type V = AuctionUpdateView;

    open spec fn view(&self) -> AuctionUpdateView {
        AuctionUpdateView {
            timestamp: self.timestamp,
            msg_type: self.msg_type,
            symbol: self.symbol@,
            auction_type: self.auction_type,
            reference_price: self.reference_price,
            buyshares: self.buyshares,
            sellshares: self.sellshares,
            indicative_price: self.indicative_price,
            auction_only_price: self.auction_only_price,
        }
    }
}

impl AuctionUpdateView {
    /// What holds of every auction update that was decoded from a line: its
    /// type is the auction-update code, its phase one of the four phases, its
    /// numbers have no more digits than their fields are wide, and its symbol
    /// has the width of its field.
    pub open spec fn wf(self) -> bool {
        &&& CodeSet::AuctionUpdateType.admits(self.msg_type)
        &&& CodeSet::AuctionPhase.admits(self.auction_type)
        &&& self.timestamp < 100_000_000
        &&& self.symbol.len() == 8
        &&& self.reference_price < 10_000_000_000
        &&& self.indicative_price < 10_000_000_000
        &&& self.auction_only_price < 10_000_000_000
    }
}

/// What decoding `line` as an auction update gives: the fields are read at
/// their offsets, each on its own; the first field in layout order that fails
/// decides the error, and where none fails the message holds their values.
pub open spec fn decode_auction_update(line: Seq<char>) -> Result<
    AuctionUpdateView,
    DecodeErrorView,
> {
    let timestamp = numeral_field(line, Field::Timestamp, 0, 8, DECIMAL as nat, u32::MAX as nat);
    let msg_type = code_field(line, Field::MsgType, 8, CodeSet::AuctionUpdateType);
    let symbol = text_field(line, Field::Symbol, 9, 8);
    let auction_type = code_field(line, Field::AuctionType, 17, CodeSet::AuctionPhase);
    let reference_price = numeral_field(
        line,
        Field::ReferencePrice,
        18,
        10,
        DECIMAL as nat,
        u64::MAX as nat,
    );
    let buyshares = numeral_field(
        line,
        Field::BuyShares,
        28,
        10,
        DECIMAL as nat,
        u32::MAX as nat,
    );
    let sellshares = numeral_field(
        line,
        Field::SellShares,
        38,
        10,
        DECIMAL as nat,
        u32::MAX as nat,
    );
    let indicative_price = numeral_field(
        line,
        Field::IndicativePrice,
        48,
        10,
        DECIMAL as nat,
        u64::MAX as nat,
    );
    let auction_only_price = numeral_field(
        line,
        Field::AuctionOnlyPrice,
        58,
        10,
        DECIMAL as nat,
        u64::MAX as nat,
    );
    if let Err(e) = timestamp {
        Err(e)
    } else if let Err(e) = msg_type {
        Err(e)
    } else if let Err(e) = symbol {
        Err(e)
    } else if let Err(e) = auction_type {
        Err(e)
    } else if let Err(e) = reference_price {
        Err(e)
    } else if let Err(e) = buyshares {
        Err(e)
    } else if let Err(e) = sellshares {
        Err(e)
    } else if let Err(e) = indicative_price {
        Err(e)
    } else if let Err(e) = auction_only_price {
        Err(e)
    } else {
        Ok(
            AuctionUpdateView {
                timestamp: timestamp->Ok_0 as u32,
                msg_type: msg_type->Ok_0,
                symbol: symbol->Ok_0,
                auction_type: auction_type->Ok_0,
                reference_price: reference_price->Ok_0 as u64,
                buyshares: buyshares->Ok_0 as u32,
                sellshares: sellshares->Ok_0 as u32,
                indicative_price: indicative_price->Ok_0 as u64,
                auction_only_price: auction_only_price->Ok_0 as u64,
            },
        )
    }
}

impl AuctionUpdateMsg {
    /// Decodes an auction-update line.
    pub fn parse_msg(msg: &str) -> (res: Result<AuctionUpdateMsg, DecodeError>)
        ensures
            match res {
                Ok(m) => decode_auction_update(msg@) == Ok::<AuctionUpdateView, DecodeErrorView>(
                    m@,
                ),
                Err(e) => decode_auction_update(msg@) == Err::<AuctionUpdateView, DecodeErrorView>(
                    e@,
                ),
            },
            res matches Ok(m) ==> m@.wf(),
    {
        proof {
            law_auction_update_decoded_wf(msg@);
        }
        let mut reader = FieldReader::new(msg);
        let timestamp: u64 = reader.numeral(Field::Timestamp, 8, DECIMAL, u32::MAX as u64)?;
        let msg_type: char = reader.code(Field::MsgType, CodeSet::AuctionUpdateType)?;
        let symbol: String = reader.text(Field::Symbol, 8)?;
        let auction_type: char = reader.code(Field::AuctionType, CodeSet::AuctionPhase)?;
        let reference_price: u64 = reader.numeral(Field::ReferencePrice, 10, DECIMAL, u64::MAX)?;
        let buyshares: u64 = reader.numeral(Field::BuyShares, 10, DECIMAL, u32::MAX as u64)?;
        let sellshares: u64 = reader.numeral(Field::SellShares, 10, DECIMAL, u32::MAX as u64)?;
        let indicative_price: u64 = reader.numeral(Field::IndicativePrice, 10, DECIMAL, u64::MAX)?;
        let auction_only_price: u64 = reader.numeral(
            Field::AuctionOnlyPrice,
            10,
            DECIMAL,
            u64::MAX,
        )?;
        Ok(
            AuctionUpdateMsg {
                timestamp: timestamp as u32,
                msg_type,
                symbol,
                auction_type,
                reference_price,
                buyshares: buyshares as u32,
                sellshares: sellshares as u32,
                indicative_price,
                auction_only_price,
            },
        )
    }
}

/// Every field that `line` is long enough to hold in full has characters of
/// its class: the decimal fields digits, with share counts that fit 32 bits,
/// and the message type and the phase their codes.
pub open spec fn auction_update_fields_valid(line: Seq<char>) -> bool {
    &&& line.len() >= 8 ==> is_numeral(field_chars(line, 0, 8), DECIMAL as nat)
    &&& line.len() >= 9 ==> CodeSet::AuctionUpdateType.admits(line[8])
    &&& line.len() >= 18 ==> CodeSet::AuctionPhase.admits(line[17])
    &&& line.len() >= 28 ==> is_numeral(field_chars(line, 18, 10), DECIMAL as nat)
    &&& line.len() >= 38 ==> {
        &&& is_numeral(field_chars(line, 28, 10), DECIMAL as nat)
        &&& numeral_value(field_chars(line, 28, 10), DECIMAL as nat) <= u32::MAX
    }
    &&& line.len() >= 48 ==> {
        &&& is_numeral(field_chars(line, 38, 10), DECIMAL as nat)
        &&& numeral_value(field_chars(line, 38, 10), DECIMAL as nat) <= u32::MAX
    }
    &&& line.len() >= 58 ==> is_numeral(field_chars(line, 48, 10), DECIMAL as nat)
    &&& line.len() >= 68 ==> is_numeral(field_chars(line, 58, 10), DECIMAL as nat)
}

/// `line` is a well-formed auction update: it is long enough for all the
/// fields, and each of them has characters of its class.
pub open spec fn auction_update_well_formed(line: Seq<char>) -> bool {
    &&& line.len() >= AUCTION_UPDATE_WIDTH
    &&& auction_update_fields_valid(line)
}

/// A numeral of eight decimal digits at the start of a line, or of ten at
/// `offset`, cannot exceed the number that holds it.
proof fn lemma_auction_update_numerals_fit(line: Seq<char>, offset: nat)
    ensures
        line.len() >= 8 && is_numeral(field_chars(line, 0, 8), DECIMAL as nat) ==> numeral_value(
            field_chars(line, 0, 8),
            DECIMAL as nat,
        ) < 100_000_000,
        line.len() >= offset + 10 && is_numeral(field_chars(line, offset, 10), DECIMAL as nat)
            ==> numeral_value(field_chars(line, offset, 10), DECIMAL as nat) < 10_000_000_000,
{
    lemma_limits();
    if line.len() >= 8 && is_numeral(field_chars(line, 0, 8), DECIMAL as nat) {
        lemma_numeral_below_limit(field_chars(line, 0, 8), DECIMAL as nat);
    }
    if line.len() >= offset + 10 && is_numeral(field_chars(line, offset, 10), DECIMAL as nat) {
        lemma_numeral_below_limit(field_chars(line, offset, 10), DECIMAL as nat);
    }
}

/// Every decoded auction update is well formed.
pub proof fn law_auction_update_decoded_wf(line: Seq<char>)
    ensures
        decode_auction_update(line) matches Ok(m) ==> m.wf(),
{
    lemma_auction_update_numerals_fit(line, 18);
    lemma_auction_update_numerals_fit(line, 48);
    lemma_auction_update_numerals_fit(line, 58);
}

/// A well-formed auction-update line decodes, and each field of the message
/// is the value of the characters at that field's place in the line.
pub proof fn law_auction_update_decodes_well_formed(line: Seq<char>)
    requires
        auction_update_well_formed(line),
    ensures
        decode_auction_update(line) == Ok::<AuctionUpdateView, DecodeErrorView>(
            AuctionUpdateView {
                timestamp: numeral_value(line.subrange(0, 8), 10) as u32,
                msg_type: line[8],
                symbol: line.subrange(9, 17),
                auction_type: line[17],
                reference_price: numeral_value(line.subrange(18, 28), 10) as u64,
                buyshares: numeral_value(line.subrange(28, 38), 10) as u32,
                sellshares: numeral_value(line.subrange(38, 48), 10) as u32,
                indicative_price: numeral_value(line.subrange(48, 58), 10) as u64,
                auction_only_price: numeral_value(line.subrange(58, 68), 10) as u64,
            },
        ),
{
    lemma_auction_update_numerals_fit(line, 18);
    lemma_auction_update_numerals_fit(line, 48);
    lemma_auction_update_numerals_fit(line, 58);
}

/// Only well-formed auction-update lines decode.
pub proof fn law_auction_update_decodes_only_well_formed(line: Seq<char>)
    ensures
        decode_auction_update(line) is Ok <==> auction_update_well_formed(line),
{
    lemma_auction_update_numerals_fit(line, 18);
    lemma_auction_update_numerals_fit(line, 48);
    lemma_auction_update_numerals_fit(line, 58);
}

/// A line shorter than an auction update never decodes. It fails with
/// `LengthError` exactly when every field that it holds in full is valid;
/// otherwise the first invalid field decides.
pub proof fn law_auction_update_short_line(line: Seq<char>)
    requires
        line.len() < AUCTION_UPDATE_WIDTH,
    ensures
        decode_auction_update(line) is Err,
        decode_auction_update(line)->Err_0.kind == ErrorKind::LengthError
            <==> auction_update_fields_valid(line),
{
    lemma_auction_update_numerals_fit(line, 18);
    lemma_auction_update_numerals_fit(line, 48);
    lemma_auction_update_numerals_fit(line, 58);
}

/// A well-formed auction-update line that was cut short fails with
/// `LengthError`.
pub proof fn law_auction_update_truncated(full: Seq<char>, n: int)
    requires
        auction_update_well_formed(full),
        0 <= n < AUCTION_UPDATE_WIDTH,
    ensures
        decode_auction_update(full.take(n)) matches Err(e) && e.kind == ErrorKind::LengthError,
{
    let line = full.take(n);
    if n >= 8 {
        assert(field_chars(line, 0, 8) =~= field_chars(full, 0, 8));
    }
    if n >= 28 {
        assert(field_chars(line, 18, 10) =~= field_chars(full, 18, 10));
    }
    if n >= 38 {
        assert(field_chars(line, 28, 10) =~= field_chars(full, 28, 10));
    }
    if n >= 48 {
        assert(field_chars(line, 38, 10) =~= field_chars(full, 38, 10));
    }
    if n >= 58 {
        assert(field_chars(line, 48, 10) =~= field_chars(full, 48, 10));
    }
    law_auction_update_short_line(line);
}

/// The error of a line that does not decode reports the characters that the
/// line holds at the offset of the field that failed.
pub proof fn law_auction_update_error_reports_from_line(line: Seq<char>)
    ensures
        decode_auction_update(line) matches Err(e) ==> reports_from(e, line),
{
    lemma_field_errors_report_from(line, Field::Timestamp, 0, 8);
    lemma_field_errors_report_from(line, Field::MsgType, 8, 1);
    lemma_field_errors_report_from(line, Field::Symbol, 9, 8);
    lemma_field_errors_report_from(line, Field::AuctionType, 17, 1);
    lemma_field_errors_report_from(line, Field::ReferencePrice, 18, 10);
    lemma_field_errors_report_from(line, Field::BuyShares, 28, 10);
    lemma_field_errors_report_from(line, Field::SellShares, 38, 10);
    lemma_field_errors_report_from(line, Field::IndicativePrice, 48, 10);
    lemma_field_errors_report_from(line, Field::AuctionOnlyPrice, 58, 10);
}

} // verus!

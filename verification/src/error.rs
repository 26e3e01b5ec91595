//! What a failed decode reports: the kind of failure, the field it struck, the
//! character offset of that field, and the characters that were found there.

use vstd::prelude::*;

verus! {

/// Why a line, or one field of it, could not be decoded.
#[derive(Clone, Copy, Debug, PartialEq, Eq, Structural)]
pub enum ErrorKind {
    /// Fewer characters remain than the field is wide.
    LengthError,
    /// The characters of the field are not of the class the field asks for.
    FormatError,
    /// A one-character code is not in the alphabet of its field.
    InvalidEnum,
    /// The message-type character selects no known message shape.
    UnrecognizedDiscriminant,
}

/// The fields of the three message shapes.
#[derive(Clone, Copy, Debug, PartialEq, Eq, Structural)]
pub enum Field {
    /// Time of the message, in every shape.
    Timestamp,
    /// The one-character message type, in every shape.
    MsgType,
    /// Order id of an add order.
    OrderId,
    /// Side of an add order.
    Side,
    /// Share count of an add order or an auction summary.
    Shares,
    /// Symbol, in every shape.
    Symbol,
    /// Price of an add order or an auction summary.
    Price,
    /// Display flag of an add order.
    Display,
    /// Optional participant id of an add order.
    ParticipantId,
    /// Auction type of an auction summary, auction phase of an auction update.
    AuctionType,
    /// Reference price of an auction update.
    ReferencePrice,
    /// Buy-side share count of an auction update.
    BuyShares,
    /// Sell-side share count of an auction update.
    SellShares,
    /// Indicative price of an auction update.
    IndicativePrice,
    /// Auction-only price of an auction update.
    AuctionOnlyPrice,
}

/// A failed decode, with what is needed to find the fault in the line.
#[derive(Debug, PartialEq, Eq)]
pub struct DecodeError {
    pub kind: ErrorKind,
    pub field: Field,
    /// Character offset in the line at which the field starts.
    pub offset: usize,
    /// The characters found at the field's place.
    pub raw: String,
}

/// The mathematical value of a [`DecodeError`].
pub struct DecodeErrorView {
    pub kind: ErrorKind,
    pub field: Field,
    pub offset: nat,
    pub raw: Seq<char>,
}

impl View for DecodeError {
    type V = DecodeErrorView;

    open spec fn view(&self) -> DecodeErrorView {
        DecodeErrorView {
            kind: self.kind,
            field: self.field,
            offset: self.offset as nat,
            raw: self.raw@,
        }
    }
}

impl DecodeError {
    /// Builds the error for `field` at `offset`, keeping a copy of `raw`.
    pub fn new(kind: ErrorKind, field: Field, offset: usize, raw: &str) -> (e: DecodeError)
        ensures
            e@ == (DecodeErrorView { kind, field, offset: offset as nat, raw: raw@ }),
    {
        DecodeError { kind, field, offset, raw: raw.to_owned() }
    }
}

} // verus!

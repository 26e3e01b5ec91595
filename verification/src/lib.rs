//! Decoder for fixed-width ASCII PITCH market-data lines.
//!
//! A line holds one message. Its fields stand at fixed character offsets, and
//! the character at offset 8 is the message type, which tells the three
//! message shapes apart: add order, auction summary, auction update.
//!
//! [`BATSMsgFactory::parse`] decodes a line of any shape into a
//! [`BATSMessage`]; `parse_msg` of a message type decodes a line of that shape.
//! A `BATSMessage` is narrowed to one shape by converting it into an `Option`
//! of that shape's message. A line that does not decode yields a
//! [`DecodeError`], which names the field that failed, its offset and the
//! characters found there.
//!
//! Decoding is specified over the characters of the line: for each shape a
//! function from `Seq<char>` to the message or the error, which the decoder is
//! proved to compute.

pub mod add_order;
pub mod auction_summary;
pub mod auction_update;
pub mod error;
pub mod message;
pub mod reader;
pub mod scalar;

pub use crate::add_order::{AddOrderMsg, AddOrderView};
pub use crate::auction_summary::{AuctionSummaryMsg, AuctionSummaryView};
pub use crate::auction_update::{AuctionUpdateMsg, AuctionUpdateView};
pub use crate::error::{DecodeError, DecodeErrorView, ErrorKind, Field};
pub use crate::message::{BATSMessage, BATSMessageView, BATSMsgFactory};
pub use crate::reader::{CodeSet, FieldReader};
pub use crate::scalar::{from_hex, parse_char, parse_opt_part_id, parse_u32, parse_u64};

//! The message envelope and the factory that fills it.
//!
//! The character at offset 8 of a line is its message type in every shape.
//! The factory reads it, has the shape that it selects decode the line, and
//! wraps the message. An envelope is narrowed back to one shape by converting
//! it into an `Option` of that shape's message.

use vstd::prelude::*;
use vstd::string::*;
use vstd::std_specs::convert::FromSpecImpl;
use crate::add_order::{
    decode_add_order, law_add_order_decodes_only_well_formed,
    law_add_order_error_reports_from_line, law_add_order_truncated, AddOrderMsg, AddOrderView,
    ADD_ORDER_WIDTH,
};
use crate::auction_summary::{
    decode_auction_summary, law_auction_summary_decodes_only_well_formed,
    law_auction_summary_error_reports_from_line, law_auction_summary_truncated,
    AuctionSummaryMsg, AuctionSummaryView, AUCTION_SUMMARY_WIDTH,
};
use crate::auction_update::{
    decode_auction_update, law_auction_update_decodes_only_well_formed,
    law_auction_update_error_reports_from_line, law_auction_update_truncated, AuctionUpdateMsg,
    AuctionUpdateView, AUCTION_UPDATE_WIDTH,
};
use crate::error::{DecodeError, DecodeErrorView, ErrorKind, Field};
use crate::reader::{
    lemma_field_errors_report_from, malformed, reports_from, tail_from, too_short, CodeSet,
};

verus! {

/// Character offset of the message type, in every message shape.
pub const MSG_TYPE_OFFSET: usize = 8;

/// One decoded message of any of the three shapes.
#[derive(Debug, PartialEq, Eq)]
pub enum BATSMessage {
    AuctionSummaryMsg(AuctionSummaryMsg),
    AddOrderMsg(AddOrderMsg),
    AuctionUpdateMsg(AuctionUpdateMsg),
}

/// The mathematical value of a [`BATSMessage`].
pub enum BATSMessageView {
    AuctionSummaryMsg(AuctionSummaryView),
    AddOrderMsg(AddOrderView),
    AuctionUpdateMsg(AuctionUpdateView),
}

impl View for BATSMessage {
    type V = BATSMessageView;

    open spec fn view(&self) -> BATSMessageView {
        match self {
            BATSMessage::AuctionSummaryMsg(m) => BATSMessageView::AuctionSummaryMsg(m@),
            BATSMessage::AddOrderMsg(m) => BATSMessageView::AddOrderMsg(m@),
            BATSMessage::AuctionUpdateMsg(m) => BATSMessageView::AuctionUpdateMsg(m@),
        }
    }
}

impl BATSMessage {
    /// The add order that the envelope holds, if that is its shape. It is what
    /// converting the envelope into `Option<AddOrderMsg>` returns.
    pub open spec fn add_order(self) -> Option<AddOrderMsg> {
        match self {
            BATSMessage::AddOrderMsg(m) => Some(m),
            _ => None,
        }
    }

    /// The auction summary that the envelope holds, if that is its shape. It is what
    /// converting the envelope into `Option<AuctionSummaryMsg>` returns.
    pub open spec fn auction_summary(self) -> Option<AuctionSummaryMsg> {
        match self {
            BATSMessage::AuctionSummaryMsg(m) => Some(m),
            _ => None,
        }
    }

    /// The auction update that the envelope holds, if that is its shape. It is what
    /// converting the envelope into `Option<AuctionUpdateMsg>` returns.
    pub open spec fn auction_update(self) -> Option<AuctionUpdateMsg> {
        match self {
            BATSMessage::AuctionUpdateMsg(m) => Some(m),
            _ => None,
        }
    }
}

impl From<BATSMessage> for Option<AddOrderMsg> {
    /// The add order that the envelope holds, or `None` where it holds a
    /// message of another shape.
    fn from(msg: BATSMessage) -> (res: Option<AddOrderMsg>) {
        match msg {
            BATSMessage::AddOrderMsg(m) => Some(m),
            _ => None,
        }
    }
}

impl FromSpecImpl<BATSMessage> for Option<AddOrderMsg> {
    open spec fn obeys_from_spec() -> bool {
        true
    }

    open spec fn from_spec(msg: BATSMessage) -> Option<AddOrderMsg> {
        msg.add_order()
    }
}

impl From<BATSMessage> for Option<AuctionSummaryMsg> {
    /// The auction summary that the envelope holds, or `None` where it holds
    /// a message of another shape.
    fn from(msg: BATSMessage) -> (res: Option<AuctionSummaryMsg>) {
        match msg {
            BATSMessage::AuctionSummaryMsg(m) => Some(m),
            _ => None,
        }
    }
}

impl FromSpecImpl<BATSMessage> for Option<AuctionSummaryMsg> {
    open spec fn obeys_from_spec() -> bool {
        true
    }

    open spec fn from_spec(msg: BATSMessage) -> Option<AuctionSummaryMsg> {
        msg.auction_summary()
    }
}

impl From<BATSMessage> for Option<AuctionUpdateMsg> {
    /// The auction update that the envelope holds, or `None` where it holds a
    /// message of another shape.
    fn from(msg: BATSMessage) -> (res: Option<AuctionUpdateMsg>) {
        match msg {
            BATSMessage::AuctionUpdateMsg(m) => Some(m),
            _ => None,
        }
    }
}

impl FromSpecImpl<BATSMessage> for Option<AuctionUpdateMsg> {
    open spec fn obeys_from_spec() -> bool {
        true
    }

    open spec fn from_spec(msg: BATSMessage) -> Option<AuctionUpdateMsg> {
        msg.auction_update()
    }
}

/// `c` is the message type of one of the three shapes.
pub open spec fn is_known_msg_type(c: char) -> bool {
    c == 'A' || c == 'd' || c == 'J' || c == 'I'
}

/// What the factory makes of `line`: `LengthError` where the line ends before
/// its message type, `UnrecognizedDiscriminant` where the type is none of the
/// known ones, else what the shape that the type selects decodes the line to.
pub open spec fn dispatch(line: Seq<char>) -> Result<BATSMessageView, DecodeErrorView> {
    if line.len() <= MSG_TYPE_OFFSET {
        Err(too_short(line, Field::MsgType, MSG_TYPE_OFFSET as nat))
    } else if CodeSet::AddOrderType.admits(line[MSG_TYPE_OFFSET as int]) {
        match decode_add_order(line) {
            Ok(m) => Ok(BATSMessageView::AddOrderMsg(m)),
            Err(e) => Err(e),
        }
    } else if CodeSet::AuctionSummaryType.admits(line[MSG_TYPE_OFFSET as int]) {
        match decode_auction_summary(line) {
            Ok(m) => Ok(BATSMessageView::AuctionSummaryMsg(m)),
            Err(e) => Err(e),
        }
    } else if CodeSet::AuctionUpdateType.admits(line[MSG_TYPE_OFFSET as int]) {
        match decode_auction_update(line) {
            Ok(m) => Ok(BATSMessageView::AuctionUpdateMsg(m)),
            Err(e) => Err(e),
        }
    } else {
        Err(
            malformed(
                ErrorKind::UnrecognizedDiscriminant,
                line,
                Field::MsgType,
                MSG_TYPE_OFFSET as nat,
                1,
            ),
        )
    }
}

/// The factory: decodes a line of any known shape.
pub struct BATSMsgFactory {}

impl BATSMsgFactory {
    /// Decodes `msg` as the shape that its message type selects.
    pub fn parse(msg: &str) -> (res: Result<BATSMessage, DecodeError>)
        ensures
            match res {
                Ok(m) => dispatch(msg@) == Ok::<BATSMessageView, DecodeErrorView>(m@),
                Err(e) => dispatch(msg@) == Err::<BATSMessageView, DecodeErrorView>(e@),
            },
            msg@.len() > MSG_TYPE_OFFSET && !is_known_msg_type(msg@[MSG_TYPE_OFFSET as int])
                ==> (res matches Err(e) && e.kind == ErrorKind::UnrecognizedDiscriminant),
    {
        if msg.unicode_len() <= MSG_TYPE_OFFSET {
            proof {
                reveal_strlit("");
                assert(tail_from(msg@, MSG_TYPE_OFFSET as nat) =~= ""@);
            }
            return Err(
                DecodeError::new(ErrorKind::LengthError, Field::MsgType, MSG_TYPE_OFFSET, ""),
            );
        }
        let code: char = msg.get_char(MSG_TYPE_OFFSET);
        if CodeSet::AddOrderType.contains(code) {
            match AddOrderMsg::parse_msg(msg) {
                Ok(m) => Ok(BATSMessage::AddOrderMsg(m)),
                Err(e) => Err(e),
            }
        } else if CodeSet::AuctionSummaryType.contains(code) {
            match AuctionSummaryMsg::parse_msg(msg) {
                Ok(m) => Ok(BATSMessage::AuctionSummaryMsg(m)),
                Err(e) => Err(e),
            }
        } else if CodeSet::AuctionUpdateType.contains(code) {
            match AuctionUpdateMsg::parse_msg(msg) {
                Ok(m) => Ok(BATSMessage::AuctionUpdateMsg(m)),
                Err(e) => Err(e),
            }
        } else {
            let raw: &str = msg.substring_char(MSG_TYPE_OFFSET, MSG_TYPE_OFFSET + 1);
            Err(
                DecodeError::new(
                    ErrorKind::UnrecognizedDiscriminant,
                    Field::MsgType,
                    MSG_TYPE_OFFSET,
                    raw,
                ),
            )
        }
    }
}

/// A line whose message type is none of the known ones is not decoded: the
/// factory reports `UnrecognizedDiscriminant`, with the character it found.
pub proof fn law_unknown_msg_type_is_unrecognized(line: Seq<char>)
    requires
        line.len() > MSG_TYPE_OFFSET,
        !is_known_msg_type(line[MSG_TYPE_OFFSET as int]),
    ensures
        dispatch(line) == Err::<BATSMessageView, DecodeErrorView>(
            DecodeErrorView {
                kind: ErrorKind::UnrecognizedDiscriminant,
                field: Field::MsgType,
                offset: MSG_TYPE_OFFSET as nat,
                raw: seq![line[MSG_TYPE_OFFSET as int]],
            },
        ),
{
    assert(line.subrange(8, 9) =~= seq![line[8]]);
}

/// The factory reports `UnrecognizedDiscriminant` for no other line.
pub proof fn law_unrecognized_only_for_unknown_msg_type(line: Seq<char>)
    requires
        dispatch(line) matches Err(e) && e.kind == ErrorKind::UnrecognizedDiscriminant,
    ensures
        line.len() > MSG_TYPE_OFFSET,
        !is_known_msg_type(line[MSG_TYPE_OFFSET as int]),
{
}

/// The envelope that the factory returns holds the shape that the message
/// type of the line selects, and the message in it is what that shape decodes
/// the line to.
pub proof fn law_dispatch_follows_msg_type(line: Seq<char>)
    requires
        dispatch(line) is Ok,
    ensures
        line.len() > MSG_TYPE_OFFSET,
        match dispatch(line)->Ok_0 {
            BATSMessageView::AddOrderMsg(m) => {
                &&& line[MSG_TYPE_OFFSET as int] == 'A' || line[MSG_TYPE_OFFSET as int] == 'd'
                &&& decode_add_order(line) == Ok::<AddOrderView, DecodeErrorView>(m)
            },
            BATSMessageView::AuctionSummaryMsg(m) => {
                &&& line[MSG_TYPE_OFFSET as int] == 'J'
                &&& decode_auction_summary(line) == Ok::<AuctionSummaryView, DecodeErrorView>(m)
            },
            BATSMessageView::AuctionUpdateMsg(m) => {
                &&& line[MSG_TYPE_OFFSET as int] == 'I'
                &&& decode_auction_update(line) == Ok::<AuctionUpdateView, DecodeErrorView>(m)
            },
        },
{
}

/// Whatever a shape decodes on its own, the factory decodes to the same
/// message, in the envelope of that shape.
pub proof fn law_dispatch_agrees_with_shapes(line: Seq<char>)
    ensures
        decode_add_order(line) matches Ok(m) ==> dispatch(line) == Ok::<
            BATSMessageView,
            DecodeErrorView,
        >(BATSMessageView::AddOrderMsg(m)),
        decode_auction_summary(line) matches Ok(m) ==> dispatch(line) == Ok::<
            BATSMessageView,
            DecodeErrorView,
        >(BATSMessageView::AuctionSummaryMsg(m)),
        decode_auction_update(line) matches Ok(m) ==> dispatch(line) == Ok::<
            BATSMessageView,
            DecodeErrorView,
        >(BATSMessageView::AuctionUpdateMsg(m)),
{
}

/// Characters that a line of the shape of `m` holds at least.
pub open spec fn shape_width(m: BATSMessageView) -> nat {
    match m {
        BATSMessageView::AddOrderMsg(_) => ADD_ORDER_WIDTH as nat,
        BATSMessageView::AuctionSummaryMsg(_) => AUCTION_SUMMARY_WIDTH as nat,
        BATSMessageView::AuctionUpdateMsg(_) => AUCTION_UPDATE_WIDTH as nat,
    }
}

/// A line that the factory decodes fails with `LengthError` once it is cut to
/// fewer characters than its shape holds.
pub proof fn law_dispatch_truncated(full: Seq<char>, n: int)
    requires
        dispatch(full) is Ok,
        0 <= n < shape_width(dispatch(full)->Ok_0),
    ensures
        dispatch(full.take(n)) matches Err(e) && e.kind == ErrorKind::LengthError,
{
    law_add_order_decodes_only_well_formed(full);
    law_auction_summary_decodes_only_well_formed(full);
    law_auction_update_decodes_only_well_formed(full);
    match dispatch(full)->Ok_0 {
        BATSMessageView::AddOrderMsg(_) => law_add_order_truncated(full, n),
        BATSMessageView::AuctionSummaryMsg(_) => law_auction_summary_truncated(full, n),
        BATSMessageView::AuctionUpdateMsg(_) => law_auction_update_truncated(full, n),
    }
}

/// The error of a line that the factory does not decode reports the
/// characters that the line holds at the offset of the field that failed.
pub proof fn law_dispatch_error_reports_from_line(line: Seq<char>)
    ensures
        dispatch(line) matches Err(e) ==> reports_from(e, line),
{
    lemma_field_errors_report_from(line, Field::MsgType, MSG_TYPE_OFFSET as nat, 1);
    law_add_order_error_reports_from_line(line);
    law_auction_summary_error_reports_from_line(line);
    law_auction_update_error_reports_from_line(line);
}

/// Narrowing never fails: an envelope narrows to the message it holds for the
/// shape it holds, and to `None` for each of the other two.
pub proof fn law_narrowing(msg: BATSMessage)
    ensures
        match msg {
            BATSMessage::AddOrderMsg(m) => {
                &&& msg.add_order() == Some(m)
                &&& msg.auction_summary() is None
                &&& msg.auction_update() is None
            },
            BATSMessage::AuctionSummaryMsg(m) => {
                &&& msg.add_order() is None
                &&& msg.auction_summary() == Some(m)
                &&& msg.auction_update() is None
            },
            BATSMessage::AuctionUpdateMsg(m) => {
                &&& msg.add_order() is None
                &&& msg.auction_summary() is None
                &&& msg.auction_update() == Some(m)
            },
        },
{
}

} // verus!

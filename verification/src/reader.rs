//! The field reader: cuts fixed-width fields off the front of a line, one
//! after the other, and converts each to its value.
//!
//! The `*_field` functions say what a field at a given character offset of a
//! line holds. [`FieldReader`] computes the same while it walks the line from
//! left to right, and so never needs to be told an offset.

use vstd::prelude::*;
use vstd::string::*;
use crate::error::{DecodeError, DecodeErrorView, ErrorKind, Field};
use crate::scalar::{
    parse_char, parse_numeral, parse_opt_part_id, parsed_numeral, parsed_optional, PART_ID_WIDTH,
};

verus! {

/// The alphabets of the one-character codes.
#[derive(Clone, Copy, Debug, PartialEq, Eq, Structural)]
pub enum CodeSet {
    /// Message type of an add order: `A` or `d`.
    AddOrderType,
    /// Message type of an auction summary: `J`.
    AuctionSummaryType,
    /// Message type of an auction update: `I`.
    AuctionUpdateType,
    /// Phase of an auction: `O`, `C`, `H` or `I`.
    AuctionPhase,
}

impl CodeSet {
    /// `c` is a code of this alphabet.
    pub open spec fn admits(self, c: char) -> bool {
        match self {
            CodeSet::AddOrderType => c == 'A' || c == 'd',
            CodeSet::AuctionSummaryType => c == 'J',
            CodeSet::AuctionUpdateType => c == 'I',
            CodeSet::AuctionPhase => c == 'O' || c == 'C' || c == 'H' || c == 'I',
        }
    }

    /// Tests whether `c` is a code of this alphabet.
    pub fn contains(&self, c: char) -> (b: bool)
        ensures
            b == self.admits(c),
    {
        match self {
            CodeSet::AddOrderType => c == 'A' || c == 'd',
            CodeSet::AuctionSummaryType => c == 'J',
            CodeSet::AuctionUpdateType => c == 'I',
            CodeSet::AuctionPhase => c == 'O' || c == 'C' || c == 'H' || c == 'I',
        }
    }
}

/// The characters of `line` from `offset` on; none where the line ends before.
pub open spec fn tail_from(line: Seq<char>, offset: nat) -> Seq<char> {
    if offset <= line.len() {
        line.skip(offset as int)
    } else {
        Seq::empty()
    }
}

/// The `width` characters of `line` that start at `offset`.
pub open spec fn field_chars(line: Seq<char>, offset: nat, width: nat) -> Seq<char> {
    line.subrange(offset as int, (offset + width) as int)
}

/// The error of a field that the line is too short to hold. It reports what
/// is left of the line at the field's offset.
pub open spec fn too_short(line: Seq<char>, field: Field, offset: nat) -> DecodeErrorView {
    DecodeErrorView { kind: ErrorKind::LengthError, field, offset, raw: tail_from(line, offset) }
}

/// The error of a field whose characters are there but do not convert. It
/// reports the characters of the field.
pub open spec fn malformed(
    kind: ErrorKind,
    line: Seq<char>,
    field: Field,
    offset: nat,
    width: nat,
) -> DecodeErrorView {
    DecodeErrorView { kind, field, offset, raw: field_chars(line, offset, width) }
}

/// What `e` reports is what `line` holds: its characters are the first of
/// those that the line has left at its offset.
pub open spec fn reports_from(e: DecodeErrorView, line: Seq<char>) -> bool {
    e.raw.is_prefix_of(tail_from(line, e.offset))
}

/// The errors of a field report from the line.
pub proof fn lemma_field_errors_report_from(line: Seq<char>, field: Field, offset: nat, width: nat)
    ensures
        reports_from(too_short(line, field, offset), line),
        forall|kind: ErrorKind|
            line.len() >= offset + width ==> reports_from(
                #[trigger] malformed(kind, line, field, offset, width),
                line,
            ),
{
    let left = tail_from(line, offset);
    if line.len() >= offset + width {
        assert(field_chars(line, offset, width) =~= left.subrange(0, width as int));
    }
}

/// A numeric field: the value of its numeral, `LengthError` where the line
/// ends before the field does, `FormatError` where the field is no numeral of
/// the radix or its value exceeds `max`.
pub open spec fn numeral_field(
    line: Seq<char>,
    field: Field,
    offset: nat,
    width: nat,
    radix: nat,
    max: nat,
) -> Result<nat, DecodeErrorView> {
    if line.len() < offset + width {
        Err(too_short(line, field, offset))
    } else {
        match parsed_numeral(field_chars(line, offset, width), radix, max) {
            Ok(v) => Ok(v),
            Err(kind) => Err(malformed(kind, line, field, offset, width)),
        }
    }
}

/// A one-character field that takes any character: the character, or
/// `LengthError` where the line ends before it.
pub open spec fn char_field(line: Seq<char>, field: Field, offset: nat) -> Result<
    char,
    DecodeErrorView,
> {
    if line.len() < offset + 1 {
        Err(too_short(line, field, offset))
    } else {
        Ok(line[offset as int])
    }
}

/// A one-character code: the character, `LengthError` where the line ends
/// before it, `InvalidEnum` where it is not in the alphabet `codes`.
pub open spec fn code_field(line: Seq<char>, field: Field, offset: nat, codes: CodeSet) -> Result<
    char,
    DecodeErrorView,
> {
    if line.len() < offset + 1 {
        Err(too_short(line, field, offset))
    } else if !codes.admits(line[offset as int]) {
        Err(malformed(ErrorKind::InvalidEnum, line, field, offset, 1))
    } else {
        Ok(line[offset as int])
    }
}

/// A text field: its characters as they stand, or `LengthError` where the line
/// ends before the field does.
pub open spec fn text_field(line: Seq<char>, field: Field, offset: nat, width: nat) -> Result<
    Seq<char>,
    DecodeErrorView,
> {
    if line.len() < offset + width {
        Err(too_short(line, field, offset))
    } else {
        Ok(field_chars(line, offset, width))
    }
}

/// An optional last field of `width` characters: all that is left of the line
/// at `offset`, which must be nothing or exactly `width` characters, else
/// `FormatError`.
pub open spec fn optional_field(line: Seq<char>, field: Field, offset: nat, width: nat) -> Result<
    Seq<char>,
    DecodeErrorView,
> {
    match parsed_optional(tail_from(line, offset), width) {
        Ok(chars) => Ok(chars),
        Err(kind) => Err(
            DecodeErrorView { kind, field, offset, raw: tail_from(line, offset) },
        ),
    }
}

/// A line and a position in it: the character offset of the next field.
pub struct FieldReader<'a> {
    line: &'a str,
    len: usize,
    offset: usize,
}

impl<'a> FieldReader<'a> {
    /// The line that is being read.
    pub closed spec fn line(&self) -> Seq<char> {
        self.line@
    }

    /// The character offset in the line of the next field.
    pub closed spec fn position(&self) -> nat {
        self.offset as nat
    }

    /// The reader knows the length of its line and stands inside it.
    #[verifier::type_invariant]
    spec fn inv(&self) -> bool {
        &&& self.len == self.line@.len()
        &&& self.offset <= self.len
    }

    /// A reader at the start of `line`.
    pub fn new(line: &'a str) -> (r: Self)
        ensures
            r.line() == line@,
            r.position() == 0,
    {
        FieldReader { line, len: line.unicode_len(), offset: 0 }
    }

    /// Takes the next `width` characters. On success the reader has moved past
    /// them. Where fewer are left it fails with `LengthError`. This and every
    /// other read that fails leaves the reader where it stood.
    pub fn take(&mut self, field: Field, width: usize) -> (res: Result<&'a str, DecodeError>)
        ensures
            final(self).line() == old(self).line(),
            match res {
                Ok(chars) => {
                    &&& old(self).position() + width <= old(self).line().len()
                    &&& chars@ == field_chars(old(self).line(), old(self).position(), width as nat)
                    &&& final(self).position() == old(self).position() + width
                },
                Err(e) => {
                    &&& old(self).line().len() < old(self).position() + width
                    &&& e@ == too_short(old(self).line(), field, old(self).position())
                    &&& final(self).position() == old(self).position()
                },
            },
    {
        proof {
            use_type_invariant(&*self);
        }
        if self.len - self.offset < width {
            let left: &str = self.line.substring_char(self.offset, self.len);
            Err(DecodeError::new(ErrorKind::LengthError, field, self.offset, left))
        } else {
            let chars: &str = self.line.substring_char(self.offset, self.offset + width);
            self.offset = self.offset + width;
            Ok(chars)
        }
    }

    /// Reads a numeric field of `width` digits of the given radix, whose value
    /// may not exceed `max`.
    pub fn numeral(&mut self, field: Field, width: usize, radix: u64, max: u64) -> (res: Result<
        u64,
        DecodeError,
    >)
        ensures
            final(self).line() == old(self).line(),
            res is Err ==> final(self).position() == old(self).position(),
            match res {
                Ok(v) => {
                    &&& numeral_field(
                        old(self).line(),
                        field,
                        old(self).position(),
                        width as nat,
                        radix as nat,
                        max as nat,
                    ) == Ok::<nat, DecodeErrorView>(v as nat)
                    &&& final(self).position() == old(self).position() + width
                },
                Err(e) => numeral_field(
                    old(self).line(),
                    field,
                    old(self).position(),
                    width as nat,
                    radix as nat,
                    max as nat,
                ) == Err::<nat, DecodeErrorView>(e@),
            },
    {
        let at: usize = self.offset;
        let chars: &str = match self.take(field, width) {
            Ok(chars) => chars,
            Err(e) => {
                return Err(e);
            },
        };
        match parse_numeral(chars, radix, max) {
            Ok(v) => Ok(v),
            Err(kind) => {
                proof {
                    use_type_invariant(&*self);
                }
                self.offset = at;
                Err(DecodeError::new(kind, field, at, chars))
            },
        }
    }

    /// Reads a one-character field that takes any character.
    pub fn any_char(&mut self, field: Field) -> (res: Result<char, DecodeError>)
        ensures
            final(self).line() == old(self).line(),
            res is Err ==> final(self).position() == old(self).position(),
            match res {
                Ok(c) => {
                    &&& char_field(old(self).line(), field, old(self).position()) == Ok::<
                        char,
                        DecodeErrorView,
                    >(c)
                    &&& final(self).position() == old(self).position() + 1
                },
                Err(e) => char_field(old(self).line(), field, old(self).position()) == Err::<
                    char,
                    DecodeErrorView,
                >(e@),
            },
    {
        let at: usize = self.offset;
        let chars: &str = match self.take(field, 1) {
            Ok(chars) => chars,
            Err(e) => {
                return Err(e);
            },
        };
        match parse_char(chars) {
            Ok(c) => Ok(c),
            Err(kind) => {
                proof {
                    use_type_invariant(&*self);
                }
                self.offset = at;
                Err(DecodeError::new(kind, field, at, chars))
            },
        }
    }

    /// Reads a one-character code and checks it against its alphabet.
    pub fn code(&mut self, field: Field, codes: CodeSet) -> (res: Result<char, DecodeError>)
        ensures
            final(self).line() == old(self).line(),
            res is Err ==> final(self).position() == old(self).position(),
            match res {
                Ok(c) => {
                    &&& code_field(old(self).line(), field, old(self).position(), codes) == Ok::<
                        char,
                        DecodeErrorView,
                    >(c)
                    &&& final(self).position() == old(self).position() + 1
                },
                Err(e) => code_field(old(self).line(), field, old(self).position(), codes) == Err::<
                    char,
                    DecodeErrorView,
                >(e@),
            },
    {
        let at: usize = self.offset;
        let chars: &str = match self.take(field, 1) {
            Ok(chars) => chars,
            Err(e) => {
                return Err(e);
            },
        };
        let kind: ErrorKind = match parse_char(chars) {
            Ok(c) => {
                if codes.contains(c) {
                    return Ok(c);
                }
                ErrorKind::InvalidEnum
            },
            Err(kind) => kind,
        };
        proof {
            use_type_invariant(&*self);
        }
        self.offset = at;
        Err(DecodeError::new(kind, field, at, chars))
    }

    /// Reads a text field of `width` characters.
    pub fn text(&mut self, field: Field, width: usize) -> (res: Result<String, DecodeError>)
        ensures
            final(self).line() == old(self).line(),
            res is Err ==> final(self).position() == old(self).position(),
            match res {
                Ok(chars) => {
                    &&& text_field(old(self).line(), field, old(self).position(), width as nat)
                        == Ok::<Seq<char>, DecodeErrorView>(chars@)
                    &&& final(self).position() == old(self).position() + width
                },
                Err(e) => text_field(old(self).line(), field, old(self).position(), width as nat)
                    == Err::<Seq<char>, DecodeErrorView>(e@),
            },
    {
        match self.take(field, width) {
            Ok(chars) => Ok(chars.to_owned()),
            Err(e) => Err(e),
        }
    }

    /// Reads the optional participant id that may end a line: all that is
    /// left of the line, which must be nothing or exactly the id's width.
    pub fn optional_part_id(&mut self, field: Field) -> (res: Result<String, DecodeError>)
        ensures
            final(self).line() == old(self).line(),
            res is Err ==> final(self).position() == old(self).position(),
            match res {
                Ok(chars) => {
                    &&& optional_field(
                        old(self).line(),
                        field,
                        old(self).position(),
                        PART_ID_WIDTH as nat,
                    ) == Ok::<Seq<char>, DecodeErrorView>(chars@)
                    &&& final(self).position() == old(self).line().len()
                },
                Err(e) => optional_field(
                    old(self).line(),
                    field,
                    old(self).position(),
                    PART_ID_WIDTH as nat,
                ) == Err::<Seq<char>, DecodeErrorView>(e@),
            },
    {
        proof {
            use_type_invariant(&*self);
        }
        let at: usize = self.offset;
        let left: &str = self.line.substring_char(at, self.len);
        match parse_opt_part_id(left) {
            Ok(id) => {
                self.offset = self.len;
                Ok(id)
            },
            Err(kind) => Err(DecodeError::new(kind, field, at, left)),
        }
    }
}

} // verus!

//! The failure vocabulary of the binary wire format.

use crate::text::{append_decimal, decimal};
use vstd::prelude::*;
use vstd::string::{to_string_from_display_ensures, StringExecFns};

verus! {

/// Every way in which encoding or decoding can fail.
///
/// Each kind that belongs to the binary format carries the byte offset at
/// which the failure was detected.
#[derive(Debug, Clone, PartialEq, Eq)]
pub enum Error {
    /// A free-form failure, for what no other kind describes.
    Custom(String),
    /// The format is not self-describing: a value cannot be decoded without
    /// knowing its type.
    DeserializeAnyNotSupported(usize),
    /// A byte that should hold a boolean was neither `0` nor `1`.
    InvalidBoolEncoding(u8, usize),
    /// A scalar that should hold a character is not a Unicode scalar value.
    InvalidCharEncoding(usize),
    /// A text field was not closed by its terminator byte.
    StringNotNullTerminated(usize),
    /// A discriminant byte named no known variant.
    InvalidTagEncoding(u8, usize),
    /// The format has no representation for associative containers.
    DeserializeMapNotSupported(usize),
    /// The format cannot decode an identifier apart from its value.
    DeserializeIdentifierNotSupported(usize),
    /// The format cannot skip a field of unknown type.
    DeserializeIgnoredAnyNotSupported(usize),
    /// A declared byte length exceeds what the decoder accepts.
    BytesTooBig(usize),
    /// A failure of the human-readable configuration format, held as the
    /// text that the underlying error displays.
    Serde(String),
}

/// The mathematical counterpart of [`Error`]: messages are sequences of
/// characters and offsets are unbounded.
pub enum ErrorView {
    Custom(Seq<char>),
    DeserializeAnyNotSupported(int),
    InvalidBoolEncoding(u8, int),
    InvalidCharEncoding(int),
    StringNotNullTerminated(int),
    InvalidTagEncoding(u8, int),
    DeserializeMapNotSupported(int),
    DeserializeIdentifierNotSupported(int),
    DeserializeIgnoredAnyNotSupported(int),
    BytesTooBig(int),
    Serde(Seq<char>),
}

impl View for Error {
    type V = ErrorView;

    open spec fn view(&self) -> ErrorView {
        match *self {
            Error::Custom(m) => ErrorView::Custom(m@),
            Error::DeserializeAnyNotSupported(p) => ErrorView::DeserializeAnyNotSupported(p as int),
            Error::InvalidBoolEncoding(v, p) => ErrorView::InvalidBoolEncoding(v, p as int),
            Error::InvalidCharEncoding(p) => ErrorView::InvalidCharEncoding(p as int),
            Error::StringNotNullTerminated(p) => ErrorView::StringNotNullTerminated(p as int),
            Error::InvalidTagEncoding(t, p) => ErrorView::InvalidTagEncoding(t, p as int),
            Error::DeserializeMapNotSupported(p) => ErrorView::DeserializeMapNotSupported(p as int),
            Error::DeserializeIdentifierNotSupported(p) => {
                ErrorView::DeserializeIdentifierNotSupported(p as int)
            },
            Error::DeserializeIgnoredAnyNotSupported(p) => {
                ErrorView::DeserializeIgnoredAnyNotSupported(p as int)
            },
            Error::BytesTooBig(p) => ErrorView::BytesTooBig(p as int),
            Error::Serde(m) => ErrorView::Serde(m@),
        }
    }
}

impl ErrorView {
    /// The text that describes the failure to a reader.
    pub open spec fn text(self) -> Seq<char> {
        match self {
            ErrorView::Custom(m) => m,
            ErrorView::DeserializeAnyNotSupported(p) => "DeserializeAnyNotSupported. Pos: "@
                + decimal(p as nat),
            ErrorView::InvalidBoolEncoding(v, p) => "InvalidBoolEncoding. Val: "@ + decimal(
                v as nat,
            ) + " Pos: "@ + decimal(p as nat),
            ErrorView::InvalidCharEncoding(p) => "InvalidCharEncoding. Pos: "@ + decimal(p as nat),
            ErrorView::StringNotNullTerminated(p) => "StringNotNullTerminated. Pos: "@ + decimal(
                p as nat,
            ),
            ErrorView::InvalidTagEncoding(t, p) => "InvalidTagEncoding. Tag: "@ + decimal(t as nat)
                + " Pos: "@ + decimal(p as nat),
            ErrorView::DeserializeMapNotSupported(p) => "DeserializeMapNotSupported. Pos: "@
                + decimal(p as nat),
            ErrorView::DeserializeIdentifierNotSupported(p) => {
                "DeserializeIdentifierNotSupported. Pos: "@ + decimal(p as nat)
            },
            ErrorView::DeserializeIgnoredAnyNotSupported(p) => {
                "DeserializeIgnoredAnyNotSupported. Pos: "@ + decimal(p as nat)
            },
            ErrorView::BytesTooBig(p) => "BytesTooBig. Pos: "@ + decimal(p as nat),
            ErrorView::Serde(m) => "serde error: "@ + m,
        }
    }

    /// The byte offset at which the failure was detected, for the kinds that
    /// belong to the binary format.
    pub open spec fn offset(self) -> Option<int> {
        match self {
            ErrorView::Custom(_) => None,
            ErrorView::Serde(_) => None,
            ErrorView::DeserializeAnyNotSupported(p) => Some(p),
            ErrorView::InvalidBoolEncoding(_, p) => Some(p),
            ErrorView::InvalidCharEncoding(p) => Some(p),
            ErrorView::StringNotNullTerminated(p) => Some(p),
            ErrorView::InvalidTagEncoding(_, p) => Some(p),
            ErrorView::DeserializeMapNotSupported(p) => Some(p),
            ErrorView::DeserializeIdentifierNotSupported(p) => Some(p),
            ErrorView::DeserializeIgnoredAnyNotSupported(p) => Some(p),
            ErrorView::BytesTooBig(p) => Some(p),
        }
    }
}

/// A kind's name followed by the offset of the failure.
fn at_offset(kind: &str, pos: usize) -> (text: String)
    ensures
        text@ == kind@ + decimal(pos as nat),
{
    let mut text = String::from_str(kind);
    append_decimal(&mut text, pos as u64);
    text
}

/// A kind's name followed by the offending byte and the offset of the
/// failure.
fn with_value_at_offset(kind: &str, value: u8, pos: usize) -> (text: String)
    ensures
        text@ == kind@ + decimal(value as nat) + " Pos: "@ + decimal(pos as nat),
{
    let mut text = String::from_str(kind);
    append_decimal(&mut text, value as u64);
    text.append(" Pos: ");
    append_decimal(&mut text, pos as u64);
    text
}

impl Error {
    /// The text that describes the failure to a reader.
    pub fn message(&self) -> (text: String)
        ensures
            text@ == self@.text(),
    {
        match self {
            Error::Custom(m) => m.clone(),
            Error::DeserializeAnyNotSupported(p) => at_offset(
                "DeserializeAnyNotSupported. Pos: ",
                *p,
            ),
            Error::InvalidBoolEncoding(v, p) => with_value_at_offset(
                "InvalidBoolEncoding. Val: ",
                *v,
                *p,
            ),
            Error::InvalidCharEncoding(p) => at_offset("InvalidCharEncoding. Pos: ", *p),
            Error::StringNotNullTerminated(p) => at_offset("StringNotNullTerminated. Pos: ", *p),
            Error::InvalidTagEncoding(t, p) => with_value_at_offset(
                "InvalidTagEncoding. Tag: ",
                *t,
                *p,
            ),
            Error::DeserializeMapNotSupported(p) => at_offset(
                "DeserializeMapNotSupported. Pos: ",
                *p,
            ),
            Error::DeserializeIdentifierNotSupported(p) => at_offset(
                "DeserializeIdentifierNotSupported. Pos: ",
                *p,
            ),
            Error::DeserializeIgnoredAnyNotSupported(p) => at_offset(
                "DeserializeIgnoredAnyNotSupported. Pos: ",
                *p,
            ),
            Error::BytesTooBig(p) => at_offset("BytesTooBig. Pos: ", *p),
            Error::Serde(m) => {
                let mut text = String::from_str("serde error: ");
                text.append(m.as_str());
                text
            },
        }
    }

    /// The byte offset at which the failure was detected, for the kinds that
    /// belong to the binary format.
    pub fn position(&self) -> (pos: Option<usize>)
        ensures
            match pos {
                Some(p) => self@.offset() == Some(p as int),
                None => self@.offset().is_none(),
            },
    {
        match self {
            Error::Custom(_) => None,
            Error::Serde(_) => None,
            Error::DeserializeAnyNotSupported(p) => Some(*p),
            Error::InvalidBoolEncoding(_, p) => Some(*p),
            Error::InvalidCharEncoding(p) => Some(*p),
            Error::StringNotNullTerminated(p) => Some(*p),
            Error::InvalidTagEncoding(_, p) => Some(*p),
            Error::DeserializeMapNotSupported(p) => Some(*p),
            Error::DeserializeIdentifierNotSupported(p) => Some(*p),
            Error::DeserializeIgnoredAnyNotSupported(p) => Some(*p),
            Error::BytesTooBig(p) => Some(*p),
        }
    }

    /// The failure of the configuration format that `underlying` describes,
    /// held as the text it displays.
    pub fn serde<T: core::fmt::Display + ?Sized>(underlying: &T) -> (e: Error)
        ensures
            e matches Error::Serde(m) && to_string_from_display_ensures::<T>(underlying, m),
    {
        Error::Serde(underlying.to_string())
    }

    /// A free-form failure whose message is what `desc` displays. For a
    /// `str` that is the text itself.
    pub fn custom<T: core::fmt::Display + ?Sized>(desc: &T) -> (e: Error)
        ensures
            e matches Error::Custom(m) && to_string_from_display_ensures::<T>(desc, m),
    {
        Error::Custom(desc.to_string())
    }
}

} // verus!

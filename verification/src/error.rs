//! Errors of the bridger.
use vstd::prelude::*;

verus! {

/// Errors raised by the bridger's own services and subcommands.
#[derive(Debug, Clone, PartialEq, Eq)]
pub enum BridgerError {
    /// A subcommand could not be run.
    Subcommand(String),
    /// A subcommand is not known.
    UnsupportExternal(String),
    /// An outside program failed: program, arguments, reason.
    Process(String, String, String),
    /// Any other failure, with its message.
    Custom(String),
}

/// The contents of a `BridgerError`.
pub enum BridgerErrorView {
    Subcommand(Seq<char>),
    UnsupportExternal(Seq<char>),
    Process(Seq<char>, Seq<char>, Seq<char>),
    Custom(Seq<char>),
}

impl View for BridgerError {
    type V = BridgerErrorView;

    open spec fn view(&self) -> BridgerErrorView {
        match self {
            BridgerError::Subcommand(m) => BridgerErrorView::Subcommand(m@),
            BridgerError::UnsupportExternal(m) => BridgerErrorView::UnsupportExternal(m@),
            BridgerError::Process(p, a, r) => BridgerErrorView::Process(p@, a@, r@),
            BridgerError::Custom(m) => BridgerErrorView::Custom(m@),
        }
    }
}

/// Bridge ethereum error.
#[derive(Debug, Clone, PartialEq, Eq)]
pub enum BridgeEthereumError {
    /// Other error, with its message.
    Other(String),
    /// An error of the byte array helpers, with its rendering.
    ArrayBytes(String),
}

/// The decimal digits of `n`, as `Debug` writes an integer.
pub open spec fn decimal(n: nat) -> Seq<char>
    decreases n,
{
    if n < 10 {
        seq![((n + 48) as u8) as char]
    } else {
        decimal(n / 10).push((((n % 10) + 48) as u8) as char)
    }
}

/// The kind of a failed integer parse, as the standard library names it.
#[derive(Clone, Copy, Debug, PartialEq, Eq)]
pub enum IntErrorKind {
    Empty,
    InvalidDigit,
    PosOverflow,
    NegOverflow,
    Zero,
}

/// An error of the byte array helpers (`array_bytes::Error`), held as plain
/// values: the wrapped standard errors by their fields.
#[derive(Clone, Copy, Debug, PartialEq, Eq)]
pub enum ArrayBytesError {
    ParseIntError(IntErrorKind),
    Utf8Error { valid_up_to: usize, error_len: Option<u8> },
    InvalidLength,
    InvalidCharacter { character: char, index: usize },
    MismatchedLength { expect: usize },
}

/// What `Debug` writes for a character: quoted, with its escapes.
pub uninterp spec fn char_debug(c: char) -> Seq<char>;

/// The name of the kind.
pub open spec fn int_error_kind_name(kind: IntErrorKind) -> Seq<char> {
    match kind {
        IntErrorKind::Empty => "Empty"@,
        IntErrorKind::InvalidDigit => "InvalidDigit"@,
        IntErrorKind::PosOverflow => "PosOverflow"@,
        IntErrorKind::NegOverflow => "NegOverflow"@,
        IntErrorKind::Zero => "Zero"@,
    }
}

/// The derived `Debug` rendering of the error: the variant's name, then its
/// fields as `Name(..)` or `Name { field: value, .. }`, integers in
/// decimal, options as `Some(..)` or `None`.
pub open spec fn array_bytes_debug(error: ArrayBytesError) -> Seq<char> {
    match error {
        ArrayBytesError::ParseIntError(kind) => "ParseIntError(ParseIntError { kind: "@ + int_error_kind_name(kind)
            + " })"@,
        ArrayBytesError::Utf8Error { valid_up_to, error_len } => "Utf8Error(Utf8Error { valid_up_to: "@ + decimal(
            valid_up_to as nat,
        ) + ", error_len: "@ + match error_len {
            Some(n) => "Some("@ + decimal(n as nat) + ")"@,
            None => "None"@,
        } + " })"@,
        ArrayBytesError::InvalidLength => "InvalidLength"@,
        ArrayBytesError::InvalidCharacter { character, index } => "InvalidCharacter { character: "@ + char_debug(
            character,
        ) + ", index: "@ + decimal(index as nat) + " }"@,
        ArrayBytesError::MismatchedLength { expect } => "MismatchedLength { expect: "@ + decimal(expect as nat)
            + " }"@,
    }
}

/// Renders a character as `Debug` does.
///
/// Trusted: calls `format!("{:?}", c)` on `char`; the clause names the
/// rendering, which depends on the character alone.
#[verifier::external_body]
fn char_debug_text(c: char) -> (res: String)
    ensures
        res@ == char_debug(c),
{
    format!("{:?}", c)
}

/// The text of one decimal digit.
fn digit_text(d: usize) -> (res: &'static str)
    requires
        d < 10,
    ensures
        res@ == seq![((d + 48) as u8) as char],
{
    proof {
        reveal_strlit("0");
        reveal_strlit("1");
        reveal_strlit("2");
        reveal_strlit("3");
        reveal_strlit("4");
        reveal_strlit("5");
        reveal_strlit("6");
        reveal_strlit("7");
        reveal_strlit("8");
        reveal_strlit("9");
    }
    if d == 0 {
        "0"
    } else if d == 1 {
        "1"
    } else if d == 2 {
        "2"
    } else if d == 3 {
        "3"
    } else if d == 4 {
        "4"
    } else if d == 5 {
        "5"
    } else if d == 6 {
        "6"
    } else if d == 7 {
        "7"
    } else if d == 8 {
        "8"
    } else {
        "9"
    }
}

/// The decimal digits of `n`.
pub fn decimal_text(n: usize) -> (res: String)
    ensures
        res@ == decimal(n as nat),
    decreases n,
{
    if n < 10 {
        String::from_str(digit_text(n))
    } else {
        let mut text = decimal_text(n / 10);
        text.append(digit_text(n % 10));
        assert(text@ =~= decimal(n as nat));
        text
    }
}

fn int_error_kind_text(kind: IntErrorKind) -> (res: &'static str)
    ensures
        res@ == int_error_kind_name(kind),
{
    match kind {
        IntErrorKind::Empty => "Empty",
        IntErrorKind::InvalidDigit => "InvalidDigit",
        IntErrorKind::PosOverflow => "PosOverflow",
        IntErrorKind::NegOverflow => "NegOverflow",
        IntErrorKind::Zero => "Zero",
    }
}

/// The derived `Debug` rendering of an error of the byte array helpers.
pub fn array_bytes_error_text(error: &ArrayBytesError) -> (res: String)
    ensures
        res@ == array_bytes_debug(*error),
{
    match *error {
        ArrayBytesError::ParseIntError(kind) => {
            let mut text = String::from_str("ParseIntError(ParseIntError { kind: ");
            text.append(int_error_kind_text(kind));
            text.append(" })");
            text
        },
        ArrayBytesError::Utf8Error { valid_up_to, error_len } => {
            let mut text = String::from_str("Utf8Error(Utf8Error { valid_up_to: ");
            text.append(decimal_text(valid_up_to).as_str());
            text.append(", error_len: ");
            match error_len {
                Some(n) => {
                    text.append("Some(");
                    text.append(decimal_text(n as usize).as_str());
                    text.append(")");
                },
                None => {
                    text.append("None");
                },
            }
            text.append(" })");
            text
        },
        ArrayBytesError::InvalidLength => String::from_str("InvalidLength"),
        ArrayBytesError::InvalidCharacter { character, index } => {
            let mut text = String::from_str("InvalidCharacter { character: ");
            text.append(char_debug_text(character).as_str());
            text.append(", index: ");
            text.append(decimal_text(index).as_str());
            text.append(" }");
            text
        },
        ArrayBytesError::MismatchedLength { expect } => {
            let mut text = String::from_str("MismatchedLength { expect: ");
            text.append(decimal_text(expect).as_str());
            text.append(" }");
            text
        },
    }
}

impl BridgeEthereumError {
    /// The error's message.
    pub fn message(&self) -> (res: String)
        ensures
            res@ == match self {
                BridgeEthereumError::Other(m) => "Other error: "@ + m@,
                BridgeEthereumError::ArrayBytes(m) => "Array bytes error: "@ + m@,
            },
    {
        match self {
            BridgeEthereumError::Other(m) => String::from_str("Other error: ").concat(m.as_str()),
            BridgeEthereumError::ArrayBytes(m) => String::from_str("Array bytes error: ").concat(m.as_str()),
        }
    }

    /// The error for a failure of the byte array helpers: its
    /// `ArrayBytes` variant holding the error's `Debug` text.
    pub fn from_array_bytes(error: ArrayBytesError) -> (res: BridgeEthereumError)
        ensures
            res matches BridgeEthereumError::ArrayBytes(text) && text@ == array_bytes_debug(error),
    {
        BridgeEthereumError::ArrayBytes(array_bytes_error_text(&error))
    }
}

} // verus!

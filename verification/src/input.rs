//! Data that a user types in: how it is written and how it becomes bytes.

use crate::error::{TermComError, TermComErrorView};
use vstd::prelude::*;
use vstd::utf8::encode_utf8;

verus! {

/// How data is written in a text.
#[derive(Clone, Copy, Debug, PartialEq, Eq, Structural)]
pub enum DataFormat {
    /// The text is the data.
    Text,
    /// Pairs of hexadecimal digits.
    Hex,
    /// Base64 with the standard alphabet and padding.
    Base64,
}

impl DataFormat {
    /// The name of the format in lower case.
    pub open spec fn name(self) -> Seq<char> {
        match self {
            DataFormat::Text => "text"@,
            DataFormat::Hex => "hex"@,
            DataFormat::Base64 => "base64"@,
        }
    }

    /// The name of the format in lower case.
    pub fn to_string(&self) -> (text: String)
        ensures
            text@ == self.name(),
    {
        match self {
            DataFormat::Text => String::from_str("text"),
            DataFormat::Hex => String::from_str("hex"),
            DataFormat::Base64 => String::from_str("base64"),
        }
    }
}

/// How results are shown.
#[derive(Clone, Copy, Debug, PartialEq, Eq, Structural)]
pub enum OutputFormat {
    /// Text for a reader.
    Text,
    Json,
    Table,
    Csv,
}

impl OutputFormat {
    /// The name of the format in lower case.
    pub open spec fn name(self) -> Seq<char> {
        match self {
            OutputFormat::Text => "text"@,
            OutputFormat::Json => "json"@,
            OutputFormat::Table => "table"@,
            OutputFormat::Csv => "csv"@,
        }
    }

    /// The name of the format in lower case.
    pub fn to_string(&self) -> (text: String)
        ensures
            text@ == self.name(),
    {
        match self {
            OutputFormat::Text => String::from_str("text"),
            OutputFormat::Json => String::from_str("json"),
            OutputFormat::Table => String::from_str("table"),
            OutputFormat::Csv => String::from_str("csv"),
        }
    }
}

impl Default for OutputFormat {
    fn default() -> (format: Self)
        ensures
            format == OutputFormat::Text,
    {
        OutputFormat::Text
    }
}

/// The value of a hexadecimal digit, in either case.
pub open spec fn hex_value(digit: u8) -> Option<u8> {
    if 48 <= digit <= 57 {
        Some((digit - 48) as u8)
    } else if 97 <= digit <= 102 {
        Some((digit - 87) as u8)
    } else if 65 <= digit <= 70 {
        Some((digit - 55) as u8)
    } else {
        None
    }
}

/// The bytes that an even number of hexadecimal digits stand for, two digits
/// for each byte and the high one first; none where the number of digits is
/// odd or one of them is no hexadecimal digit.
pub open spec fn hex_decoded(digits: Seq<u8>) -> Option<Seq<u8>> {
    if digits.len() % 2 != 0 {
        None
    } else if forall|i: int| 0 <= i < digits.len() ==> hex_value(#[trigger] digits[i]) is Some {
        Some(
            Seq::new(
                digits.len() / 2,
                |i: int|
                    (hex_value(digits[2 * i]).unwrap() * 16 + hex_value(
                        digits[2 * i + 1],
                    ).unwrap()) as u8,
            ),
        )
    } else {
        None
    }
}

/// What the standard Base64 decoder makes of a text: the decoded bytes, or
/// none where it rejects the text.
pub uninterp spec fn base64_decoding(text: Seq<char>) -> Option<Seq<u8>>;

/// The error of the `hex` crate's decoder.
#[verifier::external_type_specification]
#[verifier::external_body]
pub struct ExFromHexError(hex::FromHexError);

/// The error of the `base64` crate's decoder.
#[verifier::external_type_specification]
#[verifier::external_body]
pub struct ExDecodeError(base64::DecodeError);

/// Decodes hexadecimal digits with `hex::decode`.  It rejects an odd number
/// of digits and any byte that is no hexadecimal digit, and else gives one
/// byte for each two digits, the first digit of a pair as the high half.
#[verifier::external_body]
fn hex_decode(text: &str) -> (r: Result<Vec<u8>, hex::FromHexError>)
    ensures
        r is Ok <==> hex_decoded(encode_utf8(text@)) is Some,
        r matches Ok(bytes) ==> Some(bytes@) == hex_decoded(encode_utf8(text@)),
{
    hex::decode(text)
}

/// The words in which the `hex` crate describes its error.
#[verifier::external_body]
fn describe_hex_error(e: &hex::FromHexError) -> (text: String) {
    e.to_string()
}

/// Decodes Base64 with `base64`'s `STANDARD` engine.  The outcome depends on
/// the text alone.
#[verifier::external_body]
fn base64_decode(text: &str) -> (r: Result<Vec<u8>, base64::DecodeError>)
    ensures
        r is Ok <==> base64_decoding(text@) is Some,
        r matches Ok(bytes) ==> Some(bytes@) == base64_decoding(text@),
{
    base64::Engine::decode(&base64::engine::general_purpose::STANDARD, text)
}

/// The words in which the `base64` crate describes its error.
#[verifier::external_body]
fn describe_base64_error(e: &base64::DecodeError) -> (text: String) {
    e.to_string()
}

/// The text in which `replacement` stands in the place of each character
/// `pattern` of `text`.
pub open spec fn replaced(text: Seq<char>, pattern: char, replacement: Seq<char>) -> Seq<char>
    decreases text.len(),
{
    if text.len() == 0 {
        Seq::empty()
    } else {
        replaced(text.drop_last(), pattern, replacement) + if text.last() == pattern {
            replacement
        } else {
            seq![text.last()]
        }
    }
}

/// Puts `replacement` in the place of each character `pattern` of `text`,
/// through `str::replace`, which replaces all matches of the pattern.
#[verifier::external_body]
fn replace_char(text: &str, pattern: char, replacement: &str) -> (changed: String)
    ensures
        changed@ == replaced(text@, pattern, replacement@),
{
    text.replace(pattern, replacement)
}

/// The text of hexadecimal input with blanks and line feeds taken out.
pub open spec fn stripped(text: Seq<char>) -> Seq<char> {
    replaced(replaced(text, ' ', Seq::empty()), '\n', Seq::empty())
}

/// Whether `e` is the error for malformed input whose text begins with
/// `prefix`.
pub open spec fn is_invalid_input(e: TermComErrorView, prefix: Seq<char>) -> bool {
    e matches TermComErrorView::InvalidInput(text) && text.len() >= prefix.len() && text.subrange(
        0,
        prefix.len() as int,
    ) == prefix
}

/// What `parse_data` gives for a text in a format.  Text stands for its
/// bytes.  Hexadecimal input is read after blanks and line feeds have been
/// taken out; Base64 input is read as it is.  Input that the decoder of its
/// format rejects is malformed.
pub open spec fn parsed(text: Seq<char>, format: DataFormat) -> Option<Seq<u8>> {
    match format {
        DataFormat::Text => Some(encode_utf8(text)),
        DataFormat::Hex => hex_decoded(encode_utf8(stripped(text))),
        DataFormat::Base64 => base64_decoding(text),
    }
}

/// The result for decoded data: the bytes where the decoder gave some, and
/// else the error for malformed input that says what the decoder found.
pub fn accept_decoded(decoded: Option<Vec<u8>>, prefix: &str, found: &str) -> (r: Result<
    Vec<u8>,
    TermComError,
>)
    ensures
        match decoded {
            Some(bytes) => r matches Ok(data) && data@ == bytes@,
            None => r matches Err(e) && e@ == TermComErrorView::InvalidInput(prefix@ + found@),
        },
{
    match decoded {
        Some(bytes) => Ok(bytes),
        None => Err(TermComError::InvalidInput(String::from_str(prefix).concat(found))),
    }
}

/// Turns what the user typed into bytes.
pub fn parse_data(data: &str, format: DataFormat) -> (r: Result<Vec<u8>, TermComError>)
    ensures
        match parsed(data@, format) {
            Some(bytes) => r matches Ok(made) && made@ == bytes,
            None => r matches Err(e) && is_invalid_input(
                e@,
                if format == DataFormat::Hex {
                    "Invalid hex data: "@
                } else {
                    "Invalid base64 data: "@
                },
            ),
        },
{
    match format {
        DataFormat::Text => Ok(data.as_bytes_vec()),
        DataFormat::Hex => {
            let no_blanks = replace_char(data, ' ', "");
            let cleaned = replace_char(no_blanks.as_str(), '\n', "");
            proof {
                reveal_strlit("");
                assert(""@ =~= Seq::<char>::empty());
            }
            match hex_decode(cleaned.as_str()) {
                Ok(bytes) => accept_decoded(Some(bytes), "Invalid hex data: ", ""),
                Err(e) => {
                    let found = describe_hex_error(&e);
                    let r = accept_decoded(None, "Invalid hex data: ", found.as_str());
                    assert(("Invalid hex data: "@ + found@).subrange(
                        0,
                        "Invalid hex data: "@.len() as int,
                    ) =~= "Invalid hex data: "@);
                    r
                },
            }
        },
        DataFormat::Base64 => {
            match base64_decode(data) {
                Ok(bytes) => accept_decoded(Some(bytes), "Invalid base64 data: ", ""),
                Err(e) => {
                    let found = describe_base64_error(&e);
                    let r = accept_decoded(None, "Invalid base64 data: ", found.as_str());
                    assert(("Invalid base64 data: "@ + found@).subrange(
                        0,
                        "Invalid base64 data: "@.len() as int,
                    ) =~= "Invalid base64 data: "@);
                    r
                },
            }
        },
    }
}

} // verus!

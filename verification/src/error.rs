//! The ways in which a render or an encoding can fail.

use resvg::usvg;
use vstd::prelude::*;
use vstd::string::StringExecFns;

verus! {

/// `usvg::Error`: why the engine's parser rejected some markup.
#[verifier::external_type_specification]
#[verifier::external_body]
pub struct ExParseFailure(usvg::Error);

/// `png::EncodingError`: why the PNG encoder gave up.
#[verifier::external_type_specification]
#[verifier::external_body]
pub struct ExEncodingFailure(png::EncodingError);

/// Why a render or an encoding did not produce a result.
#[derive(Debug, PartialEq, Eq)]
pub enum RenderError {
    /// The default viewport size of the options is not positive.
    Configuration,
    /// The requested raster has a zero side or is larger than the engine can hold.
    Allocation,
    /// The markup was rejected by the engine's parser; the text is the parser's.
    Parse(String),
    /// The PNG encoder failed; the text is the encoder's.
    Encoding(String),
    /// The engine did not deliver the render that was asked for: it gave up
    /// on the document, or it worked with another configuration or on a
    /// raster of another size.
    Engine,
}

/// The text with which the engine describes a parse failure: what the
/// `Display` impl of `usvg::Error` writes for it. It is made of fixed words,
/// of names taken from the markup and of positions in it.
pub uninterp spec fn parse_failure_message(failure: usvg::Error) -> Seq<char>;

/// The engine's own description of a parse failure: `to_string` through the
/// `Display` impl of `usvg::Error`. The text is `parse_failure_message`.
#[verifier::external_body]
fn parse_failure_text(failure: &usvg::Error) -> (text: String)
    ensures
        text@ == parse_failure_message(*failure),
{
    failure.to_string()
}

/// The encoder's own description of a failure: `to_string` through the
/// `Display` impl of `png::EncodingError`. Nothing is claimed of the text,
/// and it has no name: for a failure of writing, the impl prints an
/// `std::io::Error`, whose words for an error of the operating system are
/// the system's own.
#[verifier::external_body]
fn encoding_failure_text(failure: &png::EncodingError) -> (text: String) {
    failure.to_string()
}

impl RenderError {
    /// The text that `message` puts in front of the detail, or the whole
    /// message for the variants without detail.
    pub open spec fn headline(self) -> Seq<char> {
        match self {
            RenderError::Configuration => "default viewport size must be positive"@,
            RenderError::Allocation => "raster width and height must be positive and within the engine's limits"@,
            RenderError::Parse(_) => "Failed to parse SVG: "@,
            RenderError::Encoding(_) => "Failed to encode PNG: "@,
            RenderError::Engine => "the rendering engine could not render the document"@,
        }
    }

    /// The engine's text that the error carries, empty where it carries none.
    pub open spec fn detail(self) -> Seq<char> {
        match self {
            RenderError::Configuration => Seq::empty(),
            RenderError::Allocation => Seq::empty(),
            RenderError::Parse(text) => text@,
            RenderError::Encoding(text) => text@,
            RenderError::Engine => Seq::empty(),
        }
    }

    /// An encoding error that carries the given text.
    pub fn encoding(text: String) -> (e: RenderError)
        ensures
            e == RenderError::Encoding(text),
    {
        RenderError::Encoding(text)
    }

    /// A parse failure of the engine as an error of this crate: it carries
    /// the engine's text in full.
    pub fn from_parse_failure(failure: &usvg::Error) -> (e: RenderError)
        ensures
            e is Parse,
            e.detail() == parse_failure_message(*failure),
    {
        RenderError::Parse(parse_failure_text(failure))
    }

    /// A failure of the PNG encoder as an error of this crate: it carries
    /// the text with which the encoder describes the failure.
    pub fn from_encoding_failure(failure: &png::EncodingError) -> (e: RenderError)
        ensures
            e is Encoding,
    {
        RenderError::encoding(encoding_failure_text(failure))
    }

    /// The human-readable message: the headline followed by the detail.
    pub fn message(&self) -> (text: String)
        ensures
            text@ == self.headline() + self.detail(),
    {
        match self {
            RenderError::Configuration => String::from_str("default viewport size must be positive"),
            RenderError::Allocation => String::from_str(
                "raster width and height must be positive and within the engine's limits",
            ),
            RenderError::Parse(text) => String::from_str("Failed to parse SVG: ").concat(
                text.as_str(),
            ),
            RenderError::Encoding(text) => String::from_str("Failed to encode PNG: ").concat(
                text.as_str(),
            ),
            RenderError::Engine => String::from_str(
                "the rendering engine could not render the document",
            ),
        }
    }
}

} // verus!

use resvg_py::RenderError;

#[test]
fn configuration_message() {
    assert_eq!(RenderError::Configuration.message(), "default viewport size must be positive");
}

#[test]
fn allocation_message() {
    assert_eq!(
        RenderError::Allocation.message(),
        "raster width and height must be positive and within the engine's limits"
    );
}

#[test]
fn parse_message_carries_the_detail() {
    let error = RenderError::Parse(String::from("unexpected end of stream"));
    assert_eq!(error.message(), "Failed to parse SVG: unexpected end of stream");
}

#[test]
fn encoding_message_carries_the_detail() {
    let error = RenderError::Encoding(String::from("Limits are exceeded."));
    assert_eq!(error.message(), "Failed to encode PNG: Limits are exceeded.");
}

#[test]
fn empty_detail_leaves_the_headline() {
    assert_eq!(RenderError::Parse(String::new()).message(), "Failed to parse SVG: ");
    assert_eq!(RenderError::Encoding(String::new()).message(), "Failed to encode PNG: ");
}

#[test]
fn parse_failure_keeps_the_engine_text() {
    let failure = resvg::usvg::Error::InvalidSize;
    let error = RenderError::from_parse_failure(&failure);
    assert_eq!(error, RenderError::Parse(String::from("SVG has an invalid size")));
    assert_eq!(error.message(), "Failed to parse SVG: SVG has an invalid size");
}

#[test]
fn parse_failure_of_each_plain_kind() {
    assert_eq!(
        RenderError::from_parse_failure(&resvg::usvg::Error::NotAnUtf8Str),
        RenderError::Parse(String::from("provided data has not an UTF-8 encoding"))
    );
    assert_eq!(
        RenderError::from_parse_failure(&resvg::usvg::Error::ElementsLimitReached),
        RenderError::Parse(String::from("the maximum number of SVG elements has been reached"))
    );
}

#[test]
fn encoding_failure_keeps_the_encoder_text() {
    let failure = png::EncodingError::LimitsExceeded;
    let error = RenderError::from_encoding_failure(&failure);
    assert_eq!(error, RenderError::Encoding(String::from("Limits are exceeded.")));
    assert_eq!(error.message(), "Failed to encode PNG: Limits are exceeded.");
}

#[test]
fn errors_of_different_kinds_differ() {
    assert_ne!(RenderError::Configuration, RenderError::Allocation);
    assert_ne!(RenderError::Parse(String::from("x")), RenderError::Encoding(String::from("x")));
    assert_ne!(RenderError::Parse(String::from("x")), RenderError::Parse(String::from("y")));
}

#[test]
fn engine_message() {
    assert_eq!(
        RenderError::Engine.message(),
        "the rendering engine could not render the document"
    );
}

#[test]
fn encoding_carries_the_given_text() {
    let error = RenderError::encoding(String::from("buffer too short"));
    assert_eq!(error, RenderError::Encoding(String::from("buffer too short")));
    assert_eq!(error.message(), "Failed to encode PNG: buffer too short");
}

//! The engine's configuration, read back as plain values.
//!
//! The engine takes its DPI and its default viewport as floating-point
//! numbers, so its configuration is built by the caller. What was built can
//! be read here, number by number as bit patterns, and held against the
//! options that a renderer works with.

use resvg::usvg::Options;
use std::path::PathBuf;
use vstd::prelude::*;

verus! {

/// `usvg::Options`: the engine's form of the rendering options.
#[verifier::external_type_specification]
#[verifier::external_body]
pub struct ExEngineOptions(Options);

/// The field `dpi` of the engine's options, as its bit pattern.
pub uninterp spec fn engine_dpi(options: Options) -> u32;

/// The width of the field `default_size` of the engine's options, as its
/// bit pattern.
pub uninterp spec fn engine_default_width(options: Options) -> u32;

/// The height of the field `default_size` of the engine's options, as its
/// bit pattern.
pub uninterp spec fn engine_default_height(options: Options) -> u32;

/// The field `resources_dir` of the engine's options.
pub uninterp spec fn engine_resources_dir(options: Options) -> Option<PathBuf>;

/// Reads the field `dpi` of `usvg::Options` and takes its `to_bits`.
#[verifier::external_body]
pub(crate) fn dpi_of(options: &Options) -> (bits: u32)
    ensures
        bits == engine_dpi(*options),
{
    options.dpi.to_bits()
}

/// Reads the field `default_size` of `usvg::Options`, calls `Size::width`
/// and takes its `to_bits`.
#[verifier::external_body]
pub(crate) fn default_width_of(options: &Options) -> (bits: u32)
    ensures
        bits == engine_default_width(*options),
{
    options.default_size.width().to_bits()
}

/// Reads the field `default_size` of `usvg::Options`, calls `Size::height`
/// and takes its `to_bits`.
#[verifier::external_body]
pub(crate) fn default_height_of(options: &Options) -> (bits: u32)
    ensures
        bits == engine_default_height(*options),
{
    options.default_size.height().to_bits()
}

/// Borrows the field `resources_dir` of `usvg::Options`.
#[verifier::external_body]
pub(crate) fn resources_dir_of(options: &Options) -> (directory: Option<&PathBuf>)
    ensures
        directory is None ==> engine_resources_dir(*options) is None,
        directory matches Some(path) ==> engine_resources_dir(*options) == Some(*path),
{
    options.resources_dir.as_ref()
}

} // verus!

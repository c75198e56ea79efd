//! The renderer: what it admits, what it hands to the engine, and what it
//! accepts back.

use crate::engine::{
    default_height_of, default_width_of, dpi_of, engine_default_height, engine_default_width,
    engine_dpi, engine_resources_dir, resources_dir_of,
};
use crate::error::RenderError;
use crate::options::{
    directory_bytes, is_zero, lemma_options_are_their_values, lemma_standard_values,
    same_directory, SVGOptions,
};
use crate::raster::{
    byte_length, pixmap_data, pixmap_height, pixmap_width, raster_size_is_ok, raster_size_ok,
    RenderedImage,
};
use resvg::tiny_skia::Pixmap;
use resvg::usvg::Options;
use vstd::prelude::*;

verus! {

/// Renders SVG markup into images. It holds the options it was made with, if
/// any, and nothing else: it can be used for any number of renders.
///
/// A render goes in three parts. `start` admits the render and allocates the
/// transparent raster. The engine then works on that raster, step by step
/// as `next_step` says. `finish` takes the raster back and makes the image.
#[derive(Debug)]
pub struct Resvg {
    options: Option<SVGOptions>,
}

impl Resvg {
    /// The options that the renderer was made with.
    pub closed spec fn spec_options(&self) -> Option<SVGOptions> {
        self.options
    }

    /// The options that a render works with: those that the renderer was
    /// made with, or the standard ones where it was made with none.
    pub open spec fn effective(&self) -> SVGOptions {
        match self.spec_options() {
            Some(options) => options,
            None => SVGOptions::standard(),
        }
    }

    /// Whether the renderer was made with options whose default viewport is
    /// not a valid size.
    pub open spec fn has_invalid_viewport(&self) -> bool {
        self.spec_options() matches Some(options) && !options.has_positive_viewport()
    }

    /// Whether a render at this size can start, and if not, why: the size is
    /// looked at first, the default viewport second.
    pub open spec fn admits(&self, width: u32, height: u32) -> Result<(), RenderError> {
        if !raster_size_ok(width, height) {
            Err(RenderError::Allocation)
        } else if self.has_invalid_viewport() {
            Err(RenderError::Configuration)
        } else {
            Ok(())
        }
    }

    /// Whether an engine configuration is the engine's form of the options
    /// that a render works with: the same DPI, the same default viewport,
    /// bit for bit, and the same resources directory, byte for byte.
    pub open spec fn is_engine_form(&self, engine: Options) -> bool {
        &&& engine_dpi(engine) == self.effective().spec_dpi()
        &&& engine_default_width(engine) == self.effective().spec_default_width()
        &&& engine_default_height(engine) == self.effective().spec_default_height()
        &&& directory_bytes(engine_resources_dir(engine)) == directory_bytes(
            self.effective().spec_resources_dir(),
        )
    }

    /// Whether a raster that the engine hands back is the one that was asked
    /// for: drawn under the renderer's configuration, of the requested size,
    /// with four bytes for each pixel.
    pub open spec fn accepts(&self, engine: Options, width: u32, height: u32, drawn: Pixmap) -> bool {
        &&& self.is_engine_form(engine)
        &&& pixmap_width(drawn) == width
        &&& pixmap_height(drawn) == height
        &&& pixmap_data(drawn).len() == byte_length(width, height)
    }

    /// A renderer with the given options, or with the standard ones.
    pub fn new(options: Option<SVGOptions>) -> (renderer: Resvg)
        ensures
            renderer.spec_options() == options,
    {
        Resvg { options }
    }

    /// A copy of the options that a render works with.
    pub fn effective_options(&self) -> (options: SVGOptions)
        ensures
            options == self.effective(),
            self.spec_options() is None ==> options.is_standard(),
    {
        proof {
            lemma_standard_values();
        }
        match &self.options {
            Some(options) => options.clone(),
            None => SVGOptions::default(),
        }
    }

    /// Decides `has_invalid_viewport`.
    fn viewport_is_invalid(&self) -> (yes: bool)
        ensures
            yes == self.has_invalid_viewport(),
    {
        match &self.options {
            Some(options) => !options.viewport_is_positive(),
            None => false,
        }
    }

    /// Decides `admits`, without allocating anything. Where the verdict is
    /// `Ok`, the default viewport of the effective options is a valid size.
    pub fn validate(&self, width: u32, height: u32) -> (verdict: Result<(), RenderError>)
        ensures
            verdict == self.admits(width, height),
            verdict is Ok ==> self.effective().has_positive_viewport(),
    {
        proof {
            lemma_effective_viewport(*self);
        }
        if !raster_size_is_ok(width, height) {
            Err(RenderError::Allocation)
        } else if self.viewport_is_invalid() {
            Err(RenderError::Configuration)
        } else {
            Ok(())
        }
    }

    /// Decides `is_engine_form`.
    pub fn engine_matches(&self, engine: &Options) -> (yes: bool)
        ensures
            yes == self.is_engine_form(*engine),
    {
        let options = self.effective_options();
        dpi_of(engine) == options.dpi() && default_width_of(engine) == options.default_width()
            && default_height_of(engine) == options.default_height() && same_directory(
            resources_dir_of(engine),
            options.resources_dir(),
        )
    }

    /// Starts a render of the given width and height: allocates the
    /// transparent raster, then validates the default viewport. The image
    /// that comes back is that raster, for the engine to draw on.
    pub fn start(&self, width: u32, height: u32) -> (started: Result<RenderedImage, RenderError>)
        ensures
            self.admits(width, height) matches Err(reason) ==> started == Err::<
                RenderedImage,
                RenderError,
            >(reason),
            self.admits(width, height) is Ok ==> (started matches Ok(canvas)
                && canvas.spec_width() == width && canvas.spec_height() == height
                && canvas.pixels() == Seq::new(byte_length(width, height) as nat, |i: int| 0u8)),
    {
        let canvas = match RenderedImage::blank(width, height) {
            Some(canvas) => canvas,
            None => {
                return Err(RenderError::Allocation);
            },
        };
        if self.viewport_is_invalid() {
            return Err(RenderError::Configuration);
        }
        Ok(canvas)
    }

    /// Finishes a render of the given width and height: takes the raster on
    /// which the engine drew, and the configuration with which it worked,
    /// and makes the image. The image holds exactly the bytes of the raster.
    ///
    /// A render that `start` would not admit is refused here as it is there.
    /// A raster of another size, or one drawn under a configuration that is
    /// not the renderer's, is refused as an engine error.
    pub fn finish(&self, engine: &Options, width: u32, height: u32, drawn: Pixmap) -> (rendered:
        Result<RenderedImage, RenderError>)
        ensures
            self.admits(width, height) matches Err(reason) ==> rendered == Err::<
                RenderedImage,
                RenderError,
            >(reason),
            self.admits(width, height) is Ok && !self.accepts(*engine, width, height, drawn)
                ==> rendered == Err::<RenderedImage, RenderError>(RenderError::Engine),
            self.admits(width, height) is Ok && self.accepts(*engine, width, height, drawn) ==> (
            rendered matches Ok(image) && image.spec_width() == width && image.spec_height()
                == height && image.pixels() == pixmap_data(drawn)),
    {
        match self.validate(width, height) {
            Err(reason) => {
                return Err(reason);
            },
            Ok(()) => {},
        }
        if !self.engine_matches(engine) {
            return Err(RenderError::Engine);
        }
        if drawn.width() != width || drawn.height() != height {
            return Err(RenderError::Engine);
        }
        match RenderedImage::from_pixmap(drawn) {
            Some(image) => Ok(image),
            None => Err(RenderError::Engine),
        }
    }
}

/// A renderer made without options works with the same options as one made
/// with the standard options: it admits the same renders, and the same
/// engine configurations are the engine's form of its options.
pub proof fn lemma_omitted_options_are_standard(omitted: Resvg, standard: Resvg)
    requires
        omitted.spec_options() is None,
        standard.spec_options() matches Some(options) && options.is_standard(),
    ensures
        omitted.effective() == standard.effective(),
        forall|width: u32, height: u32|
            omitted.admits(width, height) == standard.admits(width, height),
        forall|engine: Options| omitted.is_engine_form(engine) == standard.is_engine_form(engine),
        forall|engine: Options, width: u32, height: u32, drawn: Pixmap|
            omitted.accepts(engine, width, height, drawn) == standard.accepts(
                engine,
                width,
                height,
                drawn,
            ),
{
    lemma_standard_values();
    lemma_options_are_their_values(omitted.effective(), standard.effective());
}

/// The default viewport of the options that a render works with is a valid
/// size exactly where the renderer has no invalid viewport; so a render that
/// is admitted always has an engine form of its options.
pub proof fn lemma_effective_viewport(renderer: Resvg)
    ensures
        renderer.effective().has_positive_viewport() == !renderer.has_invalid_viewport(),
{
    lemma_standard_values();
}

/// A default viewport with a side of zero is refused as a configuration
/// error at every raster size that can be made.
pub proof fn lemma_zero_viewport_is_refused(renderer: Resvg, width: u32, height: u32)
    requires
        raster_size_ok(width, height),
        renderer.spec_options() matches Some(options) && (is_zero(options.spec_default_width())
            || is_zero(options.spec_default_height())),
    ensures
        renderer.admits(width, height) == Err::<(), RenderError>(RenderError::Configuration),
{
}

/// A raster with a side of zero is refused as an allocation error, whatever
/// the options are.
pub proof fn lemma_zero_size_is_refused(renderer: Resvg, width: u32, height: u32)
    requires
        width == 0 || height == 0,
    ensures
        renderer.admits(width, height) == Err::<(), RenderError>(RenderError::Allocation),
{
}

} // verus!

//! What a caller can configure about a render.

use std::path::PathBuf;
use vstd::prelude::*;

verus! {

/// `std::path::PathBuf`, carried through as it is: nothing here reads a path.
#[verifier::external_type_specification]
#[verifier::external_body]
pub struct ExDirectory(PathBuf);

/// `PathBuf::clone` returns a path equal to the one it was given.
pub assume_specification[ <PathBuf as Clone>::clone ](path: &PathBuf) -> (copy: PathBuf)
    ensures
        copy == *path,
;

/// The bytes that spell a path, as the operating system holds them.
pub uninterp spec fn path_bytes(path: PathBuf) -> Seq<u8>;

/// `Path::as_os_str` and `OsStr::as_encoded_bytes`, copied into a vector:
/// the bytes of the path, which are `path_bytes`.
#[verifier::external_body]
pub(crate) fn bytes_of_path(path: &PathBuf) -> (bytes: Vec<u8>)
    ensures
        bytes@ == path_bytes(*path),
{
    path.as_os_str().as_encoded_bytes().to_vec()
}

/// The bytes of a directory that may be absent.
pub open spec fn directory_bytes(directory: Option<PathBuf>) -> Option<Seq<u8>> {
    match directory {
        Some(path) => Some(path_bytes(path)),
        None => None,
    }
}

/// Whether two byte vectors hold the same bytes.
fn same_bytes(a: &Vec<u8>, b: &Vec<u8>) -> (same: bool)
    ensures
        same == (a@ == b@),
{
    if a.len() != b.len() {
        return false;
    }
    let mut i: usize = 0;
    while i < a.len()
        invariant
            a.len() == b.len(),
            i <= a.len(),
            forall|k: int| 0 <= k < i ==> a@[k] == b@[k],
        decreases a.len() - i,
    {
        if a[i] != b[i] {
            return false;
        }
        i += 1;
    }
    assert(a@ =~= b@);
    true
}

/// Whether two directories, each of which may be absent, are spelled by the
/// same bytes.
pub(crate) fn same_directory(a: Option<&PathBuf>, b: Option<&PathBuf>) -> (same: bool)
    ensures
        same == (directory_bytes(
            match a {
                Some(path) => Some(*path),
                None => None,
            },
        ) == directory_bytes(
            match b {
                Some(path) => Some(*path),
                None => None,
            },
        )),
{
    match (a, b) {
        (None, None) => true,
        (Some(x), Some(y)) => {
            let left = bytes_of_path(x);
            let right = bytes_of_path(y);
            same_bytes(&left, &right)
        },
        _ => false,
    }
}

/// 96.0 as a single-precision bit pattern.
pub const DEFAULT_DPI: u32 = 0x42C0_0000;

/// 100.0 as a single-precision bit pattern.
pub const DEFAULT_EXTENT: u32 = 0x42C8_0000;

/// The first bit pattern that is no longer a positive finite number:
/// positive infinity. The patterns from 1 up to here, exclusive, are the
/// positive subnormal and normal numbers, in increasing order.
pub const POSITIVE_INFINITY: u32 = 0x7F80_0000;

/// Whether a single-precision bit pattern stands for a number that is
/// finite and greater than zero.
pub open spec fn positive_finite(bits: u32) -> bool {
    0 < bits < POSITIVE_INFINITY
}

/// Whether a single-precision bit pattern stands for zero, positive or
/// negative.
pub open spec fn is_zero(bits: u32) -> bool {
    bits == 0 || bits == 0x8000_0000
}

/// Decides `positive_finite`.
pub fn is_positive_finite(bits: u32) -> (yes: bool)
    ensures
        yes == positive_finite(bits),
{
    0 < bits && bits < POSITIVE_INFINITY
}

/// SVG parsing and rendering options.
///
/// The three numbers are IEEE 754 single-precision values, held as their bit
/// patterns (`to_bits` of the number), so that every value, NaN included, is
/// stored exactly and compared exactly.
#[derive(Debug)]
pub struct SVGOptions {
    /// Target DPI; it governs unit conversion.
    dpi: u32,
    /// Viewport width to assume where the markup has no `viewBox` and a
    /// relative `width`.
    default_width: u32,
    /// Viewport height to assume where the markup has no `viewBox` and a
    /// relative `height`.
    default_height: u32,
    /// Directory against which relative paths in the markup are resolved.
    resources_dir: Option<PathBuf>,
}

impl SVGOptions {
    pub closed spec fn spec_dpi(&self) -> u32 {
        self.dpi
    }

    pub closed spec fn spec_default_width(&self) -> u32 {
        self.default_width
    }

    pub closed spec fn spec_default_height(&self) -> u32 {
        self.default_height
    }

    pub closed spec fn spec_resources_dir(&self) -> Option<PathBuf> {
        self.resources_dir
    }

    /// Whether these are exactly the four given values.
    pub open spec fn holds(
        &self,
        dpi: u32,
        default_width: u32,
        default_height: u32,
        resources_dir: Option<PathBuf>,
    ) -> bool {
        &&& self.spec_dpi() == dpi
        &&& self.spec_default_width() == default_width
        &&& self.spec_default_height() == default_height
        &&& self.spec_resources_dir() == resources_dir
    }

    /// The options of `SVGOptions::default()`: 96 DPI, a default viewport of
    /// 100 by 100, no resources directory.
    pub closed spec fn standard() -> SVGOptions {
        SVGOptions {
            dpi: DEFAULT_DPI,
            default_width: DEFAULT_EXTENT,
            default_height: DEFAULT_EXTENT,
            resources_dir: None,
        }
    }

    /// Whether these options have the four values of `standard()`.
    pub open spec fn is_standard(&self) -> bool {
        self.holds(DEFAULT_DPI, DEFAULT_EXTENT, DEFAULT_EXTENT, None)
    }

    /// Whether the default viewport is a valid size: both sides finite and
    /// greater than zero.
    pub open spec fn has_positive_viewport(&self) -> bool {
        positive_finite(self.spec_default_width()) && positive_finite(self.spec_default_height())
    }

    /// Stores the four values verbatim; nothing is validated here.
    pub fn new(
        dpi: u32,
        default_width: u32,
        default_height: u32,
        resources_dir: Option<PathBuf>,
    ) -> (options: SVGOptions)
        ensures
            options.holds(dpi, default_width, default_height, resources_dir),
    {
        SVGOptions { dpi, default_width, default_height, resources_dir }
    }

    pub fn dpi(&self) -> (bits: u32)
        ensures
            bits == self.spec_dpi(),
    {
        self.dpi
    }

    pub fn default_width(&self) -> (bits: u32)
        ensures
            bits == self.spec_default_width(),
    {
        self.default_width
    }

    pub fn default_height(&self) -> (bits: u32)
        ensures
            bits == self.spec_default_height(),
    {
        self.default_height
    }

    pub fn resources_dir(&self) -> (dir: Option<&PathBuf>)
        ensures
            dir.is_some() == self.spec_resources_dir().is_some(),
            dir matches Some(path) ==> self.spec_resources_dir() == Some(*path),
    {
        self.resources_dir.as_ref()
    }

    /// Decides `has_positive_viewport`.
    pub fn viewport_is_positive(&self) -> (yes: bool)
        ensures
            yes == self.has_positive_viewport(),
    {
        is_positive_finite(self.default_width) && is_positive_finite(self.default_height)
    }
}

impl Clone for SVGOptions {
    /// An independent copy with the same four values.
    fn clone(&self) -> (copy: SVGOptions)
        ensures
            copy == *self,
    {
        let resources_dir = match &self.resources_dir {
            Some(path) => Some(path.clone()),
            None => None,
        };
        SVGOptions {
            dpi: self.dpi,
            default_width: self.default_width,
            default_height: self.default_height,
            resources_dir,
        }
    }
}

impl Default for SVGOptions {
    /// 96 DPI, a default viewport of 100 by 100, no resources directory.
    fn default() -> (options: SVGOptions)
        ensures
            options == SVGOptions::standard(),
    {
        SVGOptions {
            dpi: DEFAULT_DPI,
            default_width: DEFAULT_EXTENT,
            default_height: DEFAULT_EXTENT,
            resources_dir: None,
        }
    }
}

/// Options are their four values: two that hold the same values are equal.
pub proof fn lemma_options_are_their_values(a: SVGOptions, b: SVGOptions)
    requires
        a.spec_dpi() == b.spec_dpi(),
        a.spec_default_width() == b.spec_default_width(),
        a.spec_default_height() == b.spec_default_height(),
        a.spec_resources_dir() == b.spec_resources_dir(),
    ensures
        a == b,
{
}

/// `standard()` holds 96 DPI, a viewport of 100 by 100 and no directory, and
/// that viewport is a valid size.
pub proof fn lemma_standard_values()
    ensures
        SVGOptions::standard().is_standard(),
        SVGOptions::standard().has_positive_viewport(),
{
}

} // verus!

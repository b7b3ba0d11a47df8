//! A single glyph: its immutable source record and its two lazily-populated
//! caches (the outline wrapped as a complete shape, and the renderer's
//! registered handle). Both caches follow a populate-once discipline: the
//! first installation stores a value, every later installation is a no-op,
//! and reads always return the stored value.

use vstd::prelude::*;
use swf::Glyph as SwfGlyph;

verus! {

/// Declaration of the outside type `swf::Glyph`, the parsed per-glyph
/// record of the document format (shape records, code point, advance).
/// The library carries values of it through opaquely.
#[verifier::external_type_specification]
#[verifier::external_body]
pub struct ExSwfGlyph(SwfGlyph);

/// Declaration of the outside type `swf::Shape`, a complete parsed shape.
/// The library stores one per glyph as the cached outline; building it from
/// the glyph record is the graphics backend's job.
#[verifier::external_type_specification]
#[verifier::external_body]
pub struct ExSwfShape(swf::Shape);

/// Identifier of a drawable resource registered with the renderer
/// collaborator. The renderer hands one out when a glyph's outline is
/// registered; this library only stores it and returns it for cache hits.
#[derive(Clone, Copy, PartialEq, Eq, Structural, Debug)]
pub struct ShapeHandle(pub usize);

/// The immutable per-glyph source data: the character code and advance
/// width, read by layout, and the opaque parsed record the outline is
/// built from.
pub struct GlyphSource {
    /// The 16-bit character code this glyph renders.
    pub code: u16,

    /// The horizontal advance of this glyph, in EM-square units.
    pub advance: u16,

    /// The underlying glyph record, containing its shape.
    pub record: SwfGlyph,
}

/// A glyph entry of a font: its source record plus the two caches. The
/// cache fields are private, so the populate-once discipline the methods
/// promise is the only way to fill them.
pub struct Glyph {
    /// The immutable source data of this glyph.
    pub source: GlyphSource,

    /// The outline wrapped as a complete shape, for hit tests and for
    /// registering with a renderer. Populated once, on first installation.
    shape: Option<swf::Shape>,

    /// Handle of the registered drawable resource. Populated once, on
    /// first installation.
    handle: Option<ShapeHandle>,
}

impl Glyph {
    /// The source record, for use in specifications (specifications of
    /// other modules see this type opaquely, its cache fields being
    /// private).
    pub closed spec fn spec_source(self) -> GlyphSource {
        self.source
    }

    /// The source record of this glyph.
    pub fn source(&self) -> (r: &GlyphSource)
        ensures
            *r == self.spec_source(),
    {
        &self.source
    }

    /// The state of the shape cache.
    pub closed spec fn spec_shape(self) -> Option<swf::Shape> {
        self.shape
    }

    /// The state of the handle cache.
    pub closed spec fn spec_handle(self) -> Option<ShapeHandle> {
        self.handle
    }

    /// A fresh glyph entry around a source record, with both caches empty.
    pub fn new(source: GlyphSource) -> (r: Glyph)
        ensures
            r.spec_source() == source,
            r.spec_shape() is None,
            r.spec_handle() is None,
    {
        Glyph { source, shape: None, handle: None }
    }

    /// The cached shape, if it has been installed.
    pub fn cached_shape(&self) -> (r: Option<&swf::Shape>)
        ensures
            r is Some <==> self.spec_shape() is Some,
            r is Some ==> *r->0 == self.spec_shape()->0,
    {
        self.shape.as_ref()
    }

    /// Install the converted outline into the shape cache. The first
    /// installation stores `shape`; once populated the cache is never
    /// replaced, so repeated installation converges to the first value.
    pub fn install_shape(&mut self, shape: swf::Shape)
        ensures
            final(self).spec_source() == old(self).spec_source(),
            final(self).spec_handle() == old(self).spec_handle(),
            final(self).spec_shape() == (if old(self).spec_shape() is Some {
                old(self).spec_shape()
            } else {
                Some(shape)
            }),
    {
        if self.shape.is_none() {
            self.shape = Some(shape);
        }
    }

    /// The cached renderer handle, if it has been installed.
    pub fn cached_handle(&self) -> (r: Option<ShapeHandle>)
        ensures
            r == self.spec_handle(),
    {
        self.handle
    }

    /// Install the handle the renderer returned for this glyph's outline.
    /// The first installation stores `handle`; once populated the cache is
    /// never replaced, so the glyph is registered at most once.
    pub fn install_handle(&mut self, handle: ShapeHandle)
        ensures
            final(self).spec_source() == old(self).spec_source(),
            final(self).spec_shape() == old(self).spec_shape(),
            final(self).spec_handle() == (if old(self).spec_handle() is Some {
                old(self).spec_handle()
            } else {
                Some(handle)
            }),
    {
        if self.handle.is_none() {
            self.handle = Some(handle);
        }
    }
}

} // verus!

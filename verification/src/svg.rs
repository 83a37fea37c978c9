//! The icon descriptor: a parsed document with the settings it is rendered
//! under, and the key under which its mesh is cached.
use crate::color::Color;
use crate::loader::{loaded, share, DocumentParseError, TreeCache};
use std::rc::Rc;
use vstd::prelude::*;

verus! {

/// The bit pattern of the single-precision number one.
pub const ONE: u32 = 0x3f80_0000u32;

/// The largest bit pattern of a positive single-precision number, that of
/// positive infinity.
pub const POSITIVE_MAX: u32 = 0x7f80_0000u32;

/// `bits` is the bit pattern of a single-precision number greater than zero:
/// the sign is clear, the number is not zero and it is a number.
pub open spec fn is_positive(bits: u32) -> bool {
    0 < bits <= POSITIVE_MAX
}

/// Whether `bits` is the bit pattern of a single-precision number greater
/// than zero.
pub fn positive(bits: u32) -> (yes: bool)
    ensures
        yes == is_positive(bits),
{
    0 < bits && bits <= POSITIVE_MAX
}

/// Distances from the four sides of a frame, each the bit pattern of a
/// single-precision number.
#[derive(Clone, Copy, Debug, PartialEq, Eq, Hash, Structural)]
pub struct Margin {
    pub left: u32,
    pub right: u32,
    pub top: u32,
    pub bottom: u32,
}

impl Margin {
    /// No margin: four times positive zero.
    pub fn zero() -> (m: Margin)
        ensures
            m == (Margin { left: 0, right: 0, top: 0, bottom: 0 }),
    {
        Margin { left: 0, right: 0, top: 0, bottom: 0 }
    }
}

/// How an icon is sized inside the frame it is given. Every number is the
/// bit pattern of a single-precision number.
#[derive(Clone, Copy, Debug, PartialEq, Eq, Hash, Structural)]
pub enum FitMode {
    /// The document's own size.
    Intrinsic,
    /// A fixed size, whatever the document's proportions.
    Size { width: u32, height: u32 },
    /// The document's own size times a factor.
    Factor(u32),
    /// Scaled evenly until the frame is covered; what sticks out is cut off.
    Cover,
    /// Scaled evenly until it fits inside the frame less the margin.
    Contain(Margin),
}

/// What identifies a tessellated mesh: the document, the settings that shape
/// the triangles, and the size it is rendered at. The color override is not
/// part of it: colors are applied to a copy of the cached mesh.
#[derive(Clone, Copy, Debug, PartialEq, Eq, Hash, Structural)]
pub struct MeshKey {
    pub document: u64,
    pub tolerance: u32,
    pub scale_tolerance: bool,
    pub fit_mode: FitMode,
    pub width: u32,
    pub height: u32,
}

/// What an icon descriptor holds.
pub struct SvgView {
    pub tree: Rc<usvg::Tree>,
    pub key: u64,
    pub color: Option<Color>,
    pub tolerance: u32,
    pub scale_tolerance: bool,
    pub fit_mode: FitMode,
}

impl SvgView {
    /// The settings that a freshly loaded icon has: tolerance one, scaled
    /// with the render size, contained in its frame without margin, colors
    /// as the document has them.
    pub open spec fn fresh(key: u64, tree: Rc<usvg::Tree>) -> SvgView {
        SvgView {
            tree,
            key,
            color: None,
            tolerance: ONE,
            scale_tolerance: true,
            fit_mode: FitMode::Contain(Margin { left: 0, right: 0, top: 0, bottom: 0 }),
        }
    }

    /// The key of the mesh that these settings give at the render size
    /// `width` by `height`.
    pub open spec fn mesh_key(self, width: u32, height: u32) -> MeshKey {
        MeshKey {
            document: self.key,
            tolerance: self.tolerance,
            scale_tolerance: self.scale_tolerance,
            fit_mode: self.fit_mode,
            width,
            height,
        }
    }
}

/// Two mesh keys are equal exactly when document, tolerance, tolerance
/// scaling, fit mode (variant and numbers) and render size agree bit for bit.
pub proof fn lemma_mesh_key_equal(a: SvgView, wa: u32, ha: u32, b: SvgView, wb: u32, hb: u32)
    ensures
        a.mesh_key(wa, ha) == b.mesh_key(wb, hb) <==> (a.key == b.key && a.tolerance == b.tolerance
            && a.scale_tolerance == b.scale_tolerance && a.fit_mode == b.fit_mode && wa == wb && ha
            == hb),
{
}

/// An icon descriptor: a shared parsed document and the settings it is
/// rendered under. The settings are changed by calls that take the
/// descriptor and give back a new one.
pub struct Svg {
    tree: Rc<usvg::Tree>,
    key: u64,
    color: Option<Color>,
    tolerance: u32,
    scale_tolerance: bool,
    fit_mode: FitMode,
}

impl View for Svg {
    type V = SvgView;

    closed spec fn view(&self) -> SvgView {
        SvgView {
            tree: self.tree,
            key: self.key,
            color: self.color,
            tolerance: self.tolerance,
            scale_tolerance: self.scale_tolerance,
            fit_mode: self.fit_mode,
        }
    }
}

impl Svg {
    #[verifier::type_invariant]
    spec fn inv(self) -> bool {
        is_positive(self.tolerance)
    }

    /// Loads an icon from the content `data` of a document. The parsed tree
    /// is taken from `cache` if the content's key is there, else `parse` is
    /// run and its tree entered there. The icon has fresh settings. An error
    /// is always the parser's, and leaves the cache as it was.
    pub fn new<F: FnOnce() -> Result<usvg::Tree, usvg::Error>>(
        cache: &mut TreeCache,
        data: &[u8],
        parse: F,
    ) -> (icon: Result<Svg, DocumentParseError>)
        requires
            call_requires(parse, ()),
        ensures
            match icon {
                Ok(svg) => {
                    &&& svg@ == SvgView::fresh(svg@.key, svg@.tree)
                    &&& old(cache)@.contains_key(svg@.key) ==> svg@.tree == old(cache)@[svg@.key]
                        && final(cache)@ == old(cache)@
                    &&& !old(cache)@.contains_key(svg@.key) ==> final(cache)@ == old(cache)@.insert(
                        svg@.key,
                        svg@.tree,
                    ) && exists|parsed: usvg::Tree|
                        call_ensures(parse, (), Ok::<usvg::Tree, usvg::Error>(parsed)) && svg@.tree
                            == Rc::new(parsed)
                    &&& (final(cache)@, Some(svg@.tree)) == loaded(
                        old(cache)@,
                        svg@.key,
                        Some(svg@.tree),
                    )
                },
                Err(_) => final(cache)@ == old(cache)@ && exists|e: usvg::Error|
                    call_ensures(parse, (), Err::<usvg::Tree, usvg::Error>(e)),
            },
    {
        match cache.load(data, parse) {
            Ok((key, tree)) => Ok(Svg::with_tree(key, tree)),
            Err(e) => Err(e),
        }
    }

    /// An icon over an already loaded tree, with fresh settings.
    pub fn with_tree(key: u64, tree: Rc<usvg::Tree>) -> (svg: Svg)
        ensures
            svg@ == SvgView::fresh(key, tree),
    {
        Svg {
            tree,
            key,
            color: None,
            tolerance: ONE,
            scale_tolerance: true,
            fit_mode: FitMode::Contain(Margin::zero()),
        }
    }

    /// Sets the tessellation tolerance, given as the bit pattern of a
    /// single-precision number greater than zero.
    pub fn with_tolerance(self, tolerance: u32) -> (svg: Svg)
        requires
            is_positive(tolerance),
        ensures
            svg@ == (SvgView { tolerance, ..self@ }),
    {
        Svg {
            tree: self.tree,
            key: self.key,
            color: self.color,
            tolerance,
            scale_tolerance: self.scale_tolerance,
            fit_mode: self.fit_mode,
        }
    }

    /// Sets whether the tolerance shrinks as the icon is rendered larger.
    pub fn with_scale_tolerance(self, scale_tolerance: bool) -> (svg: Svg)
        ensures
            svg@ == (SvgView { scale_tolerance, ..self@ }),
    {
        proof {
            use_type_invariant(&self);
        }
        Svg {
            tree: self.tree,
            key: self.key,
            color: self.color,
            tolerance: self.tolerance,
            scale_tolerance,
            fit_mode: self.fit_mode,
        }
    }

    /// Gives every element of the icon the color `color`.
    pub fn with_color(self, color: Color) -> (svg: Svg)
        ensures
            svg@ == (SvgView { color: Some(color), ..self@ }),
    {
        proof {
            use_type_invariant(&self);
        }
        Svg {
            tree: self.tree,
            key: self.key,
            color: Some(color),
            tolerance: self.tolerance,
            scale_tolerance: self.scale_tolerance,
            fit_mode: self.fit_mode,
        }
    }

    /// Sets how the icon is sized inside its frame.
    pub fn with_fit_mode(self, fit_mode: FitMode) -> (svg: Svg)
        ensures
            svg@ == (SvgView { fit_mode, ..self@ }),
    {
        proof {
            use_type_invariant(&self);
        }
        Svg {
            tree: self.tree,
            key: self.key,
            color: self.color,
            tolerance: self.tolerance,
            scale_tolerance: self.scale_tolerance,
            fit_mode,
        }
    }

    /// Another handle to the parsed document.
    pub fn tree(&self) -> (tree: Rc<usvg::Tree>)
        ensures
            tree == self@.tree,
    {
        share(&self.tree)
    }

    /// The content key of the document.
    pub fn key(&self) -> (key: u64)
        ensures
            key == self@.key,
    {
        self.key
    }

    /// The color that overrides the document's own, if one is set.
    pub fn color(&self) -> (color: Option<Color>)
        ensures
            color == self@.color,
    {
        self.color
    }

    /// The tessellation tolerance, as the bit pattern of a single-precision
    /// number. It is greater than zero.
    pub fn tolerance(&self) -> (tolerance: u32)
        ensures
            tolerance == self@.tolerance,
            is_positive(tolerance),
    {
        proof {
            use_type_invariant(self);
        }
        self.tolerance
    }

    /// Whether the tolerance shrinks as the icon is rendered larger.
    pub fn scale_tolerance(&self) -> (scale_tolerance: bool)
        ensures
            scale_tolerance == self@.scale_tolerance,
    {
        self.scale_tolerance
    }

    /// How the icon is sized inside its frame.
    pub fn fit_mode(&self) -> (fit_mode: FitMode)
        ensures
            fit_mode == self@.fit_mode,
    {
        self.fit_mode
    }

    /// The key under which the icon's mesh at the render size `width` by
    /// `height` (bit patterns of single-precision numbers) is cached.
    pub fn mesh_key(&self, width: u32, height: u32) -> (key: MeshKey)
        ensures
            key == self@.mesh_key(width, height),
    {
        MeshKey {
            document: self.key,
            tolerance: self.tolerance,
            scale_tolerance: self.scale_tolerance,
            fit_mode: self.fit_mode,
            width,
            height,
        }
    }
}

/// Setting or changing the color override leaves the mesh key as it is, so
/// recoloring an icon never asks for a new mesh.
pub proof fn lemma_color_keeps_mesh_key(config: SvgView, color: Option<Color>, width: u32, height: u32)
    ensures
        (SvgView { color, ..config }).mesh_key(width, height) == config.mesh_key(width, height),
{
}

} // verus!

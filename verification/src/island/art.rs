//! Names of the generated art: composited transition tiles and the 32 px
//! quarter tiles cut from 64 px surfaces. Drawing and caching the images is
//! the renderer's.

use vstd::prelude::*;
use crate::island::types::{SurfaceId, TransitionMask};
use crate::island::surfaces::{spec_surface_slug, surface_slug, spec_surface_tile_path, surface_tile_path};
use crate::text::{append_padded, padded_digits};

verus! {

/// Folder of the composited transition tiles.
pub const BLEND_DIR: &'static str = "runtime/generated/terrain_blends/v4";

/// Folder of the cut quarter tiles.
pub const SUBTILE_DIR: &'static str = "runtime/generated/subtiles_32";

/// Side of a quarter tile in pixels.
pub const SUBTILE_PX: u32 = 32;

/// File-name slug of a transition mask.
pub open spec fn spec_mask_slug(m: TransitionMask) -> Seq<char> {
    match m {
        TransitionMask::VerticalRough => "vertical_rough"@,
        TransitionMask::HorizontalRough => "horizontal_rough"@,
        TransitionMask::DiagonalNe => "diagonal_ne"@,
        TransitionMask::DiagonalNw => "diagonal_nw"@,
        TransitionMask::CornerNe => "corner_ne"@,
        TransitionMask::CornerNw => "corner_nw"@,
        TransitionMask::CornerSe => "corner_se"@,
        TransitionMask::CornerSw => "corner_sw"@,
        TransitionMask::SquiggleA => "squiggle_a"@,
        TransitionMask::SquiggleB => "squiggle_b"@,
        TransitionMask::Speckle => "speckle"@,
        TransitionMask::VerticalRoughLeft => "vertical_rough_left"@,
        TransitionMask::HorizontalRoughTop => "horizontal_rough_top"@,
        TransitionMask::OrganicBlob => "organic_blob"@,
    }
}

/// File-name slug of a transition mask.
pub fn mask_slug(m: TransitionMask) -> (r: &'static str)
    ensures
        r@ == spec_mask_slug(m),
{
    match m {
        TransitionMask::VerticalRough => "vertical_rough",
        TransitionMask::HorizontalRough => "horizontal_rough",
        TransitionMask::DiagonalNe => "diagonal_ne",
        TransitionMask::DiagonalNw => "diagonal_nw",
        TransitionMask::CornerNe => "corner_ne",
        TransitionMask::CornerNw => "corner_nw",
        TransitionMask::CornerSe => "corner_se",
        TransitionMask::CornerSw => "corner_sw",
        TransitionMask::SquiggleA => "squiggle_a",
        TransitionMask::SquiggleB => "squiggle_b",
        TransitionMask::Speckle => "speckle",
        TransitionMask::VerticalRoughLeft => "vertical_rough_left",
        TransitionMask::HorizontalRoughTop => "horizontal_rough_top",
        TransitionMask::OrganicBlob => "organic_blob",
    }
}

/// Asset path of a composited transition tile.
pub open spec fn spec_blend_asset_path(base: SurfaceId, overlay: SurfaceId, mask: TransitionMask, variant: u8) -> Seq<char> {
    BLEND_DIR@ + "/"@ + spec_surface_slug(base) + "__"@ + spec_surface_slug(overlay) + "__"@ + spec_mask_slug(mask) + "__v"@
        + padded_digits(variant as nat, 10, 2) + ".png"@
}

/// Asset path of a composited transition tile.
pub fn blend_asset_path(base: SurfaceId, overlay: SurfaceId, mask: TransitionMask, variant: u8) -> (r: String)
    ensures
        r@ == spec_blend_asset_path(base, overlay, mask, variant),
{
    let mut s = String::new();
    s.append(BLEND_DIR);
    s.append("/");
    s.append(surface_slug(base));
    s.append("__");
    s.append(surface_slug(overlay));
    s.append("__");
    s.append(mask_slug(mask));
    s.append("__v");
    append_padded(&mut s, variant as u64, 10, 2);
    s.append(".png");
    assert(s@ =~= spec_blend_asset_path(base, overlay, mask, variant));
    s
}

/// Where the art of a transition tile comes from: a plain surface tile when
/// both sides show one surface, else a composited blend tile.
#[derive(Clone, Debug)]
pub enum CompositeArt {
    /// The surface's own tile (`None` for surfaces without art).
    Plain(Option<&'static str>),
    /// The asset path of the composited tile.
    Blend(String),
}

/// Art of a transition from `base` to `overlay`.
pub fn composite_art(base: SurfaceId, overlay: SurfaceId, mask: TransitionMask, variant: u8) -> (r: CompositeArt)
    ensures
        base == overlay ==> match r {
            CompositeArt::Plain(p) => match p {
                Some(path) => spec_surface_tile_path(base) == Some(path@),
                None => spec_surface_tile_path(base) is None,
            },
            CompositeArt::Blend(_) => false,
        },
        base != overlay ==> match r {
            CompositeArt::Blend(path) => path@ == spec_blend_asset_path(base, overlay, mask, variant),
            CompositeArt::Plain(_) => false,
        },
{
    if base == overlay {
        CompositeArt::Plain(surface_tile_path(base))
    } else {
        CompositeArt::Blend(blend_asset_path(base, overlay, mask, variant))
    }
}

/// Quarter of a 64 px tile shown by one 32 px logic cell.
#[derive(Clone, Copy, Debug, PartialEq, Eq, Hash, Structural)]
pub enum SubtileCorner {
    Nw,
    Ne,
    Sw,
    Se,
}

/// Slug of a quarter.
pub open spec fn spec_corner_slug(c: SubtileCorner) -> Seq<char> {
    match c {
        SubtileCorner::Nw => "nw"@,
        SubtileCorner::Ne => "ne"@,
        SubtileCorner::Sw => "sw"@,
        SubtileCorner::Se => "se"@,
    }
}

impl SubtileCorner {
    /// Slug of the quarter.
    pub fn slug(self) -> (r: &'static str)
        ensures
            r@ == spec_corner_slug(self),
    {
        match self {
            SubtileCorner::Nw => "nw",
            SubtileCorner::Ne => "ne",
            SubtileCorner::Sw => "sw",
            SubtileCorner::Se => "se",
        }
    }

    /// Pixel origin of the quarter in its 64 px tile.
    pub fn origin(self) -> (r: (u32, u32))
        ensures
            r == (match self {
                SubtileCorner::Nw => (0u32, 0u32),
                SubtileCorner::Ne => (32u32, 0u32),
                SubtileCorner::Sw => (0u32, 32u32),
                SubtileCorner::Se => (32u32, 32u32),
            }),
    {
        match self {
            SubtileCorner::Nw => (0, 0),
            SubtileCorner::Ne => (SUBTILE_PX, 0),
            SubtileCorner::Sw => (0, SUBTILE_PX),
            SubtileCorner::Se => (SUBTILE_PX, SUBTILE_PX),
        }
    }

    /// Quarter shown by the cell at offset `(dc, dr)` of its display block;
    /// any offset but the first three is the south-east quarter.
    pub fn for_cell(dc: i32, dr: i32) -> (r: SubtileCorner)
        ensures
            r == (if dc == 0 && dr == 0 {
                SubtileCorner::Nw
            } else if dc == 1 && dr == 0 {
                SubtileCorner::Ne
            } else if dc == 0 && dr == 1 {
                SubtileCorner::Sw
            } else {
                SubtileCorner::Se
            }),
    {
        match (dc, dr) {
            (0, 0) => SubtileCorner::Nw,
            (1, 0) => SubtileCorner::Ne,
            (0, 1) => SubtileCorner::Sw,
            _ => SubtileCorner::Se,
        }
    }
}

/// Asset path of a quarter tile.
pub open spec fn spec_subtile_path(surface: SurfaceId, corner: SubtileCorner) -> Seq<char> {
    SUBTILE_DIR@ + "/"@ + spec_surface_slug(surface) + "_"@ + spec_corner_slug(corner) + ".png"@
}

/// Asset path of a quarter tile.
pub fn subtile_path(surface: SurfaceId, corner: SubtileCorner) -> (r: String)
    ensures
        r@ == spec_subtile_path(surface, corner),
{
    let mut s = String::new();
    s.append(SUBTILE_DIR);
    s.append("/");
    s.append(surface_slug(surface));
    s.append("_");
    s.append(corner.slug());
    s.append(".png");
    assert(s@ =~= spec_subtile_path(surface, corner));
    s
}

} // verus!

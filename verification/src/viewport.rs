//! The drawing surface's size and the detail tier derived from it.

use vstd::prelude::*;

verus! {

/// Largest viewport area, in square pixels, still drawn at the coarse tier.
pub const COARSE_AREA_LIMIT: u64 = 300_000;

/// Largest viewport area, in square pixels, still drawn at the medium tier.
pub const MEDIUM_AREA_LIMIT: u64 = 1_800_000;

/// How densely the spheres are tessellated. A tier multiplies the base
/// subdivision counts of every sphere by 2, 3 or 4.
#[derive(Clone, Copy, Debug, PartialEq, Eq, Structural)]
pub enum DetailTier {
    Coarse,
    Medium,
    Fine,
}

impl DetailTier {
    /// The tier for a viewport of `area` square pixels: fine above
    /// 1,800,000, medium above 300,000, coarse otherwise.
    pub open spec fn of_area(area: int) -> DetailTier {
        if area > MEDIUM_AREA_LIMIT {
            DetailTier::Fine
        } else if area > COARSE_AREA_LIMIT {
            DetailTier::Medium
        } else {
            DetailTier::Coarse
        }
    }

    /// The factor applied to base subdivision counts.
    pub open spec fn factor(self) -> int {
        match self {
            DetailTier::Coarse => 2,
            DetailTier::Medium => 3,
            DetailTier::Fine => 4,
        }
    }

    /// Chooses the tier for a viewport of `area` square pixels.
    pub fn from_area(area: u64) -> (tier: DetailTier)
        ensures
            tier == DetailTier::of_area(area as int),
    {
        if area > MEDIUM_AREA_LIMIT {
            DetailTier::Fine
        } else if area > COARSE_AREA_LIMIT {
            DetailTier::Medium
        } else {
            DetailTier::Coarse
        }
    }

    /// The factor applied to base subdivision counts: 2, 3 or 4.
    pub fn multiplier(self) -> (m: u32)
        ensures
            m == self.factor(),
            2 <= m <= 4,
    {
        match self {
            DetailTier::Coarse => 2,
            DetailTier::Medium => 3,
            DetailTier::Fine => 4,
        }
    }
}

/// The size of the drawing surface in whole pixels.
#[derive(Clone, Copy, Debug, PartialEq, Eq, Structural)]
pub struct Viewport {
    pub width: u32,
    pub height: u32,
}

impl Viewport {
    /// The surface's area in square pixels.
    pub open spec fn area_px(self) -> int {
        self.width * self.height
    }

    /// The detail tier that this surface's area calls for.
    pub open spec fn detail(self) -> DetailTier {
        DetailTier::of_area(self.area_px())
    }

    /// A surface of `width` by `height` pixels.
    pub fn new(width: u32, height: u32) -> (viewport: Viewport)
        ensures
            viewport == (Viewport { width, height }),
    {
        Viewport { width, height }
    }

    /// The surface's area in square pixels. Two `u32` sides always fit.
    pub fn area(&self) -> (area: u64)
        ensures
            area == self.area_px(),
    {
        let width: u64 = self.width as u64;
        let height: u64 = self.height as u64;
        assert(width * height <= 0xffff_ffff * 0xffff_ffff) by (nonlinear_arith)
            requires
                width <= 0xffff_ffff,
                height <= 0xffff_ffff,
        ;
        width * height
    }

    /// The detail tier for this surface, decided once from its area.
    pub fn detail_tier(&self) -> (tier: DetailTier)
        ensures
            tier == self.detail(),
    {
        DetailTier::from_area(self.area())
    }
}

/// A larger surface never gets a coarser tier.
pub proof fn lemma_tier_grows_with_area(smaller: int, larger: int)
    requires
        smaller <= larger,
    ensures
        DetailTier::of_area(smaller).factor() <= DetailTier::of_area(larger).factor(),
{
}

} // verus!

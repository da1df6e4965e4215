//! The dot spheres: their configuration, their tessellation and how many
//! dots each one has.

use vstd::prelude::*;
use crate::rotation::Weights;
use crate::viewport::DetailTier;

verus! {

/// Number of points of a sphere tessellated into `v` bands from pole to
/// pole with `u` points on each ring between two bands: the two poles and
/// `v - 1` rings of `u` points.
pub open spec fn sphere_points(u: int, v: int) -> int {
    2 + (v - 1) * u
}

/// The configuration of one dot sphere.
#[derive(Clone, Copy, Debug, PartialEq, Eq, Structural)]
pub struct SetConfig {
    /// Points on each ring around the vertical axis.
    pub u: u32,
    /// Bands between the two poles.
    pub v: u32,
    /// Diameter of the sphere.
    pub diameter: u32,
    /// Radius, in pixels, of every dot drawn for this sphere.
    pub radius: u32,
    /// Rotation weights.
    pub ro: Weights,
}

impl SetConfig {
    /// Subdivision counts, diameter and dot radius are all strictly positive.
    pub open spec fn valid(self) -> bool {
        self.u > 0 && self.v > 0 && self.diameter > 0 && self.radius > 0
    }

    /// Whether both subdivision counts, multiplied by the tier's factor,
    /// still fit their type.
    pub open spec fn scales_by(self, tier: DetailTier) -> bool {
        self.u * tier.factor() <= u32::MAX && self.v * tier.factor() <= u32::MAX
    }

    /// This configuration with both subdivision counts multiplied by the
    /// tier's factor.
    pub open spec fn scaled_by(self, tier: DetailTier) -> SetConfig {
        SetConfig {
            u: (self.u * tier.factor()) as u32,
            v: (self.v * tier.factor()) as u32,
            diameter: self.diameter,
            radius: self.radius,
            ro: self.ro,
        }
    }

    /// Whether subdivision counts, diameter and dot radius are all strictly
    /// positive.
    pub fn is_valid(&self) -> (ok: bool)
        ensures
            ok == self.valid(),
    {
        self.u > 0 && self.v > 0 && self.diameter > 0 && self.radius > 0
    }

    /// Whether `scaled` may be called with this tier.
    pub fn can_scale(&self, tier: DetailTier) -> (ok: bool)
        ensures
            ok == self.scales_by(tier),
    {
        let factor: u32 = tier.multiplier();
        self.u <= u32::MAX / factor && self.v <= u32::MAX / factor
    }

    /// Multiplies both subdivision counts by the tier's factor and leaves
    /// the rest as it is.
    pub fn scaled(&self, tier: DetailTier) -> (scaled: SetConfig)
        requires
            self.scales_by(tier),
        ensures
            scaled == self.scaled_by(tier),
            scaled.u == self.u * tier.factor(),
            scaled.v == self.v * tier.factor(),
            self.valid() ==> scaled.valid() && scaled.v >= 2,
    {
        let factor: u32 = tier.multiplier();
        SetConfig {
            u: self.u * factor,
            v: self.v * factor,
            diameter: self.diameter,
            radius: self.radius,
            ro: self.ro,
        }
    }
}

/// A sphere given by its diameter and its tessellation, from which the
/// host generates the points.
#[derive(Clone, Copy, Debug, PartialEq, Eq, Structural)]
pub struct Sphere {
    pub diameter: u32,
    /// Points on each ring around the vertical axis.
    pub u: u32,
    /// Bands between the two poles.
    pub v: u32,
}

impl Sphere {
    /// Number of points on the sphere.
    pub open spec fn points(self) -> int {
        sphere_points(self.u as int, self.v as int)
    }

    /// Whether the points can be generated: every ring has a point, there
    /// are at least two bands and so at least one ring, and the points are
    /// few enough to be numbered by a `u32`.
    pub open spec fn generable(self) -> bool {
        self.u >= 1 && self.v >= 2 && self.points() <= u32::MAX
    }

    /// Counts the points on the sphere: two poles and, between each two
    /// neighbouring bands, a ring of `u` points.
    pub fn point_count(&self) -> (count: u64)
        requires
            self.v > 0,
        ensures
            count == self.points(),
            count >= 2,
    {
        let rings: u64 = (self.v - 1) as u64;
        let per_ring: u64 = self.u as u64;
        assert(0 <= rings * per_ring <= 0xffff_ffff * 0xffff_ffff) by (nonlinear_arith)
            requires
                0 <= rings <= 0xffff_ffff,
                0 <= per_ring <= 0xffff_ffff,
        ;
        2 + rings * per_ring
    }

    /// Whether the points can be generated: at least one point on each
    /// ring, at least two bands, and at most `u32::MAX` points.
    pub fn is_generable(&self) -> (ok: bool)
        ensures
            ok == self.generable(),
    {
        self.u >= 1 && self.v >= 2 && self.point_count() <= u32::MAX as u64
    }
}

/// One dot sphere of the animation.
#[derive(Clone, Copy, Debug, PartialEq, Eq, Structural)]
pub struct DotSet {
    /// The sphere whose points are drawn as dots.
    pub mesh: Sphere,
    /// Radius, in pixels, of every dot.
    pub radius: u32,
    /// Rotation weights.
    pub rotation: Weights,
}

impl DotSet {
    /// The dot sphere that a configuration describes.
    pub open spec fn of(config: SetConfig) -> DotSet {
        DotSet {
            mesh: Sphere { diameter: config.diameter, u: config.u, v: config.v },
            radius: config.radius,
            rotation: config.ro,
        }
    }

    /// The sphere's subdivision counts and diameter and the dot radius are
    /// all strictly positive.
    pub open spec fn valid(self) -> bool {
        self.mesh.u > 0 && self.mesh.v > 0 && self.mesh.diameter > 0 && self.radius > 0
    }

    /// Builds the dot sphere that `config` describes.
    pub fn new(config: &SetConfig) -> (set: DotSet)
        ensures
            set == DotSet::of(*config),
            set.valid() == config.valid(),
    {
        DotSet {
            mesh: Sphere { diameter: config.diameter, u: config.u, v: config.v },
            radius: config.radius,
            rotation: config.ro,
        }
    }

    /// Whether the sphere's subdivision counts and diameter and the dot
    /// radius are all strictly positive.
    pub fn is_valid(&self) -> (ok: bool)
        ensures
            ok == self.valid(),
    {
        self.mesh.u > 0 && self.mesh.v > 0 && self.mesh.diameter > 0 && self.radius > 0
    }
}

/// Number of dot spheres in the standard animation.
pub const STANDARD_SETS: usize = 3;

/// The base configuration of the `i`-th standard sphere, innermost first,
/// before any detail tier is applied.
pub open spec fn base_config(i: int) -> SetConfig {
    if i == 0 {
        SetConfig { u: 2, v: 1, diameter: 20, radius: 4, ro: Weights::of(-2, -1, 3) }
    } else if i == 1 {
        SetConfig { u: 4, v: 2, diameter: 40, radius: 3, ro: Weights::of(-1, 1, 2) }
    } else {
        SetConfig { u: 8, v: 4, diameter: 60, radius: 2, ro: Weights::of(-1, 3, 1) }
    }
}

/// The configurations of the standard spheres at a detail tier.
pub open spec fn standard_config_seq(tier: DetailTier) -> Seq<SetConfig> {
    Seq::new(STANDARD_SETS as nat, |i: int| base_config(i).scaled_by(tier))
}

/// The base configurations of the three standard spheres, innermost first.
pub fn base_configs() -> (configs: Vec<SetConfig>)
    ensures
        configs@ == Seq::new(STANDARD_SETS as nat, |i: int| base_config(i)),
{
    let mut configs: Vec<SetConfig> = Vec::new();
    configs.push(
        SetConfig { u: 2, v: 1, diameter: 20, radius: 4, ro: Weights { x: -2, y: -1, z: 3 } },
    );
    configs.push(
        SetConfig { u: 4, v: 2, diameter: 40, radius: 3, ro: Weights { x: -1, y: 1, z: 2 } },
    );
    configs.push(
        SetConfig { u: 8, v: 4, diameter: 60, radius: 2, ro: Weights { x: -1, y: 3, z: 1 } },
    );
    assert(configs@ =~= Seq::new(STANDARD_SETS as nat, |i: int| base_config(i)));
    configs
}

/// The configurations of the three standard spheres with their subdivision
/// counts scaled by the tier. At every tier each of them is valid and
/// describes a sphere whose points can be generated.
pub fn standard_configs(tier: DetailTier) -> (configs: Vec<SetConfig>)
    ensures
        configs@ == standard_config_seq(tier),
        forall|i: int|
            0 <= i < configs@.len() ==> (#[trigger] configs@[i]).valid() && DotSet::of(
                configs@[i],
            ).mesh.generable(),
{
    let base = base_configs();
    let mut configs: Vec<SetConfig> = Vec::new();
    let mut i: usize = 0;
    while i < base.len()
        invariant
            i <= base.len(),
            base@ == Seq::new(STANDARD_SETS as nat, |j: int| base_config(j)),
            configs@.len() == i,
            forall|j: int| 0 <= j < i ==> configs@[j] == base_config(j).scaled_by(tier),
            forall|j: int|
                0 <= j < i ==> (#[trigger] configs@[j]).valid() && DotSet::of(
                    configs@[j],
                ).mesh.generable(),
        decreases base.len() - i,
    {
        let config = base[i].scaled(tier);
        proof {
            lemma_points_grow_with_subdivisions(config.u as int, config.v as int, 32, 16);
        }
        configs.push(config);
        i += 1;
    }
    assert(configs@ =~= standard_config_seq(tier));
    configs
}

/// Builds one dot sphere from each configuration, in the same order.
pub fn build_sets(configs: &Vec<SetConfig>) -> (sets: Vec<DotSet>)
    ensures
        sets@ == configs@.map_values(|config: SetConfig| DotSet::of(config)),
{
    let mut sets: Vec<DotSet> = Vec::new();
    let mut i: usize = 0;
    while i < configs.len()
        invariant
            i <= configs.len(),
            sets@.len() == i,
            forall|j: int| 0 <= j < i ==> sets@[j] == DotSet::of(configs@[j]),
        decreases configs.len() - i,
    {
        sets.push(DotSet::new(&configs[i]));
        i += 1;
    }
    assert(sets@ =~= configs@.map_values(|config: SetConfig| DotSet::of(config)));
    sets
}

/// More subdivisions never give fewer points.
pub proof fn lemma_points_grow_with_subdivisions(u: int, v: int, more_u: int, more_v: int)
    requires
        0 <= u <= more_u,
        1 <= v <= more_v,
    ensures
        sphere_points(u, v) <= sphere_points(more_u, more_v),
{
    assert((v - 1) * u <= (more_v - 1) * more_u) by (nonlinear_arith)
        requires
            0 <= u <= more_u,
            0 <= v - 1 <= more_v - 1,
    ;
}

/// A finer tier never gives a sphere fewer points: for fixed base
/// subdivision counts, the number of points does not decrease as the
/// tier's factor grows. Where the scaled counts fit their type, the same
/// holds of the dot spheres built from the scaled configurations.
pub proof fn lemma_density_grows_with_tier(base: SetConfig, coarser: DetailTier, finer: DetailTier)
    requires
        base.u > 0,
        base.v > 0,
        coarser.factor() <= finer.factor(),
    ensures
        sphere_points(base.u * coarser.factor(), base.v * coarser.factor()) <= sphere_points(
            base.u * finer.factor(),
            base.v * finer.factor(),
        ),
        base.scales_by(finer) ==> DotSet::of(base.scaled_by(coarser)).mesh.points() <= DotSet::of(
            base.scaled_by(finer),
        ).mesh.points(),
{
    let u: int = base.u as int;
    let v: int = base.v as int;
    let j: int = coarser.factor();
    let k: int = finer.factor();
    assert(u * j <= u * k && v * j <= v * k && 1 <= v * j) by (nonlinear_arith)
        requires
            u >= 1,
            v >= 1,
            1 <= j <= k,
    ;
    lemma_points_grow_with_subdivisions(u * j, v * j, u * k, v * k);
}

} // verus!

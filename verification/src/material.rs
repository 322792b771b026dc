//! The lighting models a material can be rendered with.

use vstd::prelude::*;

verus! {

/// Lighting models which specify how the lighting is computed when rendering a
/// material: a trade-off between how fast the computations are and how physically
/// correct they look.
#[derive(Debug, Copy, Clone, PartialEq, Eq, Structural)]
pub enum LightingModel {
    /// Phong lighting model: the fastest to calculate.
    Phong,
    /// Blinn lighting model: almost as fast as Phong, with fewer artifacts.
    Blinn,
    /// Cook-Torrance lighting model with the given normal distribution and geometry
    /// functions: the most physically correct and the most expensive.
    Cook(NormalDistributionFunction, GeometryFunction),
}

/// The geometry function used in a Cook-Torrance lighting model.
#[derive(Debug, Copy, Clone, PartialEq, Eq, Structural)]
pub enum GeometryFunction {
    SmithSchlickGGX,
}

/// The normal distribution function used in a Cook-Torrance lighting model.
#[derive(Debug, Copy, Clone, PartialEq, Eq, Structural)]
pub enum NormalDistributionFunction {
    Blinn,
    Beckmann,
    TrowbridgeReitzGGX,
}

} // verus!

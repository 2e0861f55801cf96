//! Color-state enumerations, and the two-way choices a color state makes:
//! colorimetry by a named color space or by explicit primaries, and an EOTF
//! by a named transfer function or by a gamma exponent. The primaries and
//! the exponent are continuous and are held as payloads of types `P` and `G`.
use vstd::prelude::*;

verus! {

/// A named color space.
#[derive(Debug, Clone, Copy, PartialEq, Eq, Structural, Hash)]
pub enum Colorspace {
    Srgb,
    Bt2020,
    Ntsc,
    Pal,
    P3,
}

/// A named transfer function.
#[derive(Debug, Clone, Copy, PartialEq, Eq, Structural, Hash)]
pub enum TransferFunction {
    SrgbPiecewise,
    Gamma22,
    Pq,
    Bt1886,
    Linear,
}

/// How a color state describes its colorimetry.
#[derive(Debug, Clone, Copy, PartialEq, Eq, Structural, Hash)]
pub enum ColorimetryType {
    Colorspace,
    Primaries,
}

/// How a color state describes its EOTF.
#[derive(Debug, Clone, Copy, PartialEq, Eq, Structural, Hash)]
pub enum EotfType {
    Named,
    Gamma,
}

/// How a color state describes its luminance.
#[derive(Debug, Clone, Copy, PartialEq, Eq, Structural, Hash)]
pub enum LuminanceType {
    Derived,
    Explicit,
}

/// The colorimetry of a color state: a named color space, or primaries.
#[derive(Debug, Clone, Copy, PartialEq)]
pub enum Colorimetry<P> {
    Colorspace(Colorspace),
    Primaries(P),
}

impl<P> Colorimetry<P> {
    /// How the colorimetry is given.
    pub fn colorimetry_type(&self) -> (r: ColorimetryType)
        ensures
            r == (match *self {
                Colorimetry::Colorspace(_) => ColorimetryType::Colorspace,
                Colorimetry::Primaries(_) => ColorimetryType::Primaries,
            }),
    {
        match self {
            Colorimetry::Colorspace(_) => ColorimetryType::Colorspace,
            Colorimetry::Primaries(_) => ColorimetryType::Primaries,
        }
    }
}

/// The EOTF of a color state: a named transfer function, or a gamma
/// exponent.
#[derive(Debug, Clone, Copy, PartialEq)]
pub enum Eotf<G> {
    Named(TransferFunction),
    Gamma(G),
}

impl<G> Eotf<G> {
    /// How the EOTF is given.
    pub fn eotf_type(&self) -> (r: EotfType)
        ensures
            r == (match *self {
                Eotf::Named(_) => EotfType::Named,
                Eotf::Gamma(_) => EotfType::Gamma,
            }),
    {
        match self {
            Eotf::Named(_) => EotfType::Named,
            Eotf::Gamma(_) => EotfType::Gamma,
        }
    }
}

} // verus!

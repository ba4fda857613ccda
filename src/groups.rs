//! Closed groups of tag kinds.
//!
//! An operation that the engine only accepts on some kinds of entities takes
//! one of these groups, so a tag of any other kind is refused when the
//! program is compiled, before any call is made.
use vstd::prelude::*;
use crate::tags::{CurveTag, PointTag, ShellTag, SurfaceTag, VolumeTag, WireTag};

verus! {

/// The basic geometry kinds: points, curves, surfaces and volumes.
#[derive(Debug, Clone, Copy, PartialEq, Eq, Structural)]
pub enum BasicShape {
    Point(PointTag),
    Curve(CurveTag),
    Surface(SurfaceTag),
    Volume(VolumeTag),
}

/// Every geometry kind: the basic ones, wires and shells.
#[derive(Debug, Clone, Copy, PartialEq, Eq, Structural)]
pub enum GeneralShape {
    Point(PointTag),
    Curve(CurveTag),
    Wire(WireTag),
    Surface(SurfaceTag),
    Shell(ShellTag),
    Volume(VolumeTag),
}

/// Only curves or surfaces.
#[derive(Debug, Clone, Copy, PartialEq, Eq, Structural)]
pub enum CurveOrSurface {
    Curve(CurveTag),
    Surface(SurfaceTag),
}

impl BasicShape {
    /// The dimension of the entity: 0 for points up to 3 for volumes.
    pub open spec fn dim(self) -> i32 {
        match self {
            BasicShape::Point(_) => 0,
            BasicShape::Curve(_) => 1,
            BasicShape::Surface(_) => 2,
            BasicShape::Volume(_) => 3,
        }
    }

    /// The identifier of the entity.
    pub open spec fn raw(self) -> i32 {
        match self {
            BasicShape::Point(t) => t@,
            BasicShape::Curve(t) => t@,
            BasicShape::Surface(t) => t@,
            BasicShape::Volume(t) => t@,
        }
    }

    /// The `(dimension, identifier)` pair by which the engine names the entity.
    pub fn dim_tag(&self) -> (r: (i32, i32))
        ensures
            r == (self.dim(), self.raw()),
    {
        match self {
            BasicShape::Point(t) => (0, t.to_raw()),
            BasicShape::Curve(t) => (1, t.to_raw()),
            BasicShape::Surface(t) => (2, t.to_raw()),
            BasicShape::Volume(t) => (3, t.to_raw()),
        }
    }
}

impl CurveOrSurface {
    /// The dimension of the entity: 1 for curves, 2 for surfaces.
    pub open spec fn dim(self) -> i32 {
        match self {
            CurveOrSurface::Curve(_) => 1,
            CurveOrSurface::Surface(_) => 2,
        }
    }

    /// The identifier of the entity.
    pub open spec fn raw(self) -> i32 {
        match self {
            CurveOrSurface::Curve(t) => t@,
            CurveOrSurface::Surface(t) => t@,
        }
    }

    /// The `(dimension, identifier)` pair by which the engine names the entity.
    pub fn dim_tag(&self) -> (r: (i32, i32))
        ensures
            r == (self.dim(), self.raw()),
    {
        match self {
            CurveOrSurface::Curve(t) => (1, t.to_raw()),
            CurveOrSurface::Surface(t) => (2, t.to_raw()),
        }
    }

    /// The member of this group that a basic shape is, if any.
    pub open spec fn of_basic(shape: BasicShape) -> Option<CurveOrSurface> {
        match shape {
            BasicShape::Curve(t) => Some(CurveOrSurface::Curve(t)),
            BasicShape::Surface(t) => Some(CurveOrSurface::Surface(t)),
            _ => None,
        }
    }

    /// The member of this group that a basic shape is, if any: curves and
    /// surfaces are kept as they are, points and volumes have none.
    pub fn from_basic(shape: BasicShape) -> (r: Option<CurveOrSurface>)
        ensures
            r == Self::of_basic(shape),
    {
        match shape {
            BasicShape::Curve(t) => Some(CurveOrSurface::Curve(t)),
            BasicShape::Surface(t) => Some(CurveOrSurface::Surface(t)),
            _ => None,
        }
    }
}

impl From<PointTag> for BasicShape {
    fn from(t: PointTag) -> (r: BasicShape)
        ensures
            r == BasicShape::Point(t),
    {
        BasicShape::Point(t)
    }
}

impl vstd::std_specs::convert::FromSpecImpl<PointTag> for BasicShape {
    open spec fn obeys_from_spec() -> bool {
        true
    }

    open spec fn from_spec(v: PointTag) -> BasicShape {
        BasicShape::Point(v)
    }
}

impl From<CurveTag> for BasicShape {
    fn from(t: CurveTag) -> (r: BasicShape)
        ensures
            r == BasicShape::Curve(t),
    {
        BasicShape::Curve(t)
    }
}

impl vstd::std_specs::convert::FromSpecImpl<CurveTag> for BasicShape {
    open spec fn obeys_from_spec() -> bool {
        true
    }

    open spec fn from_spec(v: CurveTag) -> BasicShape {
        BasicShape::Curve(v)
    }
}

impl From<CurveTag> for CurveOrSurface {
    fn from(t: CurveTag) -> (r: CurveOrSurface)
        ensures
            r == CurveOrSurface::Curve(t),
    {
        CurveOrSurface::Curve(t)
    }
}

impl vstd::std_specs::convert::FromSpecImpl<CurveTag> for CurveOrSurface {
    open spec fn obeys_from_spec() -> bool {
        true
    }

    open spec fn from_spec(v: CurveTag) -> CurveOrSurface {
        CurveOrSurface::Curve(v)
    }
}

impl From<SurfaceTag> for CurveOrSurface {
    fn from(t: SurfaceTag) -> (r: CurveOrSurface)
        ensures
            r == CurveOrSurface::Surface(t),
    {
        CurveOrSurface::Surface(t)
    }
}

impl vstd::std_specs::convert::FromSpecImpl<SurfaceTag> for CurveOrSurface {
    open spec fn obeys_from_spec() -> bool {
        true
    }

    open spec fn from_spec(v: SurfaceTag) -> CurveOrSurface {
        CurveOrSurface::Surface(v)
    }
}

/// Of the basic shapes, the curve-or-surface group refuses exactly the points
/// and the volumes, and takes every curve and every surface as it is.
pub proof fn lemma_curve_or_surface_admits(shape: BasicShape)
    ensures
        CurveOrSurface::of_basic(shape) is None <==> (shape is Point || shape is Volume),
        shape matches BasicShape::Curve(t) ==> CurveOrSurface::of_basic(shape) == Some(
            CurveOrSurface::Curve(t),
        ),
        shape matches BasicShape::Surface(t) ==> CurveOrSurface::of_basic(shape) == Some(
            CurveOrSurface::Surface(t),
        ),
        CurveOrSurface::of_basic(shape) matches Some(g) ==> g.dim() == shape.dim() && g.raw()
            == shape.raw(),
{
}

/// Every curve and every surface converts into the curve-or-surface group
/// unchanged, with the dimension and identifier it had.
pub proof fn lemma_curve_or_surface_from(c: CurveTag, s: SurfaceTag)
    ensures
        <CurveOrSurface as vstd::std_specs::convert::FromSpec<CurveTag>>::from_spec(c)
            == CurveOrSurface::Curve(c),
        <CurveOrSurface as vstd::std_specs::convert::FromSpec<SurfaceTag>>::from_spec(s)
            == CurveOrSurface::Surface(s),
        CurveOrSurface::Curve(c).dim() == 1 && CurveOrSurface::Curve(c).raw() == c@,
        CurveOrSurface::Surface(s).dim() == 2 && CurveOrSurface::Surface(s).raw() == s@,
{
}

} // verus!

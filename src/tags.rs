//! Identifiers that the engine hands out, one type per kind of entity.
//!
//! A tag is only obtained from an operation that the engine reported as
//! successful: there is no public way to build one from a bare integer.
//!
//! A tag carries no binding to the model that issued it. The engine numbers
//! the entities of each model on its own, so two models may hand out equal
//! tags, and a tag of one model handed to an operation on another is passed
//! through unchecked. Keeping tags with their model is the caller's duty.
//! Likewise, removing an entity does not invalidate the tags that name it.
use vstd::prelude::*;

verus! {

/// The raw form of a result that holds a tag: its identifier on success.
pub open spec fn raw_result<T: View<V = i32>>(r: Result<T, crate::err::GmshError>) -> Result<i32, crate::err::GmshError> {
    match r {
        Ok(t) => Ok(t@),
        Err(e) => Err(e),
    }
}

/// A point tag. Points are used to build larger shapes. 0D.
#[derive(Debug, Clone, Copy, PartialEq, Eq, Structural, PartialOrd, Ord, Hash)]
pub struct PointTag(i32);

impl View for PointTag {
    type V = i32;

    closed spec fn view(&self) -> i32 {
        self.0
    }
}

impl PointTag {
    /// Two tags of this kind are equal exactly when their identifiers are,
    /// whichever models issued them.
    pub proof fn lemma_eq_by_id(self, other: Self)
        ensures
            (self == other) <==> (self@ == other@),
    {
    }

    /// The identifier passed to the engine.
    pub fn to_raw(&self) -> (r: i32)
        ensures
            r == self@,
    {
        self.0
    }

    /// The tag that the engine issued as `raw`.
    pub(crate) fn issued(raw: i32) -> (t: Self)
        ensures
            t@ == raw,
    {
        PointTag(raw)
    }
}

/// A curve tag, built from points. The curve type includes straight lines. 1D.
///
/// The sign of the identifier gives the direction in which the curve is
/// traversed: negating a tag reverses it.
#[derive(Debug, Clone, Copy, PartialEq, Eq, Structural, PartialOrd, Ord, Hash)]
pub struct CurveTag(i32);

impl View for CurveTag {
    type V = i32;

    closed spec fn view(&self) -> i32 {
        self.0
    }
}

impl CurveTag {
    /// Two tags of this kind are equal exactly when their identifiers are,
    /// whichever models issued them.
    pub proof fn lemma_eq_by_id(self, other: Self)
        ensures
            (self == other) <==> (self@ == other@),
    {
    }

    /// The identifier passed to the engine.
    pub fn to_raw(&self) -> (r: i32)
        ensures
            r == self@,
    {
        self.0
    }

    /// The tag that the engine issued as `raw`.
    pub(crate) fn issued(raw: i32) -> (t: Self)
        ensures
            t@ == raw,
    {
        CurveTag(raw)
    }
}

/// A wire tag. Wires are paths of curves. 1.5D.
#[derive(Debug, Clone, Copy, PartialEq, Eq, Structural, PartialOrd, Ord, Hash)]
pub struct WireTag(i32);

impl View for WireTag {
    type V = i32;

    closed spec fn view(&self) -> i32 {
        self.0
    }
}

impl WireTag {
    /// Two tags of this kind are equal exactly when their identifiers are,
    /// whichever models issued them.
    pub proof fn lemma_eq_by_id(self, other: Self)
        ensures
            (self == other) <==> (self@ == other@),
    {
    }

    /// The identifier passed to the engine.
    pub fn to_raw(&self) -> (r: i32)
        ensures
            r == self@,
    {
        self.0
    }

    /// The tag that the engine issued as `raw`.
    pub(crate) fn issued(raw: i32) -> (t: Self)
        ensures
            t@ == raw,
    {
        WireTag(raw)
    }
}

/// A surface tag. Surfaces are built from closed wires. 2D.
#[derive(Debug, Clone, Copy, PartialEq, Eq, Structural, PartialOrd, Ord, Hash)]
pub struct SurfaceTag(i32);

impl View for SurfaceTag {
    type V = i32;

    closed spec fn view(&self) -> i32 {
        self.0
    }
}

impl SurfaceTag {
    /// Two tags of this kind are equal exactly when their identifiers are,
    /// whichever models issued them.
    pub proof fn lemma_eq_by_id(self, other: Self)
        ensures
            (self == other) <==> (self@ == other@),
    {
    }

    /// The identifier passed to the engine.
    pub fn to_raw(&self) -> (r: i32)
        ensures
            r == self@,
    {
        self.0
    }

    /// The tag that the engine issued as `raw`.
    pub(crate) fn issued(raw: i32) -> (t: Self)
        ensures
            t@ == raw,
    {
        SurfaceTag(raw)
    }
}

/// A shell tag. Shells are built from surface loops. 2.5D.
#[derive(Debug, Clone, Copy, PartialEq, Eq, Structural, PartialOrd, Ord, Hash)]
pub struct ShellTag(i32);

impl View for ShellTag {
    type V = i32;

    closed spec fn view(&self) -> i32 {
        self.0
    }
}

impl ShellTag {
    /// Two tags of this kind are equal exactly when their identifiers are,
    /// whichever models issued them.
    pub proof fn lemma_eq_by_id(self, other: Self)
        ensures
            (self == other) <==> (self@ == other@),
    {
    }

    /// The identifier passed to the engine.
    pub fn to_raw(&self) -> (r: i32)
        ensures
            r == self@,
    {
        self.0
    }
}

/// A volume tag. Volumes are built from closed shells. 3D.
#[derive(Debug, Clone, Copy, PartialEq, Eq, Structural, PartialOrd, Ord, Hash)]
pub struct VolumeTag(i32);

impl View for VolumeTag {
    type V = i32;

    closed spec fn view(&self) -> i32 {
        self.0
    }
}

impl VolumeTag {
    /// Two tags of this kind are equal exactly when their identifiers are,
    /// whichever models issued them.
    pub proof fn lemma_eq_by_id(self, other: Self)
        ensures
            (self == other) <==> (self@ == other@),
    {
    }

    /// The identifier passed to the engine.
    pub fn to_raw(&self) -> (r: i32)
        ensures
            r == self@,
    {
        self.0
    }

    /// The tag that the engine issued as `raw`.
    pub(crate) fn issued(raw: i32) -> (t: Self)
        ensures
            t@ == raw,
    {
        VolumeTag(raw)
    }
}

/// The identifiers of a sequence of tags.
pub open spec fn ids<T: View<V = i32>>(tags: Seq<T>) -> Seq<i32> {
    tags.map_values(|t: T| t@)
}

/// The identifiers of curve tags, in order.
pub(crate) fn curve_ids(curves: &[CurveTag]) -> (r: Vec<i32>)
    ensures
        r@ == ids(curves@),
{
    let mut r: Vec<i32> = Vec::new();
    let mut k: usize = 0;
    while k < curves.len()
        invariant
            k <= curves@.len(),
            r@ == ids(curves@.subrange(0, k as int)),
        decreases curves@.len() - k,
    {
        r.push(curves[k].to_raw());
        k = k + 1;
        assert(ids(curves@.subrange(0, k as int)) =~= ids(curves@.subrange(0, k - 1 as int)).push(curves@[k - 1]@));
    }
    assert(curves@.subrange(0, k as int) =~= curves@);
    r
}

/// The identifiers of wire tags, in order, after those already in `r`.
pub(crate) fn push_wire_ids(r: &mut Vec<i32>, wires: &[WireTag])
    ensures
        final(r)@ == old(r)@ + ids(wires@),
{
    let mut k: usize = 0;
    while k < wires.len()
        invariant
            k <= wires@.len(),
            r@ == old(r)@ + ids(wires@.subrange(0, k as int)),
        decreases wires@.len() - k,
    {
        r.push(wires[k].to_raw());
        k = k + 1;
        assert(ids(wires@.subrange(0, k as int)) =~= ids(wires@.subrange(0, k - 1 as int)).push(wires@[k - 1]@));
    }
    assert(wires@.subrange(0, k as int) =~= wires@);
}

/// The identifier of the same curve traversed the other way. The one value
/// without a negation, `i32::MIN`, is its own reverse.
pub open spec fn reversed(raw: i32) -> i32 {
    if raw == i32::MIN {
        raw
    } else {
        (-raw) as i32
    }
}

impl vstd::std_specs::ops::NegSpecImpl for CurveTag {
    open spec fn obeys_neg_spec() -> bool {
        true
    }

    open spec fn neg_req(self) -> bool {
        true
    }

    closed spec fn neg_spec(self) -> CurveTag {
        CurveTag(reversed(self.0))
    }
}

/// Curves have a direction from start to end.
impl core::ops::Neg for CurveTag {
    type Output = CurveTag;

    /// Reverse the curve's direction.
    fn neg(self) -> (r: CurveTag)
        ensures
            r@ == reversed(self@),
    {
        let raw = self.0;
        if raw == i32::MIN {
            CurveTag(raw)
        } else {
            CurveTag(-raw)
        }
    }
}

/// Reversing a curve twice gives the curve back: negation is its own
/// inverse, on identifiers and on tags.
pub proof fn lemma_reverse_twice(c: CurveTag, n: CurveTag, m: CurveTag)
    requires
        n@ == reversed(c@),
        m@ == reversed(n@),
    ensures
        reversed(reversed(c@)) == c@,
        m == c,
{
}

} // verus!

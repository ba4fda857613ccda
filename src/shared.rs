//! The operations that both kernels offer, written once for either.
//!
//! Each operation checks that its model can still be used, selects the
//! model when it is not current, and makes its calls; the engine's status
//! decides the result. Tags passed in are handed to the engine as they are.
use vstd::prelude::*;
use crate::backend::{Backend, Call, CallView, AUTO_TAG};
use crate::err::{without_value, CallCategory, GmshError, GmshResult};
use crate::groups::CurveOrSurface;
use crate::model::{ModelHandle, ModelView};
use crate::session::{Gmsh, ModelKey, Selection, SessionView};
use crate::tags::{curve_ids, ids, push_wire_ids, raw_result, CurveTag, PointTag, SurfaceTag, WireTag};

verus! {

/// `new` is `old` after the point-adding call `call` on model `i`, and `r`
/// its result: the engine's tag on status 0, the error of the status
/// otherwise. The tag is recorded as a live point of the model unless it
/// is recorded already.
pub open spec fn adds_point<R>(old: SessionView<R>, new: SessionView<R>, m: ModelKey, call: CallView<R>, r: GmshResult<PointTag>) -> bool {
    let i = m.index;
    &&& old.ran(new, m, seq![call])
    &&& raw_result(r) == old.run_result(new, m, CallCategory::Model)
    &&& new.models == match r {
        Ok(t) => if old.models[i as int].points.contains(t@) {
            old.models
        } else {
            old.models.update(
                i as int,
                ModelView { points: old.models[i as int].points.push(t@), ..old.models[i as int] },
            )
        },
        Err(_) => old.models,
    }
}

/// `new` is `old` after removing point `raw` from model `i`, and `r` its
/// result: on success the point is no longer live in the model.
pub open spec fn removes_point<R>(old: SessionView<R>, new: SessionView<R>, m: ModelKey, kernel: crate::model::KernelType, raw: i32, r: GmshResult<()>) -> bool {
    let i = m.index;
    &&& old.ran(new, m, seq![CallView::Remove { kernel, dim_tags: seq![0i32, raw], recursive: false }])
    &&& r == without_value(old.run_result(new, m, CallCategory::Model))
    &&& new.models == if r is Ok {
        old.models.update(
            i as int,
            ModelView { points: old.models[i as int].points.remove_value(raw), ..old.models[i as int] },
        )
    } else {
        old.models
    }
}

/// What the curve-or-surface operation gives on model `m` of session `s`:
/// the entity's `(dimension, tag)` pair while the model can be used,
/// `Initialization` otherwise.
pub open spec fn curve_or_surface_result<R>(s: SessionView<R>, m: ModelKey, entity: CurveOrSurface) -> GmshResult<(i32, i32)> {
    if s.usable(m) {
        Ok((entity.dim(), entity.raw()))
    } else {
        Err(GmshError::Initialization)
    }
}

impl<K> ModelHandle<K> {
    /// Makes this model the engine's current model, if it is not already.
    pub fn set_current<B: Backend>(&self, gmsh: &mut Gmsh<B>) -> (r: GmshResult<()>)
        requires
            old(gmsh)@.wf(),
        ensures
            final(gmsh)@.wf(),
            final(gmsh)@.models == old(gmsh)@.models,
            old(gmsh)@.ran(final(gmsh)@, self@, Seq::empty()),
            r == without_value(old(gmsh)@.run_result(final(gmsh)@, self@, CallCategory::Model)),
    {
        let calls: Vec<Call<B::Real>> = Vec::new();
        assert(calls@.map_values(|c: Call<B::Real>| c@) =~= Seq::empty());
        match gmsh.run(self.key(), &calls, CallCategory::Model) {
            Ok(_) => Ok(()),
            Err(e) => Err(e),
        }
    }

    /// Adds a point with a target mesh size, or the default sizing for `None`.
    fn add_point_gen<B: Backend>(&self, gmsh: &mut Gmsh<B>, x: B::Real, y: B::Real, z: B::Real, mesh_size: Option<B::Real>) -> (r: GmshResult<PointTag>)
        requires
            old(gmsh)@.wf(),
        ensures
            final(gmsh)@.wf(),
            adds_point(
                old(gmsh)@,
                final(gmsh)@,
                self@,
                CallView::AddPoint { kernel: self.kernel_type(), x, y, z, mesh_size, tag: AUTO_TAG },
                r,
            ),
    {
        let ghost call = CallView::AddPoint { kernel: self.kernel_type(), x, y, z, mesh_size, tag: AUTO_TAG };
        let calls = vec![Call::AddPoint { kernel: self.kernel(), x, y, z, mesh_size, tag: AUTO_TAG }];
        assert(calls@.map_values(|c: Call<B::Real>| c@) =~= seq![call]);
        let key = self.key();
        let i = key.index;
        match gmsh.run(key, &calls, CallCategory::Model) {
            Ok(raw) => {
                if !gmsh.has_point(i, raw) {
                    gmsh.record_point(i, raw);
                }
                Ok(PointTag::issued(raw))
            },
            Err(e) => Err(e),
        }
    }

    /// Adds a point at the given coordinates, with the default mesh sizing.
    pub fn add_point<B: Backend>(&self, gmsh: &mut Gmsh<B>, x: B::Real, y: B::Real, z: B::Real) -> (r: GmshResult<PointTag>)
        requires
            old(gmsh)@.wf(),
        ensures
            final(gmsh)@.wf(),
            adds_point(
                old(gmsh)@,
                final(gmsh)@,
                self@,
                CallView::AddPoint { kernel: self.kernel_type(), x, y, z, mesh_size: None, tag: AUTO_TAG },
                r,
            ),
    {
        self.add_point_gen(gmsh, x, y, z, None)
    }

    /// Adds a point and asks for the target mesh size `lc` around it.
    pub fn add_point_with_lc<B: Backend>(&self, gmsh: &mut Gmsh<B>, x: B::Real, y: B::Real, z: B::Real, lc: B::Real) -> (r: GmshResult<PointTag>)
        requires
            old(gmsh)@.wf(),
        ensures
            final(gmsh)@.wf(),
            adds_point(
                old(gmsh)@,
                final(gmsh)@,
                self@,
                CallView::AddPoint { kernel: self.kernel_type(), x, y, z, mesh_size: Some(lc), tag: AUTO_TAG },
                r,
            ),
    {
        self.add_point_gen(gmsh, x, y, z, Some(lc))
    }

    /// Deletes a point. The tag stays as it is and may still be passed on;
    /// what the engine then does with it is its own affair.
    pub fn remove_point<B: Backend>(&self, gmsh: &mut Gmsh<B>, p: PointTag) -> (r: GmshResult<()>)
        requires
            old(gmsh)@.wf(),
        ensures
            final(gmsh)@.wf(),
            removes_point(old(gmsh)@, final(gmsh)@, self@, self.kernel_type(), p@, r),
    {
        let raw = p.to_raw();
        let ghost call = CallView::<B::Real>::Remove { kernel: self.kernel_type(), dim_tags: seq![0i32, raw], recursive: false };
        let calls = vec![Call::Remove { kernel: self.kernel(), dim_tags: vec![0, raw], recursive: false }];
        assert(calls@[0]@ == call) by {
            assert(calls@[0]@->Remove_dim_tags =~= seq![0i32, raw]);
        }
        assert(calls@.map_values(|c: Call<B::Real>| c@) =~= seq![call]);
        let key = self.key();
        let i = key.index;
        match gmsh.run(key, &calls, CallCategory::Model) {
            Ok(_) => {
                gmsh.forget_point(i, raw);
                Ok(())
            },
            Err(e) => Err(e),
        }
    }

    /// Adds a straight line from `p1` to `p2`.
    pub fn add_line<B: Backend>(&self, gmsh: &mut Gmsh<B>, p1: PointTag, p2: PointTag) -> (r: GmshResult<CurveTag>)
        requires
            old(gmsh)@.wf(),
        ensures
            final(gmsh)@.wf(),
            final(gmsh)@.models == old(gmsh)@.models,
            old(gmsh)@.ran(
                final(gmsh)@,
                self@,
                seq![CallView::AddLine { kernel: self.kernel_type(), start: p1@, end: p2@, tag: AUTO_TAG }],
            ),
            raw_result(r) == old(gmsh)@.run_result(final(gmsh)@, self@, CallCategory::Model),
    {
        let calls = vec![Call::AddLine { kernel: self.kernel(), start: p1.to_raw(), end: p2.to_raw(), tag: AUTO_TAG }];
        assert(calls@.map_values(|c: Call<B::Real>| c@) =~= seq![
            CallView::AddLine { kernel: self.kernel_type(), start: p1@, end: p2@, tag: AUTO_TAG },
        ]);
        match gmsh.run(self.key(), &calls, CallCategory::Model) {
            Ok(raw) => Ok(CurveTag::issued(raw)),
            Err(e) => Err(e),
        }
    }

    /// Adds a curve loop from directed curves. Their order and signs must
    /// make a closed, consistently directed path; the engine checks that and
    /// reports `ModelBadInput` otherwise.
    pub fn add_curve_loop<B: Backend>(&self, gmsh: &mut Gmsh<B>, curves: &[CurveTag]) -> (r: GmshResult<WireTag>)
        requires
            old(gmsh)@.wf(),
        ensures
            final(gmsh)@.wf(),
            final(gmsh)@.models == old(gmsh)@.models,
            old(gmsh)@.ran(
                final(gmsh)@,
                self@,
                seq![CallView::AddCurveLoop { kernel: self.kernel_type(), curves: ids(curves@), tag: AUTO_TAG }],
            ),
            raw_result(r) == old(gmsh)@.run_result(final(gmsh)@, self@, CallCategory::Model),
    {
        let calls = vec![Call::AddCurveLoop { kernel: self.kernel(), curves: curve_ids(curves), tag: AUTO_TAG }];
        assert(calls@.map_values(|c: Call<B::Real>| c@) =~= seq![
            CallView::AddCurveLoop { kernel: self.kernel_type(), curves: ids(curves@), tag: AUTO_TAG },
        ]);
        match gmsh.run(self.key(), &calls, CallCategory::Model) {
            Ok(raw) => Ok(WireTag::issued(raw)),
            Err(e) => Err(e),
        }
    }

    /// Adds a plane surface bounded by the first of `wires`, with the others
    /// as holes.
    fn add_plane_surface_gen<B: Backend>(&self, gmsh: &mut Gmsh<B>, wires: Vec<i32>) -> (r: GmshResult<SurfaceTag>)
        requires
            old(gmsh)@.wf(),
        ensures
            final(gmsh)@.wf(),
            final(gmsh)@.models == old(gmsh)@.models,
            old(gmsh)@.ran(
                final(gmsh)@,
                self@,
                seq![CallView::AddPlaneSurface { kernel: self.kernel_type(), wires: wires@, tag: AUTO_TAG }],
            ),
            raw_result(r) == old(gmsh)@.run_result(final(gmsh)@, self@, CallCategory::Model),
    {
        let ghost wires_view = wires@;
        let calls = vec![Call::AddPlaneSurface { kernel: self.kernel(), wires, tag: AUTO_TAG }];
        assert(calls@.map_values(|c: Call<B::Real>| c@) =~= seq![
            CallView::AddPlaneSurface { kernel: self.kernel_type(), wires: wires_view, tag: AUTO_TAG },
        ]);
        match gmsh.run(self.key(), &calls, CallCategory::Model) {
            Ok(raw) => Ok(SurfaceTag::issued(raw)),
            Err(e) => Err(e),
        }
    }

    /// Adds a plane surface bounded by a closed wire.
    pub fn add_plane_surface<B: Backend>(&self, gmsh: &mut Gmsh<B>, boundary: WireTag) -> (r: GmshResult<SurfaceTag>)
        requires
            old(gmsh)@.wf(),
        ensures
            final(gmsh)@.wf(),
            final(gmsh)@.models == old(gmsh)@.models,
            old(gmsh)@.ran(
                final(gmsh)@,
                self@,
                seq![CallView::AddPlaneSurface { kernel: self.kernel_type(), wires: seq![boundary@], tag: AUTO_TAG }],
            ),
            raw_result(r) == old(gmsh)@.run_result(final(gmsh)@, self@, CallCategory::Model),
    {
        let wires = vec![boundary.to_raw()];
        assert(wires@ =~= seq![boundary@]);
        self.add_plane_surface_gen(gmsh, wires)
    }

    /// Adds a plane surface bounded by a closed wire, with holes.
    pub fn add_plane_surface_with_holes<B: Backend>(&self, gmsh: &mut Gmsh<B>, boundary: WireTag, holes: &[WireTag]) -> (r: GmshResult<SurfaceTag>)
        requires
            old(gmsh)@.wf(),
        ensures
            final(gmsh)@.wf(),
            final(gmsh)@.models == old(gmsh)@.models,
            old(gmsh)@.ran(
                final(gmsh)@,
                self@,
                seq![CallView::AddPlaneSurface {
                    kernel: self.kernel_type(),
                    wires: seq![boundary@] + ids(holes@),
                    tag: AUTO_TAG,
                }],
            ),
            raw_result(r) == old(gmsh)@.run_result(final(gmsh)@, self@, CallCategory::Model),
    {
        let mut wires = vec![boundary.to_raw()];
        assert(wires@ =~= seq![boundary@]);
        push_wire_ids(&mut wires, holes);
        self.add_plane_surface_gen(gmsh, wires)
    }

    /// Flushes the kernel's definitions into the engine's model.
    pub fn synchronize<B: Backend>(&self, gmsh: &mut Gmsh<B>) -> (r: GmshResult<()>)
        requires
            old(gmsh)@.wf(),
        ensures
            final(gmsh)@.wf(),
            final(gmsh)@.models == old(gmsh)@.models,
            old(gmsh)@.ran(final(gmsh)@, self@, seq![CallView::Synchronize { kernel: self.kernel_type() }]),
            r == without_value(old(gmsh)@.run_result(final(gmsh)@, self@, CallCategory::Model)),
    {
        let calls = vec![Call::Synchronize { kernel: self.kernel() }];
        assert(calls@.map_values(|c: Call<B::Real>| c@) =~= seq![CallView::Synchronize { kernel: self.kernel_type() }]);
        match gmsh.run(self.key(), &calls, CallCategory::Model) {
            Ok(_) => Ok(()),
            Err(e) => Err(e),
        }
    }

    /// Meshes the model up to dimension `dim`, after synchronizing it.
    pub fn generate_mesh<B: Backend>(&self, gmsh: &mut Gmsh<B>, dim: i32) -> (r: GmshResult<()>)
        requires
            old(gmsh)@.wf(),
        ensures
            final(gmsh)@.wf(),
            final(gmsh)@.models == old(gmsh)@.models,
            old(gmsh)@.ran(
                final(gmsh)@,
                self@,
                seq![CallView::Synchronize { kernel: self.kernel_type() }, CallView::MeshGenerate { dim }],
            ),
            r == without_value(old(gmsh)@.run_result(final(gmsh)@, self@, CallCategory::Model)),
    {
        let calls = vec![Call::Synchronize { kernel: self.kernel() }, Call::MeshGenerate { dim }];
        assert(calls@.map_values(|c: Call<B::Real>| c@) =~= seq![
            CallView::Synchronize { kernel: self.kernel_type() },
            CallView::MeshGenerate { dim },
        ]);
        match gmsh.run(self.key(), &calls, CallCategory::Model) {
            Ok(_) => Ok(()),
            Err(e) => Err(e),
        }
    }

    /// An operation that only curves and surfaces admit: a tag of any other
    /// kind does not compile. It makes no call; while the model can be used
    /// it accepts every curve and surface and gives the entity's
    /// `(dimension, tag)` pair, unchanged.
    pub fn curve_or_surface_op<B: Backend>(&self, gmsh: &Gmsh<B>, entity: CurveOrSurface) -> (r: GmshResult<(i32, i32)>)
        ensures
            r == curve_or_surface_result(gmsh@, self@, entity),
    {
        if gmsh.is_usable(self.key()) {
            Ok(entity.dim_tag())
        } else {
            Err(GmshError::Initialization)
        }
    }

    /// Removes the model from the engine. The handle is given up; once the
    /// removal succeeded the model is closed and no model is current.
    pub fn remove<B: Backend>(self, gmsh: &mut Gmsh<B>) -> (r: GmshResult<()>)
        requires
            old(gmsh)@.wf(),
        ensures
            final(gmsh)@.wf(),
            !old(gmsh)@.usable(self@) ==> final(gmsh)@ == old(gmsh)@,
            old(gmsh)@.usable(self@) ==> old(gmsh)@.made_calls(final(gmsh)@, self@, seq![CallView::ModelRemove]),
            r == without_value(old(gmsh)@.run_result(final(gmsh)@, self@, CallCategory::TopLevel)),
            r is Ok ==> final(gmsh)@.models == old(gmsh)@.models.update(
                self@.index as int,
                ModelView { open: false, ..old(gmsh)@.models[self@.index as int] },
            ) && final(gmsh)@.current == Selection::NoneSelected,
            r is Err && old(gmsh)@.usable(self@) ==> final(gmsh)@.models == old(gmsh)@.models
                && final(gmsh)@.current == old(gmsh)@.selection_after(final(gmsh)@, self@),
    {
        let calls: Vec<Call<B::Real>> = vec![Call::ModelRemove];
        assert(calls@.map_values(|c: Call<B::Real>| c@) =~= seq![CallView::<B::Real>::ModelRemove]);
        let key = self.key();
        let i = key.index;
        match gmsh.run(key, &calls, CallCategory::TopLevel) {
            Ok(_) => {
                gmsh.close_model(i);
                Ok(())
            },
            Err(e) => Err(e),
        }
    }
}

} // verus!

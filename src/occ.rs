//! Operations of the constructive-solid kernel alone: whole solids made in
//! one call, with their angular ranges defaulted to the full shape.
use vstd::prelude::*;
use crate::backend::{Backend, Call, CallView, AUTO_TAG};
use crate::err::{CallCategory, GmshResult};
use crate::model::{OCCKernel, ModelHandle};
use crate::tags::{raw_result, VolumeTag};

verus! {

impl ModelHandle<OCCKernel> {
    /// Adds a box with a corner at `start_point` and side lengths `extents`.
    pub fn add_box<B: Backend>(
        &self,
        gmsh: &mut crate::session::Gmsh<B>,
        start_point: (B::Real, B::Real, B::Real),
        extents: (B::Real, B::Real, B::Real),
    ) -> (r: GmshResult<VolumeTag>)
        requires
            old(gmsh)@.wf(),
        ensures
            final(gmsh)@.wf(),
            final(gmsh)@.models == old(gmsh)@.models,
            old(gmsh)@.ran(
                final(gmsh)@,
                self@,
                seq![CallView::AddBox {
                    x: start_point.0,
                    y: start_point.1,
                    z: start_point.2,
                    dx: extents.0,
                    dy: extents.1,
                    dz: extents.2,
                    tag: AUTO_TAG,
                }],
            ),
            raw_result(r) == old(gmsh)@.run_result(final(gmsh)@, self@, CallCategory::Model),
    {
        let ghost call = CallView::AddBox {
            x: start_point.0,
            y: start_point.1,
            z: start_point.2,
            dx: extents.0,
            dy: extents.1,
            dz: extents.2,
            tag: AUTO_TAG,
        };
        let (x, y, z) = start_point;
        let (dx, dy, dz) = extents;
        let calls = vec![Call::AddBox { x, y, z, dx, dy, dz, tag: AUTO_TAG }];
        assert(calls@.map_values(|c: Call<B::Real>| c@) =~= seq![call]);
        match gmsh.run(self.key(), &calls, CallCategory::Model) {
            Ok(raw) => Ok(VolumeTag::issued(raw)),
            Err(e) => Err(e),
        }
    }

    /// Adds a sphere, or the section of one that `angles` (two polar bounds
    /// and an azimuth) gives.
    fn add_sphere_gen<B: Backend>(
        &self,
        gmsh: &mut crate::session::Gmsh<B>,
        centroid: (B::Real, B::Real, B::Real),
        radius: B::Real,
        angles: Option<(B::Real, B::Real, B::Real)>,
    ) -> (r: GmshResult<VolumeTag>)
        requires
            old(gmsh)@.wf(),
        ensures
            final(gmsh)@.wf(),
            final(gmsh)@.models == old(gmsh)@.models,
            old(gmsh)@.ran(
                final(gmsh)@,
                self@,
                seq![CallView::AddSphere {
                    x: centroid.0,
                    y: centroid.1,
                    z: centroid.2,
                    radius,
                    tag: AUTO_TAG,
                    angles,
                }],
            ),
            raw_result(r) == old(gmsh)@.run_result(final(gmsh)@, self@, CallCategory::Model),
    {
        let ghost call = CallView::AddSphere {
            x: centroid.0,
            y: centroid.1,
            z: centroid.2,
            radius,
            tag: AUTO_TAG,
            angles,
        };
        let (x, y, z) = centroid;
        let calls = vec![Call::AddSphere { x, y, z, radius, tag: AUTO_TAG, angles }];
        assert(calls@.map_values(|c: Call<B::Real>| c@) =~= seq![call]);
        match gmsh.run(self.key(), &calls, CallCategory::Model) {
            Ok(raw) => Ok(VolumeTag::issued(raw)),
            Err(e) => Err(e),
        }
    }

    /// Adds a full sphere with a centroid and radius.
    pub fn add_sphere<B: Backend>(
        &self,
        gmsh: &mut crate::session::Gmsh<B>,
        centroid: (B::Real, B::Real, B::Real),
        radius: B::Real,
    ) -> (r: GmshResult<VolumeTag>)
        requires
            old(gmsh)@.wf(),
        ensures
            final(gmsh)@.wf(),
            final(gmsh)@.models == old(gmsh)@.models,
            old(gmsh)@.ran(
                final(gmsh)@,
                self@,
                seq![CallView::AddSphere {
                    x: centroid.0,
                    y: centroid.1,
                    z: centroid.2,
                    radius,
                    tag: AUTO_TAG,
                    angles: None,
                }],
            ),
            raw_result(r) == old(gmsh)@.run_result(final(gmsh)@, self@, CallCategory::Model),
    {
        self.add_sphere_gen(gmsh, centroid, radius, None)
    }

    /// Adds an angular section of a sphere: the polar angles `(min, max)`
    /// are taken from the xy-plane, the azimuth about the z-axis.
    pub fn add_sphere_section<B: Backend>(
        &self,
        gmsh: &mut crate::session::Gmsh<B>,
        centroid: (B::Real, B::Real, B::Real),
        radius: B::Real,
        polar: (B::Real, B::Real),
        azimuth: B::Real,
    ) -> (r: GmshResult<VolumeTag>)
        requires
            old(gmsh)@.wf(),
        ensures
            final(gmsh)@.wf(),
            final(gmsh)@.models == old(gmsh)@.models,
            old(gmsh)@.ran(
                final(gmsh)@,
                self@,
                seq![CallView::AddSphere {
                    x: centroid.0,
                    y: centroid.1,
                    z: centroid.2,
                    radius,
                    tag: AUTO_TAG,
                    angles: Some((polar.0, polar.1, azimuth)),
                }],
            ),
            raw_result(r) == old(gmsh)@.run_result(final(gmsh)@, self@, CallCategory::Model),
    {
        let (polar_min, polar_max) = polar;
        self.add_sphere_gen(gmsh, centroid, radius, Some((polar_min, polar_max, azimuth)))
    }

    /// Adds a torus, or the section of one that `angle` gives.
    fn add_torus_gen<B: Backend>(
        &self,
        gmsh: &mut crate::session::Gmsh<B>,
        centroid: (B::Real, B::Real, B::Real),
        radii: (B::Real, B::Real),
        angle: Option<B::Real>,
    ) -> (r: GmshResult<VolumeTag>)
        requires
            old(gmsh)@.wf(),
        ensures
            final(gmsh)@.wf(),
            final(gmsh)@.models == old(gmsh)@.models,
            old(gmsh)@.ran(
                final(gmsh)@,
                self@,
                seq![CallView::AddTorus {
                    x: centroid.0,
                    y: centroid.1,
                    z: centroid.2,
                    main_radius: radii.0,
                    pipe_radius: radii.1,
                    tag: AUTO_TAG,
                    angle,
                }],
            ),
            raw_result(r) == old(gmsh)@.run_result(final(gmsh)@, self@, CallCategory::Model),
    {
        let ghost call = CallView::AddTorus {
            x: centroid.0,
            y: centroid.1,
            z: centroid.2,
            main_radius: radii.0,
            pipe_radius: radii.1,
            tag: AUTO_TAG,
            angle,
        };
        let (x, y, z) = centroid;
        let (main_radius, pipe_radius) = radii;
        let calls = vec![Call::AddTorus { x, y, z, main_radius, pipe_radius, tag: AUTO_TAG, angle }];
        assert(calls@.map_values(|c: Call<B::Real>| c@) =~= seq![call]);
        match gmsh.run(self.key(), &calls, CallCategory::Model) {
            Ok(raw) => Ok(VolumeTag::issued(raw)),
            Err(e) => Err(e),
        }
    }

    /// Adds a full torus with a centroid and radii `(main_radius, pipe_radius)`.
    pub fn add_torus<B: Backend>(
        &self,
        gmsh: &mut crate::session::Gmsh<B>,
        centroid: (B::Real, B::Real, B::Real),
        radii: (B::Real, B::Real),
    ) -> (r: GmshResult<VolumeTag>)
        requires
            old(gmsh)@.wf(),
        ensures
            final(gmsh)@.wf(),
            final(gmsh)@.models == old(gmsh)@.models,
            old(gmsh)@.ran(
                final(gmsh)@,
                self@,
                seq![CallView::AddTorus {
                    x: centroid.0,
                    y: centroid.1,
                    z: centroid.2,
                    main_radius: radii.0,
                    pipe_radius: radii.1,
                    tag: AUTO_TAG,
                    angle: None,
                }],
            ),
            raw_result(r) == old(gmsh)@.run_result(final(gmsh)@, self@, CallCategory::Model),
    {
        self.add_torus_gen(gmsh, centroid, radii, None)
    }

    /// Adds an angular section of a torus, `angle` being taken about its
    /// main axis.
    pub fn add_torus_section<B: Backend>(
        &self,
        gmsh: &mut crate::session::Gmsh<B>,
        centroid: (B::Real, B::Real, B::Real),
        radii: (B::Real, B::Real),
        angle: B::Real,
    ) -> (r: GmshResult<VolumeTag>)
        requires
            old(gmsh)@.wf(),
        ensures
            final(gmsh)@.wf(),
            final(gmsh)@.models == old(gmsh)@.models,
            old(gmsh)@.ran(
                final(gmsh)@,
                self@,
                seq![CallView::AddTorus {
                    x: centroid.0,
                    y: centroid.1,
                    z: centroid.2,
                    main_radius: radii.0,
                    pipe_radius: radii.1,
                    tag: AUTO_TAG,
                    angle: Some(angle),
                }],
            ),
            raw_result(r) == old(gmsh)@.run_result(final(gmsh)@, self@, CallCategory::Model),
    {
        self.add_torus_gen(gmsh, centroid, radii, Some(angle))
    }
}

} // verus!

//! The two geometry kernels and the record that a session keeps of each model.
use vstd::prelude::*;
use crate::session::ModelKey;

verus! {

/// The engine's built-in kernel: shapes are built bottom-up, from points to
/// curves, surfaces and volumes.
#[derive(Debug, Clone, Copy, PartialEq, Eq, Structural)]
pub struct NativeKernel {}

/// The constructive-solid kernel: besides building bottom-up, it makes whole
/// solids such as boxes, spheres and tori.
#[derive(Debug, Clone, Copy, PartialEq, Eq, Structural)]
pub struct OCCKernel {}

impl OCCKernel {
    /// Does nothing: the kernel marker holds no state.
    pub fn test() {
    }
}

/// The kernel that a model is built with.
#[derive(Debug, Clone, Copy, PartialEq, Eq, Structural)]
pub enum KernelType {
    Native(NativeKernel),
    OCC(OCCKernel),
}

/// What a session knows of one model: its name, its kernel, whether it is
/// still open, and the identifiers of the points it added that are live.
pub struct Model {
    name: String,
    pub kernel: KernelType,
    open: bool,
    points: Vec<i32>,
}

/// The mathematical content of a [`Model`].
pub struct ModelView {
    pub name: Seq<char>,
    pub kernel: KernelType,
    pub open: bool,
    pub points: Seq<i32>,
}

impl View for Model {
    type V = ModelView;

    closed spec fn view(&self) -> ModelView {
        ModelView { name: self.name@, kernel: self.kernel, open: self.open, points: self.points@ }
    }
}

impl ModelView {
    /// No point identifier is recorded twice.
    pub open spec fn points_distinct(self) -> bool {
        forall|a: int, b: int|
            0 <= a < b < self.points.len() ==> self.points[a] != self.points[b]
    }
}

impl Model {
    /// A new, open model named `name` that has added no points yet.
    pub fn new(name: &str, kernel: KernelType) -> (m: Model)
        ensures
            m@ == (ModelView { name: name@, kernel, open: true, points: Seq::empty() }),
    {
        Model { name: name.to_string(), kernel, open: true, points: Vec::new() }
    }

    /// The name by which the engine knows the model.
    pub fn name(&self) -> (r: &str)
        ensures
            r@ == self@.name,
    {
        self.name.as_str()
    }

    /// Whether the model may still be used.
    pub fn is_open(&self) -> (r: bool)
        ensures
            r == self@.open,
    {
        self.open
    }

    /// The kernel of the model.
    pub fn kernel(&self) -> (r: KernelType)
        ensures
            r == self@.kernel,
    {
        self.kernel
    }

    /// Whether `raw` names a live point that this model added.
    pub fn has_point(&self, raw: i32) -> (r: bool)
        ensures
            r == self@.points.contains(raw),
    {
        let mut k: usize = 0;
        while k < self.points.len()
            invariant
                k <= self.points@.len(),
                forall|j: int| 0 <= j < k ==> self.points@[j] != raw,
            decreases self.points@.len() - k,
        {
            if self.points[k] == raw {
                return true;
            }
            k = k + 1;
        }
        false
    }

    /// Records a point that the engine added.
    pub(crate) fn add_point(&mut self, raw: i32)
        requires
            !old(self)@.points.contains(raw),
        ensures
            final(self)@ == (ModelView { points: old(self)@.points.push(raw), ..old(self)@ }),
    {
        self.points.push(raw);
    }

    /// Forgets a point that the engine removed.
    pub(crate) fn remove_point(&mut self, raw: i32)
        ensures
            final(self)@ == (ModelView { points: old(self)@.points.remove_value(raw), ..old(self)@ }),
    {
        proof {
            self.points@.index_of_first_ensures(raw);
        }
        let mut k: usize = 0;
        while k < self.points.len()
            invariant
                k <= self.points@.len(),
                self@ == old(self)@,
                match self.points@.index_of_first(raw) {
                    Some(index) => {
                        &&& 0 <= index < self.points@.len()
                        &&& self.points@[index] == raw
                        &&& forall|j: int| 0 <= j < index ==> self.points@[j] != raw
                    },
                    None => !self.points@.contains(raw),
                },
                forall|j: int| 0 <= j < k ==> self.points@[j] != raw,
            decreases self.points@.len() - k,
        {
            if self.points[k] == raw {
                self.points.remove(k);
                assert(old(self)@.points.index_of_first(raw) == Some(k as int));
                assert(self.points@ =~= old(self)@.points.remove_value(raw));
                return;
            }
            k = k + 1;
        }
    }

    /// Marks the model as no longer usable.
    pub(crate) fn close(&mut self)
        ensures
            final(self)@ == (ModelView { open: false, ..old(self)@ }),
    {
        self.open = false;
    }
}

/// A handle to one model of a session, built with kernel `K`.
///
/// A handle is only obtained by creating a model through a session, and is
/// only good with that session (the one whose epoch it carries), while the
/// session is alive and the model has not been removed; an operation on it
/// otherwise fails with `Initialization`.
/// Handles of different models are told apart by [`ModelHandle::id`], even
/// where the engine has given their entities equal tags.
#[derive(Debug)]
pub struct ModelHandle<K> {
    key: ModelKey,
    kernel: KernelType,
    marker: K,
}

/// A model built with the engine's built-in kernel.
pub type GeoModel = ModelHandle<NativeKernel>;

/// A model built with the constructive-solid kernel.
pub type OccModel = ModelHandle<OCCKernel>;

impl<K> View for ModelHandle<K> {
    type V = ModelKey;

    closed spec fn view(&self) -> ModelKey {
        self.key
    }
}

impl<K> ModelHandle<K> {
    /// The kernel that the model was created with.
    pub closed spec fn kernel_type(&self) -> KernelType {
        self.kernel
    }

    /// The handle of the model that `key` names.
    pub(crate) fn at(key: ModelKey, kernel: KernelType, marker: K) -> (m: Self)
        ensures
            m@ == key,
            m.kernel_type() == kernel,
    {
        ModelHandle { key, kernel, marker }
    }

    /// The kernel that the model was created with.
    pub fn kernel(&self) -> (r: KernelType)
        ensures
            r == self.kernel_type(),
    {
        self.kernel
    }

    /// The identity of the model within its session.
    pub fn id(&self) -> (r: usize)
        ensures
            r == self@.index,
    {
        self.key.index
    }

    /// The key of the model: its index and its session's epoch.
    pub fn key(&self) -> (r: ModelKey)
        ensures
            r == self@,
    {
        self.key
    }
}

} // verus!

//! The boundary to the engine: the calls it takes and the trait through which
//! they are made.
//!
//! The engine answers every call with an integer status and, for calls that
//! create an entity, the entity's tag. Nothing is assumed of those answers:
//! every function of this library is verified for whatever comes back.
use vstd::prelude::*;
use crate::model::KernelType;

verus! {

/// The tag to request from the engine when it should number an entity itself.
pub const AUTO_TAG: i32 = -1;

/// A call to the engine. `R` is the engine's floating-point number type,
/// which this library only carries through.
#[allow(inconsistent_fields)]
pub enum Call<R> {
    /// Start the engine, without reading configuration files.
    Initialize,
    /// Shut the engine down.
    Finalize,
    /// Register a new model under `name` and make it current.
    ModelAdd { name: String },
    /// Make the model named `name` the current one.
    SetCurrent { name: String },
    /// Remove the current model.
    ModelRemove,
    /// Add a point; a `mesh_size` of `None` asks for the default sizing.
    AddPoint { kernel: KernelType, x: R, y: R, z: R, mesh_size: Option<R>, tag: i32 },
    /// Add a straight line between two points.
    AddLine { kernel: KernelType, start: i32, end: i32, tag: i32 },
    /// Add a closed loop of directed curves.
    AddCurveLoop { kernel: KernelType, curves: Vec<i32>, tag: i32 },
    /// Add a plane surface: the first wire bounds it, the others are holes.
    AddPlaneSurface { kernel: KernelType, wires: Vec<i32>, tag: i32 },
    /// Remove entities, given as flattened `(dimension, tag)` pairs.
    Remove { kernel: KernelType, dim_tags: Vec<i32>, recursive: bool },
    /// Flush the kernel's definitions into the engine's model.
    Synchronize { kernel: KernelType },
    /// Mesh the current model up to dimension `dim`.
    MeshGenerate { dim: i32 },
    /// Add a box with a corner and side lengths (constructive-solid kernel).
    AddBox { x: R, y: R, z: R, dx: R, dy: R, dz: R, tag: i32 },
    /// Add a sphere; `angles` holds the two polar bounds and the azimuth of a
    /// section, `None` asks for the full sphere (constructive-solid kernel).
    AddSphere { x: R, y: R, z: R, radius: R, tag: i32, angles: Option<(R, R, R)> },
    /// Add a torus; `angle` is that of a section, `None` asks for the full
    /// torus (constructive-solid kernel).
    AddTorus { x: R, y: R, z: R, main_radius: R, pipe_radius: R, tag: i32, angle: Option<R> },
    /// Set a numeric option.
    SetNumberOption { name: String, value: R },
    /// Set a string option.
    SetStringOption { name: String, value: String },
    /// Set a numeric option that holds a flag (1 for on, 0 for off).
    SetFlagOption { name: String, value: bool },
    /// Create the graphical interface.
    GuiInitialize,
    /// Run the graphical interface until its window is closed.
    GuiRun,
    /// Draw all the scenes of the graphical interface.
    GuiDraw,
}

/// The mathematical content of a [`Call`]: names and lists as sequences.
/// The two option reads, which have calls of their own in [`Backend`], are
/// here too.
#[allow(inconsistent_fields)]
pub enum CallView<R> {
    Initialize,
    Finalize,
    ModelAdd { name: Seq<char> },
    SetCurrent { name: Seq<char> },
    ModelRemove,
    AddPoint { kernel: KernelType, x: R, y: R, z: R, mesh_size: Option<R>, tag: i32 },
    AddLine { kernel: KernelType, start: i32, end: i32, tag: i32 },
    AddCurveLoop { kernel: KernelType, curves: Seq<i32>, tag: i32 },
    AddPlaneSurface { kernel: KernelType, wires: Seq<i32>, tag: i32 },
    Remove { kernel: KernelType, dim_tags: Seq<i32>, recursive: bool },
    Synchronize { kernel: KernelType },
    MeshGenerate { dim: i32 },
    AddBox { x: R, y: R, z: R, dx: R, dy: R, dz: R, tag: i32 },
    AddSphere { x: R, y: R, z: R, radius: R, tag: i32, angles: Option<(R, R, R)> },
    AddTorus { x: R, y: R, z: R, main_radius: R, pipe_radius: R, tag: i32, angle: Option<R> },
    SetNumberOption { name: Seq<char>, value: R },
    SetStringOption { name: Seq<char>, value: Seq<char> },
    SetFlagOption { name: Seq<char>, value: bool },
    GetNumberOption { name: Seq<char> },
    GetStringOption { name: Seq<char> },
    GuiInitialize,
    GuiRun,
    GuiDraw,
}

impl<R> View for Call<R> {
    type V = CallView<R>;

    open spec fn view(&self) -> CallView<R> {
        match self {
            Call::Initialize => CallView::Initialize,
            Call::Finalize => CallView::Finalize,
            Call::ModelAdd { name } => CallView::ModelAdd { name: name@ },
            Call::SetCurrent { name } => CallView::SetCurrent { name: name@ },
            Call::ModelRemove => CallView::ModelRemove,
            Call::AddPoint { kernel, x, y, z, mesh_size, tag } => CallView::AddPoint {
                kernel: *kernel,
                x: *x,
                y: *y,
                z: *z,
                mesh_size: *mesh_size,
                tag: *tag,
            },
            Call::AddLine { kernel, start, end, tag } => CallView::AddLine {
                kernel: *kernel,
                start: *start,
                end: *end,
                tag: *tag,
            },
            Call::AddCurveLoop { kernel, curves, tag } => CallView::AddCurveLoop {
                kernel: *kernel,
                curves: curves@,
                tag: *tag,
            },
            Call::AddPlaneSurface { kernel, wires, tag } => CallView::AddPlaneSurface {
                kernel: *kernel,
                wires: wires@,
                tag: *tag,
            },
            Call::Remove { kernel, dim_tags, recursive } => CallView::Remove {
                kernel: *kernel,
                dim_tags: dim_tags@,
                recursive: *recursive,
            },
            Call::Synchronize { kernel } => CallView::Synchronize { kernel: *kernel },
            Call::MeshGenerate { dim } => CallView::MeshGenerate { dim: *dim },
            Call::AddBox { x, y, z, dx, dy, dz, tag } => CallView::AddBox {
                x: *x,
                y: *y,
                z: *z,
                dx: *dx,
                dy: *dy,
                dz: *dz,
                tag: *tag,
            },
            Call::AddSphere { x, y, z, radius, tag, angles } => CallView::AddSphere {
                x: *x,
                y: *y,
                z: *z,
                radius: *radius,
                tag: *tag,
                angles: *angles,
            },
            Call::AddTorus { x, y, z, main_radius, pipe_radius, tag, angle } => CallView::AddTorus {
                x: *x,
                y: *y,
                z: *z,
                main_radius: *main_radius,
                pipe_radius: *pipe_radius,
                tag: *tag,
                angle: *angle,
            },
            Call::SetNumberOption { name, value } => CallView::SetNumberOption {
                name: name@,
                value: *value,
            },
            Call::SetStringOption { name, value } => CallView::SetStringOption {
                name: name@,
                value: value@,
            },
            Call::SetFlagOption { name, value } => CallView::SetFlagOption {
                name: name@,
                value: *value,
            },
            Call::GuiInitialize => CallView::GuiInitialize,
            Call::GuiRun => CallView::GuiRun,
            Call::GuiDraw => CallView::GuiDraw,
        }
    }
}

/// One call made to the engine and its answer.
pub struct Exchange<R> {
    pub call: CallView<R>,
    /// The status the engine returned: 0 on success.
    pub status: i32,
    /// The tag the engine returned, 0 for calls that return none.
    pub value: i32,
    /// The number that a numeric option read returned.
    pub number: Option<R>,
    /// The text that a string option read returned, if it was valid text.
    pub text: Option<Seq<char>>,
}

/// The engine's call surface.
///
/// `call` makes one call and returns the tag it produced (0 where it produces
/// none) and the status. The two getters return the option's value and the
/// status; a string that cannot be read as text is `None`. `instance` names
/// this engine value: each engine value that a process makes must answer a
/// number that no other one answers, so that the models of one session are
/// refused by any other.
pub trait Backend {
    /// The engine's floating-point number type.
    type Real;

    fn instance(&self) -> u64;

    fn call(&mut self, call: &Call<Self::Real>) -> (i32, i32);

    fn get_number_option(&mut self, name: &str) -> (Self::Real, i32);

    fn get_string_option(&mut self, name: &str) -> (Option<String>, i32);
}

} // verus!

use std::collections::HashMap;
use std::sync::atomic::{AtomicU64, Ordering};

use rgmsh::backend::{Backend, Call};
use rgmsh::err::GmshError;
use rgmsh::groups::CurveOrSurface;
use rgmsh::model::{KernelType, NativeKernel, OCCKernel};
use rgmsh::session::{start_outcome, Gmsh, Selection};
use rgmsh::tags::{CurveTag, PointTag, SurfaceTag};

type GmshResult<T> = Result<T, GmshError>;

/// One model inside the simulated engine.
struct SimModel {
    name: String,
    next_point: i32,
    next_curve: i32,
    next_wire: i32,
    next_surface: i32,
    next_volume: i32,
    points: Vec<i32>,
    lines: HashMap<i32, (i32, i32)>,
}

impl SimModel {
    fn new(name: &str) -> SimModel {
        SimModel {
            name: name.to_string(),
            next_point: 1,
            next_curve: 1,
            next_wire: 1,
            next_surface: 1,
            next_volume: 1,
            points: Vec::new(),
            lines: HashMap::new(),
        }
    }
}

static ENGINES: AtomicU64 = AtomicU64::new(1);

/// A simulated engine: numbers entities per model, keeps options, checks
/// that curve loops close, and records the name of every call it gets.
struct SimEngine {
    instance: u64,
    initialized: bool,
    models: Vec<SimModel>,
    current: Option<usize>,
    numbers: HashMap<String, f64>,
    strings: HashMap<String, String>,
    calls: Vec<String>,
    forced: HashMap<String, i32>,
    forced_value: Option<i32>,
    bad_text: bool,
}

impl SimEngine {
    fn new() -> SimEngine {
        let mut numbers = HashMap::new();
        numbers.insert("General.Terminal".to_string(), 0.0);
        numbers.insert("General.Axes".to_string(), 0.0);
        let mut strings = HashMap::new();
        strings.insert("Solver.Name0".to_string(), "GetDP".to_string());
        SimEngine {
            instance: ENGINES.fetch_add(1, Ordering::SeqCst),
            initialized: false,
            models: Vec::new(),
            current: None,
            numbers,
            strings,
            calls: Vec::new(),
            forced: HashMap::new(),
            forced_value: None,
            bad_text: false,
        }
    }

    /// Makes every later call named `call` answer with `status`.
    fn force(mut self, call: &str, status: i32) -> SimEngine {
        self.forced.insert(call.to_string(), status);
        self
    }

    fn model(&mut self) -> Option<&mut SimModel> {
        match self.current {
            Some(i) => self.models.get_mut(i),
            None => None,
        }
    }

    fn loop_closes(&mut self, curves: &[i32]) -> bool {
        let m = match self.model() {
            Some(m) => m,
            None => return false,
        };
        let mut ends = Vec::new();
        for c in curves {
            match m.lines.get(&c.abs()) {
                Some(&(a, b)) => ends.push(if *c > 0 { (a, b) } else { (b, a) }),
                None => return false,
            }
        }
        if ends.is_empty() {
            return false;
        }
        (0..ends.len()).all(|k| ends[k].1 == ends[(k + 1) % ends.len()].0)
    }

    fn answer(&mut self, call: &Call<f64>) -> (i32, i32) {
        match call {
            Call::Initialize => {
                self.initialized = true;
                (0, 0)
            }
            Call::Finalize => {
                self.initialized = false;
                (0, 0)
            }
            Call::ModelAdd { name } => {
                self.models.push(SimModel::new(name));
                self.current = Some(self.models.len() - 1);
                (0, 0)
            }
            Call::SetCurrent { name } => match self.models.iter().position(|m| &m.name == name) {
                Some(i) => {
                    self.current = Some(i);
                    (0, 0)
                }
                None => (0, 1),
            },
            Call::ModelRemove => match self.current {
                Some(i) => {
                    self.models.remove(i);
                    self.current = None;
                    (0, 0)
                }
                None => (0, 1),
            },
            Call::AddPoint { .. } => match (self.forced_value, self.model()) {
                (forced, Some(m)) => {
                    let t = forced.unwrap_or(m.next_point);
                    m.next_point += 1;
                    m.points.push(t);
                    (t, 0)
                }
                (_, None) => (0, -1),
            },
            Call::AddLine { start, end, .. } => {
                let (start, end) = (*start, *end);
                match self.model() {
                    Some(m) if m.points.contains(&start) && m.points.contains(&end) => {
                        let t = m.next_curve;
                        m.next_curve += 1;
                        m.lines.insert(t, (start, end));
                        (t, 0)
                    }
                    Some(_) => (0, 2),
                    None => (0, -1),
                }
            }
            Call::AddCurveLoop { curves, .. } => {
                if !self.loop_closes(curves) {
                    return (0, 3);
                }
                let m = self.model().unwrap();
                let t = m.next_wire;
                m.next_wire += 1;
                (t, 0)
            }
            Call::AddPlaneSurface { .. } => match self.model() {
                Some(m) => {
                    let t = m.next_surface;
                    m.next_surface += 1;
                    (t, 0)
                }
                None => (0, -1),
            },
            Call::Remove { dim_tags, .. } => {
                let raw = dim_tags[1];
                match self.model() {
                    Some(m) if dim_tags[0] == 0 && m.points.contains(&raw) => {
                        m.points.retain(|p| *p != raw);
                        (0, 0)
                    }
                    _ => (0, 2),
                }
            }
            Call::AddBox { .. } | Call::AddSphere { .. } | Call::AddTorus { .. } => match self.model() {
                Some(m) => {
                    let t = m.next_volume;
                    m.next_volume += 1;
                    (t, 0)
                }
                None => (0, -1),
            },
            Call::SetNumberOption { name, value } => {
                if self.numbers.contains_key(name) {
                    self.numbers.insert(name.clone(), *value);
                    (0, 0)
                } else {
                    (0, 1)
                }
            }
            Call::SetFlagOption { name, value } => {
                if self.numbers.contains_key(name) {
                    self.numbers.insert(name.clone(), if *value { 1.0 } else { 0.0 });
                    (0, 0)
                } else {
                    (0, 1)
                }
            }
            Call::SetStringOption { name, value } => {
                if self.strings.contains_key(name) {
                    self.strings.insert(name.clone(), value.clone());
                    (0, 0)
                } else {
                    (0, 1)
                }
            }
            Call::Synchronize { .. }
            | Call::MeshGenerate { .. }
            | Call::GuiInitialize
            | Call::GuiRun
            | Call::GuiDraw => (0, 0),
        }
    }
}

fn call_name(call: &Call<f64>) -> &'static str {
    match call {
        Call::Initialize => "initialize",
        Call::Finalize => "finalize",
        Call::ModelAdd { .. } => "model_add",
        Call::SetCurrent { .. } => "set_current",
        Call::ModelRemove => "model_remove",
        Call::AddPoint { .. } => "add_point",
        Call::AddLine { .. } => "add_line",
        Call::AddCurveLoop { .. } => "add_curve_loop",
        Call::AddPlaneSurface { .. } => "add_plane_surface",
        Call::Remove { .. } => "remove",
        Call::Synchronize { .. } => "synchronize",
        Call::MeshGenerate { .. } => "mesh_generate",
        Call::AddBox { .. } => "add_box",
        Call::AddSphere { .. } => "add_sphere",
        Call::AddTorus { .. } => "add_torus",
        Call::SetNumberOption { .. } => "set_number",
        Call::SetStringOption { .. } => "set_string",
        Call::SetFlagOption { .. } => "set_flag",
        Call::GuiInitialize => "gui_initialize",
        Call::GuiRun => "gui_run",
        Call::GuiDraw => "gui_draw",
    }
}

impl Backend for SimEngine {
    type Real = f64;

    fn instance(&self) -> u64 {
        self.instance
    }

    fn call(&mut self, call: &Call<f64>) -> (i32, i32) {
        let name = call_name(call);
        self.calls.push(match call {
            Call::AddCurveLoop { curves, .. } => format!("{}{:?}", name, curves),
            Call::AddSphere { angles, .. } => format!("{}{:?}", name, angles),
            Call::AddPoint { mesh_size, .. } => format!("{}{:?}", name, mesh_size),
            Call::Remove { dim_tags, .. } => format!("{}{:?}", name, dim_tags),
            _ => name.to_string(),
        });
        if let Some(status) = self.forced.get(name) {
            return (self.forced_value.unwrap_or(0), *status);
        }
        let (value, status) = self.answer(call);
        (self.forced_value.unwrap_or(value), status)
    }

    fn get_number_option(&mut self, name: &str) -> (f64, i32) {
        self.calls.push("get_number".to_string());
        match self.numbers.get(name) {
            Some(v) => (*v, 0),
            None => (0.0, 1),
        }
    }

    fn get_string_option(&mut self, name: &str) -> (Option<String>, i32) {
        self.calls.push("get_string".to_string());
        if self.bad_text {
            return (None, 0);
        }
        match self.strings.get(name) {
            Some(v) => (Some(v.clone()), 0),
            None => (Some(String::new()), 1),
        }
    }
}

fn start() -> Gmsh<SimEngine> {
    Gmsh::initialize(SimEngine::new()).unwrap()
}

fn calls(gmsh: &Gmsh<SimEngine>) -> Vec<String> {
    gmsh.backend().calls.clone()
}

/// Check multiple models can be made and follow the same numbering rules
#[test]
pub fn multiple_models() -> GmshResult<()> {
    let mut gmsh = Gmsh::initialize(SimEngine::new())?;
    let occ_geom = gmsh.create_occ_model("box")?;
    let p1 = occ_geom.add_point(&mut gmsh, 0., 0., 0.)?;

    let native_geom = gmsh.create_native_model("bella")?;
    let p2 = native_geom.add_point(&mut gmsh, 1., 1., 1.)?;

    let another_native_geom = gmsh.create_native_model("plane")?;
    let p3 = another_native_geom.add_point(&mut gmsh, 2., 2., 2.)?;

    assert!((p1 == p2) && (p1 == p3));
    Ok(())
}

#[test]
pub fn catch_unknown_options() -> GmshResult<()> {
    let mut gmsh = Gmsh::initialize(SimEngine::new())?;
    let _geom = gmsh.create_occ_model("model")?;
    let bad_opt = "Bad.Option";

    let get_num_err = gmsh.get_number_option(bad_opt);
    let get_str_err = gmsh.get_string_option(bad_opt);
    let set_num_err = gmsh.set_number_option(bad_opt, 1.);
    let set_str_err = gmsh.set_string_option(bad_opt, "Garbo");

    assert!(matches!(get_num_err, Err(GmshError::UnknownOption)));
    assert!(matches!(get_str_err, Err(GmshError::UnknownOption)));
    assert!(matches!(set_num_err, Err(GmshError::UnknownOption)));
    assert!(matches!(set_str_err, Err(GmshError::UnknownOption)));

    Ok(())
}

#[test]
pub fn set_and_return_opts() -> GmshResult<()> {
    let mut gmsh = Gmsh::initialize(SimEngine::new())?;
    let _geom = gmsh.create_occ_model("model")?;

    let opt = "Solver.Name0";
    // Solver.Name0 has default value of GetDP
    let str_val = "TEST_NAME_1";
    gmsh.set_string_option(opt, str_val)?;
    assert!(str_val == gmsh.get_string_option(opt)?);

    // has default value of 0
    gmsh.set_number_option("General.Axes", 5.)?;
    assert!(5. == gmsh.get_number_option("General.Axes")?);

    Ok(())
}

#[test]
fn initialize_turns_terminal_output_on() {
    let gmsh = start();
    assert!(gmsh.is_alive());
    assert_eq!(calls(&gmsh), vec!["initialize", "set_flag"]);
    assert_eq!(gmsh.backend().numbers["General.Terminal"], 1.0);
    assert_eq!(gmsh.current(), Selection::NoneSelected);
}

#[test]
fn initialize_failure_is_initialization_error() {
    let r = Gmsh::initialize(SimEngine::new().force("initialize", 1));
    assert!(matches!(r, Err(GmshError::Initialization)));
    let r = Gmsh::initialize(SimEngine::new().force("set_flag", 1));
    assert!(matches!(r, Err(GmshError::Initialization)));
}

#[test]
fn two_models_share_raw_tags_but_not_identity() {
    let mut gmsh = start();
    let a = gmsh.create_native_model("A").unwrap();
    let b = gmsh.create_native_model("B").unwrap();
    let pa = a.add_point(&mut gmsh, 0., 0., 0.).unwrap();
    let pb = b.add_point(&mut gmsh, 0., 1., 1.).unwrap();
    assert_eq!(pa.to_raw(), 1);
    assert_eq!(pb.to_raw(), 1);
    assert_eq!(pa, pb);
    assert_ne!(a.id(), b.id());
}

#[test]
fn unit_square_meshes() {
    let mut gmsh = start();
    let geom = gmsh.create_native_model("square").unwrap();
    let p1 = geom.add_point(&mut gmsh, 0., 0., 0.).unwrap();
    let p2 = geom.add_point(&mut gmsh, 1., 0., 0.).unwrap();
    let p3 = geom.add_point(&mut gmsh, 1., 1., 0.).unwrap();
    let p4 = geom.add_point(&mut gmsh, 0., 1., 0.).unwrap();
    let l1 = geom.add_line(&mut gmsh, p1, p2).unwrap();
    let l2 = geom.add_line(&mut gmsh, p3, p2).unwrap();
    let l3 = geom.add_line(&mut gmsh, p3, p4).unwrap();
    let l4 = geom.add_line(&mut gmsh, p4, p1).unwrap();
    let cl = geom.add_curve_loop(&mut gmsh, &[l4, l1, -l2, l3]).unwrap();
    let surface: SurfaceTag = geom.add_plane_surface(&mut gmsh, cl).unwrap();
    assert!(geom.generate_mesh(&mut gmsh, 2).is_ok());
    assert_eq!(surface.to_raw(), 1);
    let log = calls(&gmsh);
    assert!(log.contains(&"add_curve_loop[4, 1, -2, 3]".to_string()));
    assert_eq!(&log[log.len() - 2..], ["synchronize", "mesh_generate"]);
}

#[test]
fn open_curve_loop_is_bad_input() {
    let mut gmsh = start();
    let geom = gmsh.create_native_model("open").unwrap();
    let mut lines: Vec<CurveTag> = Vec::new();
    for k in 0..3 {
        let a = geom.add_point(&mut gmsh, k as f64, 0., 0.).unwrap();
        let b = geom.add_point(&mut gmsh, k as f64, 5., 0.).unwrap();
        lines.push(geom.add_line(&mut gmsh, a, b).unwrap());
    }
    let r = geom.add_curve_loop(&mut gmsh, &lines);
    assert!(matches!(r, Err(GmshError::ModelBadInput)));
}

#[test]
fn negating_a_curve_twice_gives_it_back() {
    let mut gmsh = start();
    let geom = gmsh.create_native_model("neg").unwrap();
    let a = geom.add_point(&mut gmsh, 0., 0., 0.).unwrap();
    let b = geom.add_point(&mut gmsh, 1., 0., 0.).unwrap();
    let l = geom.add_line(&mut gmsh, a, b).unwrap();
    assert_eq!((-l).to_raw(), -1);
    assert_eq!(-(-l), l);
    assert_ne!(-l, l);
}

#[test]
fn curve_or_surface_admits_curves_and_surfaces_only() {
    let mut gmsh = start();
    let geom = gmsh.create_occ_model("group").unwrap();
    let p = geom.add_point(&mut gmsh, 0., 0., 0.).unwrap();
    let q = geom.add_point(&mut gmsh, 1., 0., 0.).unwrap();
    let l = geom.add_line(&mut gmsh, p, q).unwrap();
    let v = geom.add_box(&mut gmsh, (0., 0., 0.), (1., 1., 1.)).unwrap();
    assert!(CurveOrSurface::from_basic(rgmsh::BasicShape::from(p)).is_none());
    assert!(CurveOrSurface::from_basic(rgmsh::BasicShape::Volume(v)).is_none());
    let c = CurveOrSurface::from_basic(rgmsh::BasicShape::from(l)).unwrap();
    assert_eq!(c, CurveOrSurface::from(l));
    assert_eq!(geom.curve_or_surface_op(&gmsh, c), Ok((1, 1)));
    assert_eq!(rgmsh::BasicShape::from(p).dim_tag(), (0, 1));
}

#[test]
fn selection_happens_only_when_another_model_is_current() {
    let mut gmsh = start();
    let a = gmsh.create_native_model("A").unwrap();
    let b = gmsh.create_occ_model("B").unwrap();
    assert_eq!(gmsh.current(), Selection::Selected(b.id()));
    b.add_point(&mut gmsh, 0., 0., 0.).unwrap();
    a.add_point(&mut gmsh, 0., 0., 0.).unwrap();
    a.add_point(&mut gmsh, 1., 0., 0.).unwrap();
    assert_eq!(gmsh.current(), Selection::Selected(a.id()));
    let log = calls(&gmsh);
    assert_eq!(
        &log[2..],
        ["model_add", "model_add", "add_pointNone", "set_current", "add_pointNone", "add_pointNone"]
    );
}

#[test]
fn failed_selection_is_execution_error_and_skips_the_call() {
    let mut gmsh = Gmsh::initialize(SimEngine::new().force("set_current", 1)).unwrap();
    let a = gmsh.create_native_model("A").unwrap();
    let _b = gmsh.create_native_model("B").unwrap();
    let r = a.add_point(&mut gmsh, 0., 0., 0.);
    assert!(matches!(r, Err(GmshError::Execution)));
    assert_eq!(gmsh.current(), Selection::NoneSelected);
    assert_eq!(calls(&gmsh).last().unwrap(), "set_current");
}

#[test]
fn model_creation_errors() {
    let mut gmsh = start();
    assert!(matches!(gmsh.create_native_model("bad\0name"), Err(GmshError::CInterface)));
    assert_eq!(calls(&gmsh).len(), 2);
    let mut gmsh = Gmsh::initialize(SimEngine::new().force("model_add", -1)).unwrap();
    assert!(matches!(gmsh.create_native_model("m"), Err(GmshError::Initialization)));
    let mut gmsh = Gmsh::initialize(SimEngine::new().force("model_add", 1)).unwrap();
    assert!(matches!(gmsh.create_occ_model("m"), Err(GmshError::Execution)));
    let mut gmsh = Gmsh::initialize(SimEngine::new().force("model_add", 7)).unwrap();
    assert!(matches!(gmsh.create_occ_model("m"), Err(GmshError::Execution)));
}

#[test]
fn ended_session_refuses_every_operation() {
    let mut gmsh = start();
    let geom = gmsh.create_occ_model("m").unwrap();
    let p = geom.add_point(&mut gmsh, 0., 0., 0.).unwrap();
    let q = geom.add_point(&mut gmsh, 1., 0., 0.).unwrap();
    let l = geom.add_line(&mut gmsh, p, q).unwrap();
    gmsh.finalize();
    assert!(!gmsh.is_alive());
    let before = calls(&gmsh);
    assert_eq!(before.last().unwrap(), "finalize");
    let init = Err(GmshError::Initialization);
    assert_eq!(geom.add_point(&mut gmsh, 0., 0., 0.), init);
    assert_eq!(geom.add_point_with_lc(&mut gmsh, 0., 0., 0., 0.1), init);
    assert_eq!(geom.remove_point(&mut gmsh, p), Err(GmshError::Initialization));
    assert_eq!(geom.add_line(&mut gmsh, p, q), Err(GmshError::Initialization));
    assert_eq!(geom.add_curve_loop(&mut gmsh, &[l]), Err(GmshError::Initialization));
    assert_eq!(geom.synchronize(&mut gmsh), Err(GmshError::Initialization));
    assert_eq!(geom.generate_mesh(&mut gmsh, 2), Err(GmshError::Initialization));
    assert_eq!(geom.set_current(&mut gmsh), Err(GmshError::Initialization));
    assert_eq!(geom.add_sphere(&mut gmsh, (0., 0., 0.), 1.), Err(GmshError::Initialization));
    assert_eq!(geom.curve_or_surface_op(&gmsh, CurveOrSurface::from(l)), Err(GmshError::Initialization));
    assert!(matches!(gmsh.get_number_option("General.Axes"), Err(GmshError::Initialization)));
    assert!(matches!(gmsh.create_native_model("late"), Err(GmshError::Initialization)));
    assert!(matches!(gmsh.initialize_gui(), Err(GmshError::Initialization)));
    assert_eq!(geom.remove(&mut gmsh), Err(GmshError::Initialization));
    assert_eq!(calls(&gmsh), before);
    gmsh.finalize();
    assert_eq!(calls(&gmsh), before);
}

#[test]
fn engine_reused_point_tag_is_passed_through() {
    let mut engine = SimEngine::new();
    engine.forced_value = Some(9);
    let mut gmsh = Gmsh::initialize(engine).unwrap();
    let geom = gmsh.create_native_model("dup").unwrap();
    let p = geom.add_point(&mut gmsh, 0., 0., 0.).unwrap();
    assert_eq!(p.to_raw(), 9);
    let q = geom.add_point(&mut gmsh, 1., 0., 0.).unwrap();
    assert_eq!(q, p);
    geom.remove_point(&mut gmsh, p).unwrap();
    let again = geom.add_point(&mut gmsh, 2., 0., 0.).unwrap();
    assert_eq!(again, p);
}

#[test]
fn remove_point_sends_a_dimension_tag_pair() {
    let mut gmsh = start();
    let geom = gmsh.create_native_model("rm").unwrap();
    let _a = geom.add_point(&mut gmsh, 0., 0., 0.).unwrap();
    let b: PointTag = geom.add_point_with_lc(&mut gmsh, 1., 0., 0., 0.5).unwrap();
    geom.remove_point(&mut gmsh, b).unwrap();
    let log = calls(&gmsh);
    assert_eq!(log[log.len() - 2], "add_pointSome(0.5)");
    assert_eq!(log[log.len() - 1], "remove[0, 2]");
    assert_eq!(geom.remove_point(&mut gmsh, b), Err(GmshError::ModelLookup));
}

#[test]
fn mesh_stops_when_synchronize_fails() {
    let mut gmsh = Gmsh::initialize(SimEngine::new().force("synchronize", 4)).unwrap();
    let geom = gmsh.create_native_model("m").unwrap();
    assert_eq!(geom.generate_mesh(&mut gmsh, 2), Err(GmshError::ModelParallelMeshQuery));
    assert_eq!(calls(&gmsh).last().unwrap(), "synchronize");
    let mut gmsh = Gmsh::initialize(SimEngine::new().force("mesh_generate", 5)).unwrap();
    let geom = gmsh.create_native_model("m").unwrap();
    assert_eq!(geom.generate_mesh(&mut gmsh, 2), Err(GmshError::UnknownError));
}

#[test]
fn removed_model_is_closed() {
    let mut gmsh = start();
    let a = gmsh.create_native_model("A").unwrap();
    let b = gmsh.create_native_model("B").unwrap();
    let b_key = b.key();
    b.remove(&mut gmsh).unwrap();
    assert_eq!(gmsh.current(), Selection::NoneSelected);
    assert!(!gmsh.is_usable(b_key));
    assert!(gmsh.is_usable(a.key()));
    assert!(a.add_point(&mut gmsh, 0., 0., 0.).is_ok());
    assert!(calls(&gmsh).contains(&"model_remove".to_string()));
}

#[test]
fn occ_solids_default_to_the_full_shape() {
    let mut gmsh = start();
    let geom = gmsh.create_occ_model("solids").unwrap();
    assert_eq!(geom.kernel(), KernelType::OCC(OCCKernel {}));
    let v1 = geom.add_sphere(&mut gmsh, (0., 0., 0.), 1.).unwrap();
    let v2 = geom.add_sphere_section(&mut gmsh, (0., 0., 0.), 1., (0., 1.5), 1.5).unwrap();
    let v3 = geom.add_torus(&mut gmsh, (0., 0., 0.), (2., 0.5)).unwrap();
    let v4 = geom.add_torus_section(&mut gmsh, (0., 0., 0.), (2., 0.5), 3.0).unwrap();
    assert_eq!([v1.to_raw(), v2.to_raw(), v3.to_raw(), v4.to_raw()], [1, 2, 3, 4]);
    let log = calls(&gmsh);
    assert!(log.contains(&"add_sphereNone".to_string()));
    assert!(log.contains(&"add_sphereSome((0.0, 1.5, 1.5))".to_string()));
}

#[test]
fn native_model_has_native_kernel() {
    let mut gmsh = start();
    let geom = gmsh.create_native_model("n").unwrap();
    assert_eq!(geom.kernel(), KernelType::Native(NativeKernel {}));
}

#[test]
fn plane_surface_with_holes() {
    let mut gmsh = start();
    let geom = gmsh.create_native_model("holes").unwrap();
    let p = [(0., 0.), (1., 0.), (1., 1.)].map(|(x, y)| geom.add_point(&mut gmsh, x, y, 0.).unwrap());
    let l1 = geom.add_line(&mut gmsh, p[0], p[1]).unwrap();
    let l2 = geom.add_line(&mut gmsh, p[1], p[2]).unwrap();
    let l3 = geom.add_line(&mut gmsh, p[2], p[0]).unwrap();
    let outer = geom.add_curve_loop(&mut gmsh, &[l1, l2, l3]).unwrap();
    let inner = geom.add_curve_loop(&mut gmsh, &[-l3, -l2, -l1]).unwrap();
    let s = geom.add_plane_surface_with_holes(&mut gmsh, outer, &[inner]).unwrap();
    assert_eq!(s.to_raw(), 1);
    assert_eq!(inner.to_raw(), 2);
}

#[test]
fn option_names_and_values_with_nul_are_refused() {
    let mut gmsh = start();
    assert!(matches!(gmsh.get_number_option("a\0b"), Err(GmshError::CInterface)));
    assert!(matches!(gmsh.set_string_option("Solver.Name0", "x\0"), Err(GmshError::CInterface)));
    assert!(matches!(gmsh.set_number_option("x\0", 1.0), Err(GmshError::CInterface)));
    assert_eq!(calls(&gmsh).len(), 2);
}

#[test]
fn unreadable_string_option_is_c_interface() {
    let mut engine = SimEngine::new();
    engine.bad_text = true;
    let mut gmsh = Gmsh::initialize(engine).unwrap();
    assert!(matches!(gmsh.get_string_option("Solver.Name0"), Err(GmshError::CInterface)));
}

#[test]
fn gui_calls_go_through() {
    let mut gmsh = start();
    let mut gui = gmsh.initialize_gui().unwrap();
    assert!(gui.draw(&mut gmsh).is_ok());
    assert!(gmsh.run_gui().is_ok());
    let mut gmsh = Gmsh::initialize(SimEngine::new().force("gui_initialize", 1)).unwrap();
    assert!(matches!(gmsh.initialize_gui(), Err(GmshError::Execution)));
}

#[test]
fn handle_of_an_old_session_is_refused_by_a_new_one() {
    let mut first = start();
    let old = first.create_native_model("A").unwrap();
    drop(first);
    let mut second = start();
    let fresh = second.create_native_model("A").unwrap();
    assert_eq!(old.id(), fresh.id());
    assert!(!second.is_usable(old.key()));
    let before = calls(&second);
    assert_eq!(old.add_point(&mut second, 0., 0., 0.), Err(GmshError::Initialization));
    assert_eq!(old.synchronize(&mut second), Err(GmshError::Initialization));
    assert_eq!(calls(&second), before);
    assert!(fresh.add_point(&mut second, 0., 0., 0.).is_ok());
}

#[test]
fn start_makes_exactly_the_start_calls() {
    let mut gmsh = Gmsh::new(SimEngine::new());
    assert!(!gmsh.is_alive());
    assert_eq!(gmsh.start(), Ok(()));
    assert!(gmsh.is_alive());
    assert_eq!(gmsh.start(), Err(GmshError::Initialization));
    assert_eq!(calls(&gmsh), vec!["initialize", "set_flag"]);

    let mut gmsh = Gmsh::new(SimEngine::new().force("initialize", -1));
    assert_eq!(gmsh.start(), Err(GmshError::Initialization));
    assert_eq!(calls(&gmsh), vec!["initialize"]);
    assert!(!gmsh.is_alive());

    let mut gmsh = Gmsh::new(SimEngine::new().force("set_flag", 1));
    assert_eq!(gmsh.start(), Err(GmshError::Initialization));
    assert_eq!(calls(&gmsh), vec!["initialize", "set_flag", "finalize"]);
    assert!(!gmsh.is_alive());
}

#[test]
fn restarted_session_keeps_old_models_closed() {
    let mut gmsh = start();
    let a = gmsh.create_native_model("A").unwrap();
    gmsh.finalize();
    assert_eq!(gmsh.start(), Ok(()));
    assert_eq!(gmsh.current(), Selection::NoneSelected);
    assert_eq!(a.add_point(&mut gmsh, 0., 0., 0.), Err(GmshError::Initialization));
    let b = gmsh.create_native_model("B").unwrap();
    assert_ne!(a.id(), b.id());
    assert!(b.add_point(&mut gmsh, 0., 0., 0.).is_ok());
}

#[test]
fn start_outcome_needs_both_statuses_zero() {
    assert_eq!(start_outcome(0, Some(0)), Ok(()));
    assert_eq!(start_outcome(1, None), Err(GmshError::Initialization));
    assert_eq!(start_outcome(-1, Some(0)), Err(GmshError::Initialization));
    assert_eq!(start_outcome(0, Some(1)), Err(GmshError::Initialization));
    assert_eq!(start_outcome(0, None), Err(GmshError::Initialization));
}

#[test]
fn equal_ids_make_equal_tags_across_models() {
    let mut gmsh = start();
    let a = gmsh.create_occ_model("A").unwrap();
    let b = gmsh.create_native_model("B").unwrap();
    let pa = a.add_point(&mut gmsh, 0., 0., 0.).unwrap();
    let pb = b.add_point(&mut gmsh, 5., 5., 5.).unwrap();
    assert_eq!(pa.to_raw(), pb.to_raw());
    assert!(pa == pb);
    assert_ne!(a.key(), b.key());
}

//! The session: the one handle that owns the engine's initialization, the
//! models created through it, and the engine's "current model" register.
//!
//! The engine applies every model call to whichever model is current. The
//! session tracks that register as a state machine and selects a model
//! before any call is made on it. It also records every call it makes, with
//! the engine's answer, in a ghost log that the contracts speak of.
use vstd::prelude::*;
use vstd::string::StringSliceAdditionalSpecFns;
use crate::backend::{Backend, Call, CallView, Exchange};
use crate::err::{check_option_error, check_status, error_of, CallCategory, GmshError, GmshResult};
use crate::model::{GeoModel, KernelType, Model, ModelHandle, ModelView, NativeKernel, OCCKernel, OccModel};

verus! {

/// The engine's current-model register, as far as the session knows it.
#[derive(Debug, Clone, Copy, PartialEq, Eq, Structural)]
pub enum Selection {
    /// No model is known to be current.
    NoneSelected,
    /// The model with this index in the session is current.
    Selected(usize),
}

/// The Gmsh session: all engine calls are made through it.
///
/// Once the session has ended, every operation on it or on its models fails
/// with [`GmshError::Initialization`] and makes no call. The session carries
/// the epoch of its engine ([`Backend::instance`]) and stamps it on every
/// model it creates; a model handle is only good with the session whose
/// epoch it carries. A process should hold at most one live session: the
/// engine is a process-wide singleton.
pub struct Gmsh<B: Backend> {
    backend: B,
    epoch: u64,
    alive: bool,
    current: Selection,
    models: Vec<Model>,
    log: Ghost<Seq<Exchange<B::Real>>>,
}

/// The mathematical content of a [`Gmsh`] session.
pub struct SessionView<R> {
    /// The number that tells this session's engine apart from every other;
    /// each model handle carries it.
    pub epoch: u64,
    /// Whether the engine is initialized and not yet finalized.
    pub alive: bool,
    /// The current-model register.
    pub current: Selection,
    /// Every model created in the session, by index.
    pub models: Seq<ModelView>,
    /// Every call made to the engine, in order, with its answer.
    pub log: Seq<Exchange<R>>,
}

impl<B: Backend> View for Gmsh<B> {
    type V = SessionView<B::Real>;

    closed spec fn view(&self) -> SessionView<B::Real> {
        SessionView {
            epoch: self.epoch,
            alive: self.alive,
            current: self.current,
            models: self.models@.map_values(|m: Model| m@),
            log: self.log@,
        }
    }
}

/// The option that sends the engine's messages to the terminal.
pub open spec fn terminal_option() -> Seq<char> {
    seq!['G', 'e', 'n', 'e', 'r', 'a', 'l', '.', 'T', 'e', 'r', 'm', 'i', 'n', 'a', 'l']
}

/// What names a model: its index in the session that made it, and that
/// session's epoch.
#[derive(Debug, Clone, Copy, PartialEq, Eq, Structural)]
pub struct ModelKey {
    pub index: usize,
    pub session: u64,
}

/// What starting the engine amounts to, given the status of its
/// initialization and, if that succeeded, the status of turning terminal
/// output on: success when both are 0, `Initialization` otherwise.
pub open spec fn start_outcome_of(init_status: i32, flag_status: Option<i32>) -> GmshResult<()> {
    if init_status == 0 && flag_status == Some(0i32) {
        Ok(())
    } else {
        Err(GmshError::Initialization)
    }
}

/// Decides the result of starting the engine from the two statuses.
pub fn start_outcome(init_status: i32, flag_status: Option<i32>) -> (r: GmshResult<()>)
    ensures
        r == start_outcome_of(init_status, flag_status),
{
    if init_status != 0 {
        return Err(GmshError::Initialization);
    }
    match flag_status {
        Some(0) => Ok(()),
        _ => Err(GmshError::Initialization),
    }
}

/// The error of a failed model creation: `Initialization` for -1, else `Execution`.
pub open spec fn creation_error(status: i32) -> GmshError {
    if status == -1 {
        GmshError::Initialization
    } else {
        GmshError::Execution
    }
}

impl<R> SessionView<R> {
    /// The error with which a call that hands `name` to the engine is
    /// refused before it is made, if any: `Initialization` once the session
    /// has ended, `CInterface` for a name holding a zero byte.
    pub open spec fn refusal(self, name: &str) -> Option<GmshError> {
        if !self.alive {
            Some(GmshError::Initialization)
        } else if name.spec_bytes().contains(0u8) {
            Some(GmshError::CInterface)
        } else {
            None
        }
    }

    /// `new` is `self` after an attempt to create a model named `name` with
    /// `kernel`, and `r` its result: the key of the new model, which is the
    /// next index of this session and becomes current, or the error.
    pub open spec fn creates(self, new: Self, name: &str, kernel: KernelType, r: GmshResult<ModelKey>) -> bool {
        match self.refusal(name) {
            Some(e) => new == self && r == Err::<ModelKey, GmshError>(e),
            None => {
                let status = new.log.last().status;
                &&& new.log == self.log.push(new.log.last())
                &&& new.log.last().call == CallView::<R>::ModelAdd { name: name@ }
                &&& new.alive == self.alive
                &&& new.epoch == self.epoch
                &&& if status == 0 {
                    &&& new.models == self.models.push(
                        ModelView { name: name@, kernel, open: true, points: Seq::empty() },
                    )
                    &&& r matches Ok(k) && k.index as int == self.models.len() && k.session == self.epoch
                    &&& new.current == Selection::Selected(r->Ok_0.index)
                } else {
                    &&& new.models == self.models
                    &&& new.current == Selection::NoneSelected
                    &&& r == Err::<ModelKey, GmshError>(creation_error(status))
                }
            },
        }
    }

    /// `new` is `self` after a top-level call that needs a live session, and
    /// `r` its result.
    pub open spec fn top_call(self, new: Self, call: CallView<R>, r: GmshResult<()>) -> bool {
        if !self.alive {
            new == self && r == Err::<(), GmshError>(GmshError::Initialization)
        } else {
            &&& self.one_call(new, call)
            &&& r == crate::err::outcome(CallCategory::TopLevel, new.log.last().status, ())
        }
    }

    /// `new` is `self` after reading the numeric option `name`, and `r` the
    /// result: the number the engine returned, or the error of its status.
    pub open spec fn reads_number(self, new: Self, name: &str, r: GmshResult<R>) -> bool {
        &&& self.option_call(new, name, CallView::GetNumberOption { name: name@ })
        &&& match self.refusal(name) {
            Some(e) => r == Err::<R, GmshError>(e),
            None => {
                let last = new.log.last();
                match r {
                    Ok(v) => last.status == 0 && last.number == Some(v),
                    Err(e) => last.status != 0 && e == error_of(CallCategory::Option, last.status),
                }
            },
        }
    }

    /// `new` is `self` after reading the string option `name`, and `r` the
    /// result: the text the engine returned, `CInterface` if it was not
    /// valid text, or the error of its status.
    pub open spec fn reads_string(self, new: Self, name: &str, r: GmshResult<String>) -> bool {
        &&& self.option_call(new, name, CallView::GetStringOption { name: name@ })
        &&& match self.refusal(name) {
            Some(e) => r == Err::<String, GmshError>(e),
            None => {
                let last = new.log.last();
                match last.text {
                    None => r == Err::<String, GmshError>(GmshError::CInterface),
                    Some(t) => match r {
                        Ok(v) => last.status == 0 && v@ == t,
                        Err(e) => last.status != 0 && e == error_of(CallCategory::Option, last.status),
                    },
                }
            },
        }
    }

    /// `new` is `self` after setting the numeric option `name` to `value`,
    /// and `r` the result.
    pub open spec fn writes_number(self, new: Self, name: &str, value: R, r: GmshResult<()>) -> bool {
        &&& self.option_call(new, name, CallView::SetNumberOption { name: name@, value })
        &&& r == match self.refusal(name) {
            Some(e) => Err(e),
            None => crate::err::outcome(CallCategory::Option, new.log.last().status, ()),
        }
    }

    /// `new` is `self` after setting the string option `name` to `value`,
    /// and `r` the result. A value holding a zero byte is refused like a
    /// name holding one.
    pub open spec fn writes_string(self, new: Self, name: &str, value: &str, r: GmshResult<()>) -> bool {
        match self.refusal(name) {
            Some(e) => new == self && r == Err::<(), GmshError>(e),
            None => if value.spec_bytes().contains(0u8) {
                new == self && r == Err::<(), GmshError>(GmshError::CInterface)
            } else {
                &&& self.one_call(new, CallView::SetStringOption { name: name@, value: value@ })
                &&& r == crate::err::outcome(CallCategory::Option, new.log.last().status, ())
            },
        }
    }

    /// `new` is `self` after a call that sets or reads the option `name`, or
    /// that is refused: the session is unchanged but for the call, which is
    /// recorded.
    pub open spec fn option_call(self, new: Self, name: &str, call: CallView<R>) -> bool {
        match self.refusal(name) {
            Some(_) => new == self,
            None => self.one_call(new, call),
        }
    }

    /// `new` is `self` after starting the engine of a session that is not
    /// alive: the engine is initialized, then its messages are sent to the
    /// terminal, and the engine is shut down again if that second step
    /// fails. The session is alive after exactly when both steps succeed.
    pub open spec fn starts(self, new: Self) -> bool {
        let n = self.log.len() as int;
        &&& new.log.len() > n
        &&& forall|k: int| 0 <= k < n ==> new.log[k] == self.log[k]
        &&& new.log[n].call == CallView::<R>::Initialize
        &&& if new.log[n].status != 0 {
            new.log.len() == n + 1 && !new.alive
        } else {
            &&& new.log.len() >= n + 2
            &&& new.log[n + 1].call == CallView::<R>::SetFlagOption { name: terminal_option(), value: true }
            &&& if new.log[n + 1].status != 0 {
                &&& new.log.len() == n + 3
                &&& new.log[n + 2].call == CallView::<R>::Finalize
                &&& !new.alive
            } else {
                new.log.len() == n + 2 && new.alive
            }
        }
        &&& new.current == Selection::NoneSelected
        &&& new.models == self.models
        &&& new.epoch == self.epoch
    }

    /// The result of starting, `new` being the state after: see [`start_outcome`].
    pub open spec fn start_result(self, new: Self) -> GmshResult<()> {
        let n = self.log.len() as int;
        start_outcome_of(
            new.log[n].status,
            if new.log.len() > n + 1 {
                Some(new.log[n + 1].status)
            } else {
                None
            },
        )
    }

    /// The invariant of a session: recorded points are distinct in each
    /// model, the current model exists, and an ended session has no open model.
    pub open spec fn wf(self) -> bool {
        &&& forall|i: int| 0 <= i < self.models.len() ==> (#[trigger] self.models[i]).points_distinct()
        &&& (self.current matches Selection::Selected(i) ==> i < self.models.len())
        &&& (!self.alive ==> forall|i: int| 0 <= i < self.models.len() ==> !(#[trigger] self.models[i]).open)
    }

    /// Whether the model that `m` names may be used: the session is alive,
    /// `m` was made by this session, and the model is open.
    pub open spec fn usable(self, m: ModelKey) -> bool {
        &&& self.alive
        &&& m.session == self.epoch
        &&& m.index < self.models.len()
        &&& self.models[m.index as int].open
    }

    /// `new` is `self` with the same state and one more exchange, `call`.
    pub open spec fn one_call(self, new: Self, call: CallView<R>) -> bool {
        &&& new.log == self.log.push(new.log.last())
        &&& new.log.last().call == call
        &&& new.alive == self.alive
        &&& new.current == self.current
        &&& new.models == self.models
        &&& new.epoch == self.epoch
    }

    /// The calls that running `calls` on model `m` makes, in order: the
    /// model's selection first when it is not current.
    pub open spec fn planned(self, m: ModelKey, calls: Seq<CallView<R>>) -> Seq<CallView<R>> {
        let i = m.index;
        if self.current == Selection::Selected(i) {
            calls
        } else {
            seq![CallView::SetCurrent { name: self.models[i as int].name }] + calls
        }
    }

    /// `new` has the exchanges of running `calls` on model `m`, which can
    /// be used: the planned calls are made in order up to the first that
    /// fails, and the session stays alive.
    pub open spec fn made_calls(self, new: Self, m: ModelKey, calls: Seq<CallView<R>>) -> bool {
        let plan = self.planned(m, calls);
        let n = self.log.len();
        &&& n <= new.log.len() <= n + plan.len()
        &&& (plan.len() > 0 ==> n < new.log.len())
        &&& forall|k: int| 0 <= k < n ==> new.log[k] == self.log[k]
        &&& forall|k: int| n <= k < new.log.len() ==> (#[trigger] new.log[k]).call == plan[k - n]
        &&& forall|k: int| n <= k < new.log.len() - 1 ==> (#[trigger] new.log[k]).status == 0
        &&& (new.log.len() < n + plan.len() ==> new.log.last().status != 0)
        &&& new.alive == self.alive
        &&& new.epoch == self.epoch
    }

    /// The current-model register after a run on model `m`, `new` being the
    /// state after: model `m`, unless its selection was needed and failed.
    pub open spec fn selection_after(self, new: Self, m: ModelKey) -> Selection {
        let i = m.index;
        if self.current != Selection::Selected(i) && new.log[self.log.len() as int].status != 0 {
            Selection::NoneSelected
        } else {
            Selection::Selected(i)
        }
    }

    /// `new` is `self` after running `calls` on model `m`, as far as the
    /// engine and the current-model register go: nothing happens when the
    /// model cannot be used; otherwise the calls are made and the register
    /// is as [`SessionView::selection_after`] says.
    pub open spec fn ran(self, new: Self, m: ModelKey, calls: Seq<CallView<R>>) -> bool {
        if !self.usable(m) {
            new == self
        } else {
            &&& self.made_calls(new, m, calls)
            &&& new.current == self.selection_after(new, m)
        }
    }

    /// What running calls of `category` on model `m` amounts to, `new` being
    /// the state after: `Initialization` when the model cannot be used,
    /// `Execution` when its selection failed, else the outcome of the last
    /// call made (`Ok(0)` when none was needed).
    pub open spec fn run_result(self, new: Self, m: ModelKey, category: CallCategory) -> Result<i32, GmshError> {
        let last = new.log.last();
        let i = m.index;
        if !self.usable(m) {
            Err(GmshError::Initialization)
        } else if new.log.len() == self.log.len() {
            Ok(0)
        } else if last.status == 0 {
            Ok(last.value)
        } else if self.current != Selection::Selected(i) && new.log.len() == self.log.len() + 1 {
            Err(GmshError::Execution)
        } else {
            Err(error_of(category, last.status))
        }
    }
}

/// The text of an optional string.
pub open spec fn text_view(text: Option<String>) -> Option<Seq<char>> {
    match text {
        Some(t) => Some(t@),
        None => None,
    }
}

/// Whether a name holds a zero byte, which cannot cross the boundary.
pub fn has_nul(name: &str) -> (r: bool)
    ensures
        r == name.spec_bytes().contains(0u8),
{
    let bytes = name.as_bytes();
    let mut k: usize = 0;
    while k < bytes.len()
        invariant
            bytes@ == name.spec_bytes(),
            k <= bytes@.len(),
            forall|j: int| 0 <= j < k ==> bytes@[j] != 0u8,
        decreases bytes@.len() - k,
    {
        if bytes[k] == 0u8 {
            return true;
        }
        k = k + 1;
    }
    false
}

impl<B: Backend> Gmsh<B> {
    /// Makes `call` and records it with the answer.
    fn perform(&mut self, call: &Call<B::Real>) -> (r: (i32, i32))
        ensures
            final(self)@ == (SessionView {
                log: old(self)@.log.push(
                    Exchange { call: call@, status: r.1, value: r.0, number: None, text: None },
                ),
                ..old(self)@
            }),
    {
        let r = self.backend.call(call);
        proof {
            self.log@ = self.log@.push(
                Exchange { call: call@, status: r.1, value: r.0, number: None, text: None },
            );
        }
        r
    }

    proof fn lemma_view_models(&self)
        ensures
            self@.models.len() == self.models@.len(),
            forall|i: int| 0 <= i < self.models@.len() ==> self@.models[i] == (#[trigger] self.models@[i])@,
    {
    }

    /// A session on `backend` whose engine is not started yet. Its epoch is
    /// the engine's [`Backend::instance`].
    pub fn new(backend: B) -> (g: Gmsh<B>)
        ensures
            g@.wf(),
            !g@.alive,
            g@.current == Selection::NoneSelected,
            g@.models.len() == 0,
            g@.log.len() == 0,
    {
        let epoch = backend.instance();
        Gmsh {
            backend,
            epoch,
            alive: false,
            current: Selection::NoneSelected,
            models: Vec::new(),
            log: Ghost(Seq::empty()),
        }
    }

    /// Starts the engine and sends its messages to the terminal. Fails with
    /// `Initialization` when either step fails, shutting the engine down
    /// again if it had started, and when the session is already alive. The
    /// models of an earlier run stay closed.
    pub fn start(&mut self) -> (r: GmshResult<()>)
        requires
            old(self)@.wf(),
        ensures
            final(self)@.wf(),
            old(self)@.alive ==> final(self)@ == old(self)@ && r == Err::<(), GmshError>(
                GmshError::Initialization,
            ),
            !old(self)@.alive ==> old(self)@.starts(final(self)@) && r == old(self)@.start_result(
                final(self)@,
            ),
    {
        if self.alive {
            return Err(GmshError::Initialization);
        }
        self.current = Selection::NoneSelected;
        let (_, init_status) = self.perform(&Call::Initialize);
        if init_status != 0 {
            return start_outcome(init_status, None);
        }
        self.alive = true;
        let name = String::from_str("General.Terminal");
        proof {
            reveal_strlit("General.Terminal");
            assert(name@ =~= terminal_option());
        }
        let (_, flag_status) = self.perform(&Call::SetFlagOption { name, value: true });
        if flag_status != 0 {
            self.perform(&Call::Finalize);
            self.alive = false;
        }
        start_outcome(init_status, Some(flag_status))
    }

    /// A started session on `backend`: [`Gmsh::new`] followed by
    /// [`Gmsh::start`]. Fails with `Initialization` when starting fails.
    pub fn initialize(backend: B) -> (r: GmshResult<Gmsh<B>>)
        ensures
            match r {
                Ok(g) => {
                    &&& g@.wf()
                    &&& g@.alive
                    &&& g@.current == Selection::NoneSelected
                    &&& g@.models.len() == 0
                    &&& g@.log.len() == 2
                    &&& g@.log[0].call == CallView::<B::Real>::Initialize
                    &&& g@.log[0].status == 0
                    &&& g@.log[1].call == CallView::<B::Real>::SetFlagOption {
                        name: terminal_option(),
                        value: true,
                    }
                    &&& g@.log[1].status == 0
                },
                Err(e) => e == GmshError::Initialization,
            },
    {
        let mut g = Gmsh::new(backend);
        match g.start() {
            Ok(()) => Ok(g),
            Err(e) => Err(e),
        }
    }

    /// Shuts the engine down, if it is running, and closes every model. A
    /// failure of the shutdown is not reported: teardown always completes.
    pub fn finalize(&mut self)
        requires
            old(self)@.wf(),
        ensures
            final(self)@.wf(),
            !final(self)@.alive,
            final(self)@.current == Selection::NoneSelected,
            final(self)@.models.len() == old(self)@.models.len(),
            forall|i: int| 0 <= i < old(self)@.models.len() ==> (#[trigger] final(self)@.models[i]) == (ModelView { open: false, ..old(self)@.models[i] }),
            old(self)@.alive ==> final(self)@.log.len() == old(self)@.log.len() + 1
                && final(self)@.log.drop_last() == old(self)@.log
                && final(self)@.log.last().call == CallView::<B::Real>::Finalize,
            !old(self)@.alive ==> final(self)@.log == old(self)@.log,
    {
        if self.alive {
            self.perform(&Call::Finalize);
        }
        self.alive = false;
        self.current = Selection::NoneSelected;
        let ghost before = self.models@;
        let ghost log = self.log@;
        let mut k: usize = 0;
        while k < self.models.len()
            invariant
                !self.alive,
                self.current == Selection::NoneSelected,
                self.log@ == log,
                k <= self.models@.len(),
                self.models@.len() == before.len(),
                forall|j: int| 0 <= j < k ==> (#[trigger] self.models@[j])@ == (ModelView { open: false, ..before[j]@ }),
                forall|j: int| k <= j < before.len() ==> (#[trigger] self.models@[j]) == before[j],
            decreases before.len() - k,
        {
            self.models[k].close();
            k = k + 1;
        }
        proof {
            self.lemma_view_models();
            assert forall|i: int| 0 <= i < self@.models.len() implies (#[trigger] self@.models[i]).points_distinct() by {
                assert(old(self)@.models[i].points_distinct());
            }
        }
    }

    /// Whether the engine is initialized and the session has not ended.
    pub fn is_alive(&self) -> (r: bool)
        ensures
            r == self@.alive,
    {
        self.alive
    }

    /// The current-model register.
    pub fn current(&self) -> (r: Selection)
        ensures
            r == self@.current,
    {
        self.current
    }

    /// The engine behind the session.
    pub fn backend(&self) -> &B {
        &self.backend
    }

    /// Registers a new model named `name`, which becomes current.
    fn create_model(&mut self, name: &str, kernel: KernelType) -> (r: GmshResult<ModelKey>)
        requires
            old(self)@.wf(),
        ensures
            final(self)@.wf(),
            old(self)@.creates(final(self)@, name, kernel, r),
    {
        if !self.alive {
            return Err(GmshError::Initialization);
        }
        if has_nul(name) {
            return Err(GmshError::CInterface);
        }
        let (_, status) = self.perform(&Call::ModelAdd { name: name.to_owned() });
        if status != 0 {
            self.current = Selection::NoneSelected;
            return if status == -1 {
                Err(GmshError::Initialization)
            } else {
                Err(GmshError::Execution)
            };
        }
        let index = self.models.len();
        self.models.push(Model::new(name, kernel));
        self.current = Selection::Selected(index);
        proof {
            self.lemma_view_models();
            assert(self@.models =~= old(self)@.models.push(
                ModelView { name: name@, kernel, open: true, points: Seq::empty() },
            ));
        }
        Ok(ModelKey { index, session: self.epoch })
    }

    /// Makes a new model that uses the engine's built-in kernel.
    pub fn create_native_model(&mut self, name: &str) -> (r: GmshResult<GeoModel>)
        requires
            old(self)@.wf(),
        ensures
            final(self)@.wf(),
            old(self)@.creates(
                final(self)@,
                name,
                KernelType::Native(NativeKernel {}),
                match r {
                    Ok(m) => Ok(m@),
                    Err(e) => Err(e),
                },
            ),
            r matches Ok(m) ==> m.kernel_type() == KernelType::Native(NativeKernel {}),
    {
        match self.create_model(name, KernelType::Native(NativeKernel {})) {
            Ok(key) => Ok(ModelHandle::at(key, KernelType::Native(NativeKernel {}), NativeKernel {})),
            Err(e) => Err(e),
        }
    }

    /// Makes a new model that uses the constructive-solid kernel.
    pub fn create_occ_model(&mut self, name: &str) -> (r: GmshResult<OccModel>)
        requires
            old(self)@.wf(),
        ensures
            final(self)@.wf(),
            old(self)@.creates(
                final(self)@,
                name,
                KernelType::OCC(OCCKernel {}),
                match r {
                    Ok(m) => Ok(m@),
                    Err(e) => Err(e),
                },
            ),
            r matches Ok(m) ==> m.kernel_type() == KernelType::OCC(OCCKernel {}),
    {
        match self.create_model(name, KernelType::OCC(OCCKernel {})) {
            Ok(key) => Ok(ModelHandle::at(key, KernelType::OCC(OCCKernel {}), OCCKernel {})),
            Err(e) => Err(e),
        }
    }

    /// Gets a numeric option.
    pub fn get_number_option(&mut self, name: &str) -> (r: GmshResult<B::Real>)
        requires
            old(self)@.wf(),
        ensures
            final(self)@.wf(),
            old(self)@.reads_number(final(self)@, name, r),
    {
        if !self.alive {
            return Err(GmshError::Initialization);
        }
        if has_nul(name) {
            return Err(GmshError::CInterface);
        }
        let (value, status) = self.backend.get_number_option(name);
        proof {
            self.log@ = self.log@.push(
                Exchange {
                    call: CallView::GetNumberOption { name: name@ },
                    status,
                    value: 0,
                    number: Some(value),
                    text: None,
                },
            );
        }
        check_option_error(status, value)
    }

    /// Gets a string option. A value that is not valid text fails with
    /// `CInterface`, whatever the status.
    pub fn get_string_option(&mut self, name: &str) -> (r: GmshResult<String>)
        requires
            old(self)@.wf(),
        ensures
            final(self)@.wf(),
            old(self)@.reads_string(final(self)@, name, r),
    {
        if !self.alive {
            return Err(GmshError::Initialization);
        }
        if has_nul(name) {
            return Err(GmshError::CInterface);
        }
        let (text, status) = self.backend.get_string_option(name);
        proof {
            self.log@ = self.log@.push(
                Exchange {
                    call: CallView::GetStringOption { name: name@ },
                    status,
                    value: 0,
                    number: None,
                    text: text_view(text),
                },
            );
        }
        match text {
            Some(t) => check_option_error(status, t),
            None => Err(GmshError::CInterface),
        }
    }

    /// Sets a numeric option.
    pub fn set_number_option(&mut self, name: &str, value: B::Real) -> (r: GmshResult<()>)
        requires
            old(self)@.wf(),
        ensures
            final(self)@.wf(),
            old(self)@.writes_number(final(self)@, name, value, r),
    {
        if !self.alive {
            return Err(GmshError::Initialization);
        }
        if has_nul(name) {
            return Err(GmshError::CInterface);
        }
        let (_, status) = self.perform(&Call::SetNumberOption { name: name.to_owned(), value });
        check_option_error(status, ())
    }

    /// Sets a string option. A value holding a zero byte fails with
    /// `CInterface` before any call.
    pub fn set_string_option(&mut self, name: &str, value: &str) -> (r: GmshResult<()>)
        requires
            old(self)@.wf(),
        ensures
            final(self)@.wf(),
            old(self)@.writes_string(final(self)@, name, value, r),
    {
        if !self.alive {
            return Err(GmshError::Initialization);
        }
        if has_nul(name) || has_nul(value) {
            return Err(GmshError::CInterface);
        }
        let (_, status) = self.perform(
            &Call::SetStringOption { name: name.to_owned(), value: value.to_owned() },
        );
        check_option_error(status, ())
    }

    /// Runs `calls` on model `m`: selects the model first when it is not
    /// current, then makes the calls in order until one fails, and returns
    /// the value of the last call made.
    pub(crate) fn run(&mut self, m: ModelKey, calls: &Vec<Call<B::Real>>, category: CallCategory) -> (r: GmshResult<i32>)
        requires
            old(self)@.wf(),
        ensures
            final(self)@.wf(),
            final(self)@.models == old(self)@.models,
            old(self)@.ran(final(self)@, m, calls@.map_values(|c: Call<B::Real>| c@)),
            r == old(self)@.run_result(final(self)@, m, category),
    {
        let i = m.index;
        if !(self.alive && m.session == self.epoch && i < self.models.len() && self.models[i].is_open()) {
            proof {
                self.lemma_view_models();
            }
            return Err(GmshError::Initialization);
        }
        proof {
            self.lemma_view_models();
        }
        let ghost pre = self@;
        let ghost views = calls@.map_values(|c: Call<B::Real>| c@);
        let ghost plan = pre.planned(m, views);
        let mut off: usize = 0;
        let mut last: i32 = 0;
        if self.current != Selection::Selected(i) {
            let name = self.models[i].name().to_owned();
            let (value, status) = self.perform(&Call::SetCurrent { name });
            if status != 0 {
                self.current = Selection::NoneSelected;
                return Err(GmshError::Execution);
            }
            self.current = Selection::Selected(i);
            off = 1;
            last = value;
        }
        let mut k: usize = 0;
        while k < calls.len()
            invariant
                pre == old(self)@,
                pre.usable(m),
                i == m.index,
                pre.wf(),
                views == calls@.map_values(|c: Call<B::Real>| c@),
                plan == pre.planned(m, views),
                self@.alive == pre.alive,
                self@.epoch == pre.epoch,
                self@.models == pre.models,
                self@.current == Selection::Selected(i),
                off <= 1,
                off == 1 <==> pre.current != Selection::Selected(i),
                k <= calls@.len(),
                self@.log.len() == pre.log.len() + off + k,
                forall|j: int| 0 <= j < pre.log.len() ==> self@.log[j] == pre.log[j],
                forall|j: int| pre.log.len() <= j < self@.log.len() ==> (#[trigger] self@.log[j]).call == plan[j - pre.log.len()],
                forall|j: int| pre.log.len() <= j < self@.log.len() ==> (#[trigger] self@.log[j]).status == 0,
                off + k > 0 ==> last == self@.log.last().value,
                off + k == 0 ==> last == 0,
            decreases calls@.len() - k,
        {
            let (value, status) = self.perform(&calls[k]);
            if status != 0 {
                return check_status(category, status, value);
            }
            last = value;
            k = k + 1;
        }
        proof {
            if self@.log.len() > pre.log.len() {
                assert(self@.log[self@.log.len() - 1].status == 0);
            }
        }
        Ok(last)
    }

    /// Whether the model that `m` names may be used.
    pub fn is_usable(&self, m: ModelKey) -> (r: bool)
        ensures
            r == self@.usable(m),
    {
        proof {
            self.lemma_view_models();
        }
        self.alive && m.session == self.epoch && m.index < self.models.len() && self.models[m.index].is_open()
    }

    /// Whether model `i` has a live point `raw` that it added.
    pub(crate) fn has_point(&self, i: usize, raw: i32) -> (r: bool)
        requires
            i < self@.models.len(),
        ensures
            r == self@.models[i as int].points.contains(raw),
    {
        proof {
            self.lemma_view_models();
        }
        self.models[i].has_point(raw)
    }

    /// Records that model `i` added point `raw`.
    pub(crate) fn record_point(&mut self, i: usize, raw: i32)
        requires
            old(self)@.wf(),
            i < old(self)@.models.len(),
            !old(self)@.models[i as int].points.contains(raw),
        ensures
            final(self)@.wf(),
            final(self)@ == (SessionView {
                models: old(self)@.models.update(
                    i as int,
                    ModelView { points: old(self)@.models[i as int].points.push(raw), ..old(self)@.models[i as int] },
                ),
                ..old(self)@
            }),
    {
        proof {
            self.lemma_view_models();
        }
        self.models[i].add_point(raw);
        proof {
            self.lemma_view_models();
            assert(self@.models =~= old(self)@.models.update(
                i as int,
                ModelView { points: old(self)@.models[i as int].points.push(raw), ..old(self)@.models[i as int] },
            ));
            let p = self@.models[i as int].points;
            assert(old(self)@.models[i as int].points_distinct());
            assert forall|a: int, b: int| 0 <= a < b < p.len() implies p[a] != p[b] by {
                if b == p.len() - 1 {
                    assert(old(self)@.models[i as int].points.contains(p[a]));
                }
            }
        }
    }

    /// Records that model `i` removed point `raw`.
    pub(crate) fn forget_point(&mut self, i: usize, raw: i32)
        requires
            old(self)@.wf(),
            i < old(self)@.models.len(),
        ensures
            final(self)@.wf(),
            final(self)@ == (SessionView {
                models: old(self)@.models.update(
                    i as int,
                    ModelView {
                        points: old(self)@.models[i as int].points.remove_value(raw),
                        ..old(self)@.models[i as int]
                    },
                ),
                ..old(self)@
            }),
    {
        proof {
            self.lemma_view_models();
        }
        self.models[i].remove_point(raw);
        proof {
            self.lemma_view_models();
            let q = old(self)@.models[i as int].points;
            assert(self@.models =~= old(self)@.models.update(
                i as int,
                ModelView { points: q.remove_value(raw), ..old(self)@.models[i as int] },
            ));
            assert(old(self)@.models[i as int].points_distinct());
            q.index_of_first_ensures(raw);
            let p = q.remove_value(raw);
            match q.index_of_first(raw) {
                Some(x) => {
                    assert forall|a: int, b: int| 0 <= a < b < p.len() implies p[a] != p[b] by {
                        let a1 = if a < x { a } else { a + 1 };
                        let b1 = if b < x { b } else { b + 1 };
                        assert(p[a] == q[a1]);
                        assert(p[b] == q[b1]);
                    }
                },
                None => {},
            }
        }
    }

    /// Records that model `i` was removed from the engine: it is closed, and
    /// no model is known to be current.
    pub(crate) fn close_model(&mut self, i: usize)
        requires
            old(self)@.wf(),
            i < old(self)@.models.len(),
        ensures
            final(self)@.wf(),
            final(self)@ == (SessionView {
                models: old(self)@.models.update(
                    i as int,
                    ModelView { open: false, ..old(self)@.models[i as int] },
                ),
                current: Selection::NoneSelected,
                ..old(self)@
            }),
    {
        proof {
            self.lemma_view_models();
        }
        self.models[i].close();
        self.current = Selection::NoneSelected;
        proof {
            self.lemma_view_models();
            assert(self@.models =~= old(self)@.models.update(
                i as int,
                ModelView { open: false, ..old(self)@.models[i as int] },
            ));
            assert(old(self)@.models[i as int].points_distinct());
        }
    }

    /// Makes a top-level call that needs a live session.
    fn top_level(&mut self, call: Call<B::Real>) -> (r: GmshResult<()>)
        requires
            old(self)@.wf(),
        ensures
            final(self)@.wf(),
            old(self)@.top_call(final(self)@, call@, r),
    {
        if !self.alive {
            return Err(GmshError::Initialization);
        }
        let (_, status) = self.perform(&call);
        check_status(CallCategory::TopLevel, status, ())
    }

    /// Creates the graphical interface.
    pub fn initialize_gui(&mut self) -> (r: GmshResult<Gui>)
        requires
            old(self)@.wf(),
        ensures
            final(self)@.wf(),
            old(self)@.top_call(
                final(self)@,
                CallView::GuiInitialize,
                match r {
                    Ok(_) => Ok(()),
                    Err(e) => Err(e),
                },
            ),
    {
        match self.top_level(Call::GuiInitialize) {
            Ok(()) => Ok(Gui { opened: () }),
            Err(e) => Err(e),
        }
    }

    /// Runs the graphical interface until its window is closed.
    pub fn run_gui(&mut self) -> (r: GmshResult<Gui>)
        requires
            old(self)@.wf(),
        ensures
            final(self)@.wf(),
            old(self)@.top_call(
                final(self)@,
                CallView::GuiRun,
                match r {
                    Ok(_) => Ok(()),
                    Err(e) => Err(e),
                },
            ),
    {
        match self.top_level(Call::GuiRun) {
            Ok(()) => Ok(Gui { opened: () }),
            Err(e) => Err(e),
        }
    }
}

/// The graphical interface of a session, once created.
pub struct Gui {
    opened: (),
}

impl Gui {
    /// Draws all the scenes of the interface.
    pub fn draw<B: Backend>(&mut self, gmsh: &mut Gmsh<B>) -> (r: GmshResult<()>)
        requires
            old(gmsh)@.wf(),
        ensures
            final(gmsh)@.wf(),
            old(gmsh)@.top_call(final(gmsh)@, CallView::GuiDraw, r),
    {
        gmsh.top_level(Call::GuiDraw)
    }
}

} // verus!

//! Properties that hold across the operations of a session.
use vstd::prelude::*;
use vstd::string::StringSliceAdditionalSpecFns;
use crate::backend::CallView;
use crate::err::{outcome, CallCategory, GmshError, GmshResult};
use crate::session::{ModelKey, SessionView};
use crate::groups::CurveOrSurface;
use crate::shared::{adds_point, curve_or_surface_result, removes_point};
use crate::tags::{CurveTag, PointTag, SurfaceTag};

verus! {

/// A point that a model added successfully is live in that model exactly
/// once afterwards, and its tag is the engine's answer. Whether the engine
/// reused the identifier of a point that was live before is the engine's
/// answer too: when it did not, the point is recorded as the model's newest.
pub proof fn lemma_added_point_is_fresh<R>(
    old: SessionView<R>,
    new: SessionView<R>,
    m: ModelKey,
    call: CallView<R>,
    r: GmshResult<PointTag>,
)
    requires
        old.wf(),
        new.wf(),
        adds_point(old, new, m, call, r),
        r is Ok,
    ensures
        ({
            let raw = r->Ok_0@;
            let points = new.models[m.index as int].points;
            &&& new.log.last().status == 0
            &&& new.log.last().value == raw
            &&& points.contains(raw)
            &&& forall|a: int, b: int| 0 <= a < points.len() && 0 <= b < points.len() && points[a] == raw
                && points[b] == raw ==> a == b
            &&& !old.models[m.index as int].points.contains(raw) ==> points == old.models[m.index as int].points.push(raw)
        }),
{
    let raw = r->Ok_0@;
    let i = m.index;
    assert(old.usable(m));
    let points = new.models[i as int].points;
    assert(new.models[i as int].points_distinct());
    if !old.models[i as int].points.contains(raw) {
        assert(points[points.len() - 1] == raw);
    }
}

/// The curve-or-surface operation accepts every curve and every surface on
/// a model that can be used, and hands on its dimension and identifier
/// unchanged.
pub proof fn lemma_curve_or_surface_op_accepts<R>(s: SessionView<R>, m: ModelKey, c: CurveTag, f: SurfaceTag)
    requires
        s.usable(m),
    ensures
        curve_or_surface_result(s, m, CurveOrSurface::Curve(c)) == Ok::<(i32, i32), GmshError>((1i32, c@)),
        curve_or_surface_result(s, m, CurveOrSurface::Surface(f)) == Ok::<(i32, i32), GmshError>((2i32, f@)),
{
}

/// A model of a session that has ended, or of another session, cannot be
/// used: every operation on it fails with `Initialization` and leaves the
/// session as it was, whatever calls the operation would make and whatever
/// category they belong to. Once a session has ended, so do its own model
/// creation and option calls.
pub proof fn lemma_ended_session_refuses<R>(
    old: SessionView<R>,
    new: SessionView<R>,
    m: ModelKey,
    calls: Seq<CallView<R>>,
    category: CallCategory,
    kernel: crate::model::KernelType,
    point: CallView<R>,
    raw: i32,
    added: GmshResult<PointTag>,
    removed: GmshResult<()>,
    name: &str,
    created: GmshResult<ModelKey>,
)
    requires
        !old.alive || m.session != old.epoch,
    ensures
        !old.usable(m),
        !old.alive ==> old.refusal(name) == Some(GmshError::Initialization),
        !old.alive && old.creates(new, name, kernel, created) ==> new == old && created == Err::<
            ModelKey,
            GmshError,
        >(GmshError::Initialization),
        old.ran(new, m, calls) ==> new == old && old.run_result(new, m, category) == Err::<
            i32,
            GmshError,
        >(GmshError::Initialization),
        adds_point(old, new, m, point, added) ==> new == old && added == Err::<
            PointTag,
            GmshError,
        >(GmshError::Initialization),
        removes_point(old, new, m, kernel, raw, removed) ==> new == old && removed == Err::<
            (),
            GmshError,
        >(GmshError::Initialization),
{
}

/// A name that the engine does not know, which it reports with status 1,
/// makes every option getter and setter fail with `UnknownOption`, never
/// with `UnknownError` and never with a value.
pub proof fn lemma_unknown_option<R>(
    old: SessionView<R>,
    new: SessionView<R>,
    name: &str,
    number: R,
    text: &str,
    get_number: GmshResult<R>,
    get_string: GmshResult<String>,
    set_number: GmshResult<()>,
    set_string: GmshResult<()>,
)
    requires
        old.refusal(name) is None,
        new.log.last().status == 1,
    ensures
        old.reads_number(new, name, get_number) ==> get_number == Err::<R, GmshError>(
            GmshError::UnknownOption,
        ),
        old.reads_string(new, name, get_string) && new.log.last().text is Some ==> get_string
            == Err::<String, GmshError>(GmshError::UnknownOption),
        old.writes_number(new, name, number, set_number) ==> set_number == Err::<(), GmshError>(
            GmshError::UnknownOption,
        ),
        old.writes_string(new, name, text, set_string) && !text.spec_bytes().contains(0u8)
            ==> set_string == Err::<(), GmshError>(GmshError::UnknownOption),
        outcome(CallCategory::Option, 1, ()) != Err::<(), GmshError>(GmshError::UnknownError),
{
}

/// Options pass through unchanged: a number or text that is set is handed
/// to the engine as it is, and when the engine answers a later read with
/// what it was given, the read returns exactly the value that was set.
pub proof fn lemma_option_round_trip<R>(
    s0: SessionView<R>,
    s1: SessionView<R>,
    s2: SessionView<R>,
    name: &str,
    number: R,
    set: GmshResult<()>,
    got: GmshResult<R>,
)
    requires
        s0.writes_number(s1, name, number, set),
        set is Ok,
        s1.reads_number(s2, name, got),
        s2.log.last().status == 0,
        s2.log.last().number == Some(number),
    ensures
        s1.log.last().call == (CallView::SetNumberOption { name: name@, value: number }),
        got == Ok::<R, GmshError>(number),
{
}

/// The text form of the round trip: text that is set is handed to the
/// engine as it is, and a read that the engine answers with that text
/// returns it.
pub proof fn lemma_string_option_round_trip<R>(
    s0: SessionView<R>,
    s1: SessionView<R>,
    s2: SessionView<R>,
    name: &str,
    text: &str,
    set: GmshResult<()>,
    got: GmshResult<String>,
)
    requires
        s0.writes_string(s1, name, text, set),
        set is Ok,
        s1.reads_string(s2, name, got),
        s2.log.last().status == 0,
        s2.log.last().text == Some(text@),
    ensures
        s1.log.last().call == (CallView::<R>::SetStringOption { name: name@, value: text@ }),
        got is Ok && got->Ok_0@ == text@,
{
}

/// Models created one after the other in a session have distinct keys,
/// whatever tags the engine later hands out in each; the keys name the two
/// new records, and the second creation leaves the first model as it was.
pub proof fn lemma_models_are_distinct<R>(
    s0: SessionView<R>,
    s1: SessionView<R>,
    s2: SessionView<R>,
    a: &str,
    b: &str,
    ka: crate::model::KernelType,
    kb: crate::model::KernelType,
    first: GmshResult<ModelKey>,
    second: GmshResult<ModelKey>,
)
    requires
        s0.creates(s1, a, ka, first),
        s1.creates(s2, b, kb, second),
        first is Ok,
        second is Ok,
    ensures
        first->Ok_0 != second->Ok_0,
        s2.usable(first->Ok_0),
        s2.usable(second->Ok_0),
        s2.models[first->Ok_0.index as int].name == a@,
        s2.models[second->Ok_0.index as int].name == b@,
{
}

} // verus!

//! The assembler: one pass over the decoded events, grouped by correlation
//! id, yields the report. Later events for the same id win; ids that never
//! received an identity event are dropped; unknown wire ids are counted.

use vstd::prelude::*;

use crate::events::{DecodedEvent, SpecDecodedEvent, SpecTaskInputsFilePropertyRootEvent,
    SpecTaskInputsFilePropertyEvent, SpecFilePropertyRootChild};
use crate::framing::{FramedEvent, SpecFramedEvent};
use crate::models::{BasicMemoryStatsData, BuildScanPayload, FilePropertyRootChildData,
    MemoryPoolSnapshotData, PlannedNodeData, RawEventSummary, SpecBasicMemoryStatsData,
    SpecFilePropertyRootChildData, SpecMemoryPoolSnapshotData, SpecPlannedNodeData, SpecTask,
    SpecTaskInputs, SpecTaskInputsFilePropertyData, SpecTaskInputsFilePropertyRootData,
    SpecTaskInputsImplementationData, SpecTaskInputsPropertyNamesData,
    SpecTaskInputsSnapshottingResultData, SpecTaskInputsValuePropertiesData, Task, TaskInputs,
    TaskInputsFilePropertyData, TaskInputsFilePropertyRootData, TaskInputsImplementationData,
    TaskInputsPropertyNamesData, TaskInputsSnapshottingResultData, TaskInputsValuePropertiesData,
    TaskOutcome, TaskRegistrationSummaryData, TransformExecutionRequestData,
    spec_outcome_from_ordinal};

verus! {

broadcast use crate::kryo::group_deep_view_eq;

/// One decoded event with the frame it arrived in.
pub type SpecEvent = (SpecFramedEvent, SpecDecodedEvent);

// ——— matchers on single events ———

pub open spec fn is_identity_for(ev: SpecEvent, id: i64) -> bool {
    ev.1 matches SpecDecodedEvent::TaskIdentity(e) && e.id == id
}

pub open spec fn is_started_for(ev: SpecEvent, id: i64) -> bool {
    ev.1 matches SpecDecodedEvent::TaskStarted(e) && e.id == id
}

pub open spec fn is_finished_for(ev: SpecEvent, id: i64) -> bool {
    ev.1 matches SpecDecodedEvent::TaskFinished(e) && e.id == id
}

pub open spec fn is_property_names_for(ev: SpecEvent, id: i64) -> bool {
    ev.1 matches SpecDecodedEvent::TaskInputsPropertyNames(e) && e.id == Some(id)
}

pub open spec fn is_implementation_for(ev: SpecEvent, id: i64) -> bool {
    ev.1 matches SpecDecodedEvent::TaskInputsImplementation(e) && e.id == Some(id)
}

pub open spec fn is_value_properties_for(ev: SpecEvent, id: i64) -> bool {
    ev.1 matches SpecDecodedEvent::TaskInputsValueProperties(e) && e.id == Some(id)
}

pub open spec fn is_snapshotting_finished_for(ev: SpecEvent, id: i64) -> bool {
    ev.1 matches SpecDecodedEvent::TaskInputsSnapshottingFinished(e) && e.task == Some(id)
}

pub open spec fn is_fpr_for(ev: SpecEvent, id: i64) -> bool {
    ev.1 matches SpecDecodedEvent::TaskInputsFilePropertyRoot(e) && e.id == Some(id)
}

pub open spec fn is_fp_for(ev: SpecEvent, id: i64) -> bool {
    ev.1 matches SpecDecodedEvent::TaskInputsFileProperty(e) && e.id == Some(id)
}

pub open spec fn is_reg_summary(ev: SpecEvent) -> bool {
    ev.1 is TaskRegistrationSummary
}

pub open spec fn is_mem_stats(ev: SpecEvent) -> bool {
    ev.1 is BasicMemoryStats
}

pub open spec fn is_raw_for(ev: SpecEvent, w: u16) -> bool {
    ev.1 matches SpecDecodedEvent::Raw(e) && e.wire_id == w
}

pub open spec fn has_identity(evs: Seq<SpecEvent>, id: i64) -> bool {
    exists|j: int| 0 <= j < evs.len() && is_identity_for(#[trigger] evs[j], id)
}

// ——— generic last-match index ———

/// The index of the last event satisfying `pred`, or -1 with none.
pub open spec fn last_match_idx(evs: Seq<SpecEvent>, pred: spec_fn(SpecEvent) -> bool) -> int
    decreases evs.len(),
{
    if evs.len() == 0 {
        -1
    } else if pred(evs.last()) {
        evs.len() - 1
    } else {
        last_match_idx(evs.drop_last(), pred)
    }
}

pub proof fn lemma_last_match_props(evs: Seq<SpecEvent>, pred: spec_fn(SpecEvent) -> bool)
    ensures
        -1 <= last_match_idx(evs, pred) < evs.len(),
        last_match_idx(evs, pred) >= 0 ==> pred(evs[last_match_idx(evs, pred)]),
        forall|j: int|
            last_match_idx(evs, pred) < j < evs.len() ==> !pred(#[trigger] evs[j]),
    decreases evs.len(),
{
    if evs.len() > 0 && !pred(evs.last()) {
        lemma_last_match_props(evs.drop_last(), pred);
        assert forall|j: int|
            last_match_idx(evs, pred) < j < evs.len() implies !pred(#[trigger] evs[j]) by {
            if j < evs.len() - 1 {
                assert(evs.drop_last()[j] == evs[j]);
            }
        }
        if last_match_idx(evs, pred) >= 0 {
            let li = last_match_idx(evs.drop_last(), pred);
            assert(evs.drop_last()[li] == evs[li]);
        }
    }
}

pub proof fn lemma_last_match_take_step(
    evs: Seq<SpecEvent>,
    pred: spec_fn(SpecEvent) -> bool,
    k: int,
)
    requires
        0 <= k < evs.len(),
    ensures
        last_match_idx(evs.take(k + 1), pred) == if pred(evs[k]) {
            k
        } else {
            last_match_idx(evs.take(k), pred)
        },
{
    assert(evs.take(k + 1).drop_last() =~= evs.take(k));
    assert(evs.take(k + 1).last() == evs[k]);
}

// ——— generic filtered projection, in stream order ———

pub open spec fn filter_map_list<T>(
    evs: Seq<SpecEvent>,
    f: spec_fn(SpecEvent) -> Option<T>,
) -> Seq<T>
    decreases evs.len(),
{
    if evs.len() == 0 {
        Seq::empty()
    } else {
        let rest = filter_map_list(evs.drop_last(), f);
        match f(evs.last()) {
            Some(x) => rest.push(x),
            None => rest,
        }
    }
}

pub proof fn lemma_filter_map_take_step<T>(
    evs: Seq<SpecEvent>,
    f: spec_fn(SpecEvent) -> Option<T>,
    k: int,
)
    requires
        0 <= k < evs.len(),
    ensures
        filter_map_list(evs.take(k + 1), f) == match f(evs[k]) {
            Some(x) => filter_map_list(evs.take(k), f).push(x),
            None => filter_map_list(evs.take(k), f),
        },
{
    assert(evs.take(k + 1).drop_last() =~= evs.take(k));
    assert(evs.take(k + 1).last() == evs[k]);
}

// ——— raw-event counting ———

/// How many undecoded events carry wire id `w`.
pub open spec fn raw_count(evs: Seq<SpecEvent>, w: u16) -> nat
    decreases evs.len(),
{
    if evs.len() == 0 {
        0
    } else {
        raw_count(evs.drop_last(), w) + if is_raw_for(evs.last(), w) {
            1nat
        } else {
            0nat
        }
    }
}

pub proof fn lemma_raw_count_take_step(evs: Seq<SpecEvent>, w: u16, k: int)
    requires
        0 <= k < evs.len(),
    ensures
        raw_count(evs.take(k + 1), w) == raw_count(evs.take(k), w) + if is_raw_for(evs[k], w) {
            1nat
        } else {
            0nat
        },
{
    assert(evs.take(k + 1).drop_last() =~= evs.take(k));
    assert(evs.take(k + 1).last() == evs[k]);
}

pub proof fn lemma_raw_count_pos(evs: Seq<SpecEvent>, w: u16)
    ensures
        raw_count(evs, w) > 0 <==> exists|j: int|
            0 <= j < evs.len() && is_raw_for(#[trigger] evs[j], w),
        raw_count(evs, w) <= evs.len(),
    decreases evs.len(),
{
    if evs.len() > 0 {
        lemma_raw_count_pos(evs.drop_last(), w);
        if is_raw_for(evs.last(), w) {
            assert(is_raw_for(evs[evs.len() - 1], w));
        } else if raw_count(evs, w) > 0 {
            let j = choose|j: int|
                0 <= j < evs.drop_last().len() && is_raw_for(#[trigger] evs.drop_last()[j], w);
            assert(evs.drop_last()[j] == evs[j]);
        } else {
            assert forall|j: int|
                0 <= j < evs.len() implies !is_raw_for(#[trigger] evs[j], w) by {
                if j < evs.len() - 1 {
                    assert(evs.drop_last()[j] == evs[j]);
                }
            }
        }
    }
}

// ——— projections of single events into report data ———

pub open spec fn spec_children_data(cs: Seq<SpecFilePropertyRootChild>) -> Seq<
    SpecFilePropertyRootChildData,
> {
    cs.map_values(
        |c: SpecFilePropertyRootChild|
            SpecFilePropertyRootChildData { name: c.name, hash: c.hash, parent: c.parent },
    )
}

pub open spec fn spec_fpr_data(e: SpecTaskInputsFilePropertyRootEvent)
    -> SpecTaskInputsFilePropertyRootData {
    SpecTaskInputsFilePropertyRootData {
        file_root: e.file.root,
        file_path: e.file.path,
        root_hash: e.root_hash,
        children: spec_children_data(e.children),
    }
}

pub open spec fn spec_fp_data(e: SpecTaskInputsFilePropertyEvent)
    -> SpecTaskInputsFilePropertyData {
    SpecTaskInputsFilePropertyData { attributes: e.attributes, hash: e.hash, roots: e.roots }
}

pub open spec fn fpr_proj(id: i64) -> spec_fn(SpecEvent) -> Option<
    SpecTaskInputsFilePropertyRootData,
> {
    |ev: SpecEvent|
        if is_fpr_for(ev, id) {
            Some(spec_fpr_data(ev.1->TaskInputsFilePropertyRoot_0))
        } else {
            None
        }
}

pub open spec fn fp_proj(id: i64) -> spec_fn(SpecEvent) -> Option<SpecTaskInputsFilePropertyData> {
    |ev: SpecEvent|
        if is_fp_for(ev, id) {
            Some(spec_fp_data(ev.1->TaskInputsFileProperty_0))
        } else {
            None
        }
}

pub open spec fn planned_proj() -> spec_fn(SpecEvent) -> Option<SpecPlannedNodeData> {
    |ev: SpecEvent|
        match ev.1 {
            SpecDecodedEvent::PlannedNode(e) => Some(
                SpecPlannedNodeData {
                    id: e.id,
                    dependencies: e.dependencies,
                    must_run_after: e.must_run_after,
                    should_run_after: e.should_run_after,
                    finalized_by: e.finalized_by,
                },
            ),
            _ => None,
        }
}

pub open spec fn transform_proj() -> spec_fn(SpecEvent) -> Option<TransformExecutionRequestData> {
    |ev: SpecEvent|
        match ev.1 {
            SpecDecodedEvent::TransformExecutionRequest(e) => Some(
                TransformExecutionRequestData {
                    node_id: e.node_id,
                    identification_id: e.identification_id,
                    execution_id: e.execution_id,
                },
            ),
            _ => None,
        }
}

// ——— the per-id task record ———

pub open spec fn identity_pred(id: i64) -> spec_fn(SpecEvent) -> bool {
    |ev: SpecEvent| is_identity_for(ev, id)
}

pub open spec fn started_pred(id: i64) -> spec_fn(SpecEvent) -> bool {
    |ev: SpecEvent| is_started_for(ev, id)
}

pub open spec fn finished_pred(id: i64) -> spec_fn(SpecEvent) -> bool {
    |ev: SpecEvent| is_finished_for(ev, id)
}

pub open spec fn pn_pred(id: i64) -> spec_fn(SpecEvent) -> bool {
    |ev: SpecEvent| is_property_names_for(ev, id)
}

pub open spec fn impl_pred(id: i64) -> spec_fn(SpecEvent) -> bool {
    |ev: SpecEvent| is_implementation_for(ev, id)
}

pub open spec fn vp_pred(id: i64) -> spec_fn(SpecEvent) -> bool {
    |ev: SpecEvent| is_value_properties_for(ev, id)
}

pub open spec fn sf_pred(id: i64) -> spec_fn(SpecEvent) -> bool {
    |ev: SpecEvent| is_snapshotting_finished_for(ev, id)
}

pub open spec fn reg_pred() -> spec_fn(SpecEvent) -> bool {
    |ev: SpecEvent| is_reg_summary(ev)
}

pub open spec fn mem_pred() -> spec_fn(SpecEvent) -> bool {
    |ev: SpecEvent| is_mem_stats(ev)
}

/// The declared-inputs block of a task, present only when at least one
/// input-related event contributed.
pub open spec fn spec_task_inputs(evs: Seq<SpecEvent>, id: i64) -> Option<SpecTaskInputs> {
    let pn_i = last_match_idx(evs, pn_pred(id));
    let imp_i = last_match_idx(evs, impl_pred(id));
    let vp_i = last_match_idx(evs, vp_pred(id));
    let sf_i = last_match_idx(evs, sf_pred(id));
    let fprs = filter_map_list(evs, fpr_proj(id));
    let fps = filter_map_list(evs, fp_proj(id));
    let pn = if pn_i >= 0 {
        let e = evs[pn_i].1->TaskInputsPropertyNames_0;
        Some(
            SpecTaskInputsPropertyNamesData {
                value_inputs: e.value_inputs,
                file_inputs: e.file_inputs,
                outputs: e.outputs,
            },
        )
    } else {
        None
    };
    let imp = if imp_i >= 0 {
        let e = evs[imp_i].1->TaskInputsImplementation_0;
        Some(
            SpecTaskInputsImplementationData {
                class_loader_hash: e.class_loader_hash,
                action_class_loader_hashes: e.action_class_loader_hashes,
                action_class_names: e.action_class_names,
            },
        )
    } else {
        None
    };
    let vp = if vp_i >= 0 {
        let e = evs[vp_i].1->TaskInputsValueProperties_0;
        Some(SpecTaskInputsValuePropertiesData { hashes: e.hashes })
    } else {
        None
    };
    let sr = if sf_i >= 0 {
        match evs[sf_i].1->TaskInputsSnapshottingFinished_0.result {
            Some(r) => Some(
                SpecTaskInputsSnapshottingResultData {
                    hash: r.hash,
                    implementation: r.implementation,
                    property_names: r.property_names,
                    value_inputs: r.value_inputs,
                    file_inputs: r.file_inputs,
                },
            ),
            None => None,
        }
    } else {
        None
    };
    if pn is Some || imp is Some || vp is Some || fprs.len() > 0 || fps.len() > 0 || sr is Some {
        Some(
            SpecTaskInputs {
                property_names: pn,
                implementation: imp,
                value_properties: vp,
                file_property_roots: fprs,
                file_properties: fps,
                snapshotting_result: sr,
            },
        )
    } else {
        None
    }
}

/// The task record assembled for one correlation id: identity fields from
/// the last identity event, timing from the start and finish frames, cache
/// behaviour from the finish record, and the inputs block.
pub open spec fn spec_task_record(evs: Seq<SpecEvent>, id: i64) -> SpecTask {
    let ii = last_match_idx(evs, identity_pred(id));
    let si = last_match_idx(evs, started_pred(id));
    let fi = last_match_idx(evs, finished_pred(id));
    let ident = evs[ii].1->TaskIdentity_0;
    let started_at: Option<i64> = if si >= 0 {
        Some(evs[si].0.timestamp)
    } else {
        None
    };
    let finished_at: Option<i64> = if fi >= 0 {
        Some(evs[fi].0.timestamp)
    } else {
        None
    };
    SpecTask {
        id,
        build_path: ident.build_path,
        task_path: ident.task_path,
        class_name: if si >= 0 {
            evs[si].1->TaskStarted_0.class_name
        } else {
            None
        },
        outcome: if fi >= 0 {
            match evs[fi].1->TaskFinished_0.outcome {
                Some(o) => spec_outcome_from_ordinal(o),
                None => None,
            }
        } else {
            None
        },
        cacheable: if fi >= 0 {
            evs[fi].1->TaskFinished_0.cacheable
        } else {
            None
        },
        caching_disabled_reason: if fi >= 0 {
            evs[fi].1->TaskFinished_0.caching_disabled_reason_category
        } else {
            None
        },
        caching_disabled_explanation: if fi >= 0 {
            evs[fi].1->TaskFinished_0.caching_disabled_explanation
        } else {
            None
        },
        origin_build_cache_key: if fi >= 0 {
            evs[fi].1->TaskFinished_0.origin_build_cache_key
        } else {
            None
        },
        actionable: if fi >= 0 {
            evs[fi].1->TaskFinished_0.actionable
        } else {
            None
        },
        started_at,
        finished_at,
        duration_ms: if si >= 0 && fi >= 0 {
            Some(
                vstd::wrapping::i64_specs::wrapping_sub(
                    evs[fi].0.timestamp,
                    evs[si].0.timestamp,
                ),
            )
        } else {
            None
        },
        inputs: spec_task_inputs(evs, id),
    }
}

/// Every identity event in the stream carries non-empty build and task
/// paths.
pub open spec fn identity_paths_nonempty(evs: Seq<SpecEvent>) -> bool {
    forall|j: int|
        0 <= j < evs.len() && #[trigger] evs[j].1 is TaskIdentity
            ==> evs[j].1->TaskIdentity_0.build_path.len() > 0
            && evs[j].1->TaskIdentity_0.task_path.len() > 0
}

/// For every task in the report: when the identity events carry non-empty
/// paths, so does the task; and when both endpoints are known and their
/// difference representable, the duration is exactly the difference.
pub proof fn lemma_report_task_invariants(evs: Seq<SpecEvent>, id: i64)
    requires
        has_identity(evs, id),
    ensures
        identity_paths_nonempty(evs) ==> spec_task_record(evs, id).build_path.len() > 0
            && spec_task_record(evs, id).task_path.len() > 0,
        ({
            let t = spec_task_record(evs, id);
            t.started_at is Some && t.finished_at is Some && i64::MIN <= t.finished_at->0
                - t.started_at->0 <= i64::MAX ==> t.duration_ms == Some(
                (t.finished_at->0 - t.started_at->0) as i64,
            )
        }),
        ({
            let t = spec_task_record(evs, id);
            t.started_at is None || t.finished_at is None ==> t.duration_ms is None
        }),
{
    let j = choose|j: int| 0 <= j < evs.len() && is_identity_for(#[trigger] evs[j], id);
    lemma_last_match_props(evs, identity_pred(id));
    let ii = last_match_idx(evs, identity_pred(id));
    if ii < j {
        assert(identity_pred(id)(evs[j]));
        assert(false);
    }
    assert(identity_pred(id)(evs[ii]));
}

// ——— value-copy helpers ———

fn clone_string(s: &String) -> (r: String)
    ensures
        r@ == s@,
{
    s.clone()
}

fn clone_opt_string(s: &Option<String>) -> (r: Option<String>)
    ensures
        r.deep_view() == s.deep_view(),
{
    match s {
        Some(x) => Some(clone_string(x)),
        None => None,
    }
}

fn clone_bytes(v: &Vec<u8>) -> (r: Vec<u8>)
    ensures
        r@ == v@,
{
    let r = v.clone();
    proof {
        assert forall|i: int| 0 <= i < v@.len() implies r@[i] == v@[i] by {
            assert(cloned::<u8>(v@[i], r@[i]));
        }
        assert(r@ =~= v@);
    }
    r
}

fn clone_opt_bytes(v: &Option<Vec<u8>>) -> (r: Option<Vec<u8>>)
    ensures
        r.deep_view() == v.deep_view(),
{
    match v {
        Some(x) => Some(clone_bytes(x)),
        None => None,
    }
}

fn clone_i64_vec(v: &Vec<i64>) -> (r: Vec<i64>)
    ensures
        r@ == v@,
{
    let r = v.clone();
    proof {
        assert forall|i: int| 0 <= i < v@.len() implies r@[i] == v@[i] by {
            assert(cloned::<i64>(v@[i], r@[i]));
        }
        assert(r@ =~= v@);
    }
    r
}

fn clone_string_vec(v: &Vec<String>) -> (r: Vec<String>)
    ensures
        r.deep_view() == v.deep_view(),
{
    let r = v.clone();
    proof {
        assert forall|i: int| 0 <= i < v@.len() implies r@[i]@ == v@[i]@ by {
            assert(cloned::<String>(v@[i], r@[i]));
        }
        assert(r.deep_view() =~= v.deep_view());
    }
    r
}

fn clone_byte_arrays(v: &Vec<Vec<u8>>) -> (r: Vec<Vec<u8>>)
    ensures
        r.deep_view() == v.deep_view(),
{
    let r = v.clone();
    proof {
        assert forall|i: int| 0 <= i < v@.len() implies r@[i]@ =~= v@[i]@ by {
            assert(cloned::<Vec<u8>>(v@[i], r@[i]));
            assert forall|j: int| 0 <= j < v@[i]@.len() implies r@[i]@[j] == v@[i]@[j] by {
                assert(cloned::<u8>(v@[i][j], r@[i][j]));
            }
        }
        assert(r.deep_view() =~= v.deep_view());
    }
    r
}

// ——— finding the last event of a kind ———

#[derive(Clone, Copy)]
enum MatchKind {
    Identity,
    Started,
    Finished,
    PropertyNames,
    Implementation,
    ValueProperties,
    SnapshottingFinished,
    RegSummary,
    MemStats,
}

spec fn kind_pred(kind: MatchKind, id: i64) -> spec_fn(SpecEvent) -> bool {
    match kind {
        MatchKind::Identity => identity_pred(id),
        MatchKind::Started => started_pred(id),
        MatchKind::Finished => finished_pred(id),
        MatchKind::PropertyNames => pn_pred(id),
        MatchKind::Implementation => impl_pred(id),
        MatchKind::ValueProperties => vp_pred(id),
        MatchKind::SnapshottingFinished => sf_pred(id),
        MatchKind::RegSummary => reg_pred(),
        MatchKind::MemStats => mem_pred(),
    }
}

fn event_matches(ev: &(FramedEvent, DecodedEvent), kind: MatchKind, id: i64) -> (r: bool)
    ensures
        r == kind_pred(kind, id)(ev.deep_view()),
{
    match kind {
        MatchKind::Identity => match &ev.1 {
            DecodedEvent::TaskIdentity(e) => e.id == id,
            _ => false,
        },
        MatchKind::Started => match &ev.1 {
            DecodedEvent::TaskStarted(e) => e.id == id,
            _ => false,
        },
        MatchKind::Finished => match &ev.1 {
            DecodedEvent::TaskFinished(e) => e.id == id,
            _ => false,
        },
        MatchKind::PropertyNames => match &ev.1 {
            DecodedEvent::TaskInputsPropertyNames(e) => e.id == Some(id),
            _ => false,
        },
        MatchKind::Implementation => match &ev.1 {
            DecodedEvent::TaskInputsImplementation(e) => e.id == Some(id),
            _ => false,
        },
        MatchKind::ValueProperties => match &ev.1 {
            DecodedEvent::TaskInputsValueProperties(e) => e.id == Some(id),
            _ => false,
        },
        MatchKind::SnapshottingFinished => match &ev.1 {
            DecodedEvent::TaskInputsSnapshottingFinished(e) => e.task == Some(id),
            _ => false,
        },
        MatchKind::RegSummary => match &ev.1 {
            DecodedEvent::TaskRegistrationSummary(_e) => true,
            _ => false,
        },
        MatchKind::MemStats => match &ev.1 {
            DecodedEvent::BasicMemoryStats(_e) => true,
            _ => false,
        },
    }
}

fn find_last(events: &Vec<(FramedEvent, DecodedEvent)>, kind: MatchKind, id: i64) -> (r: Option<
    usize,
>)
    ensures
        ({
            let li = last_match_idx(events.deep_view(), kind_pred(kind, id));
            match r {
                Some(k) => li == k as int && k < events.len(),
                None => li == -1,
            }
        }),
{
    let ghost evs = events.deep_view();
    let ghost pred = kind_pred(kind, id);
    let mut best: Option<usize> = None;
    let mut k: usize = 0;
    while k < events.len()
        invariant
            evs == events.deep_view(),
            pred == kind_pred(kind, id),
            k <= events.len(),
            ({
                let li = last_match_idx(evs.take(k as int), pred);
                match best {
                    Some(b) => li == b as int && b < k,
                    None => li == -1,
                }
            }),
        decreases events.len() - k,
    {
        proof {
            lemma_last_match_take_step(evs, pred, k as int);
            assert(evs[k as int] == events@[k as int].deep_view());
        }
        if event_matches(&events[k], kind, id) {
            best = Some(k);
        }
        k += 1;
    }
    proof {
        assert(evs.take(events@.len() as int) =~= evs);
    }
    best
}

// ——— sorted-unique id collection ———

spec fn sorted_strict_i64(s: Seq<i64>) -> bool {
    forall|i: int, j: int| 0 <= i < j < s.len() ==> s[i] < s[j]
}

spec fn sorted_strict_u16(s: Seq<u16>) -> bool {
    forall|i: int, j: int| 0 <= i < j < s.len() ==> s[i] < s[j]
}

fn insert_sorted_i64(v: &mut Vec<i64>, x: i64)
    requires
        sorted_strict_i64(old(v)@),
    ensures
        sorted_strict_i64(final(v)@),
        forall|y: i64| final(v)@.contains(y) <==> old(v)@.contains(y) || y == x,
{
    let mut p: usize = 0;
    while p < v.len() && v[p] < x
        invariant
            p <= v@.len(),
            v@ == old(v)@,
            forall|j: int| 0 <= j < p ==> v@[j] < x,
        decreases v@.len() - p,
    {
        p += 1;
    }
    if p < v.len() && v[p] == x {
        proof {
            assert(old(v)@.contains(x));
            assert forall|y: i64| final(v)@.contains(y) <==> old(v)@.contains(y) || y == x by {}
        }
        return ;
    }
    let ghost s0 = v@;
    v.insert(p, x);
    proof {
        s0.insert_ensures(p as int, x);
        let s1 = v@;
        assert forall|i: int, j: int| 0 <= i < j < s1.len() implies s1[i] < s1[j] by {
            if j < p {
            } else if i < p && j == p {
            } else if i < p && j > p {
                assert(s1[j] == s0[j - 1]);
                if p < s0.len() {
                    assert(s0[p as int] > x);
                }
                if j - 1 >= p {
                    if j - 1 == p {
                        assert(s1[j] == s0[p as int]);
                    } else {
                        assert(s0[p as int] <= s0[j - 1] || s0[p as int] < s0[j - 1]);
                    }
                }
            } else if i == p {
                assert(s1[j] == s0[j - 1]);
                assert(j - 1 >= p);
                if p < s0.len() {
                    assert(s0[p as int] > x);
                    if j - 1 > p {
                        assert(s0[p as int] < s0[j - 1]);
                    }
                }
            } else {
                assert(s1[i] == s0[i - 1] && s1[j] == s0[j - 1]);
            }
        }
        assert forall|y: i64| s1.contains(y) <==> s0.contains(y) || y == x by {
            if s1.contains(y) {
                let i = choose|i: int| 0 <= i < s1.len() && s1[i] == y;
                if i < p {
                    assert(s0[i] == y);
                } else if i == p {
                } else {
                    assert(s0[i - 1] == y);
                }
            }
            if s0.contains(y) {
                let i = choose|i: int| 0 <= i < s0.len() && s0[i] == y;
                if i < p {
                    assert(s1[i] == y);
                } else {
                    assert(s1[i + 1] == y);
                }
            }
            if y == x {
                assert(s1[p as int] == y);
            }
        }
    }
}

fn insert_sorted_u16(v: &mut Vec<u16>, x: u16)
    requires
        sorted_strict_u16(old(v)@),
    ensures
        sorted_strict_u16(final(v)@),
        forall|y: u16| final(v)@.contains(y) <==> old(v)@.contains(y) || y == x,
{
    let mut p: usize = 0;
    while p < v.len() && v[p] < x
        invariant
            p <= v@.len(),
            v@ == old(v)@,
            forall|j: int| 0 <= j < p ==> v@[j] < x,
        decreases v@.len() - p,
    {
        p += 1;
    }
    if p < v.len() && v[p] == x {
        proof {
            assert(old(v)@.contains(x));
            assert forall|y: u16| final(v)@.contains(y) <==> old(v)@.contains(y) || y == x by {}
        }
        return ;
    }
    let ghost s0 = v@;
    v.insert(p, x);
    proof {
        s0.insert_ensures(p as int, x);
        let s1 = v@;
        assert forall|i: int, j: int| 0 <= i < j < s1.len() implies s1[i] < s1[j] by {
            if j < p {
            } else if i < p && j == p {
            } else if i < p && j > p {
                assert(s1[j] == s0[j - 1]);
                if p < s0.len() {
                    assert(s0[p as int] > x);
                }
            } else if i == p {
                assert(s1[j] == s0[j - 1]);
                if p < s0.len() {
                    assert(s0[p as int] > x);
                    if j - 1 > p {
                        assert(s0[p as int] < s0[j - 1]);
                    }
                }
            } else {
                assert(s1[i] == s0[i - 1] && s1[j] == s0[j - 1]);
            }
        }
        assert forall|y: u16| s1.contains(y) <==> s0.contains(y) || y == x by {
            if s1.contains(y) {
                let i = choose|i: int| 0 <= i < s1.len() && s1[i] == y;
                if i < p {
                    assert(s0[i] == y);
                } else if i == p {
                } else {
                    assert(s0[i - 1] == y);
                }
            }
            if s0.contains(y) {
                let i = choose|i: int| 0 <= i < s0.len() && s0[i] == y;
                if i < p {
                    assert(s1[i] == y);
                } else {
                    assert(s1[i + 1] == y);
                }
            }
            if y == x {
                assert(s1[p as int] == y);
            }
        }
    }
}

fn collect_identity_ids(events: &Vec<(FramedEvent, DecodedEvent)>) -> (r: Vec<i64>)
    ensures
        sorted_strict_i64(r@),
        forall|id: i64| r@.contains(id) <==> has_identity(events.deep_view(), id),
{
    let ghost evs = events.deep_view();
    let mut ids: Vec<i64> = Vec::new();
    let mut k: usize = 0;
    while k < events.len()
        invariant
            evs == events.deep_view(),
            k <= events.len(),
            sorted_strict_i64(ids@),
            forall|id: i64|
                ids@.contains(id) <==> exists|j: int|
                    0 <= j < k && is_identity_for(#[trigger] evs[j], id),
        decreases events.len() - k,
    {
        proof {
            assert(evs[k as int] == events@[k as int].deep_view());
        }
        let ghost old_ids = ids@;
        match &events[k].1 {
            DecodedEvent::TaskIdentity(e) => {
                let the_id = e.id;
                insert_sorted_i64(&mut ids, the_id);
                proof {
                    assert(is_identity_for(evs[k as int], the_id));
                    assert forall|id: i64|
                        ids@.contains(id) <==> exists|j: int|
                            0 <= j < k + 1 && is_identity_for(#[trigger] evs[j], id) by {
                        if ids@.contains(id) {
                            if old_ids.contains(id) {
                                let j = choose|j: int|
                                    0 <= j < k && is_identity_for(#[trigger] evs[j], id);
                                assert(is_identity_for(evs[j], id));
                            } else {
                                assert(id == the_id);
                                assert(is_identity_for(evs[k as int], id));
                            }
                        }
                        if exists|j: int|
                            0 <= j < k + 1 && is_identity_for(#[trigger] evs[j], id) {
                            let j = choose|j: int|
                                0 <= j < k + 1 && is_identity_for(#[trigger] evs[j], id);
                            if j < k {
                                assert(old_ids.contains(id));
                            } else {
                                assert(id == the_id);
                            }
                        }
                    }
                }
            },
            _ => {
                proof {
                    assert forall|id: i64|
                        ids@.contains(id) <==> exists|j: int|
                            0 <= j < k + 1 && is_identity_for(#[trigger] evs[j], id) by {
                        if exists|j: int|
                            0 <= j < k + 1 && is_identity_for(#[trigger] evs[j], id) {
                            let j = choose|j: int|
                                0 <= j < k + 1 && is_identity_for(#[trigger] evs[j], id);
                            assert(j < k);
                        }
                    }
                }
            },
        }
        k += 1;
    }
    ids
}

fn collect_raw_wire_ids(events: &Vec<(FramedEvent, DecodedEvent)>) -> (r: Vec<u16>)
    ensures
        sorted_strict_u16(r@),
        forall|w: u16|
            r@.contains(w) <==> exists|j: int|
                0 <= j < events.deep_view().len() && is_raw_for(#[trigger] events.deep_view()[j], w),
{
    let ghost evs = events.deep_view();
    let mut ids: Vec<u16> = Vec::new();
    let mut k: usize = 0;
    while k < events.len()
        invariant
            evs == events.deep_view(),
            k <= events.len(),
            sorted_strict_u16(ids@),
            forall|w: u16|
                ids@.contains(w) <==> exists|j: int|
                    0 <= j < k && is_raw_for(#[trigger] evs[j], w),
        decreases events.len() - k,
    {
        proof {
            assert(evs[k as int] == events@[k as int].deep_view());
        }
        let ghost old_ids = ids@;
        match &events[k].1 {
            DecodedEvent::Raw(e) => {
                let w0 = e.wire_id;
                insert_sorted_u16(&mut ids, w0);
                proof {
                    assert(is_raw_for(evs[k as int], w0));
                    assert forall|w: u16|
                        ids@.contains(w) <==> exists|j: int|
                            0 <= j < k + 1 && is_raw_for(#[trigger] evs[j], w) by {
                        if ids@.contains(w) {
                            if old_ids.contains(w) {
                                let j = choose|j: int|
                                    0 <= j < k && is_raw_for(#[trigger] evs[j], w);
                                assert(is_raw_for(evs[j], w));
                            } else {
                                assert(w == w0);
                                assert(is_raw_for(evs[k as int], w));
                            }
                        }
                        if exists|j: int| 0 <= j < k + 1 && is_raw_for(#[trigger] evs[j], w) {
                            let j = choose|j: int|
                                0 <= j < k + 1 && is_raw_for(#[trigger] evs[j], w);
                            if j < k {
                                assert(old_ids.contains(w));
                            } else {
                                assert(w == w0);
                            }
                        }
                    }
                }
            },
            _ => {
                proof {
                    assert forall|w: u16|
                        ids@.contains(w) <==> exists|j: int|
                            0 <= j < k + 1 && is_raw_for(#[trigger] evs[j], w) by {
                        if exists|j: int| 0 <= j < k + 1 && is_raw_for(#[trigger] evs[j], w) {
                            let j = choose|j: int|
                                0 <= j < k + 1 && is_raw_for(#[trigger] evs[j], w);
                            assert(j < k);
                        }
                    }
                }
            },
        }
        k += 1;
    }
    ids
}

fn count_raw(events: &Vec<(FramedEvent, DecodedEvent)>, w: u16) -> (r: usize)
    ensures
        r as nat == raw_count(events.deep_view(), w),
{
    let ghost evs = events.deep_view();
    let mut count: usize = 0;
    let mut k: usize = 0;
    while k < events.len()
        invariant
            evs == events.deep_view(),
            k <= events.len(),
            count <= k,
            count as nat == raw_count(evs.take(k as int), w),
        decreases events.len() - k,
    {
        proof {
            lemma_raw_count_take_step(evs, w, k as int);
            assert(evs[k as int] == events@[k as int].deep_view());
        }
        match &events[k].1 {
            DecodedEvent::Raw(e) => {
                if e.wire_id == w {
                    count += 1;
                }
            },
            _ => {},
        }
        k += 1;
    }
    proof {
        assert(evs.take(events@.len() as int) =~= evs);
    }
    count
}

// ——— report-list builders ———

fn build_planned_nodes(events: &Vec<(FramedEvent, DecodedEvent)>) -> (r: Vec<PlannedNodeData>)
    ensures
        r.deep_view() == filter_map_list(events.deep_view(), planned_proj()),
{
    let ghost evs = events.deep_view();
    let mut out: Vec<PlannedNodeData> = Vec::new();
    proof {
        assert(out.deep_view() =~= filter_map_list(evs.take(0), planned_proj()));
    }
    let mut k: usize = 0;
    while k < events.len()
        invariant
            evs == events.deep_view(),
            k <= events.len(),
            out.deep_view() == filter_map_list(evs.take(k as int), planned_proj()),
        decreases events.len() - k,
    {
        proof {
            lemma_filter_map_take_step(evs, planned_proj(), k as int);
            assert(evs[k as int] == events@[k as int].deep_view());
        }
        let ghost prev = out.deep_view();
        match &events[k].1 {
            DecodedEvent::PlannedNode(e) => {
                let item = PlannedNodeData {
                    id: e.id,
                    dependencies: clone_i64_vec(&e.dependencies),
                    must_run_after: clone_i64_vec(&e.must_run_after),
                    should_run_after: clone_i64_vec(&e.should_run_after),
                    finalized_by: clone_i64_vec(&e.finalized_by),
                };
                proof {
                    assert(planned_proj()(evs[k as int]) == Some(item.deep_view()));
                }
                out.push(item);
                proof {
                    assert(out.deep_view() =~= prev.push(out@[out@.len() - 1].deep_view()));
                }
            },
            _ => {},
        }
        k += 1;
    }
    proof {
        assert(evs.take(events@.len() as int) =~= evs);
    }
    out
}

fn build_transform_requests(events: &Vec<(FramedEvent, DecodedEvent)>) -> (r: Vec<
    TransformExecutionRequestData,
>)
    ensures
        r.deep_view() == filter_map_list(events.deep_view(), transform_proj()),
{
    let ghost evs = events.deep_view();
    let mut out: Vec<TransformExecutionRequestData> = Vec::new();
    proof {
        assert(out.deep_view() =~= filter_map_list(evs.take(0), transform_proj()));
    }
    let mut k: usize = 0;
    while k < events.len()
        invariant
            evs == events.deep_view(),
            k <= events.len(),
            out.deep_view() == filter_map_list(evs.take(k as int), transform_proj()),
        decreases events.len() - k,
    {
        proof {
            lemma_filter_map_take_step(evs, transform_proj(), k as int);
            assert(evs[k as int] == events@[k as int].deep_view());
        }
        let ghost prev = out.deep_view();
        match &events[k].1 {
            DecodedEvent::TransformExecutionRequest(e) => {
                let item = TransformExecutionRequestData {
                    node_id: e.node_id,
                    identification_id: e.identification_id,
                    execution_id: e.execution_id,
                };
                proof {
                    assert(transform_proj()(evs[k as int]) == Some(item.deep_view()));
                }
                out.push(item);
                proof {
                    assert(out.deep_view() =~= prev.push(out@[out@.len() - 1].deep_view()));
                }
            },
            _ => {},
        }
        k += 1;
    }
    proof {
        assert(evs.take(events@.len() as int) =~= evs);
    }
    out
}

fn convert_children(children: &Vec<crate::events::FilePropertyRootChild>) -> (r: Vec<
    FilePropertyRootChildData,
>)
    ensures
        r.deep_view() == spec_children_data(children.deep_view()),
{
    let mut out: Vec<FilePropertyRootChildData> = Vec::new();
    let mut k: usize = 0;
    while k < children.len()
        invariant
            k <= children@.len(),
            out@.len() == k,
            forall|j: int|
                0 <= j < k ==> (#[trigger] out@[j]).deep_view() == spec_children_data(
                    children.deep_view(),
                )[j],
        decreases children.len() - k,
    {
        let c = &children[k];
        let item = FilePropertyRootChildData {
            name: clone_opt_string(&c.name),
            hash: clone_opt_bytes(&c.hash),
            parent: c.parent,
        };
        proof {
            assert(children.deep_view()[k as int] == children@[k as int].deep_view());
            assert(item.deep_view() == spec_children_data(children.deep_view())[k as int]);
        }
        out.push(item);
        k += 1;
    }
    proof {
        assert(out.deep_view() =~= spec_children_data(children.deep_view()));
    }
    out
}

fn build_fpr_list(events: &Vec<(FramedEvent, DecodedEvent)>, id: i64) -> (r: Vec<
    TaskInputsFilePropertyRootData,
>)
    ensures
        r.deep_view() == filter_map_list(events.deep_view(), fpr_proj(id)),
{
    let ghost evs = events.deep_view();
    let mut out: Vec<TaskInputsFilePropertyRootData> = Vec::new();
    proof {
        assert(out.deep_view() =~= filter_map_list(evs.take(0), fpr_proj(id)));
    }
    let mut k: usize = 0;
    while k < events.len()
        invariant
            evs == events.deep_view(),
            k <= events.len(),
            out.deep_view() == filter_map_list(evs.take(k as int), fpr_proj(id)),
        decreases events.len() - k,
    {
        proof {
            lemma_filter_map_take_step(evs, fpr_proj(id), k as int);
            assert(evs[k as int] == events@[k as int].deep_view());
        }
        let ghost prev = out.deep_view();
        let mut matched = false;
        match &events[k].1 {
            DecodedEvent::TaskInputsFilePropertyRoot(e) => {
                if e.id.is_some() {
                    let eid = *e.id.as_ref().unwrap();
                    if eid == id {
                        let item = TaskInputsFilePropertyRootData {
                            file_root: e.file.root,
                            file_path: clone_opt_string(&e.file.path),
                            root_hash: clone_opt_bytes(&e.root_hash),
                            children: convert_children(&e.children),
                        };
                        proof {
                            assert(is_fpr_for(evs[k as int], id));
                            assert(fpr_proj(id)(evs[k as int]) == Some(item.deep_view()));
                        }
                        out.push(item);
                        proof {
                            assert(out.deep_view() =~= prev.push(
                                out@[out@.len() - 1].deep_view(),
                            ));
                        }
                        matched = true;
                    }
                }
            },
            _ => {},
        }
        proof {
            if !matched {
                assert(fpr_proj(id)(evs[k as int]) is None);
            }
        }
        k += 1;
    }
    proof {
        assert(evs.take(events@.len() as int) =~= evs);
    }
    out
}

fn build_fp_list(events: &Vec<(FramedEvent, DecodedEvent)>, id: i64) -> (r: Vec<
    TaskInputsFilePropertyData,
>)
    ensures
        r.deep_view() == filter_map_list(events.deep_view(), fp_proj(id)),
{
    let ghost evs = events.deep_view();
    let mut out: Vec<TaskInputsFilePropertyData> = Vec::new();
    proof {
        assert(out.deep_view() =~= filter_map_list(evs.take(0), fp_proj(id)));
    }
    let mut k: usize = 0;
    while k < events.len()
        invariant
            evs == events.deep_view(),
            k <= events.len(),
            out.deep_view() == filter_map_list(evs.take(k as int), fp_proj(id)),
        decreases events.len() - k,
    {
        proof {
            lemma_filter_map_take_step(evs, fp_proj(id), k as int);
            assert(evs[k as int] == events@[k as int].deep_view());
        }
        let ghost prev = out.deep_view();
        let mut matched = false;
        match &events[k].1 {
            DecodedEvent::TaskInputsFileProperty(e) => {
                if e.id.is_some() {
                    let eid = *e.id.as_ref().unwrap();
                    if eid == id {
                        let item = TaskInputsFilePropertyData {
                            attributes: clone_string_vec(&e.attributes),
                            hash: clone_opt_bytes(&e.hash),
                            roots: clone_i64_vec(&e.roots),
                        };
                        proof {
                            assert(is_fp_for(evs[k as int], id));
                            assert(fp_proj(id)(evs[k as int]) == Some(item.deep_view()));
                        }
                        out.push(item);
                        proof {
                            assert(out.deep_view() =~= prev.push(
                                out@[out@.len() - 1].deep_view(),
                            ));
                        }
                        matched = true;
                    }
                }
            },
            _ => {},
        }
        proof {
            if !matched {
                assert(fp_proj(id)(evs[k as int]) is None);
            }
        }
        k += 1;
    }
    proof {
        assert(evs.take(events@.len() as int) =~= evs);
    }
    out
}

// ——— singleton summaries ———

/// The last task-registration summary, as report data.
pub open spec fn spec_reg_summary(evs: Seq<SpecEvent>) -> Option<TaskRegistrationSummaryData> {
    let ri = last_match_idx(evs, reg_pred());
    if ri >= 0 {
        Some(
            TaskRegistrationSummaryData {
                task_count: evs[ri].1->TaskRegistrationSummary_0.task_count,
            },
        )
    } else {
        None
    }
}

pub open spec fn spec_snapshots_data(
    ss: Seq<crate::events::SpecMemoryPoolSnapshotEvent>,
) -> Seq<SpecMemoryPoolSnapshotData> {
    ss.map_values(
        |s: crate::events::SpecMemoryPoolSnapshotEvent|
            SpecMemoryPoolSnapshotData {
                name: s.name,
                heap: s.heap,
                init: s.init,
                used: s.used,
                committed: s.committed,
                max: s.max,
            },
    )
}

/// The last basic-memory-stats event, as report data.
pub open spec fn spec_mem_stats(evs: Seq<SpecEvent>) -> Option<SpecBasicMemoryStatsData> {
    let mi = last_match_idx(evs, mem_pred());
    if mi >= 0 {
        let e = evs[mi].1->BasicMemoryStats_0;
        Some(
            SpecBasicMemoryStatsData {
                free: e.free,
                total: e.total,
                max: e.max,
                peak_snapshots: spec_snapshots_data(e.peak_snapshots),
                gc_time: e.gc_time,
            },
        )
    } else {
        None
    }
}

fn build_reg_summary(events: &Vec<(FramedEvent, DecodedEvent)>) -> (r: Option<
    TaskRegistrationSummaryData,
>)
    ensures
        r == spec_reg_summary(events.deep_view()),
{
    let ghost evs = events.deep_view();
    match find_last(events, MatchKind::RegSummary, 0) {
        Some(k) => {
            proof {
                lemma_last_match_props(evs, reg_pred());
                assert(reg_pred()(evs[k as int]));
                assert(evs[k as int] == events@[k as int].deep_view());
            }
            match &events[k].1 {
            DecodedEvent::TaskRegistrationSummary(e) => Some(
                TaskRegistrationSummaryData { task_count: e.task_count },
            ),
            _ => {
                proof {
                    assert(false);
                }
                None
            },
        }
        },
        None => None,
    }
}

fn convert_snapshots(ss: &Vec<crate::events::MemoryPoolSnapshotEvent>) -> (r: Vec<
    MemoryPoolSnapshotData,
>)
    ensures
        r.deep_view() == spec_snapshots_data(ss.deep_view()),
{
    let mut out: Vec<MemoryPoolSnapshotData> = Vec::new();
    let mut k: usize = 0;
    while k < ss.len()
        invariant
            k <= ss@.len(),
            out@.len() == k,
            forall|j: int|
                0 <= j < k ==> (#[trigger] out@[j]).deep_view() == spec_snapshots_data(
                    ss.deep_view(),
                )[j],
        decreases ss.len() - k,
    {
        let s = &ss[k];
        let item = MemoryPoolSnapshotData {
            name: clone_opt_string(&s.name),
            heap: s.heap,
            init: s.init,
            used: s.used,
            committed: s.committed,
            max: s.max,
        };
        proof {
            assert(ss.deep_view()[k as int] == ss@[k as int].deep_view());
            assert(item.deep_view() == spec_snapshots_data(ss.deep_view())[k as int]);
        }
        out.push(item);
        k += 1;
    }
    proof {
        assert(out.deep_view() =~= spec_snapshots_data(ss.deep_view()));
    }
    out
}

fn build_mem_stats(events: &Vec<(FramedEvent, DecodedEvent)>) -> (r: Option<BasicMemoryStatsData>)
    ensures
        r.deep_view() == spec_mem_stats(events.deep_view()),
{
    let ghost evs = events.deep_view();
    match find_last(events, MatchKind::MemStats, 0) {
        Some(k) => {
            proof {
                lemma_last_match_props(evs, mem_pred());
                assert(mem_pred()(evs[k as int]));
                assert(evs[k as int] == events@[k as int].deep_view());
            }
            match &events[k].1 {
            DecodedEvent::BasicMemoryStats(e) => Some(
                BasicMemoryStatsData {
                    free: e.free,
                    total: e.total,
                    max: e.max,
                    peak_snapshots: convert_snapshots(&e.peak_snapshots),
                    gc_time: e.gc_time,
                },
            ),
            _ => {
                proof {
                    assert(false);
                }
                None
            },
        }
        },
        None => None,
    }
}

// ——— the per-id builders ———

fn build_inputs(events: &Vec<(FramedEvent, DecodedEvent)>, id: i64) -> (r: Option<TaskInputs>)
    ensures
        r.deep_view() == spec_task_inputs(events.deep_view(), id),
{
    let ghost evs = events.deep_view();
    let pn = match find_last(events, MatchKind::PropertyNames, id) {
        Some(k) => {
            proof {
                lemma_last_match_props(evs, pn_pred(id));
                assert(pn_pred(id)(evs[k as int]));
                assert(evs[k as int] == events@[k as int].deep_view());
            }
            match &events[k].1 {
            DecodedEvent::TaskInputsPropertyNames(e) => Some(
                TaskInputsPropertyNamesData {
                    value_inputs: clone_string_vec(&e.value_inputs),
                    file_inputs: clone_string_vec(&e.file_inputs),
                    outputs: clone_string_vec(&e.outputs),
                },
            ),
            _ => {
                proof {
                    assert(false);
                }
                None
            },
        }
        },
        None => None,
    };
    let imp = match find_last(events, MatchKind::Implementation, id) {
        Some(k) => {
            proof {
                lemma_last_match_props(evs, impl_pred(id));
                assert(impl_pred(id)(evs[k as int]));
                assert(evs[k as int] == events@[k as int].deep_view());
            }
            match &events[k].1 {
            DecodedEvent::TaskInputsImplementation(e) => Some(
                TaskInputsImplementationData {
                    class_loader_hash: clone_opt_bytes(&e.class_loader_hash),
                    action_class_loader_hashes: clone_byte_arrays(&e.action_class_loader_hashes),
                    action_class_names: clone_string_vec(&e.action_class_names),
                },
            ),
            _ => {
                proof {
                    assert(false);
                }
                None
            },
        }
        },
        None => None,
    };
    let vp = match find_last(events, MatchKind::ValueProperties, id) {
        Some(k) => {
            proof {
                lemma_last_match_props(evs, vp_pred(id));
                assert(vp_pred(id)(evs[k as int]));
                assert(evs[k as int] == events@[k as int].deep_view());
            }
            match &events[k].1 {
            DecodedEvent::TaskInputsValueProperties(e) => Some(
                TaskInputsValuePropertiesData { hashes: clone_byte_arrays(&e.hashes) },
            ),
            _ => {
                proof {
                    assert(false);
                }
                None
            },
        }
        },
        None => None,
    };
    let sr = match find_last(events, MatchKind::SnapshottingFinished, id) {
        Some(k) => {
            proof {
                lemma_last_match_props(evs, sf_pred(id));
                assert(sf_pred(id)(evs[k as int]));
                assert(evs[k as int] == events@[k as int].deep_view());
            }
            match &events[k].1 {
            DecodedEvent::TaskInputsSnapshottingFinished(e) => match &e.result {
                Some(r0) => Some(
                    TaskInputsSnapshottingResultData {
                        hash: clone_opt_bytes(&r0.hash),
                        implementation: r0.implementation,
                        property_names: r0.property_names,
                        value_inputs: r0.value_inputs,
                        file_inputs: clone_i64_vec(&r0.file_inputs),
                    },
                ),
                None => None,
            },
            _ => {
                proof {
                    assert(false);
                }
                None
            },
        }
        },
        None => None,
    };
    let fprs = build_fpr_list(events, id);
    let fps = build_fp_list(events, id);
    if pn.is_some() || imp.is_some() || vp.is_some() || !fprs.is_empty() || !fps.is_empty()
        || sr.is_some() {
        let r = Some(
            TaskInputs {
                property_names: pn,
                implementation: imp,
                value_properties: vp,
                file_property_roots: fprs,
                file_properties: fps,
                snapshotting_result: sr,
            },
        );
        proof {
            assert(r.deep_view() =~= spec_task_inputs(evs, id));
        }
        r
    } else {
        None
    }
}

fn build_task(events: &Vec<(FramedEvent, DecodedEvent)>, id: i64) -> (r: Task)
    requires
        has_identity(events.deep_view(), id),
    ensures
        r.id == id,
        r.deep_view() == spec_task_record(events.deep_view(), id),
{
    let ghost evs = events.deep_view();
    proof {
        lemma_last_match_props(evs, identity_pred(id));
        if last_match_idx(evs, identity_pred(id)) == -1 {
            let j = choose|j: int| 0 <= j < evs.len() && is_identity_for(#[trigger] evs[j], id);
            assert(identity_pred(id)(evs[j]));
            assert(false);
        }
    }
    let ii = match find_last(events, MatchKind::Identity, id) {
        Some(k) => k,
        None => {
            proof {
                assert(false);
            }
            0
        },
    };
    proof {
        assert(identity_pred(id)(evs[ii as int]));
        assert(evs[ii as int] == events@[ii as int].deep_view());
    }
    let (build_path, task_path) = match &events[ii].1 {
        DecodedEvent::TaskIdentity(e) => (clone_string(&e.build_path), clone_string(&e.task_path)),
        _ => {
            proof {
                assert(false);
            }
            (String::new(), String::new())
        },
    };
    let si = find_last(events, MatchKind::Started, id);
    let (class_name, started_at) = match si {
        Some(k) => {
            proof {
                lemma_last_match_props(evs, started_pred(id));
                assert(started_pred(id)(evs[k as int]));
                assert(evs[k as int] == events@[k as int].deep_view());
            }
            match &events[k].1 {
            DecodedEvent::TaskStarted(e) => (
                clone_opt_string(&e.class_name),
                Some(events[k].0.timestamp),
            ),
            _ => {
                proof {
                    assert(false);
                }
                (None, None)
            },
        }
        },
        None => (None, None),
    };
    let fi = find_last(events, MatchKind::Finished, id);
    let (outcome, cacheable, caching_disabled_reason, caching_disabled_explanation,
        origin_build_cache_key, actionable, finished_at) = match fi {
        Some(k) => {
            proof {
                lemma_last_match_props(evs, finished_pred(id));
                assert(finished_pred(id)(evs[k as int]));
                assert(evs[k as int] == events@[k as int].deep_view());
            }
            match &events[k].1 {
            DecodedEvent::TaskFinished(e) => {
                let outcome = match e.outcome {
                    Some(o) => TaskOutcome::from_ordinal(o),
                    None => None,
                };
                (
                    outcome,
                    e.cacheable,
                    clone_opt_string(&e.caching_disabled_reason_category),
                    clone_opt_string(&e.caching_disabled_explanation),
                    clone_opt_bytes(&e.origin_build_cache_key),
                    e.actionable,
                    Some(events[k].0.timestamp),
                )
            },
            _ => {
                proof {
                    assert(false);
                }
                (None, None, None, None, None, None, None)
            },
        }
        },
        None => (None, None, None, None, None, None, None),
    };
    let duration_ms = match (started_at, finished_at) {
        (Some(s), Some(f)) => Some(f.wrapping_sub(s)),
        _ => None,
    };
    let inputs = build_inputs(events, id);
    let r = Task {
        id,
        build_path,
        task_path,
        class_name,
        outcome,
        cacheable,
        caching_disabled_reason,
        caching_disabled_explanation,
        origin_build_cache_key,
        actionable,
        started_at,
        finished_at,
        duration_ms,
        inputs,
    };
    proof {
        assert(r.deep_view() =~= spec_task_record(evs, id));
    }
    r
}

/// Groups the decoded events by correlation id and assembles the report:
/// one task per id that received an identity event, sorted ascending;
/// planned nodes and transform requests in stream order; per-wire-id counts
/// of the undecoded events, sorted by wire id; last-writer-wins singleton
/// summaries.
/// Everything the report promises about the event stream it was assembled
/// from: the task set and each record, the ordered projections, the raw
/// counts, and the singleton summaries.
pub open spec fn report_matches(evs: Seq<SpecEvent>, r: BuildScanPayload) -> bool {
    &&& forall|i: int, j: int| 0 <= i < j < r.tasks@.len() ==> r.tasks@[i].id < r.tasks@[j].id
    &&& forall|i: int|
        0 <= i < r.tasks@.len() ==> has_identity(evs, #[trigger] r.tasks@[i].id)
            && r.tasks@[i].deep_view() == spec_task_record(evs, r.tasks@[i].id)
    &&& forall|id: i64|
        has_identity(evs, id) ==> exists|i: int|
            0 <= i < r.tasks@.len() && #[trigger] r.tasks@[i].id == id
    &&& r.planned_nodes.deep_view() == filter_map_list(evs, planned_proj())
    &&& r.transform_execution_requests.deep_view() == filter_map_list(evs, transform_proj())
    &&& forall|i: int, j: int|
        0 <= i < j < r.raw_events@.len() ==> r.raw_events@[i].wire_id < r.raw_events@[j].wire_id
    &&& forall|i: int|
        0 <= i < r.raw_events@.len() ==> (#[trigger] r.raw_events@[i].count) as nat == raw_count(
            evs,
            r.raw_events@[i].wire_id,
        ) && r.raw_events@[i].count >= 1
    &&& forall|w: u16|
        raw_count(evs, w) > 0 ==> exists|i: int|
            0 <= i < r.raw_events@.len() && (#[trigger] r.raw_events@[i].wire_id) == w
    &&& r.task_registration_summary == spec_reg_summary(evs)
    &&& r.basic_memory_stats.deep_view() == spec_mem_stats(evs)
    &&& r.resource_usage is None
}

pub fn assemble(events: Vec<(FramedEvent, DecodedEvent)>) -> (r: BuildScanPayload)
    ensures
        report_matches(events.deep_view(), r),
{
    let ghost evs = events.deep_view();
    let ids = collect_identity_ids(&events);
    let mut tasks: Vec<Task> = Vec::new();
    let mut i: usize = 0;
    while i < ids.len()
        invariant
            evs == events.deep_view(),
            i <= ids@.len(),
            tasks@.len() == i,
            sorted_strict_i64(ids@),
            forall|id: i64| ids@.contains(id) <==> has_identity(evs, id),
            forall|j: int|
                0 <= j < i ==> (#[trigger] tasks@[j]).id == ids@[j] && tasks@[j].deep_view()
                    == spec_task_record(evs, ids@[j]),
        decreases ids.len() - i,
    {
        proof {
            assert(ids@.contains(ids@[i as int]));
        }
        let t = build_task(&events, ids[i]);
        tasks.push(t);
        i += 1;
    }
    let wire_ids = collect_raw_wire_ids(&events);
    let mut raw_events: Vec<RawEventSummary> = Vec::new();
    let mut k: usize = 0;
    while k < wire_ids.len()
        invariant
            evs == events.deep_view(),
            k <= wire_ids@.len(),
            raw_events@.len() == k,
            sorted_strict_u16(wire_ids@),
            forall|w: u16|
                wire_ids@.contains(w) <==> exists|j: int|
                    0 <= j < evs.len() && is_raw_for(#[trigger] evs[j], w),
            forall|j: int|
                0 <= j < k ==> (#[trigger] raw_events@[j]).wire_id == wire_ids@[j]
                    && raw_events@[j].count as nat == raw_count(evs, wire_ids@[j])
                    && raw_events@[j].count >= 1,
        decreases wire_ids.len() - k,
    {
        let w = wire_ids[k];
        let count = count_raw(&events, w);
        proof {
            assert(wire_ids@.contains(w));
            lemma_raw_count_pos(evs, w);
        }
        raw_events.push(RawEventSummary { wire_id: w, count });
        k += 1;
    }
    let planned_nodes = build_planned_nodes(&events);
    let transform_execution_requests = build_transform_requests(&events);
    let task_registration_summary = build_reg_summary(&events);
    let basic_memory_stats = build_mem_stats(&events);
    let r = BuildScanPayload {
        tasks,
        planned_nodes,
        transform_execution_requests,
        raw_events,
        task_registration_summary,
        basic_memory_stats,
        resource_usage: None,
    };
    proof {
        assert forall|id: i64|
            has_identity(evs, id) implies exists|i2: int|
            0 <= i2 < r.tasks@.len() && (#[trigger] r.tasks@[i2].id) == id by {
            assert(ids@.contains(id));
            let j = choose|j: int| 0 <= j < ids@.len() && ids@[j] == id;
            assert(r.tasks@[j].id == id);
        }
        assert forall|w: u16|
            raw_count(evs, w) > 0 implies exists|i2: int|
            0 <= i2 < r.raw_events@.len() && (#[trigger] r.raw_events@[i2].wire_id) == w by {
            lemma_raw_count_pos(evs, w);
            assert(wire_ids@.contains(w));
            let j = choose|j: int| 0 <= j < wire_ids@.len() && wire_ids@[j] == w;
            assert(r.raw_events@[j].wire_id == w);
        }
        assert forall|i2: int|
            0 <= i2 < r.tasks@.len() implies has_identity(evs, #[trigger] r.tasks@[i2].id)
            && r.tasks@[i2].deep_view() == spec_task_record(evs, r.tasks@[i2].id) by {
            assert(ids@.contains(ids@[i2]));
        }
    }
    r
}

} // verus!

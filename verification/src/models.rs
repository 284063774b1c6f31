//! The report model: the task records, summaries and payload value the
//! assembler produces, owned values only.

use vstd::prelude::*;

verus! {

/// A task's outcome, by wire ordinal. Ordinals outside the known range
/// yield no outcome, never an error.
#[derive(Debug, Clone, PartialEq, Eq, Structural)]
pub enum TaskOutcome {
    UpToDate,
    Skipped,
    Failed,
    Success,
    FromCache,
    NoSource,
    AvoidedForUnknownReason,
}

impl DeepView for TaskOutcome {
    type V = TaskOutcome;

    open spec fn deep_view(&self) -> TaskOutcome {
        *self
    }
}

/// The outcome a wire ordinal names, when it names one.
pub open spec fn spec_outcome_from_ordinal(ordinal: u64) -> Option<TaskOutcome> {
    if ordinal == 0 {
        Some(TaskOutcome::UpToDate)
    } else if ordinal == 1 {
        Some(TaskOutcome::Skipped)
    } else if ordinal == 2 {
        Some(TaskOutcome::Failed)
    } else if ordinal == 3 {
        Some(TaskOutcome::Success)
    } else if ordinal == 4 {
        Some(TaskOutcome::FromCache)
    } else if ordinal == 5 {
        Some(TaskOutcome::NoSource)
    } else if ordinal == 6 {
        Some(TaskOutcome::AvoidedForUnknownReason)
    } else {
        None
    }
}

impl TaskOutcome {
    /// Maps a wire ordinal to its outcome; out-of-range ordinals yield
    /// `None`.
    pub fn from_ordinal(ordinal: u64) -> (r: Option<TaskOutcome>)
        ensures
            r == spec_outcome_from_ordinal(ordinal),
    {
        match ordinal {
            0 => Some(TaskOutcome::UpToDate),
            1 => Some(TaskOutcome::Skipped),
            2 => Some(TaskOutcome::Failed),
            3 => Some(TaskOutcome::Success),
            4 => Some(TaskOutcome::FromCache),
            5 => Some(TaskOutcome::NoSource),
            6 => Some(TaskOutcome::AvoidedForUnknownReason),
            _ => None,
        }
    }
}

#[derive(Debug, Clone)]
pub struct Task {
    pub id: i64,
    pub build_path: String,
    pub task_path: String,
    pub class_name: Option<String>,
    pub outcome: Option<TaskOutcome>,
    pub cacheable: Option<bool>,
    pub caching_disabled_reason: Option<String>,
    pub caching_disabled_explanation: Option<String>,
    pub origin_build_cache_key: Option<Vec<u8>>,
    pub actionable: Option<bool>,
    pub started_at: Option<i64>,
    pub finished_at: Option<i64>,
    pub duration_ms: Option<i64>,
    pub inputs: Option<TaskInputs>,
}

pub ghost struct SpecTask {
    pub id: i64,
    pub build_path: Seq<char>,
    pub task_path: Seq<char>,
    pub class_name: Option<Seq<char>>,
    pub outcome: Option<TaskOutcome>,
    pub cacheable: Option<bool>,
    pub caching_disabled_reason: Option<Seq<char>>,
    pub caching_disabled_explanation: Option<Seq<char>>,
    pub origin_build_cache_key: Option<Seq<u8>>,
    pub actionable: Option<bool>,
    pub started_at: Option<i64>,
    pub finished_at: Option<i64>,
    pub duration_ms: Option<i64>,
    pub inputs: Option<SpecTaskInputs>,
}

impl DeepView for Task {
    type V = SpecTask;

    open spec fn deep_view(&self) -> SpecTask {
        SpecTask {
            id: self.id,
            build_path: self.build_path.deep_view(),
            task_path: self.task_path.deep_view(),
            class_name: self.class_name.deep_view(),
            outcome: self.outcome,
            cacheable: self.cacheable,
            caching_disabled_reason: self.caching_disabled_reason.deep_view(),
            caching_disabled_explanation: self.caching_disabled_explanation.deep_view(),
            origin_build_cache_key: self.origin_build_cache_key.deep_view(),
            actionable: self.actionable,
            started_at: self.started_at,
            finished_at: self.finished_at,
            duration_ms: self.duration_ms,
            inputs: self.inputs.deep_view(),
        }
    }
}

#[derive(Debug, Clone)]
pub struct RawEventSummary {
    pub wire_id: u16,
    pub count: usize,
}

impl DeepView for RawEventSummary {
    type V = RawEventSummary;

    open spec fn deep_view(&self) -> RawEventSummary {
        *self
    }
}

#[derive(Debug, Clone)]
pub struct TaskInputs {
    pub property_names: Option<TaskInputsPropertyNamesData>,
    pub implementation: Option<TaskInputsImplementationData>,
    pub value_properties: Option<TaskInputsValuePropertiesData>,
    pub file_property_roots: Vec<TaskInputsFilePropertyRootData>,
    pub file_properties: Vec<TaskInputsFilePropertyData>,
    pub snapshotting_result: Option<TaskInputsSnapshottingResultData>,
}

pub ghost struct SpecTaskInputs {
    pub property_names: Option<SpecTaskInputsPropertyNamesData>,
    pub implementation: Option<SpecTaskInputsImplementationData>,
    pub value_properties: Option<SpecTaskInputsValuePropertiesData>,
    pub file_property_roots: Seq<SpecTaskInputsFilePropertyRootData>,
    pub file_properties: Seq<SpecTaskInputsFilePropertyData>,
    pub snapshotting_result: Option<SpecTaskInputsSnapshottingResultData>,
}

impl DeepView for TaskInputs {
    type V = SpecTaskInputs;

    open spec fn deep_view(&self) -> SpecTaskInputs {
        SpecTaskInputs {
            property_names: self.property_names.deep_view(),
            implementation: self.implementation.deep_view(),
            value_properties: self.value_properties.deep_view(),
            file_property_roots: self.file_property_roots.deep_view(),
            file_properties: self.file_properties.deep_view(),
            snapshotting_result: self.snapshotting_result.deep_view(),
        }
    }
}

#[derive(Debug, Clone)]
pub struct TaskInputsPropertyNamesData {
    pub value_inputs: Vec<String>,
    pub file_inputs: Vec<String>,
    pub outputs: Vec<String>,
}

pub ghost struct SpecTaskInputsPropertyNamesData {
    pub value_inputs: Seq<Seq<char>>,
    pub file_inputs: Seq<Seq<char>>,
    pub outputs: Seq<Seq<char>>,
}

impl DeepView for TaskInputsPropertyNamesData {
    type V = SpecTaskInputsPropertyNamesData;

    open spec fn deep_view(&self) -> SpecTaskInputsPropertyNamesData {
        SpecTaskInputsPropertyNamesData {
            value_inputs: self.value_inputs.deep_view(),
            file_inputs: self.file_inputs.deep_view(),
            outputs: self.outputs.deep_view(),
        }
    }
}

#[derive(Debug, Clone)]
pub struct TaskInputsImplementationData {
    pub class_loader_hash: Option<Vec<u8>>,
    pub action_class_loader_hashes: Vec<Vec<u8>>,
    pub action_class_names: Vec<String>,
}

pub ghost struct SpecTaskInputsImplementationData {
    pub class_loader_hash: Option<Seq<u8>>,
    pub action_class_loader_hashes: Seq<Seq<u8>>,
    pub action_class_names: Seq<Seq<char>>,
}

impl DeepView for TaskInputsImplementationData {
    type V = SpecTaskInputsImplementationData;

    open spec fn deep_view(&self) -> SpecTaskInputsImplementationData {
        SpecTaskInputsImplementationData {
            class_loader_hash: self.class_loader_hash.deep_view(),
            action_class_loader_hashes: self.action_class_loader_hashes.deep_view(),
            action_class_names: self.action_class_names.deep_view(),
        }
    }
}

#[derive(Debug, Clone)]
pub struct TaskInputsValuePropertiesData {
    pub hashes: Vec<Vec<u8>>,
}

pub ghost struct SpecTaskInputsValuePropertiesData {
    pub hashes: Seq<Seq<u8>>,
}

impl DeepView for TaskInputsValuePropertiesData {
    type V = SpecTaskInputsValuePropertiesData;

    open spec fn deep_view(&self) -> SpecTaskInputsValuePropertiesData {
        SpecTaskInputsValuePropertiesData {
            hashes: self.hashes.deep_view(),
        }
    }
}

#[derive(Debug, Clone)]
pub struct TaskInputsFilePropertyRootData {
    pub file_root: Option<u64>,
    pub file_path: Option<String>,
    pub root_hash: Option<Vec<u8>>,
    pub children: Vec<FilePropertyRootChildData>,
}

pub ghost struct SpecTaskInputsFilePropertyRootData {
    pub file_root: Option<u64>,
    pub file_path: Option<Seq<char>>,
    pub root_hash: Option<Seq<u8>>,
    pub children: Seq<SpecFilePropertyRootChildData>,
}

impl DeepView for TaskInputsFilePropertyRootData {
    type V = SpecTaskInputsFilePropertyRootData;

    open spec fn deep_view(&self) -> SpecTaskInputsFilePropertyRootData {
        SpecTaskInputsFilePropertyRootData {
            file_root: self.file_root,
            file_path: self.file_path.deep_view(),
            root_hash: self.root_hash.deep_view(),
            children: self.children.deep_view(),
        }
    }
}

#[derive(Debug, Clone)]
pub struct FilePropertyRootChildData {
    pub name: Option<String>,
    pub hash: Option<Vec<u8>>,
    pub parent: Option<i32>,
}

pub ghost struct SpecFilePropertyRootChildData {
    pub name: Option<Seq<char>>,
    pub hash: Option<Seq<u8>>,
    pub parent: Option<i32>,
}

impl DeepView for FilePropertyRootChildData {
    type V = SpecFilePropertyRootChildData;

    open spec fn deep_view(&self) -> SpecFilePropertyRootChildData {
        SpecFilePropertyRootChildData {
            name: self.name.deep_view(),
            hash: self.hash.deep_view(),
            parent: self.parent,
        }
    }
}

#[derive(Debug, Clone)]
pub struct TaskInputsFilePropertyData {
    pub attributes: Vec<String>,
    pub hash: Option<Vec<u8>>,
    pub roots: Vec<i64>,
}

pub ghost struct SpecTaskInputsFilePropertyData {
    pub attributes: Seq<Seq<char>>,
    pub hash: Option<Seq<u8>>,
    pub roots: Seq<i64>,
}

impl DeepView for TaskInputsFilePropertyData {
    type V = SpecTaskInputsFilePropertyData;

    open spec fn deep_view(&self) -> SpecTaskInputsFilePropertyData {
        SpecTaskInputsFilePropertyData {
            attributes: self.attributes.deep_view(),
            hash: self.hash.deep_view(),
            roots: self.roots.deep_view(),
        }
    }
}

#[derive(Debug, Clone)]
pub struct TaskInputsSnapshottingResultData {
    pub hash: Option<Vec<u8>>,
    pub implementation: Option<i64>,
    pub property_names: Option<i64>,
    pub value_inputs: Option<i64>,
    pub file_inputs: Vec<i64>,
}

pub ghost struct SpecTaskInputsSnapshottingResultData {
    pub hash: Option<Seq<u8>>,
    pub implementation: Option<i64>,
    pub property_names: Option<i64>,
    pub value_inputs: Option<i64>,
    pub file_inputs: Seq<i64>,
}

impl DeepView for TaskInputsSnapshottingResultData {
    type V = SpecTaskInputsSnapshottingResultData;

    open spec fn deep_view(&self) -> SpecTaskInputsSnapshottingResultData {
        SpecTaskInputsSnapshottingResultData {
            hash: self.hash.deep_view(),
            implementation: self.implementation,
            property_names: self.property_names,
            value_inputs: self.value_inputs,
            file_inputs: self.file_inputs.deep_view(),
        }
    }
}

#[derive(Debug, Clone)]
pub struct PlannedNodeData {
    pub id: Option<i64>,
    pub dependencies: Vec<i64>,
    pub must_run_after: Vec<i64>,
    pub should_run_after: Vec<i64>,
    pub finalized_by: Vec<i64>,
}

pub ghost struct SpecPlannedNodeData {
    pub id: Option<i64>,
    pub dependencies: Seq<i64>,
    pub must_run_after: Seq<i64>,
    pub should_run_after: Seq<i64>,
    pub finalized_by: Seq<i64>,
}

impl DeepView for PlannedNodeData {
    type V = SpecPlannedNodeData;

    open spec fn deep_view(&self) -> SpecPlannedNodeData {
        SpecPlannedNodeData {
            id: self.id,
            dependencies: self.dependencies.deep_view(),
            must_run_after: self.must_run_after.deep_view(),
            should_run_after: self.should_run_after.deep_view(),
            finalized_by: self.finalized_by.deep_view(),
        }
    }
}

#[derive(Debug, Clone)]
pub struct TransformExecutionRequestData {
    pub node_id: Option<i64>,
    pub identification_id: Option<i64>,
    pub execution_id: Option<i64>,
}

impl DeepView for TransformExecutionRequestData {
    type V = TransformExecutionRequestData;

    open spec fn deep_view(&self) -> TransformExecutionRequestData {
        *self
    }
}

#[derive(Debug, Clone)]
pub struct TaskRegistrationSummaryData {
    pub task_count: i32,
}

impl DeepView for TaskRegistrationSummaryData {
    type V = TaskRegistrationSummaryData;

    open spec fn deep_view(&self) -> TaskRegistrationSummaryData {
        *self
    }
}

#[derive(Debug, Clone)]
pub struct BasicMemoryStatsData {
    pub free: Option<i64>,
    pub total: Option<i64>,
    pub max: Option<i64>,
    pub peak_snapshots: Vec<MemoryPoolSnapshotData>,
    pub gc_time: Option<i64>,
}

pub ghost struct SpecBasicMemoryStatsData {
    pub free: Option<i64>,
    pub total: Option<i64>,
    pub max: Option<i64>,
    pub peak_snapshots: Seq<SpecMemoryPoolSnapshotData>,
    pub gc_time: Option<i64>,
}

impl DeepView for BasicMemoryStatsData {
    type V = SpecBasicMemoryStatsData;

    open spec fn deep_view(&self) -> SpecBasicMemoryStatsData {
        SpecBasicMemoryStatsData {
            free: self.free,
            total: self.total,
            max: self.max,
            peak_snapshots: self.peak_snapshots.deep_view(),
            gc_time: self.gc_time,
        }
    }
}

#[derive(Debug, Clone)]
pub struct MemoryPoolSnapshotData {
    pub name: Option<String>,
    pub heap: bool,
    pub init: Option<i64>,
    pub used: Option<i64>,
    pub committed: Option<i64>,
    pub max: Option<i64>,
}

pub ghost struct SpecMemoryPoolSnapshotData {
    pub name: Option<Seq<char>>,
    pub heap: bool,
    pub init: Option<i64>,
    pub used: Option<i64>,
    pub committed: Option<i64>,
    pub max: Option<i64>,
}

impl DeepView for MemoryPoolSnapshotData {
    type V = SpecMemoryPoolSnapshotData;

    open spec fn deep_view(&self) -> SpecMemoryPoolSnapshotData {
        SpecMemoryPoolSnapshotData {
            name: self.name.deep_view(),
            heap: self.heap,
            init: self.init,
            used: self.used,
            committed: self.committed,
            max: self.max,
        }
    }
}

#[derive(Debug, Clone)]
pub struct ResourceUsageData {
    pub timestamps: Vec<Vec<u8>>,
    pub build_process_cpu: NormalizedSamplesData,
    pub build_child_processes_cpu: NormalizedSamplesData,
    pub all_processes_cpu_sum: NormalizedSamplesData,
    pub all_processes_cpu: Option<Vec<u8>>,
    pub build_process_memory: NormalizedSamplesData,
    pub build_child_processes_memory: NormalizedSamplesData,
    pub all_processes_memory: NormalizedSamplesData,
    pub total_system_memory: Option<i64>,
    pub disk_read_speed: NormalizedSamplesData,
    pub disk_write_speed: NormalizedSamplesData,
    pub network_download_speed: NormalizedSamplesData,
    pub network_upload_speed: NormalizedSamplesData,
    pub processes: Vec<ProcessData>,
    pub top_processes_by_cpu: IndexedNormalizedSamplesData,
    pub top_processes_by_memory: IndexedNormalizedSamplesData,
}

pub ghost struct SpecResourceUsageData {
    pub timestamps: Seq<Seq<u8>>,
    pub build_process_cpu: SpecNormalizedSamplesData,
    pub build_child_processes_cpu: SpecNormalizedSamplesData,
    pub all_processes_cpu_sum: SpecNormalizedSamplesData,
    pub all_processes_cpu: Option<Seq<u8>>,
    pub build_process_memory: SpecNormalizedSamplesData,
    pub build_child_processes_memory: SpecNormalizedSamplesData,
    pub all_processes_memory: SpecNormalizedSamplesData,
    pub total_system_memory: Option<i64>,
    pub disk_read_speed: SpecNormalizedSamplesData,
    pub disk_write_speed: SpecNormalizedSamplesData,
    pub network_download_speed: SpecNormalizedSamplesData,
    pub network_upload_speed: SpecNormalizedSamplesData,
    pub processes: Seq<SpecProcessData>,
    pub top_processes_by_cpu: SpecIndexedNormalizedSamplesData,
    pub top_processes_by_memory: SpecIndexedNormalizedSamplesData,
}

impl DeepView for ResourceUsageData {
    type V = SpecResourceUsageData;

    open spec fn deep_view(&self) -> SpecResourceUsageData {
        SpecResourceUsageData {
            timestamps: self.timestamps.deep_view(),
            build_process_cpu: self.build_process_cpu.deep_view(),
            build_child_processes_cpu: self.build_child_processes_cpu.deep_view(),
            all_processes_cpu_sum: self.all_processes_cpu_sum.deep_view(),
            all_processes_cpu: self.all_processes_cpu.deep_view(),
            build_process_memory: self.build_process_memory.deep_view(),
            build_child_processes_memory: self.build_child_processes_memory.deep_view(),
            all_processes_memory: self.all_processes_memory.deep_view(),
            total_system_memory: self.total_system_memory,
            disk_read_speed: self.disk_read_speed.deep_view(),
            disk_write_speed: self.disk_write_speed.deep_view(),
            network_download_speed: self.network_download_speed.deep_view(),
            network_upload_speed: self.network_upload_speed.deep_view(),
            processes: self.processes.deep_view(),
            top_processes_by_cpu: self.top_processes_by_cpu.deep_view(),
            top_processes_by_memory: self.top_processes_by_memory.deep_view(),
        }
    }
}

#[derive(Debug, Clone)]
pub struct NormalizedSamplesData {
    pub samples: Option<Vec<u8>>,
    pub max: Option<i64>,
}

pub ghost struct SpecNormalizedSamplesData {
    pub samples: Option<Seq<u8>>,
    pub max: Option<i64>,
}

impl DeepView for NormalizedSamplesData {
    type V = SpecNormalizedSamplesData;

    open spec fn deep_view(&self) -> SpecNormalizedSamplesData {
        SpecNormalizedSamplesData {
            samples: self.samples.deep_view(),
            max: self.max,
        }
    }
}

#[derive(Debug, Clone)]
pub struct IndexedNormalizedSamplesData {
    pub indices: Vec<Vec<i32>>,
    pub samples: Vec<Vec<u8>>,
    pub max: Option<i64>,
}

pub ghost struct SpecIndexedNormalizedSamplesData {
    pub indices: Seq<Seq<i32>>,
    pub samples: Seq<Seq<u8>>,
    pub max: Option<i64>,
}

impl DeepView for IndexedNormalizedSamplesData {
    type V = SpecIndexedNormalizedSamplesData;

    open spec fn deep_view(&self) -> SpecIndexedNormalizedSamplesData {
        SpecIndexedNormalizedSamplesData {
            indices: self.indices.deep_view(),
            samples: self.samples.deep_view(),
            max: self.max,
        }
    }
}

#[derive(Debug, Clone)]
pub struct ProcessData {
    pub id: Option<i64>,
    pub name: Option<String>,
    pub display_name: Option<String>,
    pub process_type: Option<String>,
}

pub ghost struct SpecProcessData {
    pub id: Option<i64>,
    pub name: Option<Seq<char>>,
    pub display_name: Option<Seq<char>>,
    pub process_type: Option<Seq<char>>,
}

impl DeepView for ProcessData {
    type V = SpecProcessData;

    open spec fn deep_view(&self) -> SpecProcessData {
        SpecProcessData {
            id: self.id,
            name: self.name.deep_view(),
            display_name: self.display_name.deep_view(),
            process_type: self.process_type.deep_view(),
        }
    }
}

#[derive(Debug, Clone)]
pub struct BuildScanPayload {
    pub tasks: Vec<Task>,
    pub planned_nodes: Vec<PlannedNodeData>,
    pub transform_execution_requests: Vec<TransformExecutionRequestData>,
    pub raw_events: Vec<RawEventSummary>,
    pub task_registration_summary: Option<TaskRegistrationSummaryData>,
    pub basic_memory_stats: Option<BasicMemoryStatsData>,
    pub resource_usage: Option<ResourceUsageData>,
}

pub ghost struct SpecBuildScanPayload {
    pub tasks: Seq<SpecTask>,
    pub planned_nodes: Seq<SpecPlannedNodeData>,
    pub transform_execution_requests: Seq<TransformExecutionRequestData>,
    pub raw_events: Seq<RawEventSummary>,
    pub task_registration_summary: Option<TaskRegistrationSummaryData>,
    pub basic_memory_stats: Option<SpecBasicMemoryStatsData>,
    pub resource_usage: Option<SpecResourceUsageData>,
}

impl DeepView for BuildScanPayload {
    type V = SpecBuildScanPayload;

    open spec fn deep_view(&self) -> SpecBuildScanPayload {
        SpecBuildScanPayload {
            tasks: self.tasks.deep_view(),
            planned_nodes: self.planned_nodes.deep_view(),
            transform_execution_requests: self.transform_execution_requests.deep_view(),
            raw_events: self.raw_events.deep_view(),
            task_registration_summary: self.task_registration_summary.deep_view(),
            basic_memory_stats: self.basic_memory_stats.deep_view(),
            resource_usage: self.resource_usage.deep_view(),
        }
    }
}

/// A payload with no content at all: what the early builder returns.
pub open spec fn spec_empty_payload(p: BuildScanPayload) -> bool {
    &&& p.tasks@.len() == 0
    &&& p.planned_nodes@.len() == 0
    &&& p.transform_execution_requests@.len() == 0
    &&& p.raw_events@.len() == 0
    &&& p.task_registration_summary is None
    &&& p.basic_memory_stats is None
    &&& p.resource_usage is None
}

impl Default for BuildScanPayload {
    fn default() -> (r: Self)
        ensures
            spec_empty_payload(r),
    {
        BuildScanPayload {
            tasks: Vec::new(),
            planned_nodes: Vec::new(),
            transform_execution_requests: Vec::new(),
            raw_events: Vec::new(),
            task_registration_summary: None,
            basic_memory_stats: None,
            resource_usage: None,
        }
    }
}

} // verus!

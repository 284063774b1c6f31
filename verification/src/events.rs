//! The decoded-event layer: one value type per recognised schema, the
//! tagged union over them, and the registry that maps a wire id to its body
//! decoder. Unregistered ids yield a `Raw` event carrying the body.

use vstd::prelude::*;

use crate::error::ParseError;

pub mod basic_memory_stats;
pub mod build_agent;
pub mod build_finished;
pub mod build_modes;
pub mod build_requested_tasks;
pub mod build_started;
pub mod daemon_state;
pub mod encoding;
pub mod file_ref_roots;
pub mod hardware;
pub mod java_toolchain_usage;
pub mod jvm;
pub mod jvm_args;
pub mod locality;
pub mod os;
pub mod output_styled_text_event;
pub mod planned_node;
pub mod resource_usage;
pub mod scope_ids;
pub mod task_finished;
pub mod task_identity;
pub mod task_inputs_file_property;
pub mod task_inputs_file_property_root;
pub mod task_inputs_implementation;
pub mod task_inputs_property_names;
pub mod task_inputs_snapshotting_finished;
pub mod task_inputs_snapshotting_started;
pub mod task_inputs_value_properties;
pub mod task_registration_summary;
pub mod task_started;
pub mod transform_execution_finished;
pub mod transform_execution_request;
pub mod transform_execution_started;
pub mod transform_identification;


pub use basic_memory_stats::BasicMemoryStatsDecoder;
pub use build_agent::BuildAgentDecoder;
pub use build_finished::BuildFinishedDecoder;
pub use build_modes::BuildModesDecoder;
pub use build_requested_tasks::BuildRequestedTasksDecoder;
pub use build_started::BuildStartedDecoder;
pub use daemon_state::DaemonStateDecoder;
pub use encoding::EncodingDecoder;
pub use file_ref_roots::FileRefRootsDecoder;
pub use hardware::HardwareDecoder;
pub use java_toolchain_usage::JavaToolchainUsageDecoder;
pub use jvm::JvmDecoder;
pub use jvm_args::JvmArgsDecoder;
pub use locality::LocalityDecoder;
pub use os::OsDecoder;
pub use output_styled_text_event::OutputStyledTextEventDecoder;
pub use planned_node::PlannedNodeDecoder;
pub use resource_usage::ResourceUsageDecoder;
pub use scope_ids::ScopeIdsDecoder;
pub use task_finished::TaskFinishedDecoder;
pub use task_identity::TaskIdentityDecoder;
pub use task_inputs_file_property::TaskInputsFilePropertyDecoder;
pub use task_inputs_file_property_root::TaskInputsFilePropertyRootDecoder;
pub use task_inputs_implementation::TaskInputsImplementationDecoder;
pub use task_inputs_property_names::TaskInputsPropertyNamesDecoder;
pub use task_inputs_snapshotting_finished::TaskInputsSnapshottingFinishedDecoder;
pub use task_inputs_snapshotting_started::TaskInputsSnapshottingStartedDecoder;
pub use task_inputs_value_properties::TaskInputsValuePropertiesDecoder;
pub use task_registration_summary::TaskRegistrationSummaryDecoder;
pub use task_started::TaskStartedDecoder;
pub use transform_execution_finished::TransformExecutionFinishedDecoder;
pub use transform_execution_request::TransformExecutionRequestDecoder;
pub use transform_execution_started::TransformExecutionStartedDecoder;
pub use transform_identification::TransformIdentificationDecoder;

verus! {

broadcast use crate::kryo::group_deep_view_eq;

/// A body decoder as the registry sees one: bytes in, decoded event out.
pub trait BodyDecoder {
    fn decode(&self, body: &[u8]) -> Result<DecodedEvent, ParseError>;
}

#[derive(Debug, Clone)]
pub struct TaskIdentityEvent {
    pub id: i64,
    pub build_path: String,
    pub task_path: String,
}

pub ghost struct SpecTaskIdentityEvent {
    pub id: i64,
    pub build_path: Seq<char>,
    pub task_path: Seq<char>,
}

impl DeepView for TaskIdentityEvent {
    type V = SpecTaskIdentityEvent;

    open spec fn deep_view(&self) -> SpecTaskIdentityEvent {
        SpecTaskIdentityEvent {
            id: self.id,
            build_path: self.build_path.deep_view(),
            task_path: self.task_path.deep_view(),
        }
    }
}

#[derive(Debug, Clone)]
pub struct TaskStartedEvent {
    pub id: i64,
    pub build_path: String,
    pub path: String,
    pub class_name: Option<String>,
}

pub ghost struct SpecTaskStartedEvent {
    pub id: i64,
    pub build_path: Seq<char>,
    pub path: Seq<char>,
    pub class_name: Option<Seq<char>>,
}

impl DeepView for TaskStartedEvent {
    type V = SpecTaskStartedEvent;

    open spec fn deep_view(&self) -> SpecTaskStartedEvent {
        SpecTaskStartedEvent {
            id: self.id,
            build_path: self.build_path.deep_view(),
            path: self.path.deep_view(),
            class_name: self.class_name.deep_view(),
        }
    }
}

#[derive(Debug, Clone)]
pub struct TaskFinishedEvent {
    pub id: i64,
    pub path: String,
    pub outcome: Option<u64>,
    pub cacheable: Option<bool>,
    pub caching_disabled_reason_category: Option<String>,
    pub caching_disabled_explanation: Option<String>,
    pub origin_build_invocation_id: Option<String>,
    pub origin_build_cache_key: Option<Vec<u8>>,
    pub actionable: Option<bool>,
    pub skip_reason_message: Option<String>,
}

pub ghost struct SpecTaskFinishedEvent {
    pub id: i64,
    pub path: Seq<char>,
    pub outcome: Option<u64>,
    pub cacheable: Option<bool>,
    pub caching_disabled_reason_category: Option<Seq<char>>,
    pub caching_disabled_explanation: Option<Seq<char>>,
    pub origin_build_invocation_id: Option<Seq<char>>,
    pub origin_build_cache_key: Option<Seq<u8>>,
    pub actionable: Option<bool>,
    pub skip_reason_message: Option<Seq<char>>,
}

impl DeepView for TaskFinishedEvent {
    type V = SpecTaskFinishedEvent;

    open spec fn deep_view(&self) -> SpecTaskFinishedEvent {
        SpecTaskFinishedEvent {
            id: self.id,
            path: self.path.deep_view(),
            outcome: self.outcome,
            cacheable: self.cacheable,
            caching_disabled_reason_category: self.caching_disabled_reason_category.deep_view(),
            caching_disabled_explanation: self.caching_disabled_explanation.deep_view(),
            origin_build_invocation_id: self.origin_build_invocation_id.deep_view(),
            origin_build_cache_key: self.origin_build_cache_key.deep_view(),
            actionable: self.actionable,
            skip_reason_message: self.skip_reason_message.deep_view(),
        }
    }
}

#[derive(Debug, Clone)]
pub struct TaskInputsSnapshottingStartedEvent {
    pub task: i64,
}

impl DeepView for TaskInputsSnapshottingStartedEvent {
    type V = TaskInputsSnapshottingStartedEvent;

    open spec fn deep_view(&self) -> TaskInputsSnapshottingStartedEvent {
        *self
    }
}

#[derive(Debug, Clone)]
pub struct TransformExecutionRequestEvent {
    pub node_id: Option<i64>,
    pub identification_id: Option<i64>,
    pub execution_id: Option<i64>,
}

impl DeepView for TransformExecutionRequestEvent {
    type V = TransformExecutionRequestEvent;

    open spec fn deep_view(&self) -> TransformExecutionRequestEvent {
        *self
    }
}

#[derive(Debug, Clone)]
pub struct PlannedNodeEvent {
    pub id: Option<i64>,
    pub dependencies: Vec<i64>,
    pub must_run_after: Vec<i64>,
    pub should_run_after: Vec<i64>,
    pub finalized_by: Vec<i64>,
}

pub ghost struct SpecPlannedNodeEvent {
    pub id: Option<i64>,
    pub dependencies: Seq<i64>,
    pub must_run_after: Seq<i64>,
    pub should_run_after: Seq<i64>,
    pub finalized_by: Seq<i64>,
}

impl DeepView for PlannedNodeEvent {
    type V = SpecPlannedNodeEvent;

    open spec fn deep_view(&self) -> SpecPlannedNodeEvent {
        SpecPlannedNodeEvent {
            id: self.id,
            dependencies: self.dependencies.deep_view(),
            must_run_after: self.must_run_after.deep_view(),
            should_run_after: self.should_run_after.deep_view(),
            finalized_by: self.finalized_by.deep_view(),
        }
    }
}

#[derive(Debug, Clone)]
pub struct TaskInputsValuePropertiesEvent {
    pub id: Option<i64>,
    pub hashes: Vec<Vec<u8>>,
}

pub ghost struct SpecTaskInputsValuePropertiesEvent {
    pub id: Option<i64>,
    pub hashes: Seq<Seq<u8>>,
}

impl DeepView for TaskInputsValuePropertiesEvent {
    type V = SpecTaskInputsValuePropertiesEvent;

    open spec fn deep_view(&self) -> SpecTaskInputsValuePropertiesEvent {
        SpecTaskInputsValuePropertiesEvent {
            id: self.id,
            hashes: self.hashes.deep_view(),
        }
    }
}

#[derive(Debug, Clone)]
pub struct TaskInputsPropertyNamesEvent {
    pub id: Option<i64>,
    pub value_inputs: Vec<String>,
    pub file_inputs: Vec<String>,
    pub outputs: Vec<String>,
}

pub ghost struct SpecTaskInputsPropertyNamesEvent {
    pub id: Option<i64>,
    pub value_inputs: Seq<Seq<char>>,
    pub file_inputs: Seq<Seq<char>>,
    pub outputs: Seq<Seq<char>>,
}

impl DeepView for TaskInputsPropertyNamesEvent {
    type V = SpecTaskInputsPropertyNamesEvent;

    open spec fn deep_view(&self) -> SpecTaskInputsPropertyNamesEvent {
        SpecTaskInputsPropertyNamesEvent {
            id: self.id,
            value_inputs: self.value_inputs.deep_view(),
            file_inputs: self.file_inputs.deep_view(),
            outputs: self.outputs.deep_view(),
        }
    }
}

#[derive(Debug, Clone)]
pub struct TaskInputsImplementationEvent {
    pub id: Option<i64>,
    pub class_loader_hash: Option<Vec<u8>>,
    pub action_class_loader_hashes: Vec<Vec<u8>>,
    pub action_class_names: Vec<String>,
}

pub ghost struct SpecTaskInputsImplementationEvent {
    pub id: Option<i64>,
    pub class_loader_hash: Option<Seq<u8>>,
    pub action_class_loader_hashes: Seq<Seq<u8>>,
    pub action_class_names: Seq<Seq<char>>,
}

impl DeepView for TaskInputsImplementationEvent {
    type V = SpecTaskInputsImplementationEvent;

    open spec fn deep_view(&self) -> SpecTaskInputsImplementationEvent {
        SpecTaskInputsImplementationEvent {
            id: self.id,
            class_loader_hash: self.class_loader_hash.deep_view(),
            action_class_loader_hashes: self.action_class_loader_hashes.deep_view(),
            action_class_names: self.action_class_names.deep_view(),
        }
    }
}

#[derive(Debug, Clone)]
pub struct TaskInputsFilePropertyEvent {
    pub id: Option<i64>,
    pub attributes: Vec<String>,
    pub hash: Option<Vec<u8>>,
    pub roots: Vec<i64>,
}

pub ghost struct SpecTaskInputsFilePropertyEvent {
    pub id: Option<i64>,
    pub attributes: Seq<Seq<char>>,
    pub hash: Option<Seq<u8>>,
    pub roots: Seq<i64>,
}

impl DeepView for TaskInputsFilePropertyEvent {
    type V = SpecTaskInputsFilePropertyEvent;

    open spec fn deep_view(&self) -> SpecTaskInputsFilePropertyEvent {
        SpecTaskInputsFilePropertyEvent {
            id: self.id,
            attributes: self.attributes.deep_view(),
            hash: self.hash.deep_view(),
            roots: self.roots.deep_view(),
        }
    }
}

#[derive(Debug, Clone)]
pub struct TaskInputsSnapshottingFinishedEvent {
    pub task: Option<i64>,
    pub result: Option<TaskInputsSnapshottingResult>,
    pub failure_id: Option<i64>,
}

pub ghost struct SpecTaskInputsSnapshottingFinishedEvent {
    pub task: Option<i64>,
    pub result: Option<SpecTaskInputsSnapshottingResult>,
    pub failure_id: Option<i64>,
}

impl DeepView for TaskInputsSnapshottingFinishedEvent {
    type V = SpecTaskInputsSnapshottingFinishedEvent;

    open spec fn deep_view(&self) -> SpecTaskInputsSnapshottingFinishedEvent {
        SpecTaskInputsSnapshottingFinishedEvent {
            task: self.task,
            result: self.result.deep_view(),
            failure_id: self.failure_id,
        }
    }
}

#[derive(Debug, Clone)]
pub struct TaskInputsSnapshottingResult {
    pub hash: Option<Vec<u8>>,
    pub implementation: Option<i64>,
    pub property_names: Option<i64>,
    pub value_inputs: Option<i64>,
    pub file_inputs: Vec<i64>,
}

pub ghost struct SpecTaskInputsSnapshottingResult {
    pub hash: Option<Seq<u8>>,
    pub implementation: Option<i64>,
    pub property_names: Option<i64>,
    pub value_inputs: Option<i64>,
    pub file_inputs: Seq<i64>,
}

impl DeepView for TaskInputsSnapshottingResult {
    type V = SpecTaskInputsSnapshottingResult;

    open spec fn deep_view(&self) -> SpecTaskInputsSnapshottingResult {
        SpecTaskInputsSnapshottingResult {
            hash: self.hash.deep_view(),
            implementation: self.implementation,
            property_names: self.property_names,
            value_inputs: self.value_inputs,
            file_inputs: self.file_inputs.deep_view(),
        }
    }
}

#[derive(Debug, Clone)]
pub struct TaskInputsFilePropertyRootEvent {
    pub id: Option<i64>,
    pub file: FileRef,
    pub root_hash: Option<Vec<u8>>,
    pub children: Vec<FilePropertyRootChild>,
}

pub ghost struct SpecTaskInputsFilePropertyRootEvent {
    pub id: Option<i64>,
    pub file: SpecFileRef,
    pub root_hash: Option<Seq<u8>>,
    pub children: Seq<SpecFilePropertyRootChild>,
}

impl DeepView for TaskInputsFilePropertyRootEvent {
    type V = SpecTaskInputsFilePropertyRootEvent;

    open spec fn deep_view(&self) -> SpecTaskInputsFilePropertyRootEvent {
        SpecTaskInputsFilePropertyRootEvent {
            id: self.id,
            file: self.file.deep_view(),
            root_hash: self.root_hash.deep_view(),
            children: self.children.deep_view(),
        }
    }
}

#[derive(Debug, Clone)]
pub struct FileRef {
    pub root: Option<u64>,
    pub path: Option<String>,
}

pub ghost struct SpecFileRef {
    pub root: Option<u64>,
    pub path: Option<Seq<char>>,
}

impl DeepView for FileRef {
    type V = SpecFileRef;

    open spec fn deep_view(&self) -> SpecFileRef {
        SpecFileRef {
            root: self.root,
            path: self.path.deep_view(),
        }
    }
}

#[derive(Debug, Clone)]
pub struct FilePropertyRootChild {
    pub name: Option<String>,
    pub hash: Option<Vec<u8>>,
    pub parent: Option<i32>,
}

pub ghost struct SpecFilePropertyRootChild {
    pub name: Option<Seq<char>>,
    pub hash: Option<Seq<u8>>,
    pub parent: Option<i32>,
}

impl DeepView for FilePropertyRootChild {
    type V = SpecFilePropertyRootChild;

    open spec fn deep_view(&self) -> SpecFilePropertyRootChild {
        SpecFilePropertyRootChild {
            name: self.name.deep_view(),
            hash: self.hash.deep_view(),
            parent: self.parent,
        }
    }
}

#[derive(Debug, Clone)]
pub struct JavaToolchainUsageEvent {
    pub task_id: i64,
    pub toolchain_id: i64,
    pub tool_name: String,
}

pub ghost struct SpecJavaToolchainUsageEvent {
    pub task_id: i64,
    pub toolchain_id: i64,
    pub tool_name: Seq<char>,
}

impl DeepView for JavaToolchainUsageEvent {
    type V = SpecJavaToolchainUsageEvent;

    open spec fn deep_view(&self) -> SpecJavaToolchainUsageEvent {
        SpecJavaToolchainUsageEvent {
            task_id: self.task_id,
            toolchain_id: self.toolchain_id,
            tool_name: self.tool_name.deep_view(),
        }
    }
}

#[derive(Debug, Clone)]
pub struct TransformExecutionStartedEvent {
    pub id: i64,
}

impl DeepView for TransformExecutionStartedEvent {
    type V = TransformExecutionStartedEvent;

    open spec fn deep_view(&self) -> TransformExecutionStartedEvent {
        *self
    }
}

#[derive(Debug, Clone)]
pub struct TransformIdentificationEvent {
    pub id: i64,
    pub component_identity: i32,
    pub input_artifact_name: String,
    pub transform_action_class: String,
    pub from_attributes: Vec<i32>,
    pub to_attributes: Vec<i32>,
}

pub ghost struct SpecTransformIdentificationEvent {
    pub id: i64,
    pub component_identity: i32,
    pub input_artifact_name: Seq<char>,
    pub transform_action_class: Seq<char>,
    pub from_attributes: Seq<i32>,
    pub to_attributes: Seq<i32>,
}

impl DeepView for TransformIdentificationEvent {
    type V = SpecTransformIdentificationEvent;

    open spec fn deep_view(&self) -> SpecTransformIdentificationEvent {
        SpecTransformIdentificationEvent {
            id: self.id,
            component_identity: self.component_identity,
            input_artifact_name: self.input_artifact_name.deep_view(),
            transform_action_class: self.transform_action_class.deep_view(),
            from_attributes: self.from_attributes.deep_view(),
            to_attributes: self.to_attributes.deep_view(),
        }
    }
}

#[derive(Debug, Clone)]
pub struct TransformExecutionFinishedEvent {
    pub id: i64,
    pub failure_id: Option<i64>,
    pub outcome: Option<u64>,
    pub execution_reasons: Vec<String>,
    pub caching_disabled_reason_category: Option<String>,
    pub caching_disabled_explanation: Option<String>,
    pub origin_build_invocation_id: Option<String>,
    pub origin_build_cache_key: Option<Vec<u8>>,
    pub origin_execution_time: Option<i64>,
}

pub ghost struct SpecTransformExecutionFinishedEvent {
    pub id: i64,
    pub failure_id: Option<i64>,
    pub outcome: Option<u64>,
    pub execution_reasons: Seq<Seq<char>>,
    pub caching_disabled_reason_category: Option<Seq<char>>,
    pub caching_disabled_explanation: Option<Seq<char>>,
    pub origin_build_invocation_id: Option<Seq<char>>,
    pub origin_build_cache_key: Option<Seq<u8>>,
    pub origin_execution_time: Option<i64>,
}

impl DeepView for TransformExecutionFinishedEvent {
    type V = SpecTransformExecutionFinishedEvent;

    open spec fn deep_view(&self) -> SpecTransformExecutionFinishedEvent {
        SpecTransformExecutionFinishedEvent {
            id: self.id,
            failure_id: self.failure_id,
            outcome: self.outcome,
            execution_reasons: self.execution_reasons.deep_view(),
            caching_disabled_reason_category: self.caching_disabled_reason_category.deep_view(),
            caching_disabled_explanation: self.caching_disabled_explanation.deep_view(),
            origin_build_invocation_id: self.origin_build_invocation_id.deep_view(),
            origin_build_cache_key: self.origin_build_cache_key.deep_view(),
            origin_execution_time: self.origin_execution_time,
        }
    }
}

#[derive(Debug, Clone)]
pub struct OutputStyledTextEvent {
    pub category: Option<String>,
    pub log_level: Option<String>,
    pub spans: Vec<OutputSpan>,
    pub owner_type: Option<u64>,
    pub owner_id: Option<String>,
}

pub ghost struct SpecOutputStyledTextEvent {
    pub category: Option<Seq<char>>,
    pub log_level: Option<Seq<char>>,
    pub spans: Seq<SpecOutputSpan>,
    pub owner_type: Option<u64>,
    pub owner_id: Option<Seq<char>>,
}

impl DeepView for OutputStyledTextEvent {
    type V = SpecOutputStyledTextEvent;

    open spec fn deep_view(&self) -> SpecOutputStyledTextEvent {
        SpecOutputStyledTextEvent {
            category: self.category.deep_view(),
            log_level: self.log_level.deep_view(),
            spans: self.spans.deep_view(),
            owner_type: self.owner_type,
            owner_id: self.owner_id.deep_view(),
        }
    }
}

#[derive(Debug, Clone)]
pub struct OutputSpan {
    pub text: String,
    pub style: Option<String>,
}

pub ghost struct SpecOutputSpan {
    pub text: Seq<char>,
    pub style: Option<Seq<char>>,
}

impl DeepView for OutputSpan {
    type V = SpecOutputSpan;

    open spec fn deep_view(&self) -> SpecOutputSpan {
        SpecOutputSpan {
            text: self.text.deep_view(),
            style: self.style.deep_view(),
        }
    }
}

#[derive(Debug, Clone)]
pub struct BuildAgentEvent {
    pub username: Option<String>,
    pub local_hostname: Option<String>,
    pub public_hostname: Option<String>,
    pub ip_addresses: Vec<String>,
}

pub ghost struct SpecBuildAgentEvent {
    pub username: Option<Seq<char>>,
    pub local_hostname: Option<Seq<char>>,
    pub public_hostname: Option<Seq<char>>,
    pub ip_addresses: Seq<Seq<char>>,
}

impl DeepView for BuildAgentEvent {
    type V = SpecBuildAgentEvent;

    open spec fn deep_view(&self) -> SpecBuildAgentEvent {
        SpecBuildAgentEvent {
            username: self.username.deep_view(),
            local_hostname: self.local_hostname.deep_view(),
            public_hostname: self.public_hostname.deep_view(),
            ip_addresses: self.ip_addresses.deep_view(),
        }
    }
}

#[derive(Debug, Clone)]
pub struct BuildRequestedTasksEvent {
    pub requested: Vec<String>,
    pub excluded: Vec<String>,
}

pub ghost struct SpecBuildRequestedTasksEvent {
    pub requested: Seq<Seq<char>>,
    pub excluded: Seq<Seq<char>>,
}

impl DeepView for BuildRequestedTasksEvent {
    type V = SpecBuildRequestedTasksEvent;

    open spec fn deep_view(&self) -> SpecBuildRequestedTasksEvent {
        SpecBuildRequestedTasksEvent {
            requested: self.requested.deep_view(),
            excluded: self.excluded.deep_view(),
        }
    }
}

#[derive(Debug, Clone)]
pub struct BuildFinishedEvent {
    pub failure_id: Option<i64>,
}

impl DeepView for BuildFinishedEvent {
    type V = BuildFinishedEvent;

    open spec fn deep_view(&self) -> BuildFinishedEvent {
        *self
    }
}

#[derive(Debug, Clone)]
pub struct BuildModesEvent {
    pub refresh_dependencies: bool,
    pub parallel_project_execution: bool,
    pub rerun_tasks: bool,
    pub continuous: bool,
    pub continue_on_failure: bool,
    pub configure_on_demand: bool,
    pub daemon: bool,
    pub offline: bool,
    pub dry_run: bool,
    pub max_workers: Option<i32>,
}

impl DeepView for BuildModesEvent {
    type V = BuildModesEvent;

    open spec fn deep_view(&self) -> BuildModesEvent {
        *self
    }
}

#[derive(Debug, Clone)]
pub struct DaemonStateEvent {
    pub start_time: Option<i64>,
    pub build_number: Option<i32>,
    pub number_of_running_daemons: Option<i32>,
    pub idle_timeout: Option<i64>,
    pub single_use: Option<bool>,
}

impl DeepView for DaemonStateEvent {
    type V = DaemonStateEvent;

    open spec fn deep_view(&self) -> DaemonStateEvent {
        *self
    }
}

#[derive(Debug, Clone)]
pub struct EncodingEvent {
    pub default_charset: String,
}

pub ghost struct SpecEncodingEvent {
    pub default_charset: Seq<char>,
}

impl DeepView for EncodingEvent {
    type V = SpecEncodingEvent;

    open spec fn deep_view(&self) -> SpecEncodingEvent {
        SpecEncodingEvent {
            default_charset: self.default_charset.deep_view(),
        }
    }
}

#[derive(Debug, Clone)]
pub struct FileRefRootsEvent {
    pub entries: Vec<FileRefRootEntry>,
}

pub ghost struct SpecFileRefRootsEvent {
    pub entries: Seq<SpecFileRefRootEntry>,
}

impl DeepView for FileRefRootsEvent {
    type V = SpecFileRefRootsEvent;

    open spec fn deep_view(&self) -> SpecFileRefRootsEvent {
        SpecFileRefRootsEvent {
            entries: self.entries.deep_view(),
        }
    }
}

#[derive(Debug, Clone)]
pub struct FileRefRootEntry {
    pub root_type: u64,
    pub path: String,
}

pub ghost struct SpecFileRefRootEntry {
    pub root_type: u64,
    pub path: Seq<char>,
}

impl DeepView for FileRefRootEntry {
    type V = SpecFileRefRootEntry;

    open spec fn deep_view(&self) -> SpecFileRefRootEntry {
        SpecFileRefRootEntry {
            root_type: self.root_type,
            path: self.path.deep_view(),
        }
    }
}

#[derive(Debug, Clone)]
pub struct HardwareEvent {
    pub num_processors: i32,
}

impl DeepView for HardwareEvent {
    type V = HardwareEvent;

    open spec fn deep_view(&self) -> HardwareEvent {
        *self
    }
}

#[derive(Debug, Clone)]
pub struct JvmEvent {
    pub version: Option<String>,
    pub vendor: Option<String>,
    pub runtime_name: Option<String>,
    pub runtime_version: Option<String>,
    pub class_version: Option<String>,
    pub vm_info: Option<String>,
    pub vm_name: Option<String>,
    pub vm_version: Option<String>,
    pub vm_vendor: Option<String>,
}

pub ghost struct SpecJvmEvent {
    pub version: Option<Seq<char>>,
    pub vendor: Option<Seq<char>>,
    pub runtime_name: Option<Seq<char>>,
    pub runtime_version: Option<Seq<char>>,
    pub class_version: Option<Seq<char>>,
    pub vm_info: Option<Seq<char>>,
    pub vm_name: Option<Seq<char>>,
    pub vm_version: Option<Seq<char>>,
    pub vm_vendor: Option<Seq<char>>,
}

impl DeepView for JvmEvent {
    type V = SpecJvmEvent;

    open spec fn deep_view(&self) -> SpecJvmEvent {
        SpecJvmEvent {
            version: self.version.deep_view(),
            vendor: self.vendor.deep_view(),
            runtime_name: self.runtime_name.deep_view(),
            runtime_version: self.runtime_version.deep_view(),
            class_version: self.class_version.deep_view(),
            vm_info: self.vm_info.deep_view(),
            vm_name: self.vm_name.deep_view(),
            vm_version: self.vm_version.deep_view(),
            vm_vendor: self.vm_vendor.deep_view(),
        }
    }
}

#[derive(Debug, Clone)]
pub struct JvmArgsEvent {
    pub effective: Vec<String>,
}

pub ghost struct SpecJvmArgsEvent {
    pub effective: Seq<Seq<char>>,
}

impl DeepView for JvmArgsEvent {
    type V = SpecJvmArgsEvent;

    open spec fn deep_view(&self) -> SpecJvmArgsEvent {
        SpecJvmArgsEvent {
            effective: self.effective.deep_view(),
        }
    }
}

#[derive(Debug, Clone)]
pub struct LocalityEvent {
    pub locale_language: Option<String>,
    pub locale_country: Option<String>,
    pub locale_variant: Option<String>,
    pub time_zone_id: Option<String>,
    pub time_zone_offset_millis: Option<i32>,
}

pub ghost struct SpecLocalityEvent {
    pub locale_language: Option<Seq<char>>,
    pub locale_country: Option<Seq<char>>,
    pub locale_variant: Option<Seq<char>>,
    pub time_zone_id: Option<Seq<char>>,
    pub time_zone_offset_millis: Option<i32>,
}

impl DeepView for LocalityEvent {
    type V = SpecLocalityEvent;

    open spec fn deep_view(&self) -> SpecLocalityEvent {
        SpecLocalityEvent {
            locale_language: self.locale_language.deep_view(),
            locale_country: self.locale_country.deep_view(),
            locale_variant: self.locale_variant.deep_view(),
            time_zone_id: self.time_zone_id.deep_view(),
            time_zone_offset_millis: self.time_zone_offset_millis,
        }
    }
}

#[derive(Debug, Clone)]
pub struct OsEvent {
    pub family: Option<String>,
    pub name: Option<String>,
    pub version: Option<String>,
    pub arch: Option<String>,
}

pub ghost struct SpecOsEvent {
    pub family: Option<Seq<char>>,
    pub name: Option<Seq<char>>,
    pub version: Option<Seq<char>>,
    pub arch: Option<Seq<char>>,
}

impl DeepView for OsEvent {
    type V = SpecOsEvent;

    open spec fn deep_view(&self) -> SpecOsEvent {
        SpecOsEvent {
            family: self.family.deep_view(),
            name: self.name.deep_view(),
            version: self.version.deep_view(),
            arch: self.arch.deep_view(),
        }
    }
}

#[derive(Debug, Clone)]
pub struct ScopeIdsEvent {
    pub build_invocation_id: Option<String>,
    pub workspace_id: Option<String>,
    pub user_id: Option<String>,
}

pub ghost struct SpecScopeIdsEvent {
    pub build_invocation_id: Option<Seq<char>>,
    pub workspace_id: Option<Seq<char>>,
    pub user_id: Option<Seq<char>>,
}

impl DeepView for ScopeIdsEvent {
    type V = SpecScopeIdsEvent;

    open spec fn deep_view(&self) -> SpecScopeIdsEvent {
        SpecScopeIdsEvent {
            build_invocation_id: self.build_invocation_id.deep_view(),
            workspace_id: self.workspace_id.deep_view(),
            user_id: self.user_id.deep_view(),
        }
    }
}

#[derive(Debug, Clone)]
pub struct TaskRegistrationSummaryEvent {
    pub task_count: i32,
}

impl DeepView for TaskRegistrationSummaryEvent {
    type V = TaskRegistrationSummaryEvent;

    open spec fn deep_view(&self) -> TaskRegistrationSummaryEvent {
        *self
    }
}

#[derive(Debug, Clone)]
pub struct BasicMemoryStatsEvent {
    pub free: Option<i64>,
    pub total: Option<i64>,
    pub max: Option<i64>,
    pub peak_snapshots: Vec<MemoryPoolSnapshotEvent>,
    pub gc_time: Option<i64>,
}

pub ghost struct SpecBasicMemoryStatsEvent {
    pub free: Option<i64>,
    pub total: Option<i64>,
    pub max: Option<i64>,
    pub peak_snapshots: Seq<SpecMemoryPoolSnapshotEvent>,
    pub gc_time: Option<i64>,
}

impl DeepView for BasicMemoryStatsEvent {
    type V = SpecBasicMemoryStatsEvent;

    open spec fn deep_view(&self) -> SpecBasicMemoryStatsEvent {
        SpecBasicMemoryStatsEvent {
            free: self.free,
            total: self.total,
            max: self.max,
            peak_snapshots: self.peak_snapshots.deep_view(),
            gc_time: self.gc_time,
        }
    }
}

#[derive(Debug, Clone)]
pub struct MemoryPoolSnapshotEvent {
    pub name: Option<String>,
    pub heap: bool,
    pub init: Option<i64>,
    pub used: Option<i64>,
    pub committed: Option<i64>,
    pub max: Option<i64>,
}

pub ghost struct SpecMemoryPoolSnapshotEvent {
    pub name: Option<Seq<char>>,
    pub heap: bool,
    pub init: Option<i64>,
    pub used: Option<i64>,
    pub committed: Option<i64>,
    pub max: Option<i64>,
}

impl DeepView for MemoryPoolSnapshotEvent {
    type V = SpecMemoryPoolSnapshotEvent;

    open spec fn deep_view(&self) -> SpecMemoryPoolSnapshotEvent {
        SpecMemoryPoolSnapshotEvent {
            name: self.name.deep_view(),
            heap: self.heap,
            init: self.init,
            used: self.used,
            committed: self.committed,
            max: self.max,
        }
    }
}

#[derive(Debug, Clone)]
pub struct ResourceUsageEvent {
    pub timestamps: Vec<Vec<u8>>,
    pub build_process_cpu: NormalizedSamplesEvent,
    pub build_child_processes_cpu: NormalizedSamplesEvent,
    pub all_processes_cpu_sum: NormalizedSamplesEvent,
    pub all_processes_cpu: Option<Vec<u8>>,
    pub build_process_memory: NormalizedSamplesEvent,
    pub build_child_processes_memory: NormalizedSamplesEvent,
    pub all_processes_memory: NormalizedSamplesEvent,
    pub total_system_memory: Option<i64>,
    pub disk_read_speed: NormalizedSamplesEvent,
    pub disk_write_speed: NormalizedSamplesEvent,
    pub network_download_speed: NormalizedSamplesEvent,
    pub network_upload_speed: NormalizedSamplesEvent,
    pub processes: Vec<ProcessEvent>,
    pub top_processes_by_cpu: IndexedNormalizedSamplesEvent,
    pub top_processes_by_memory: IndexedNormalizedSamplesEvent,
}

pub ghost struct SpecResourceUsageEvent {
    pub timestamps: Seq<Seq<u8>>,
    pub build_process_cpu: SpecNormalizedSamplesEvent,
    pub build_child_processes_cpu: SpecNormalizedSamplesEvent,
    pub all_processes_cpu_sum: SpecNormalizedSamplesEvent,
    pub all_processes_cpu: Option<Seq<u8>>,
    pub build_process_memory: SpecNormalizedSamplesEvent,
    pub build_child_processes_memory: SpecNormalizedSamplesEvent,
    pub all_processes_memory: SpecNormalizedSamplesEvent,
    pub total_system_memory: Option<i64>,
    pub disk_read_speed: SpecNormalizedSamplesEvent,
    pub disk_write_speed: SpecNormalizedSamplesEvent,
    pub network_download_speed: SpecNormalizedSamplesEvent,
    pub network_upload_speed: SpecNormalizedSamplesEvent,
    pub processes: Seq<SpecProcessEvent>,
    pub top_processes_by_cpu: SpecIndexedNormalizedSamplesEvent,
    pub top_processes_by_memory: SpecIndexedNormalizedSamplesEvent,
}

impl DeepView for ResourceUsageEvent {
    type V = SpecResourceUsageEvent;

    open spec fn deep_view(&self) -> SpecResourceUsageEvent {
        SpecResourceUsageEvent {
            timestamps: self.timestamps.deep_view(),
            build_process_cpu: self.build_process_cpu.deep_view(),
            build_child_processes_cpu: self.build_child_processes_cpu.deep_view(),
            all_processes_cpu_sum: self.all_processes_cpu_sum.deep_view(),
            all_processes_cpu: self.all_processes_cpu.deep_view(),
            build_process_memory: self.build_process_memory.deep_view(),
            build_child_processes_memory: self.build_child_processes_memory.deep_view(),
            all_processes_memory: self.all_processes_memory.deep_view(),
            total_system_memory: self.total_system_memory,
            disk_read_speed: self.disk_read_speed.deep_view(),
            disk_write_speed: self.disk_write_speed.deep_view(),
            network_download_speed: self.network_download_speed.deep_view(),
            network_upload_speed: self.network_upload_speed.deep_view(),
            processes: self.processes.deep_view(),
            top_processes_by_cpu: self.top_processes_by_cpu.deep_view(),
            top_processes_by_memory: self.top_processes_by_memory.deep_view(),
        }
    }
}

#[derive(Debug, Clone)]
pub struct NormalizedSamplesEvent {
    pub samples: Option<Vec<u8>>,
    pub max: Option<i64>,
}

pub ghost struct SpecNormalizedSamplesEvent {
    pub samples: Option<Seq<u8>>,
    pub max: Option<i64>,
}

impl DeepView for NormalizedSamplesEvent {
    type V = SpecNormalizedSamplesEvent;

    open spec fn deep_view(&self) -> SpecNormalizedSamplesEvent {
        SpecNormalizedSamplesEvent {
            samples: self.samples.deep_view(),
            max: self.max,
        }
    }
}

#[derive(Debug, Clone)]
pub struct IndexedNormalizedSamplesEvent {
    pub indices: Vec<Vec<i32>>,
    pub samples: Vec<Vec<u8>>,
    pub max: Option<i64>,
}

pub ghost struct SpecIndexedNormalizedSamplesEvent {
    pub indices: Seq<Seq<i32>>,
    pub samples: Seq<Seq<u8>>,
    pub max: Option<i64>,
}

impl DeepView for IndexedNormalizedSamplesEvent {
    type V = SpecIndexedNormalizedSamplesEvent;

    open spec fn deep_view(&self) -> SpecIndexedNormalizedSamplesEvent {
        SpecIndexedNormalizedSamplesEvent {
            indices: self.indices.deep_view(),
            samples: self.samples.deep_view(),
            max: self.max,
        }
    }
}

#[derive(Debug, Clone)]
pub struct ProcessEvent {
    pub id: Option<i64>,
    pub name: Option<String>,
    pub display_name: Option<String>,
    pub process_type: Option<u64>,
}

pub ghost struct SpecProcessEvent {
    pub id: Option<i64>,
    pub name: Option<Seq<char>>,
    pub display_name: Option<Seq<char>>,
    pub process_type: Option<u64>,
}

impl DeepView for ProcessEvent {
    type V = SpecProcessEvent;

    open spec fn deep_view(&self) -> SpecProcessEvent {
        SpecProcessEvent {
            id: self.id,
            name: self.name.deep_view(),
            display_name: self.display_name.deep_view(),
            process_type: self.process_type,
        }
    }
}

#[derive(Debug, Clone)]
pub struct RawEvent {
    pub wire_id: u16,
    pub body: Vec<u8>,
}

pub ghost struct SpecRawEvent {
    pub wire_id: u16,
    pub body: Seq<u8>,
}

impl DeepView for RawEvent {
    type V = SpecRawEvent;

    open spec fn deep_view(&self) -> SpecRawEvent {
        SpecRawEvent {
            wire_id: self.wire_id,
            body: self.body.deep_view(),
        }
    }
}

#[derive(Debug, Clone)]
pub enum DecodedEvent {
    TaskIdentity(TaskIdentityEvent),
    TaskStarted(TaskStartedEvent),
    TaskFinished(TaskFinishedEvent),
    TaskInputsSnapshottingStarted(TaskInputsSnapshottingStartedEvent),
    TransformExecutionRequest(TransformExecutionRequestEvent),
    PlannedNode(PlannedNodeEvent),
    TaskInputsValueProperties(TaskInputsValuePropertiesEvent),
    TaskInputsPropertyNames(TaskInputsPropertyNamesEvent),
    TaskInputsImplementation(TaskInputsImplementationEvent),
    TaskInputsFileProperty(TaskInputsFilePropertyEvent),
    TaskInputsSnapshottingFinished(TaskInputsSnapshottingFinishedEvent),
    TaskInputsFilePropertyRoot(TaskInputsFilePropertyRootEvent),
    JavaToolchainUsage(JavaToolchainUsageEvent),
    TransformExecutionStarted(TransformExecutionStartedEvent),
    TransformIdentification(TransformIdentificationEvent),
    TransformExecutionFinished(TransformExecutionFinishedEvent),
    OutputStyledText(OutputStyledTextEvent),
    BuildAgent(BuildAgentEvent),
    BuildRequestedTasks(BuildRequestedTasksEvent),
    BuildFinished(BuildFinishedEvent),
    BuildModes(BuildModesEvent),
    DaemonState(DaemonStateEvent),
    Encoding(EncodingEvent),
    FileRefRoots(FileRefRootsEvent),
    Hardware(HardwareEvent),
    Jvm(JvmEvent),
    JvmArgs(JvmArgsEvent),
    Locality(LocalityEvent),
    Os(OsEvent),
    ScopeIds(ScopeIdsEvent),
    TaskRegistrationSummary(TaskRegistrationSummaryEvent),
    BasicMemoryStats(BasicMemoryStatsEvent),
    ResourceUsage(ResourceUsageEvent),
    Raw(RawEvent),
    BuildStarted,
}

pub ghost enum SpecDecodedEvent {
    TaskIdentity(SpecTaskIdentityEvent),
    TaskStarted(SpecTaskStartedEvent),
    TaskFinished(SpecTaskFinishedEvent),
    TaskInputsSnapshottingStarted(TaskInputsSnapshottingStartedEvent),
    TransformExecutionRequest(TransformExecutionRequestEvent),
    PlannedNode(SpecPlannedNodeEvent),
    TaskInputsValueProperties(SpecTaskInputsValuePropertiesEvent),
    TaskInputsPropertyNames(SpecTaskInputsPropertyNamesEvent),
    TaskInputsImplementation(SpecTaskInputsImplementationEvent),
    TaskInputsFileProperty(SpecTaskInputsFilePropertyEvent),
    TaskInputsSnapshottingFinished(SpecTaskInputsSnapshottingFinishedEvent),
    TaskInputsFilePropertyRoot(SpecTaskInputsFilePropertyRootEvent),
    JavaToolchainUsage(SpecJavaToolchainUsageEvent),
    TransformExecutionStarted(TransformExecutionStartedEvent),
    TransformIdentification(SpecTransformIdentificationEvent),
    TransformExecutionFinished(SpecTransformExecutionFinishedEvent),
    OutputStyledText(SpecOutputStyledTextEvent),
    BuildAgent(SpecBuildAgentEvent),
    BuildRequestedTasks(SpecBuildRequestedTasksEvent),
    BuildFinished(BuildFinishedEvent),
    BuildModes(BuildModesEvent),
    DaemonState(DaemonStateEvent),
    Encoding(SpecEncodingEvent),
    FileRefRoots(SpecFileRefRootsEvent),
    Hardware(HardwareEvent),
    Jvm(SpecJvmEvent),
    JvmArgs(SpecJvmArgsEvent),
    Locality(SpecLocalityEvent),
    Os(SpecOsEvent),
    ScopeIds(SpecScopeIdsEvent),
    TaskRegistrationSummary(TaskRegistrationSummaryEvent),
    BasicMemoryStats(SpecBasicMemoryStatsEvent),
    ResourceUsage(SpecResourceUsageEvent),
    Raw(SpecRawEvent),
    BuildStarted,
}

impl DeepView for DecodedEvent {
    type V = SpecDecodedEvent;

    open spec fn deep_view(&self) -> SpecDecodedEvent {
        match self {
            DecodedEvent::TaskIdentity(e) => SpecDecodedEvent::TaskIdentity(e.deep_view()),
            DecodedEvent::TaskStarted(e) => SpecDecodedEvent::TaskStarted(e.deep_view()),
            DecodedEvent::TaskFinished(e) => SpecDecodedEvent::TaskFinished(e.deep_view()),
            DecodedEvent::TaskInputsSnapshottingStarted(e) => SpecDecodedEvent::TaskInputsSnapshottingStarted(e.deep_view()),
            DecodedEvent::TransformExecutionRequest(e) => SpecDecodedEvent::TransformExecutionRequest(e.deep_view()),
            DecodedEvent::PlannedNode(e) => SpecDecodedEvent::PlannedNode(e.deep_view()),
            DecodedEvent::TaskInputsValueProperties(e) => SpecDecodedEvent::TaskInputsValueProperties(e.deep_view()),
            DecodedEvent::TaskInputsPropertyNames(e) => SpecDecodedEvent::TaskInputsPropertyNames(e.deep_view()),
            DecodedEvent::TaskInputsImplementation(e) => SpecDecodedEvent::TaskInputsImplementation(e.deep_view()),
            DecodedEvent::TaskInputsFileProperty(e) => SpecDecodedEvent::TaskInputsFileProperty(e.deep_view()),
            DecodedEvent::TaskInputsSnapshottingFinished(e) => SpecDecodedEvent::TaskInputsSnapshottingFinished(e.deep_view()),
            DecodedEvent::TaskInputsFilePropertyRoot(e) => SpecDecodedEvent::TaskInputsFilePropertyRoot(e.deep_view()),
            DecodedEvent::JavaToolchainUsage(e) => SpecDecodedEvent::JavaToolchainUsage(e.deep_view()),
            DecodedEvent::TransformExecutionStarted(e) => SpecDecodedEvent::TransformExecutionStarted(e.deep_view()),
            DecodedEvent::TransformIdentification(e) => SpecDecodedEvent::TransformIdentification(e.deep_view()),
            DecodedEvent::TransformExecutionFinished(e) => SpecDecodedEvent::TransformExecutionFinished(e.deep_view()),
            DecodedEvent::OutputStyledText(e) => SpecDecodedEvent::OutputStyledText(e.deep_view()),
            DecodedEvent::BuildAgent(e) => SpecDecodedEvent::BuildAgent(e.deep_view()),
            DecodedEvent::BuildRequestedTasks(e) => SpecDecodedEvent::BuildRequestedTasks(e.deep_view()),
            DecodedEvent::BuildFinished(e) => SpecDecodedEvent::BuildFinished(e.deep_view()),
            DecodedEvent::BuildModes(e) => SpecDecodedEvent::BuildModes(e.deep_view()),
            DecodedEvent::DaemonState(e) => SpecDecodedEvent::DaemonState(e.deep_view()),
            DecodedEvent::Encoding(e) => SpecDecodedEvent::Encoding(e.deep_view()),
            DecodedEvent::FileRefRoots(e) => SpecDecodedEvent::FileRefRoots(e.deep_view()),
            DecodedEvent::Hardware(e) => SpecDecodedEvent::Hardware(e.deep_view()),
            DecodedEvent::Jvm(e) => SpecDecodedEvent::Jvm(e.deep_view()),
            DecodedEvent::JvmArgs(e) => SpecDecodedEvent::JvmArgs(e.deep_view()),
            DecodedEvent::Locality(e) => SpecDecodedEvent::Locality(e.deep_view()),
            DecodedEvent::Os(e) => SpecDecodedEvent::Os(e.deep_view()),
            DecodedEvent::ScopeIds(e) => SpecDecodedEvent::ScopeIds(e.deep_view()),
            DecodedEvent::TaskRegistrationSummary(e) => SpecDecodedEvent::TaskRegistrationSummary(e.deep_view()),
            DecodedEvent::BasicMemoryStats(e) => SpecDecodedEvent::BasicMemoryStats(e.deep_view()),
            DecodedEvent::ResourceUsage(e) => SpecDecodedEvent::ResourceUsage(e.deep_view()),
            DecodedEvent::Raw(e) => SpecDecodedEvent::Raw(e.deep_view()),
            DecodedEvent::BuildStarted => SpecDecodedEvent::BuildStarted,
        }
    }
}


/// Which decoded variant a wire id yields for a given body; ids with no
/// registered decoder yield the untouched body as a `Raw` event.
#[verifier::opaque]
pub open spec fn spec_registry_decode(wire_id: u16, body: Seq<u8>) -> Result<
    SpecDecodedEvent,
    ParseError,
> {
    if wire_id == 6 {
        Ok(SpecDecodedEvent::BuildStarted)
    } else if wire_id == 2 {
        match build_agent::spec_decode(body) {
            Ok(e) => Ok(SpecDecodedEvent::BuildAgent(e)),
            Err(e) => Err(e),
        }
    } else if wire_id == 5 {
        match build_requested_tasks::spec_decode(body) {
            Ok(e) => Ok(SpecDecodedEvent::BuildRequestedTasks(e)),
            Err(e) => Err(e),
        }
    } else if wire_id == 12 {
        match hardware::spec_decode(body) {
            Ok(e) => Ok(SpecDecodedEvent::Hardware(e)),
            Err(e) => Err(e),
        }
    } else if wire_id == 13 {
        match jvm_args::spec_decode(body) {
            Ok(e) => Ok(SpecDecodedEvent::JvmArgs(e)),
            Err(e) => Err(e),
        }
    } else if wire_id == 14 {
        match jvm::spec_decode(body) {
            Ok(e) => Ok(SpecDecodedEvent::Jvm(e)),
            Err(e) => Err(e),
        }
    } else if wire_id == 15 {
        match locality::spec_decode(body) {
            Ok(e) => Ok(SpecDecodedEvent::Locality(e)),
            Err(e) => Err(e),
        }
    } else if wire_id == 16 {
        match os::spec_decode(body) {
            Ok(e) => Ok(SpecDecodedEvent::Os(e)),
            Err(e) => Err(e),
        }
    } else if wire_id == 39 {
        match scope_ids::spec_decode(body) {
            Ok(e) => Ok(SpecDecodedEvent::ScopeIds(e)),
            Err(e) => Err(e),
        }
    } else if wire_id == 49 {
        match file_ref_roots::spec_decode(body) {
            Ok(e) => Ok(SpecDecodedEvent::FileRefRoots(e)),
            Err(e) => Err(e),
        }
    } else if wire_id == 56 {
        match encoding::spec_decode(body) {
            Ok(e) => Ok(SpecDecodedEvent::Encoding(e)),
            Err(e) => Err(e),
        }
    } else if wire_id == 88 {
        match task_inputs_file_property_root::spec_decode(body) {
            Ok(e) => Ok(SpecDecodedEvent::TaskInputsFilePropertyRoot(e)),
            Err(e) => Err(e),
        }
    } else if wire_id == 91 {
        match task_inputs_implementation::spec_decode(body) {
            Ok(e) => Ok(SpecDecodedEvent::TaskInputsImplementation(e)),
            Err(e) => Err(e),
        }
    } else if wire_id == 92 {
        match task_inputs_property_names::spec_decode(body) {
            Ok(e) => Ok(SpecDecodedEvent::TaskInputsPropertyNames(e)),
            Err(e) => Err(e),
        }
    } else if wire_id == 94 {
        match task_inputs_snapshotting_started::spec_decode(body) {
            Ok(e) => Ok(SpecDecodedEvent::TaskInputsSnapshottingStarted(e)),
            Err(e) => Err(e),
        }
    } else if wire_id == 95 {
        match task_inputs_value_properties::spec_decode(body) {
            Ok(e) => Ok(SpecDecodedEvent::TaskInputsValueProperties(e)),
            Err(e) => Err(e),
        }
    } else if wire_id == 115 {
        match java_toolchain_usage::spec_decode(body) {
            Ok(e) => Ok(SpecDecodedEvent::JavaToolchainUsage(e)),
            Err(e) => Err(e),
        }
    } else if wire_id == 117 {
        match task_identity::spec_decode(body) {
            Ok(e) => Ok(SpecDecodedEvent::TaskIdentity(e)),
            Err(e) => Err(e),
        }
    } else if wire_id == 119 {
        match planned_node::spec_decode(body) {
            Ok(e) => Ok(SpecDecodedEvent::PlannedNode(e)),
            Err(e) => Err(e),
        }
    } else if wire_id == 122 {
        match task_registration_summary::spec_decode(body) {
            Ok(e) => Ok(SpecDecodedEvent::TaskRegistrationSummary(e)),
            Err(e) => Err(e),
        }
    } else if wire_id == 136 {
        match transform_identification::spec_decode(body) {
            Ok(e) => Ok(SpecDecodedEvent::TransformIdentification(e)),
            Err(e) => Err(e),
        }
    } else if wire_id == 137 {
        match transform_execution_request::spec_decode(body) {
            Ok(e) => Ok(SpecDecodedEvent::TransformExecutionRequest(e)),
            Err(e) => Err(e),
        }
    } else if wire_id == 138 {
        match transform_execution_started::spec_decode(body) {
            Ok(e) => Ok(SpecDecodedEvent::TransformExecutionStarted(e)),
            Err(e) => Err(e),
        }
    } else if wire_id == 257 {
        match basic_memory_stats::spec_decode(body) {
            Ok(e) => Ok(SpecDecodedEvent::BasicMemoryStats(e)),
            Err(e) => Err(e),
        }
    } else if wire_id == 259 {
        match build_finished::spec_decode(body) {
            Ok(e) => Ok(SpecDecodedEvent::BuildFinished(e)),
            Err(e) => Err(e),
        }
    } else if wire_id == 265 {
        match daemon_state::spec_decode(body) {
            Ok(e) => Ok(SpecDecodedEvent::DaemonState(e)),
            Err(e) => Err(e),
        }
    } else if wire_id == 274 {
        match output_styled_text_event::spec_decode(body) {
            Ok(e) => Ok(SpecDecodedEvent::OutputStyledText(e)),
            Err(e) => Err(e),
        }
    } else if wire_id == 345 {
        match task_inputs_file_property::spec_decode(body) {
            Ok(e) => Ok(SpecDecodedEvent::TaskInputsFileProperty(e)),
            Err(e) => Err(e),
        }
    } else if wire_id == 349 {
        match task_inputs_snapshotting_finished::spec_decode(body) {
            Ok(e) => Ok(SpecDecodedEvent::TaskInputsSnapshottingFinished(e)),
            Err(e) => Err(e),
        }
    } else if wire_id == 395 {
        match transform_execution_finished::spec_decode(body) {
            Ok(e) => Ok(SpecDecodedEvent::TransformExecutionFinished(e)),
            Err(e) => Err(e),
        }
    } else if wire_id == 407 {
        match resource_usage::spec_decode(body) {
            Ok(e) => Ok(SpecDecodedEvent::ResourceUsage(e)),
            Err(e) => Err(e),
        }
    } else if wire_id == 516 {
        match build_modes::spec_decode(body) {
            Ok(e) => Ok(SpecDecodedEvent::BuildModes(e)),
            Err(e) => Err(e),
        }
    } else if wire_id == 1563 {
        match task_started::spec_decode(body) {
            Ok(e) => Ok(SpecDecodedEvent::TaskStarted(e)),
            Err(e) => Err(e),
        }
    } else if wire_id == 2074 {
        match task_finished::spec_decode(body) {
            Ok(e) => Ok(SpecDecodedEvent::TaskFinished(e)),
            Err(e) => Err(e),
        }
    } else {
        Ok(SpecDecodedEvent::Raw(SpecRawEvent { wire_id, body }))
    }
}

/// The registry mapping wire ids to body decoders.
pub struct DecoderRegistry;

impl DecoderRegistry {
    /// The registry with every known schema registered.
    pub fn new() -> (r: Self) {
        DecoderRegistry
    }

    /// Dispatches a frame body to the decoder its wire id names.
    pub fn decode(&self, wire_id: u16, body: &[u8]) -> (r: Result<DecodedEvent, ParseError>)
        ensures
            ({
                let sp = spec_registry_decode(wire_id, body@);
                match r {
                    Ok(d) => sp matches Ok(se) && d.deep_view() == se,
                    Err(e) => sp == Err::<SpecDecodedEvent, ParseError>(e),
                }
            }),
    {
        proof {
            reveal(spec_registry_decode);
        }
        if wire_id == 6 {
            (build_started::BuildStartedDecoder).decode(body)
        } else if wire_id == 2 {
            (build_agent::BuildAgentDecoder).decode(body)
        } else if wire_id == 5 {
            (build_requested_tasks::BuildRequestedTasksDecoder).decode(body)
        } else if wire_id == 12 {
            (hardware::HardwareDecoder).decode(body)
        } else if wire_id == 13 {
            (jvm_args::JvmArgsDecoder).decode(body)
        } else if wire_id == 14 {
            (jvm::JvmDecoder).decode(body)
        } else if wire_id == 15 {
            (locality::LocalityDecoder).decode(body)
        } else if wire_id == 16 {
            (os::OsDecoder).decode(body)
        } else if wire_id == 39 {
            (scope_ids::ScopeIdsDecoder).decode(body)
        } else if wire_id == 49 {
            (file_ref_roots::FileRefRootsDecoder).decode(body)
        } else if wire_id == 56 {
            (encoding::EncodingDecoder).decode(body)
        } else if wire_id == 88 {
            (task_inputs_file_property_root::TaskInputsFilePropertyRootDecoder).decode(body)
        } else if wire_id == 91 {
            (task_inputs_implementation::TaskInputsImplementationDecoder).decode(body)
        } else if wire_id == 92 {
            (task_inputs_property_names::TaskInputsPropertyNamesDecoder).decode(body)
        } else if wire_id == 94 {
            (task_inputs_snapshotting_started::TaskInputsSnapshottingStartedDecoder).decode(body)
        } else if wire_id == 95 {
            (task_inputs_value_properties::TaskInputsValuePropertiesDecoder).decode(body)
        } else if wire_id == 115 {
            (java_toolchain_usage::JavaToolchainUsageDecoder).decode(body)
        } else if wire_id == 117 {
            (task_identity::TaskIdentityDecoder).decode(body)
        } else if wire_id == 119 {
            (planned_node::PlannedNodeDecoder).decode(body)
        } else if wire_id == 122 {
            (task_registration_summary::TaskRegistrationSummaryDecoder).decode(body)
        } else if wire_id == 136 {
            (transform_identification::TransformIdentificationDecoder).decode(body)
        } else if wire_id == 137 {
            (transform_execution_request::TransformExecutionRequestDecoder).decode(body)
        } else if wire_id == 138 {
            (transform_execution_started::TransformExecutionStartedDecoder).decode(body)
        } else if wire_id == 257 {
            (basic_memory_stats::BasicMemoryStatsDecoder).decode(body)
        } else if wire_id == 259 {
            (build_finished::BuildFinishedDecoder).decode(body)
        } else if wire_id == 265 {
            (daemon_state::DaemonStateDecoder).decode(body)
        } else if wire_id == 274 {
            (output_styled_text_event::OutputStyledTextEventDecoder).decode(body)
        } else if wire_id == 345 {
            (task_inputs_file_property::TaskInputsFilePropertyDecoder).decode(body)
        } else if wire_id == 349 {
            (task_inputs_snapshotting_finished::TaskInputsSnapshottingFinishedDecoder).decode(body)
        } else if wire_id == 395 {
            (transform_execution_finished::TransformExecutionFinishedDecoder).decode(body)
        } else if wire_id == 407 {
            (resource_usage::ResourceUsageDecoder).decode(body)
        } else if wire_id == 516 {
            (build_modes::BuildModesDecoder).decode(body)
        } else if wire_id == 1563 {
            (task_started::TaskStartedDecoder).decode(body)
        } else if wire_id == 2074 {
            (task_finished::TaskFinishedDecoder).decode(body)
        } else {
            let copy = vstd::slice::slice_to_vec(body);
            Ok(DecodedEvent::Raw(RawEvent { wire_id, body: copy }))
        }
    }
}

} // verus!

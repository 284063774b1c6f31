use build_scan::events::resource_usage::{
    decode_indexed_normalized_samples, decode_normalized_samples, decode_process,
};
use build_scan::events::{
    BasicMemoryStatsDecoder, DecodedEvent, OutputStyledTextEventDecoder, PlannedNodeDecoder,
    ResourceUsageDecoder, TaskFinishedDecoder, TaskIdentityDecoder, TaskInputsFilePropertyDecoder,
    TaskInputsFilePropertyRootDecoder, TaskInputsImplementationDecoder,
    TaskInputsPropertyNamesDecoder, TaskInputsSnapshottingFinishedDecoder,
    TaskInputsSnapshottingStartedDecoder, TaskInputsValuePropertiesDecoder,
    TaskRegistrationSummaryDecoder, TaskStartedDecoder, TransformExecutionFinishedDecoder,
    TransformExecutionRequestDecoder, TransformExecutionStartedDecoder,
    TransformIdentificationDecoder,
};
use build_scan::kryo::{encode_zigzag_i64, StringInternTable};

#[test]
fn task_identity_test_decode_all_fields_present() {
    // flags=0x00 (all present), id=1 as fixed 8-byte LE, buildPath=":", taskPath=":app:build"
    let mut data = vec![0x00];
    data.extend_from_slice(&1i64.to_le_bytes());
    // buildPath ":" -> zigzag(1)=2, then char ':'=58
    data.push(0x02);
    data.push(58);
    // taskPath ":app:build" -> zigzag(10)=20, then 10 chars
    data.push(0x14);
    for &c in b":app:build" {
        data.push(c);
    }

    let decoder = TaskIdentityDecoder;
    let result = decoder.decode(&data).unwrap();
    if let DecodedEvent::TaskIdentity(e) = result {
        assert_eq!(e.id, 1);
        assert_eq!(e.build_path, ":");
        assert_eq!(e.task_path, ":app:build");
    } else {
        panic!("expected TaskIdentity");
    }
}

#[test]
fn test_decode_without_parent() {
    // flags=0x10 (bit4=1 -> parent absent, bits 0-3 = 0 -> present)
    let mut data = vec![0x10];
    data.push(0x02); // id: zigzag(1)=2
    data.push(0x02);
    data.push(58); // buildPath ":"
    // path ":app:compileKotlin" (18 chars) -> zigzag(18)=36
    data.push(0x24);
    for &c in b":app:compileKotlin" {
        data.push(c);
    }
    // className -> zigzag(47)=94
    data.push(0x5e);
    for &c in b"org.jetbrains.kotlin.gradle.tasks.KotlinCompile" {
        data.push(c);
    }

    let decoder = TaskStartedDecoder;
    let result = decoder.decode(&data).unwrap();
    if let DecodedEvent::TaskStarted(e) = result {
        assert_eq!(e.id, 1);
        assert_eq!(e.path, ":app:compileKotlin");
        assert_eq!(
            e.class_name.as_deref(),
            Some("org.jetbrains.kotlin.gradle.tasks.KotlinCompile")
        );
    } else {
        panic!("expected TaskStarted");
    }
}

#[test]
fn test_decode_success_not_cacheable() {
    // bits absent (=1): 3,4,5,6,7,8,9,10,11,12; present (=0): 0,1,2
    // flags = 0b0001_1111_1111_1000 = 0x1FF8, fixed 2-byte BE u16
    let mut data = vec![];
    data.push(0x1F);
    data.push(0xF8);
    data.extend_from_slice(&1i64.to_le_bytes());
    // path ":app:build" -> zigzag(10)=20
    data.push(0x14);
    for &c in b":app:build" {
        data.push(c);
    }
    data.push(0x03); // outcome: ordinal 3

    let decoder = TaskFinishedDecoder;
    let result = decoder.decode(&data).unwrap();
    if let DecodedEvent::TaskFinished(e) = result {
        assert_eq!(e.id, 1);
        assert_eq!(e.path, ":app:build");
        assert_eq!(e.outcome, Some(3));
        assert_eq!(e.cacheable, Some(false)); // bit4=1 means absent -> false
    } else {
        panic!("expected TaskFinished");
    }
}

#[test]
fn test_decode() {
    let data = 42i64.to_le_bytes();
    let decoder = TaskInputsSnapshottingStartedDecoder;
    let result = decoder.decode(&data).unwrap();
    if let DecodedEvent::TaskInputsSnapshottingStarted(e) = result {
        assert_eq!(e.task, 42);
    } else {
        panic!("expected TaskInputsSnapshottingStarted");
    }
}

#[test]
fn test_decode_with_result() {
    let mut data = vec![0x04]; // bits 0,1 present, bit 2 absent
    data.extend_from_slice(&42i64.to_le_bytes());
    data.push(0x10); // inner flags: bits 0-3 present, bit 4 absent
    data.push(0x04);
    data.extend_from_slice(&[0x01, 0x02, 0x03, 0x04]);
    data.extend_from_slice(&10i64.to_le_bytes());
    data.extend_from_slice(&11i64.to_le_bytes());
    data.extend_from_slice(&12i64.to_le_bytes());
    let decoder = TaskInputsSnapshottingFinishedDecoder;
    let result = decoder.decode(&data).unwrap();
    if let DecodedEvent::TaskInputsSnapshottingFinished(e) = result {
        assert_eq!(e.task, Some(42));
        let r = e.result.unwrap();
        assert_eq!(r.hash, Some(vec![0x01, 0x02, 0x03, 0x04]));
        assert_eq!(r.implementation, Some(10));
        assert_eq!(r.property_names, Some(11));
        assert_eq!(r.value_inputs, Some(12));
        assert!(r.file_inputs.is_empty());
        assert_eq!(e.failure_id, None);
    } else {
        panic!("expected TaskInputsSnapshottingFinished");
    }
}

#[test]
fn task_inputs_value_properties_test_decode_all_present() {
    let mut data = vec![0x00];
    data.extend_from_slice(&5i64.to_le_bytes());
    data.push(0x01); // 1 hash
    data.push(0x03);
    data.extend_from_slice(&[0xAA, 0xBB, 0xCC]);
    let decoder = TaskInputsValuePropertiesDecoder;
    let result = decoder.decode(&data).unwrap();
    if let DecodedEvent::TaskInputsValueProperties(e) = result {
        assert_eq!(e.id, Some(5));
        assert_eq!(e.hashes, vec![vec![0xAA, 0xBB, 0xCC]]);
    } else {
        panic!("expected TaskInputsValueProperties");
    }
}

#[test]
fn task_inputs_property_names_test_decode_all_present() {
    let mut data = vec![0x00];
    data.extend_from_slice(&3i64.to_le_bytes());
    data.push(0x01);
    data.push(0x0E);
    data.extend_from_slice(b"enabled");
    data.push(0x01);
    data.push(0x12);
    data.extend_from_slice(b"classpath");
    data.push(0x01);
    data.push(0x12);
    data.extend_from_slice(b"outputDir");
    let decoder = TaskInputsPropertyNamesDecoder;
    let result = decoder.decode(&data).unwrap();
    if let DecodedEvent::TaskInputsPropertyNames(e) = result {
        assert_eq!(e.id, Some(3));
        assert_eq!(e.value_inputs, vec!["enabled"]);
        assert_eq!(e.file_inputs, vec!["classpath"]);
        assert_eq!(e.outputs, vec!["outputDir"]);
    } else {
        panic!("expected TaskInputsPropertyNames");
    }
}

#[test]
fn task_inputs_implementation_test_decode_all_present() {
    let mut data = vec![0x00];
    data.extend_from_slice(&9i64.to_le_bytes());
    data.push(0x02);
    data.extend_from_slice(&[0xDE, 0xAD]);
    data.push(0x01);
    data.push(0x02);
    data.extend_from_slice(&[0xBE, 0xEF]);
    data.push(0x01);
    data.push(0x10);
    data.extend_from_slice(b"MyAction");
    let decoder = TaskInputsImplementationDecoder;
    let result = decoder.decode(&data).unwrap();
    if let DecodedEvent::TaskInputsImplementation(e) = result {
        assert_eq!(e.id, Some(9));
        assert_eq!(e.class_loader_hash, Some(vec![0xDE, 0xAD]));
        assert_eq!(e.action_class_loader_hashes, vec![vec![0xBE, 0xEF]]);
        assert_eq!(e.action_class_names, vec!["MyAction"]);
    } else {
        panic!("expected TaskInputsImplementation");
    }
}

#[test]
fn task_inputs_file_property_test_decode_all_present() {
    let mut data = vec![0x00];
    data.extend_from_slice(&4i64.to_le_bytes());
    data.push(0x01);
    data.push(0x16);
    data.extend_from_slice(b"INCREMENTAL");
    data.push(0x02);
    data.extend_from_slice(&[0xFF, 0x00]);
    data.push(0x01);
    data.extend_from_slice(&100i64.to_le_bytes());
    let decoder = TaskInputsFilePropertyDecoder;
    let result = decoder.decode(&data).unwrap();
    if let DecodedEvent::TaskInputsFileProperty(e) = result {
        assert_eq!(e.id, Some(4));
        assert_eq!(e.attributes, vec!["INCREMENTAL"]);
        assert_eq!(e.hash, Some(vec![0xFF, 0x00]));
        assert_eq!(e.roots, vec![100]);
    } else {
        panic!("expected TaskInputsFileProperty");
    }
}

#[test]
fn test_decode_with_file_and_children() {
    let mut data = vec![0x00]; // all present
    data.extend_from_slice(&8i64.to_le_bytes());
    // FileRef: flags 0x00, root=0, path="src"
    data.push(0x00);
    data.push(0x00);
    data.push(0x06);
    data.extend_from_slice(b"src");
    // rootHash
    data.push(0x02);
    data.extend_from_slice(&[0xAB, 0xCD]);
    // 1 child
    data.push(0x01);
    data.push(0x00); // child flags: all present
    data.push(0x0E);
    data.extend_from_slice(b"Main.kt"); // zigzag(7)=14
    data.push(0x02);
    data.extend_from_slice(&[0x11, 0x22]);
    data.push(0x00); // parent = zigzag(0) = 0
    let decoder = TaskInputsFilePropertyRootDecoder;
    let result = decoder.decode(&data).unwrap();
    if let DecodedEvent::TaskInputsFilePropertyRoot(e) = result {
        assert_eq!(e.id, Some(8));
        assert_eq!(e.file.root, Some(0));
        assert_eq!(e.file.path.as_deref(), Some("src"));
        assert_eq!(e.root_hash, Some(vec![0xAB, 0xCD]));
        assert_eq!(e.children.len(), 1);
        assert_eq!(e.children[0].name.as_deref(), Some("Main.kt"));
        assert_eq!(e.children[0].hash, Some(vec![0x11, 0x22]));
        assert_eq!(e.children[0].parent, Some(0));
    } else {
        panic!("expected TaskInputsFilePropertyRoot");
    }
}

#[test]
fn test_decode_with_dependencies() {
    let mut data = vec![0x1C]; // bits 0,1 present, bits 2-4 absent
    data.extend_from_slice(&7i64.to_le_bytes());
    data.push(0x02); // 2 deps
    data.extend_from_slice(&10i64.to_le_bytes());
    data.extend_from_slice(&20i64.to_le_bytes());
    let decoder = PlannedNodeDecoder;
    let result = decoder.decode(&data).unwrap();
    if let DecodedEvent::PlannedNode(e) = result {
        assert_eq!(e.id, Some(7));
        assert_eq!(e.dependencies, vec![10, 20]);
        assert!(e.must_run_after.is_empty());
    } else {
        panic!("expected PlannedNode");
    }
}

#[test]
fn planned_node_test_decode_all_absent() {
    let data = vec![0x1F];
    let decoder = PlannedNodeDecoder;
    let result = decoder.decode(&data).unwrap();
    if let DecodedEvent::PlannedNode(e) = result {
        assert_eq!(e.id, None);
        assert!(e.dependencies.is_empty());
    } else {
        panic!("expected PlannedNode");
    }
}

#[test]
fn test_decode_task_count() {
    let data = [0x0a]; // unsigned varint 10
    let decoder = TaskRegistrationSummaryDecoder;
    let result = decoder.decode(&data).unwrap();
    if let DecodedEvent::TaskRegistrationSummary(e) = result {
        assert_eq!(e.task_count, 10);
    } else {
        panic!("expected TaskRegistrationSummary");
    }
}

#[test]
fn transform_execution_request_test_decode_all_present() {
    let mut data = vec![0x00];
    data.extend_from_slice(&1i64.to_le_bytes());
    data.extend_from_slice(&2i64.to_le_bytes());
    data.extend_from_slice(&3i64.to_le_bytes());
    let decoder = TransformExecutionRequestDecoder;
    let result = decoder.decode(&data).unwrap();
    if let DecodedEvent::TransformExecutionRequest(e) = result {
        assert_eq!(e.node_id, Some(1));
        assert_eq!(e.identification_id, Some(2));
        assert_eq!(e.execution_id, Some(3));
    } else {
        panic!("expected TransformExecutionRequest");
    }
}

#[test]
fn transform_execution_request_test_decode_all_absent() {
    let data = vec![0x07]; // bits 0,1,2 set = all absent
    let decoder = TransformExecutionRequestDecoder;
    let result = decoder.decode(&data).unwrap();
    if let DecodedEvent::TransformExecutionRequest(e) = result {
        assert_eq!(e.node_id, None);
        assert_eq!(e.identification_id, None);
        assert_eq!(e.execution_id, None);
    } else {
        panic!("expected TransformExecutionRequest");
    }
}

#[test]
fn test_decode_positive_id() {
    let data = encode_zigzag_i64(5);
    let decoder = TransformExecutionStartedDecoder;
    let result = decoder.decode(&data).unwrap();
    if let DecodedEvent::TransformExecutionStarted(e) = result {
        assert_eq!(e.id, 5);
    } else {
        panic!("expected TransformExecutionStarted");
    }
}

#[test]
fn test_decode_negative_id() {
    let data = encode_zigzag_i64(-3);
    let decoder = TransformExecutionStartedDecoder;
    let result = decoder.decode(&data).unwrap();
    if let DecodedEvent::TransformExecutionStarted(e) = result {
        assert_eq!(e.id, -3);
    } else {
        panic!("expected TransformExecutionStarted");
    }
}

#[test]
fn transform_identification_test_decode_all_present() {
    // flags = 0x00: all 6 bits present
    let mut data = vec![0x00];
    data.extend_from_slice(&encode_zigzag_i64(10)); // id = 10
    data.push(0x03); // component_identity = 3 (unsigned varint)
    // input_artifact_name = "in" -> zigzag(2)=4, then 'i'=105, 'n'=110
    data.push(0x04);
    data.push(105);
    data.push(110);
    // transform_action_class = "TC" -> zigzag(2)=4, then 'T'=84, 'C'=67
    data.push(0x04);
    data.push(84);
    data.push(67);
    // from_attributes: len=2, then 1, 2
    data.push(0x02);
    data.push(0x01);
    data.push(0x02);
    // to_attributes: len=1, then 5
    data.push(0x01);
    data.push(0x05);

    let decoder = TransformIdentificationDecoder;
    let result = decoder.decode(&data).unwrap();
    if let DecodedEvent::TransformIdentification(e) = result {
        assert_eq!(e.id, 10);
        assert_eq!(e.component_identity, 3);
        assert_eq!(e.input_artifact_name, "in");
        assert_eq!(e.transform_action_class, "TC");
        assert_eq!(e.from_attributes, vec![1, 2]);
        assert_eq!(e.to_attributes, vec![5]);
    } else {
        panic!("expected TransformIdentification");
    }
}

#[test]
fn transform_identification_test_decode_all_absent() {
    // flags = 0x3F: all 6 bits set = all absent
    let data = vec![0x3F];
    let decoder = TransformIdentificationDecoder;
    let result = decoder.decode(&data).unwrap();
    if let DecodedEvent::TransformIdentification(e) = result {
        assert_eq!(e.id, 0);
        assert_eq!(e.component_identity, 0);
        assert_eq!(e.input_artifact_name, "");
        assert_eq!(e.transform_action_class, "");
        assert!(e.from_attributes.is_empty());
        assert!(e.to_attributes.is_empty());
    } else {
        panic!("expected TransformIdentification");
    }
}

#[test]
fn test_decode_id_and_outcome_only() {
    // bits present (=0): 0 (id), 2 (outcome); bits absent (=1): 1,3,4,5,6,7,8
    // flags = 0b0000_0001_1111_1010 = 0x01FA
    let mut data = vec![0x01, 0xFA];
    data.extend_from_slice(&encode_zigzag_i64(99)); // id = 99
    data.push(0x02); // outcome ordinal = 2

    let decoder = TransformExecutionFinishedDecoder;
    let result = decoder.decode(&data).unwrap();
    if let DecodedEvent::TransformExecutionFinished(e) = result {
        assert_eq!(e.id, 99);
        assert_eq!(e.failure_id, None);
        assert_eq!(e.outcome, Some(2));
        assert!(e.execution_reasons.is_empty());
        assert_eq!(e.caching_disabled_reason_category, None);
        assert_eq!(e.caching_disabled_explanation, None);
        assert_eq!(e.origin_build_invocation_id, None);
        assert_eq!(e.origin_build_cache_key, None);
        assert_eq!(e.origin_execution_time, None);
    } else {
        panic!("expected TransformExecutionFinished");
    }
}

#[test]
fn transform_execution_finished_test_decode_all_absent() {
    // flags = 0x01FF: all 9 bits set = all absent
    let data = vec![0x01, 0xFF];
    let decoder = TransformExecutionFinishedDecoder;
    let result = decoder.decode(&data).unwrap();
    if let DecodedEvent::TransformExecutionFinished(e) = result {
        assert_eq!(e.id, 0);
        assert_eq!(e.failure_id, None);
        assert_eq!(e.outcome, None);
        assert!(e.execution_reasons.is_empty());
    } else {
        panic!("expected TransformExecutionFinished");
    }
}

#[test]
fn test_decode_with_common_fields_and_one_span() {
    let mut data = vec![];
    // top-level flags = 0x00: spans and owner present
    data.push(0x00);
    // common_flags = 0x00: both category and log_level present
    data.push(0x00);
    // category = "LIFECYCLE" -> zigzag(9)=18, then chars
    data.push(0x12);
    for &c in b"LIFECYCLE" {
        data.push(c);
    }
    // log_level = "INFO" -> zigzag(4)=8, then chars
    data.push(0x08);
    for &c in b"INFO" {
        data.push(c);
    }
    // spans list: len=1
    data.push(0x01);
    // span_flags = 0x00: text and style present
    data.push(0x00);
    // text = "hello" -> zigzag(5)=10, then chars
    data.push(0x0A);
    for &c in b"hello" {
        data.push(c);
    }
    // style = "bold" -> zigzag(4)=8, then chars
    data.push(0x08);
    for &c in b"bold" {
        data.push(c);
    }
    // owner: type = 1 (enum ordinal)
    data.push(0x01);
    // owner id = "task1" -> zigzag(5)=10, then chars
    data.push(0x0A);
    for &c in b"task1" {
        data.push(c);
    }

    let decoder = OutputStyledTextEventDecoder;
    let result = decoder.decode(&data).unwrap();
    if let DecodedEvent::OutputStyledText(e) = result {
        assert_eq!(e.category, Some("LIFECYCLE".to_string()));
        assert_eq!(e.log_level, Some("INFO".to_string()));
        assert_eq!(e.spans.len(), 1);
        assert_eq!(e.spans[0].text, "hello");
        assert_eq!(e.spans[0].style, Some("bold".to_string()));
        assert_eq!(e.owner_type, Some(1));
        assert_eq!(e.owner_id, Some("task1".to_string()));
    } else {
        panic!("expected OutputStyledText");
    }
}

#[test]
fn test_decode_no_spans_no_owner() {
    let mut data = vec![];
    // top-level flags = 0x03: spans and owner absent
    data.push(0x03);
    // common_flags = 0x03: both category and log_level absent
    data.push(0x03);

    let decoder = OutputStyledTextEventDecoder;
    let result = decoder.decode(&data).unwrap();
    if let DecodedEvent::OutputStyledText(e) = result {
        assert_eq!(e.category, None);
        assert_eq!(e.log_level, None);
        assert!(e.spans.is_empty());
        assert_eq!(e.owner_type, None);
        assert_eq!(e.owner_id, None);
    } else {
        panic!("expected OutputStyledText");
    }
}

#[test]
fn basic_memory_stats_test_decode_all_absent() {
    // flags = 0b00011111 -> all 5 bits set -> all fields absent
    let data = [0x1F];
    let decoder = BasicMemoryStatsDecoder;
    let result = decoder.decode(&data).unwrap();
    if let DecodedEvent::BasicMemoryStats(e) = result {
        assert_eq!(e.free, None);
        assert_eq!(e.total, None);
        assert_eq!(e.max, None);
        assert!(e.peak_snapshots.is_empty());
        assert_eq!(e.gc_time, None);
    } else {
        panic!("expected BasicMemoryStats");
    }
}

#[test]
fn test_decode_free_total_max_present() {
    // bits 3 and 4 absent (set), bits 0,1,2 present (clear) -> 0b00011000 = 0x18
    let mut data = vec![0x18u8];
    data.push(0xC8); // free = 100 -> zigzag 200
    data.push(0x01);
    data.push(0x80); // total = 512 -> zigzag 1024
    data.push(0x08);
    data.push(0x80); // max = 1024 -> zigzag 2048
    data.push(0x10);

    let decoder = BasicMemoryStatsDecoder;
    let result = decoder.decode(&data).unwrap();
    if let DecodedEvent::BasicMemoryStats(e) = result {
        assert_eq!(e.free, Some(100));
        assert_eq!(e.total, Some(512));
        assert_eq!(e.max, Some(1024));
        assert!(e.peak_snapshots.is_empty());
        assert_eq!(e.gc_time, None);
    } else {
        panic!("expected BasicMemoryStats");
    }
}

#[test]
fn test_decode_with_snapshots() {
    // flags: bit 3 present (peak_snapshots), all others absent -> 0b00010111 = 0x17
    let mut data = vec![0x17u8];
    data.push(0x01); // count = 1
    // snapshot flags: all 6 bits set -> all absent (heap = false)
    data.push(0x3F);

    let decoder = BasicMemoryStatsDecoder;
    let result = decoder.decode(&data).unwrap();
    if let DecodedEvent::BasicMemoryStats(e) = result {
        assert_eq!(e.peak_snapshots.len(), 1);
        let snap = &e.peak_snapshots[0];
        assert_eq!(snap.name, None);
        assert!(!snap.heap);
        assert_eq!(snap.init, None);
        assert_eq!(snap.used, None);
        assert_eq!(snap.committed, None);
        assert_eq!(snap.max, None);
    } else {
        panic!("expected BasicMemoryStats");
    }
}

#[test]
fn basic_memory_stats_test_decode_all_fields_present() {
    // flags = 0b00000000 -> all 5 bits clear -> all fields present
    let mut data = vec![0x00u8];
    data.push(0xC8); // free = 100 -> zigzag 200
    data.push(0x01);
    data.push(0x80); // total = 512 -> zigzag 1024
    data.push(0x08);
    data.push(0x80); // max = 1024 -> zigzag 2048
    data.push(0x10);
    data.push(0x02); // peak_snapshots: count = 2

    // Snapshot 1: all fields present (flags = 0x00), heap = true (bit 1 clear)
    data.push(0x00);
    data.push(0x14); // name = "Eden Space" (10 chars) -> zigzag(10) = 20
    for &ch in b"Eden Space" {
        data.push(ch);
    }
    data.push(0x64); // init = 50 -> zigzag 100
    data.push(0x90); // used = 200 -> zigzag 400
    data.push(0x03);
    data.push(0x80); // committed = 256 -> zigzag 512
    data.push(0x04);
    data.push(0x80); // max = 512 -> zigzag 1024
    data.push(0x08);

    // Snapshot 2: name back-refs to "Eden Space", heap = false (bit 1 set)
    data.push(0x02);
    data.push(0x01); // name = back-ref to index 0 -> zigzag(-1) = 1
    data.push(0x14); // init = 10 -> zigzag 20
    data.push(0x3C); // used = 30 -> zigzag 60
    data.push(0x80); // committed = 64 -> zigzag 128
    data.push(0x01);
    data.push(0x80); // max = 128 -> zigzag 256
    data.push(0x02);

    data.push(0x54); // gc_time = 42 -> zigzag 84

    let decoder = BasicMemoryStatsDecoder;
    let result = decoder.decode(&data).unwrap();
    if let DecodedEvent::BasicMemoryStats(e) = result {
        assert_eq!(e.free, Some(100));
        assert_eq!(e.total, Some(512));
        assert_eq!(e.max, Some(1024));
        assert_eq!(e.gc_time, Some(42));
        assert_eq!(e.peak_snapshots.len(), 2);

        let s1 = &e.peak_snapshots[0];
        assert_eq!(s1.name, Some("Eden Space".to_string()));
        assert!(s1.heap);
        assert_eq!(s1.init, Some(50));
        assert_eq!(s1.used, Some(200));
        assert_eq!(s1.committed, Some(256));
        assert_eq!(s1.max, Some(512));

        let s2 = &e.peak_snapshots[1];
        assert_eq!(s2.name, Some("Eden Space".to_string())); // back-ref
        assert!(!s2.heap);
        assert_eq!(s2.init, Some(10));
        assert_eq!(s2.used, Some(30));
        assert_eq!(s2.committed, Some(64));
        assert_eq!(s2.max, Some(128));
    } else {
        panic!("expected BasicMemoryStats");
    }
}

#[test]
fn test_snapshot_heap_true() {
    // flags: bit 3 present (peak_snapshots), all others absent -> 0x17
    let mut data = vec![0x17u8];
    data.push(0x01); // count = 1
    // snapshot flags: all bits set except bit 1 (heap) -> 0b00111101 = 0x3D
    data.push(0x3D);

    let decoder = BasicMemoryStatsDecoder;
    let result = decoder.decode(&data).unwrap();
    if let DecodedEvent::BasicMemoryStats(e) = result {
        assert_eq!(e.peak_snapshots.len(), 1);
        assert!(e.peak_snapshots[0].heap);
    } else {
        panic!("expected BasicMemoryStats");
    }
}

#[test]
fn test_decode_all_fields_absent() {
    // Main flags: bits 0-3 all set -> all 4 conditional fields absent
    let mut data = vec![0x0Fu8];
    // 10 unconditional normalised-sample blocks, all absent
    for _ in 0..10 {
        data.push(0x03);
    }
    // 2 indexed blocks, all absent
    for _ in 0..2 {
        data.push(0x07);
    }

    let decoder = ResourceUsageDecoder;
    let result = decoder.decode(&data).unwrap();
    if let DecodedEvent::ResourceUsage(e) = result {
        assert!(e.timestamps.is_empty());
        assert!(e.build_process_cpu.samples.is_none());
        assert!(e.build_process_cpu.max.is_none());
        assert!(e.all_processes_cpu.is_none());
        assert!(e.total_system_memory.is_none());
        assert!(e.processes.is_empty());
        assert!(e.top_processes_by_cpu.indices.is_empty());
        assert!(e.top_processes_by_memory.max.is_none());
    } else {
        panic!("expected ResourceUsage");
    }
}

#[test]
fn test_decode_all_conditional_fields_present() {
    // Main flags: 0b0000 -> all 4 conditional fields present
    let mut data = vec![0x00u8];

    // bit 0: timestamps = list of 1 byte array [0x01, 0x02]
    data.push(0x01);
    data.push(0x02);
    data.push(0x01);
    data.push(0x02);

    for _ in 0..3 {
        data.push(0x03);
    }

    // bit 1: all_processes_cpu = byte array [0xAA]
    data.push(0x01);
    data.push(0xAA);

    for _ in 0..3 {
        data.push(0x03);
    }

    // bit 2: total_system_memory = 8192 -> zigzag 16384
    data.push(0x80);
    data.push(0x80);
    data.push(0x01);

    for _ in 0..4 {
        data.push(0x03);
    }

    // bit 3: processes = list of 1 process
    data.push(0x01);
    // Process flags: only name present (bit 1 clear, bits 0,2,3 set) -> 0x0D
    data.push(0x0D);
    data.push(0x08); // name = "java" (4 chars) -> zigzag(4) = 8
    for &ch in b"java" {
        data.push(ch);
    }

    for _ in 0..2 {
        data.push(0x07);
    }

    let decoder = ResourceUsageDecoder;
    let result = decoder.decode(&data).unwrap();
    if let DecodedEvent::ResourceUsage(e) = result {
        assert_eq!(e.timestamps.len(), 1);
        assert_eq!(e.timestamps[0], vec![0x01, 0x02]);
        assert_eq!(e.all_processes_cpu, Some(vec![0xAA]));
        assert_eq!(e.total_system_memory, Some(8192));
        assert_eq!(e.processes.len(), 1);
        assert_eq!(e.processes[0].name, Some("java".to_string()));
        assert_eq!(e.processes[0].id, None);
        assert_eq!(e.processes[0].display_name, None);
        assert_eq!(e.processes[0].process_type, None);
    } else {
        panic!("expected ResourceUsage");
    }
}

#[test]
fn test_decode_normalized_samples_both_present() {
    // flags = 0b00 -> both present
    let mut data = vec![0x00u8];
    data.push(0x02); // samples = [0xAA, 0xBB]
    data.push(0xAA);
    data.push(0xBB);
    data.push(0x54); // max = 42 -> zigzag 84

    let mut pos = 0;
    let result = decode_normalized_samples(&data, &mut pos).unwrap();
    assert_eq!(result.samples, Some(vec![0xAA, 0xBB]));
    assert_eq!(result.max, Some(42));
    assert_eq!(pos, 5);
}

#[test]
fn test_decode_indexed_normalized_samples_all_present() {
    // flags = 0b000 -> all present
    let mut data = vec![0x00u8];
    data.push(0x01); // indices: outer len=1
    data.push(0x02); // inner len=2
    data.push(0x0A); // 10
    data.push(0x14); // 20
    data.push(0x01); // samples: outer len=1
    data.push(0x02); // byte array len=2
    data.push(0xAA);
    data.push(0xBB);
    data.push(0xC6); // max = 99 -> zigzag 198
    data.push(0x01);

    let mut pos = 0;
    let result = decode_indexed_normalized_samples(&data, &mut pos).unwrap();
    assert_eq!(result.indices, vec![vec![10, 20]]);
    assert_eq!(result.samples, vec![vec![0xAA, 0xBB]]);
    assert_eq!(result.max, Some(99));
}

#[test]
fn test_decode_process_all_present() {
    // flags = 0b0000 -> all 4 fields present
    let mut data = vec![0x00u8];
    data.push(0x0A); // id = 5 -> zigzag 10
    data.push(0x06); // name = "foo" -> zigzag(3)=6
    data.push(0x66);
    data.push(0x6f);
    data.push(0x6f);
    data.push(0x01); // display_name = back-ref to "foo"
    data.push(0x02); // process_type = ordinal 2

    let mut pos = 0;
    let mut table = StringInternTable::new();
    let result = decode_process(&data, &mut pos, &mut table).unwrap();
    assert_eq!(result.id, Some(5));
    assert_eq!(result.name, Some("foo".to_string()));
    assert_eq!(result.display_name, Some("foo".to_string()));
    assert_eq!(result.process_type, Some(2));
}

#[test]
fn test_decode_process_all_absent() {
    // flags = 0b1111 -> all 4 fields absent
    let data = vec![0x0Fu8];
    let mut pos = 0;
    let mut table = StringInternTable::new();
    let result = decode_process(&data, &mut pos, &mut table).unwrap();
    assert_eq!(result.id, None);
    assert_eq!(result.name, None);
    assert_eq!(result.display_name, None);
    assert_eq!(result.process_type, None);
}

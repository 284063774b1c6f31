use build_scan::events::{
    BuildAgentDecoder, BuildFinishedDecoder, BuildModesDecoder, BuildRequestedTasksDecoder,
    BuildStartedDecoder, DaemonStateDecoder, DecodedEvent, EncodingDecoder, FileRefRootsDecoder,
    HardwareDecoder, JavaToolchainUsageDecoder, JvmArgsDecoder, JvmDecoder, LocalityDecoder,
    OsDecoder, ScopeIdsDecoder,
};

fn encode_zigzag_i64(n: i64) -> Vec<u8> {
    build_scan::kryo::encode_zigzag_i64(n)
}

#[test]
fn build_agent_test_decode_all_present() {
    let mut data = vec![0x00]; // all 4 bits present
    // username: "user1" -> zigzag(5)=10
    data.push(0x0A);
    data.extend_from_slice(b"user1");
    // local_hostname: "host" -> zigzag(4)=8
    data.push(0x08);
    data.extend_from_slice(b"host");
    // public_hostname: "pub" -> zigzag(3)=6
    data.push(0x06);
    data.extend_from_slice(b"pub");
    // ip_addresses: ["1.2.3.4"]
    data.push(0x01); // 1 element
    data.push(0x0E); // zigzag(7)=14
    data.extend_from_slice(b"1.2.3.4");

    let decoder = BuildAgentDecoder;
    let result = decoder.decode(&data).unwrap();
    if let DecodedEvent::BuildAgent(e) = result {
        assert_eq!(e.username, Some("user1".into()));
        assert_eq!(e.local_hostname, Some("host".into()));
        assert_eq!(e.public_hostname, Some("pub".into()));
        assert_eq!(e.ip_addresses, vec!["1.2.3.4"]);
    } else {
        panic!("expected BuildAgent");
    }
}

#[test]
fn test_decode_with_tasks() {
    let mut data = vec![0x00]; // both bits present
    // requested: ["build"]
    data.push(0x01); // list len = 1
    data.push(0x0A); // zigzag(5) = 10
    data.extend_from_slice(b"build");
    // excluded: []
    data.push(0x00); // list len = 0

    let decoder = BuildRequestedTasksDecoder;
    let result = decoder.decode(&data).unwrap();
    if let DecodedEvent::BuildRequestedTasks(e) = result {
        assert_eq!(e.requested, vec!["build"]);
        assert!(e.excluded.is_empty());
    } else {
        panic!("expected BuildRequestedTasks");
    }
}

#[test]
fn test_decode_empty_body() {
    let decoder = BuildStartedDecoder;
    let result = decoder.decode(&[]).unwrap();
    assert!(matches!(result, DecodedEvent::BuildStarted));
}

#[test]
fn test_decode_no_failure() {
    let data = [0x01]; // bit 0 absent -> no failure
    let decoder = BuildFinishedDecoder;
    let result = decoder.decode(&data).unwrap();
    if let DecodedEvent::BuildFinished(e) = result {
        assert_eq!(e.failure_id, None);
    } else {
        panic!("expected BuildFinished");
    }
}

#[test]
fn test_decode_with_failure() {
    let data = [0x00, 0x14]; // bit 0 present, zigzag(10) = 20
    let decoder = BuildFinishedDecoder;
    let result = decoder.decode(&data).unwrap();
    if let DecodedEvent::BuildFinished(e) = result {
        assert_eq!(e.failure_id, Some(10));
    } else {
        panic!("expected BuildFinished");
    }
}

#[test]
fn test_decode_daemon_only_with_workers() {
    // bit 6 (daemon) = 0 (present/true), bit 9 (max_workers) = 0 (present)
    // All other bits = 1 (absent/false); flags = 0b0000_0001_1011_1111 = 0x01BF
    let mut data = vec![0x01, 0xBF];
    data.push(0x04); // max_workers = 4

    let decoder = BuildModesDecoder;
    let result = decoder.decode(&data).unwrap();
    if let DecodedEvent::BuildModes(e) = result {
        assert!(!e.refresh_dependencies);
        assert!(!e.parallel_project_execution);
        assert!(e.daemon);
        assert!(!e.offline);
        assert_eq!(e.max_workers, Some(4));
    } else {
        panic!("expected BuildModes");
    }
}

#[test]
fn test_decode_all_false_no_workers() {
    // All bits set -> all false/absent; flags = 0x03FF (10 bits all 1)
    let data = [0x03, 0xFF];
    let decoder = BuildModesDecoder;
    let result = decoder.decode(&data).unwrap();
    if let DecodedEvent::BuildModes(e) = result {
        assert!(!e.refresh_dependencies);
        assert!(!e.daemon);
        assert_eq!(e.max_workers, None);
    } else {
        panic!("expected BuildModes");
    }
}

#[test]
fn daemon_state_test_decode_all_present() {
    let mut data = vec![0x00]; // all 5 bits present
    data.push(0x64); // start_time = 100 (unsigned varint)
    data.push(0x03); // build_number = 3
    data.push(0x01); // running_daemons = 1
    data.push(0x80); // idle_timeout = 10800000
    data.push(0x97);
    data.push(0x93);
    data.push(0x05);
    // single_use: bit IS the value, no payload

    let decoder = DaemonStateDecoder;
    let result = decoder.decode(&data).unwrap();
    if let DecodedEvent::DaemonState(e) = result {
        assert_eq!(e.start_time, Some(100));
        assert_eq!(e.build_number, Some(3));
        assert_eq!(e.number_of_running_daemons, Some(1));
        assert_eq!(e.idle_timeout, Some(10800000));
        assert_eq!(e.single_use, Some(true));
    } else {
        panic!("expected DaemonState");
    }
}

#[test]
fn daemon_state_test_decode_all_absent() {
    let data = [0x1F]; // all 5 bits set -> absent
    let decoder = DaemonStateDecoder;
    let result = decoder.decode(&data).unwrap();
    if let DecodedEvent::DaemonState(e) = result {
        assert_eq!(e.start_time, None);
        assert_eq!(e.build_number, None);
        assert_eq!(e.number_of_running_daemons, None);
        assert_eq!(e.idle_timeout, None);
        assert_eq!(e.single_use, None);
    } else {
        panic!("expected DaemonState");
    }
}

#[test]
fn test_decode_utf8() {
    // "UTF-8" -> zigzag(5)=10, then chars
    let mut data = vec![0x0A];
    for &c in b"UTF-8" {
        data.push(c);
    }
    let decoder = EncodingDecoder;
    let result = decoder.decode(&data).unwrap();
    if let DecodedEvent::Encoding(e) = result {
        assert_eq!(e.default_charset, "UTF-8");
    } else {
        panic!("expected Encoding");
    }
}

#[test]
fn test_decode_two_entries() {
    let mut data = vec![0x02]; // 2 entries
    // Entry 1: type=0, path="/home/user/project"
    data.push(0x00); // enum ordinal 0
    let path1 = "/home/user/project";
    data.push((path1.len() as u8) * 2); // zigzag(len)
    data.extend_from_slice(path1.as_bytes());
    // Entry 2: type=1, path="/home/user/.gradle"
    data.push(0x01); // enum ordinal 1
    let path2 = "/home/user/.gradle";
    data.push((path2.len() as u8) * 2);
    data.extend_from_slice(path2.as_bytes());

    let decoder = FileRefRootsDecoder;
    let result = decoder.decode(&data).unwrap();
    if let DecodedEvent::FileRefRoots(e) = result {
        assert_eq!(e.entries.len(), 2);
        assert_eq!(e.entries[0].root_type, 0);
        assert_eq!(e.entries[0].path, "/home/user/project");
        assert_eq!(e.entries[1].root_type, 1);
        assert_eq!(e.entries[1].path, "/home/user/.gradle");
    } else {
        panic!("expected FileRefRoots");
    }
}

#[test]
fn file_ref_roots_test_decode_empty() {
    let data = [0x00]; // 0 entries
    let decoder = FileRefRootsDecoder;
    let result = decoder.decode(&data).unwrap();
    if let DecodedEvent::FileRefRoots(e) = result {
        assert!(e.entries.is_empty());
    } else {
        panic!("expected FileRefRoots");
    }
}

#[test]
fn test_decode_num_processors() {
    let data = [0x08]; // unsigned varint 8
    let decoder = HardwareDecoder;
    let result = decoder.decode(&data).unwrap();
    if let DecodedEvent::Hardware(e) = result {
        assert_eq!(e.num_processors, 8);
    } else {
        panic!("expected Hardware");
    }
}

#[test]
fn java_toolchain_usage_test_decode_all_present() {
    // flags = 0x00: all three bits present
    let mut data = vec![0x00];
    data.extend_from_slice(&encode_zigzag_i64(42)); // task_id = 42
    data.extend_from_slice(&encode_zigzag_i64(7)); // toolchain_id = 7
    // tool_name = "javac" -> zigzag(5)=10, then chars
    data.push(0x0A);
    for &c in b"javac" {
        data.push(c);
    }

    let decoder = JavaToolchainUsageDecoder;
    let result = decoder.decode(&data).unwrap();
    if let DecodedEvent::JavaToolchainUsage(e) = result {
        assert_eq!(e.task_id, 42);
        assert_eq!(e.toolchain_id, 7);
        assert_eq!(e.tool_name, "javac");
    } else {
        panic!("expected JavaToolchainUsage");
    }
}

#[test]
fn java_toolchain_usage_test_decode_all_absent() {
    // flags = 0x07: all three bits set = all absent
    let data = vec![0x07];
    let decoder = JavaToolchainUsageDecoder;
    let result = decoder.decode(&data).unwrap();
    if let DecodedEvent::JavaToolchainUsage(e) = result {
        assert_eq!(e.task_id, 0);
        assert_eq!(e.toolchain_id, 0);
        assert_eq!(e.tool_name, "");
    } else {
        panic!("expected JavaToolchainUsage");
    }
}

#[test]
fn jvm_test_decode_all_absent() {
    // flags = 0x01FF: all 9 bits set -> all absent
    let data = [0x01, 0xFF];
    let decoder = JvmDecoder;
    let result = decoder.decode(&data).unwrap();
    if let DecodedEvent::Jvm(e) = result {
        assert!(e.version.is_none());
        assert!(e.vendor.is_none());
        assert!(e.vm_vendor.is_none());
    } else {
        panic!("expected Jvm");
    }
}

#[test]
fn test_decode_version_only() {
    // Only bit 0 present (=0), bits 1-8 absent (=1)
    // flags = 0b0000_0001_1111_1110 = 0x01FE
    let mut data = vec![0x01, 0xFE];
    // version: "21" -> zigzag(2)=4
    data.push(0x04);
    data.extend_from_slice(b"21");

    let decoder = JvmDecoder;
    let result = decoder.decode(&data).unwrap();
    if let DecodedEvent::Jvm(e) = result {
        assert_eq!(e.version, Some("21".into()));
        assert!(e.vendor.is_none());
    } else {
        panic!("expected Jvm");
    }
}

#[test]
fn test_decode_two_args() {
    let mut data = vec![0x02]; // 2 elements
    // "-Xmx512m" -> zigzag(8)=16
    data.push(0x10);
    data.extend_from_slice(b"-Xmx512m");
    // "-Xms256m" -> zigzag(8)=16
    data.push(0x10);
    data.extend_from_slice(b"-Xms256m");

    let decoder = JvmArgsDecoder;
    let result = decoder.decode(&data).unwrap();
    if let DecodedEvent::JvmArgs(e) = result {
        assert_eq!(e.effective, vec!["-Xmx512m", "-Xms256m"]);
    } else {
        panic!("expected JvmArgs");
    }
}

#[test]
fn jvm_args_test_decode_empty() {
    let data = [0x00]; // 0 elements
    let decoder = JvmArgsDecoder;
    let result = decoder.decode(&data).unwrap();
    if let DecodedEvent::JvmArgs(e) = result {
        assert!(e.effective.is_empty());
    } else {
        panic!("expected JvmArgs");
    }
}

#[test]
fn locality_test_decode_all_present() {
    let mut data = vec![0x00]; // all 5 bits present
    // "en" -> zigzag(2)=4
    data.push(0x04);
    data.extend_from_slice(b"en");
    // "US" -> zigzag(2)=4
    data.push(0x04);
    data.extend_from_slice(b"US");
    // "" -> zigzag(0)=0
    data.push(0x00);
    // "America/New_York" -> zigzag(16)=32
    data.push(0x20);
    data.extend_from_slice(b"America/New_York");
    // offset: read as positive varint; 0 keeps the case simple
    data.push(0x00);

    let decoder = LocalityDecoder;
    let result = decoder.decode(&data).unwrap();
    if let DecodedEvent::Locality(e) = result {
        assert_eq!(e.locale_language, Some("en".into()));
        assert_eq!(e.locale_country, Some("US".into()));
        assert_eq!(e.locale_variant, Some("".into()));
        assert_eq!(e.time_zone_id, Some("America/New_York".into()));
        assert_eq!(e.time_zone_offset_millis, Some(0));
    } else {
        panic!("expected Locality");
    }
}

#[test]
fn os_test_decode_all_present() {
    let mut data = vec![0x00]; // all 4 bits present
    for s in &["linux", "Linux", "6.1.0", "amd64"] {
        let len = s.len();
        data.push((len as u8) * 2); // zigzag(len) = len*2
        data.extend_from_slice(s.as_bytes());
    }

    let decoder = OsDecoder;
    let result = decoder.decode(&data).unwrap();
    if let DecodedEvent::Os(e) = result {
        assert_eq!(e.family, Some("linux".into()));
        assert_eq!(e.name, Some("Linux".into()));
        assert_eq!(e.version, Some("6.1.0".into()));
        assert_eq!(e.arch, Some("amd64".into()));
    } else {
        panic!("expected Os");
    }
}

#[test]
fn scope_ids_test_decode_all_present() {
    let mut data = vec![0x00]; // all 3 bits present
    // "abc" -> zigzag(3)=6
    data.push(0x06);
    data.extend_from_slice(b"abc");
    // "def" -> zigzag(3)=6
    data.push(0x06);
    data.extend_from_slice(b"def");
    // "ghi" -> zigzag(3)=6
    data.push(0x06);
    data.extend_from_slice(b"ghi");

    let decoder = ScopeIdsDecoder;
    let result = decoder.decode(&data).unwrap();
    if let DecodedEvent::ScopeIds(e) = result {
        assert_eq!(e.build_invocation_id, Some("abc".into()));
        assert_eq!(e.workspace_id, Some("def".into()));
        assert_eq!(e.user_id, Some("ghi".into()));
    } else {
        panic!("expected ScopeIds");
    }
}

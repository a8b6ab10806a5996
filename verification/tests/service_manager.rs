use windows_service::error::{EnumKind, FieldName, ServiceError};
use windows_service::service::RawServiceStatusProcess;
use windows_service::service_manager::{
    collect_service_details, config_fetch_decision, detail_from_entry, probe_decision,
    ConfigQueryOutcome, EnumServiceEntry, ProbeDecision, RawServiceConfig,
};

#[test]
fn probe_zero_bytes_needed_means_no_services() {
    // The probe failed with the more-data signal but reported nothing to
    // fetch: an empty list, not an error.
    assert_eq!(probe_decision(false, 234, 0), ProbeDecision::NoServices);
}

#[test]
fn probe_more_data_fills_exactly_the_reported_bytes() {
    assert_eq!(probe_decision(false, 234, 4096), ProbeDecision::Fill(4096));
}

#[test]
fn probe_success_means_no_services() {
    assert_eq!(probe_decision(true, 0, 0), ProbeDecision::NoServices);
}

#[test]
fn probe_real_error_propagates() {
    assert_eq!(probe_decision(false, 5, 0), ProbeDecision::Fail(5));
    assert_eq!(probe_decision(false, 6, 512), ProbeDecision::Fail(6));
}

#[test]
fn config_probe_decides_fetch_only_on_positive_size() {
    assert!(config_fetch_decision(1));
    assert!(config_fetch_decision(4096));
    assert!(!config_fetch_decision(0));
}

fn running_status(process_id: u32) -> RawServiceStatusProcess {
    RawServiceStatusProcess {
        service_type: 0x10,
        current_state: 4,
        controls_accepted: 0x1,
        win32_exit_code: 0,
        service_specific_exit_code: 0,
        checkpoint: 0,
        wait_hint: 0,
        process_id,
        service_flags: 0,
    }
}

fn entry(name: &str, process_id: u32) -> EnumServiceEntry {
    EnumServiceEntry {
        name: name.to_string(),
        display_name: format!("{} display", name),
        status: running_status(process_id),
    }
}

fn config(binary_path: &str) -> RawServiceConfig {
    RawServiceConfig {
        service_type: 0x10,
        start_type: 2,
        error_control: 1,
        binary_path: binary_path.to_string(),
        load_order_group: String::new(),
        tag_id: 0,
        dependencies: String::new(),
        start_name: "LocalSystem".to_string(),
        display_name: String::new(),
    }
}

#[test]
fn one_failed_query_degrades_exactly_that_record() {
    let entries = vec![entry("alpha", 10), entry("beta", 20), entry("gamma", 30)];
    let outcomes = vec![
        ConfigQueryOutcome::Fetched(config("C:\\alpha.exe")),
        ConfigQueryOutcome::Failed("Error when retrieving info for service 5".to_string()),
        ConfigQueryOutcome::Fetched(config("C:\\gamma.exe")),
    ];
    let details = collect_service_details(&entries, &outcomes).unwrap();
    assert_eq!(details.len(), 3);

    assert_eq!(details[0].name, "alpha");
    assert_eq!(details[0].binary_path.as_deref(), Some("C:\\alpha.exe"));
    assert!(details[0].start_type.is_some());
    assert!(details[0].error_control.is_some());
    assert!(details[0].load_order_group.is_some());
    assert!(details[0].tag_id.is_some());
    assert!(details[0].dependencies.is_some());
    assert!(details[0].start_name.is_some());

    assert_eq!(details[1].name, "beta");
    assert_eq!(
        details[1].binary_path.as_deref(),
        Some("Error when retrieving info for service 5")
    );
    assert!(details[1].start_type.is_none());
    assert!(details[1].error_control.is_none());
    assert!(details[1].load_order_group.is_none());
    assert!(details[1].tag_id.is_none());
    assert!(details[1].dependencies.is_none());
    assert!(details[1].start_name.is_none());

    assert_eq!(details[2].name, "gamma");
    assert_eq!(details[2].binary_path.as_deref(), Some("C:\\gamma.exe"));
    assert!(details[2].start_type.is_some());
}

#[test]
fn empty_enumeration_collects_to_an_empty_list() {
    let details = collect_service_details(&Vec::new(), &Vec::new()).unwrap();
    assert!(details.is_empty());
}

#[test]
fn detail_carries_status_and_names() {
    let d = detail_from_entry(
        entry("svc", 99),
        ConfigQueryOutcome::Fetched(config("C:\\svc.exe")),
    )
    .unwrap();
    assert_eq!(d.name, "svc");
    assert_eq!(d.display_name, "svc display");
    assert_eq!(d.status.process_id, 99);
    assert_eq!(d.tag_id, Some(0));
    assert_eq!(d.start_name.as_deref(), Some("LocalSystem"));
}

#[test]
fn unknown_start_type_in_config_aborts_with_that_error() {
    let mut bad = config("C:\\svc.exe");
    bad.start_type = 9;
    let r = detail_from_entry(entry("svc", 1), ConfigQueryOutcome::Fetched(bad));
    assert!(matches!(
        r,
        Err(ServiceError::InvalidEnumValue(EnumKind::StartType, 9))
    ));
}

#[test]
fn unknown_state_in_entry_aborts_the_collection() {
    let mut e = entry("svc", 1);
    e.status.current_state = 42;
    let entries = vec![entry("ok", 2), e];
    let outcomes = vec![
        ConfigQueryOutcome::Fetched(config("C:\\a.exe")),
        ConfigQueryOutcome::Fetched(config("C:\\b.exe")),
    ];
    let r = collect_service_details(&entries, &outcomes);
    assert!(matches!(
        r,
        Err(ServiceError::InvalidEnumValue(EnumKind::State, 42))
    ));
}

#[test]
fn field_errors_name_the_field() {
    // A diagnostic sanity check on the error taxonomy used above.
    let e = ServiceError::InvalidField(FieldName::ServiceName);
    assert_ne!(e, ServiceError::InvalidField(FieldName::DisplayName));
}

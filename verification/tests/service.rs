use windows_service::codes::{
    ERROR_SERVICE_SPECIFIC_ERROR, NO_ERROR, SERVICE_ACCEPT_PAUSE_CONTINUE, SERVICE_ACCEPT_STOP,
};
use windows_service::error::{EnumKind, ServiceError};
use windows_service::service::{
    EnumListServiceResult, MilliDuration, RawServiceStatus, RawServiceStatusProcess,
    ServiceControl, ServiceControlAccept, ServiceErrorControl, ServiceExitCode, ServiceStartType,
    ServiceState, ServiceStatus, ServiceStatusExt, ServiceType,
};

fn known_service_type_codes() -> Vec<(u32, ServiceType)> {
    vec![
        (0x2, ServiceType::FileSystemDriver),
        (0x1, ServiceType::KernelDriver),
        (0x4, ServiceType::Adapter),
        (0x8, ServiceType::RecognizerDriver),
        (0x10, ServiceType::OwnProcess),
        (0x20, ServiceType::Win32ShareProcess),
        (0x40, ServiceType::UserService),
        (0x80, ServiceType::UserServiceInstance),
        (0x100, ServiceType::InteractiveProcess),
        (0x200, ServiceType::PkgService),
    ]
}

#[test]
fn service_type_known_codes_round_trip() {
    for (code, expected) in known_service_type_codes() {
        let decoded = ServiceType::from_raw(code).unwrap();
        assert_eq!(decoded, expected);
        assert_eq!(decoded.to_raw(), code);
    }
}

#[test]
fn service_type_unknown_code_is_sentinel_not_error() {
    for code in [0u32, 3, 5, 0x400, 288, 0xFFFF_FFFF] {
        let decoded = ServiceType::from_raw(code).unwrap();
        assert_eq!(decoded, ServiceType::InvalidServiceType);
    }
}

#[test]
fn start_type_known_codes_round_trip() {
    let cases = vec![
        (0u32, ServiceStartType::BootStart),
        (1, ServiceStartType::SystemStart),
        (2, ServiceStartType::AutoStart),
        (3, ServiceStartType::OnDemand),
        (4, ServiceStartType::Disabled),
    ];
    for (code, expected) in cases {
        let decoded = ServiceStartType::from_raw(code).unwrap();
        assert_eq!(decoded, expected);
        assert_eq!(decoded.to_raw(), code);
    }
}

#[test]
fn start_type_unknown_code_is_error() {
    assert_eq!(
        ServiceStartType::from_raw(5),
        Err(ServiceError::InvalidEnumValue(EnumKind::StartType, 5))
    );
    assert_eq!(
        ServiceStartType::from_raw(0xFFFF_FFFF),
        Err(ServiceError::InvalidEnumValue(EnumKind::StartType, 0xFFFF_FFFF))
    );
}

#[test]
fn error_control_known_codes_round_trip() {
    let cases = vec![
        (0u32, ServiceErrorControl::Ignore),
        (1, ServiceErrorControl::Normal),
        (2, ServiceErrorControl::Severe),
        (3, ServiceErrorControl::Critical),
    ];
    for (code, expected) in cases {
        let decoded = ServiceErrorControl::from_raw(code).unwrap();
        assert_eq!(decoded, expected);
        assert_eq!(decoded.to_raw(), code);
    }
}

#[test]
fn error_control_unknown_code_is_error() {
    assert_eq!(
        ServiceErrorControl::from_raw(4),
        Err(ServiceError::InvalidEnumValue(EnumKind::ErrorControl, 4))
    );
}

#[test]
fn state_known_codes_round_trip() {
    let cases = vec![
        (1u32, ServiceState::Stopped),
        (2, ServiceState::StartPending),
        (3, ServiceState::StopPending),
        (4, ServiceState::Running),
        (5, ServiceState::ContinuePending),
        (6, ServiceState::PausePending),
        (7, ServiceState::Paused),
    ];
    for (code, expected) in cases {
        let decoded = ServiceState::from_raw(code).unwrap();
        assert_eq!(decoded, expected);
        assert_eq!(decoded.to_raw(), code);
    }
}

#[test]
fn state_unknown_code_is_error() {
    assert_eq!(
        ServiceState::from_raw(0),
        Err(ServiceError::InvalidEnumValue(EnumKind::State, 0))
    );
    assert_eq!(
        ServiceState::from_raw(8),
        Err(ServiceError::InvalidEnumValue(EnumKind::State, 8))
    );
}

#[test]
fn control_codes_round_trip() {
    let cases = vec![
        (1u32, ServiceControl::Stop),
        (2, ServiceControl::Pause),
        (3, ServiceControl::Continue),
        (4, ServiceControl::Interrogate),
        (5, ServiceControl::Shutdown),
        (6, ServiceControl::ParamChange),
        (7, ServiceControl::NetBindAdd),
        (8, ServiceControl::NetBindRemove),
        (9, ServiceControl::NetBindEnable),
        (10, ServiceControl::NetBindDisable),
        (0xF, ServiceControl::Preshutdown),
    ];
    for (code, expected) in cases {
        let decoded = ServiceControl::from_raw(code).unwrap();
        assert_eq!(decoded, expected);
        assert_eq!(decoded.to_raw(), code);
    }
    assert_eq!(
        ServiceControl::from_raw(11),
        Err(ServiceError::InvalidEnumValue(EnumKind::Control, 11))
    );
}

fn zeroed_raw_status() -> RawServiceStatus {
    RawServiceStatus {
        service_type: 0,
        current_state: 0,
        controls_accepted: 0,
        win32_exit_code: 0,
        service_specific_exit_code: 0,
        checkpoint: 0,
        wait_hint: 0,
    }
}

#[test]
fn exit_code_service_specific_round_trips() {
    let mut raw = zeroed_raw_status();
    ServiceExitCode::ServiceSpecific(7).copy_to(&mut raw);
    assert_eq!(raw.win32_exit_code, ERROR_SERVICE_SPECIFIC_ERROR);
    assert_eq!(raw.service_specific_exit_code, 7);
    assert_eq!(
        ServiceExitCode::from_status(&raw),
        ServiceExitCode::ServiceSpecific(7)
    );
}

#[test]
fn exit_code_win32_round_trips_off_sentinel() {
    let mut raw = zeroed_raw_status();
    ServiceExitCode::Win32(5).copy_to(&mut raw);
    assert_eq!(raw.win32_exit_code, 5);
    assert_eq!(raw.service_specific_exit_code, 0);
    assert_eq!(ServiceExitCode::from_status(&raw), ServiceExitCode::Win32(5));
}

#[test]
fn exit_code_sentinel_decodes_as_service_specific() {
    let mut raw = zeroed_raw_status();
    raw.win32_exit_code = ERROR_SERVICE_SPECIFIC_ERROR;
    raw.service_specific_exit_code = 0;
    assert_eq!(
        ServiceExitCode::from_status(&raw),
        ServiceExitCode::ServiceSpecific(0)
    );
}

#[test]
fn exit_code_default_is_success() {
    assert_eq!(ServiceExitCode::default(), ServiceExitCode::Win32(NO_ERROR));
}

#[test]
fn control_accept_truncates_unknown_bits() {
    let flags = ServiceControlAccept::from_bits_truncate(0xFFFF_FFFF);
    assert_eq!(flags.bits(), 0x11F);
    let flags = ServiceControlAccept::from_bits_truncate(0x1 | 0x2 | 0x2000);
    assert_eq!(flags.bits(), 0x3);
    assert!(flags.contains(ServiceControlAccept::from_bits_truncate(SERVICE_ACCEPT_STOP)));
    assert!(flags.contains(ServiceControlAccept::from_bits_truncate(
        SERVICE_ACCEPT_PAUSE_CONTINUE
    )));
}

fn sample_status(checkpoint: u32, wait_hint_millis: u64) -> ServiceStatus {
    ServiceStatus {
        service_type: ServiceType::OwnProcess,
        current_state: ServiceState::StartPending,
        controls_accepted: ServiceControlAccept::from_bits_truncate(SERVICE_ACCEPT_STOP),
        exit_code: ServiceExitCode::Win32(0),
        checkpoint,
        wait_hint: MilliDuration::from_millis(wait_hint_millis),
    }
}

#[test]
fn status_checkpoint_and_whole_second_wait_hint_round_trip() {
    let status = sample_status(42, 3000);
    let raw = status.to_raw();
    assert_eq!(raw.checkpoint, 42);
    assert_eq!(raw.wait_hint, 3000);
    let decoded = ServiceStatus::from_raw(raw).unwrap();
    assert_eq!(decoded.checkpoint, 42);
    assert_eq!(decoded.wait_hint.as_millis(), 3000);
    assert_eq!(decoded, status);
}

#[test]
fn status_wait_hint_sub_second_part_is_lost_outbound() {
    // The wire hint is derived from whole seconds, so the sub-second part
    // of a finer-grained hint does not survive the outbound path.
    let status = sample_status(1, 1500);
    let raw = status.to_raw();
    assert_eq!(raw.wait_hint, 1000);
    let decoded = ServiceStatus::from_raw(raw).unwrap();
    assert_eq!(decoded.wait_hint.as_millis(), 1000);
}

#[test]
fn status_decode_rejects_unknown_state_only() {
    let mut raw = zeroed_raw_status();
    raw.service_type = 0x9999; // unknown type decodes to the sentinel
    raw.current_state = 4;
    let decoded = ServiceStatus::from_raw(raw).unwrap();
    assert_eq!(decoded.service_type, ServiceType::InvalidServiceType);
    assert_eq!(decoded.current_state, ServiceState::Running);

    raw.current_state = 99;
    assert_eq!(
        ServiceStatus::from_raw(raw),
        Err(ServiceError::InvalidEnumValue(EnumKind::State, 99))
    );
}

#[test]
fn status_ext_carries_process_detail() {
    let raw = RawServiceStatusProcess {
        service_type: 0x10,
        current_state: 4,
        controls_accepted: 0x1,
        win32_exit_code: 0,
        service_specific_exit_code: 0,
        checkpoint: 0,
        wait_hint: 0,
        process_id: 1234,
        service_flags: 1,
    };
    let ext = ServiceStatusExt::from_raw(raw).unwrap();
    assert_eq!(ext.process_id, 1234);
    assert_eq!(ext.service_flags, 1);
    assert_eq!(ext.status.service_type, ServiceType::OwnProcess);
    assert_eq!(ext.status.current_state, ServiceState::Running);
}

fn push_le_u64(buffer: &mut Vec<u8>, value: u64) {
    let mut v = value;
    for _ in 0..8 {
        buffer.push((v & 0xFF) as u8);
        v >>= 8;
    }
}

fn push_le_u32(buffer: &mut Vec<u8>, value: u32) {
    let mut v = value;
    for _ in 0..4 {
        buffer.push((v & 0xFF) as u8);
        v >>= 8;
    }
}

fn push_record(buffer: &mut Vec<u8>, name_ref: u64, display_name_ref: u64, fields: [u32; 9]) {
    push_le_u64(buffer, name_ref);
    push_le_u64(buffer, display_name_ref);
    for f in fields {
        push_le_u32(buffer, f);
    }
    push_le_u32(buffer, 0); // trailing alignment padding
}

#[test]
fn enum_list_decodes_records_by_offset() {
    let mut buffer: Vec<u8> = Vec::new();
    push_record(
        &mut buffer,
        0x1000,
        0x2000,
        [0x10, 4, 0x1, 0, 0, 0, 0, 77, 1],
    );
    push_record(
        &mut buffer,
        0x3000,
        0x4000,
        [0x1, 1, 0, 1066, 9, 2, 5000, 0, 0],
    );
    let mut result = EnumListServiceResult::from_raw(buffer, 2);
    let first = result.next().unwrap();
    assert_eq!(first.name_ref, 0x1000);
    assert_eq!(first.display_name_ref, 0x2000);
    assert_eq!(first.status.service_type, 0x10);
    assert_eq!(first.status.current_state, 4);
    assert_eq!(first.status.controls_accepted, 0x1);
    assert_eq!(first.status.process_id, 77);
    assert_eq!(first.status.service_flags, 1);
    let second = result.next().unwrap();
    assert_eq!(second.name_ref, 0x3000);
    assert_eq!(second.status.win32_exit_code, 1066);
    assert_eq!(second.status.service_specific_exit_code, 9);
    assert_eq!(second.status.checkpoint, 2);
    assert_eq!(second.status.wait_hint, 5000);
    assert!(result.next().is_none());
}

#[test]
fn enum_list_never_reads_past_the_buffer() {
    let mut buffer: Vec<u8> = Vec::new();
    push_record(&mut buffer, 1, 2, [0x10, 4, 0, 0, 0, 0, 0, 0, 0]);
    // Ten more bytes: not enough for a whole second record.
    for _ in 0..10 {
        buffer.push(0xAB);
    }
    // The reported count overstates what the buffer holds.
    let records = EnumListServiceResult::from_raw(buffer, 3).into_records();
    assert_eq!(records.len(), 1);
    assert_eq!(records[0].name_ref, 1);
}

#[test]
fn enum_list_honors_the_reported_count_in_a_larger_buffer() {
    let mut buffer: Vec<u8> = Vec::new();
    push_record(&mut buffer, 1, 2, [0x10, 4, 0, 0, 0, 0, 0, 0, 0]);
    push_record(&mut buffer, 3, 4, [0x20, 1, 0, 0, 0, 0, 0, 0, 0]);
    // Only one record was reported, so only one is exposed.
    let records = EnumListServiceResult::from_raw(buffer, 1).into_records();
    assert_eq!(records.len(), 1);
    assert_eq!(records[0].name_ref, 1);
}

#[test]
fn enum_list_zero_count_is_empty() {
    let records = EnumListServiceResult::from_raw(Vec::new(), 0).into_records();
    assert!(records.is_empty());
}

#[test]
fn milli_duration_accessors() {
    let d = MilliDuration::from_millis(2500);
    assert_eq!(d.as_millis(), 2500);
    assert_eq!(d.as_secs(), 2);
}

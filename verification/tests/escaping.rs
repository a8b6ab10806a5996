use windows_service::error::{FieldName, ServiceError};
use windows_service::service::{ServiceErrorControl, ServiceInfo, ServiceStartType, ServiceType};
use windows_service::service_manager::{
    connect_request, create_service_request, launch_command, open_service_request, to_wide,
};

fn utf16(s: &str) -> Vec<u16> {
    s.encode_utf16().collect()
}

#[test]
fn escaped_tokens_round_trip_as_written() {
    // A path with a space and an argument with a double quote: each token
    // is quoted so a command-line parser recovers it as written.
    let cmd = launch_command(
        ServiceType::OwnProcess,
        &"C:\\my folder\\svc.exe".to_string(),
        &vec!["say \"hi\"".to_string()],
    )
    .unwrap();
    assert_eq!(cmd, "\"C:\\my folder\\svc.exe\" \"say \\\"hi\\\"\"");
}

#[test]
fn plain_tokens_pass_through_unquoted() {
    let cmd = launch_command(
        ServiceType::OwnProcess,
        &"C:\\plain\\svc.exe".to_string(),
        &vec!["--level=3".to_string(), "--quiet".to_string()],
    )
    .unwrap();
    assert_eq!(cmd, "C:\\plain\\svc.exe --level=3 --quiet");
}

#[test]
fn trailing_backslashes_are_doubled_inside_quotes() {
    let cmd = launch_command(
        ServiceType::OwnProcess,
        &"\\path\\to\\my documents\\".to_string(),
        &Vec::new(),
    )
    .unwrap();
    assert_eq!(cmd, "\"\\path\\to\\my documents\\\\\"");
}

#[test]
fn kernel_driver_path_is_verbatim_even_with_spaces() {
    let cmd = launch_command(
        ServiceType::KernelDriver,
        &"C:\\my folder\\driver.sys".to_string(),
        &Vec::new(),
    )
    .unwrap();
    assert_eq!(cmd, "C:\\my folder\\driver.sys");
}

#[test]
fn nul_in_path_is_invalid_executable_path() {
    let r = launch_command(
        ServiceType::OwnProcess,
        &"C:\\bad\0path.exe".to_string(),
        &Vec::new(),
    );
    assert_eq!(r, Err(ServiceError::InvalidField(FieldName::ExecutablePath)));
}

#[test]
fn nul_in_argument_is_invalid_launch_argument() {
    let r = launch_command(
        ServiceType::OwnProcess,
        &"C:\\svc.exe".to_string(),
        &vec!["fine".to_string(), "bad\0arg".to_string()],
    );
    assert_eq!(r, Err(ServiceError::InvalidField(FieldName::LaunchArgument)));
}

fn sample_info() -> ServiceInfo {
    ServiceInfo {
        name: "my_service".to_string(),
        display_name: "My service".to_string(),
        service_type: ServiceType::OwnProcess,
        start_type: ServiceStartType::OnDemand,
        error_control: ServiceErrorControl::Normal,
        executable_path: "C:\\path to\\service.exe".to_string(),
        launch_arguments: vec!["--flag".to_string()],
        account_name: None,
        account_password: None,
    }
}

#[test]
fn create_request_encodes_every_field() {
    let req = create_service_request(sample_info()).unwrap();
    assert_eq!(req.name, utf16("my_service"));
    assert_eq!(req.display_name, utf16("My service"));
    assert!(req.account_name.is_none());
    assert!(req.account_password.is_none());
    assert_eq!(
        req.launch_command,
        utf16("\"C:\\path to\\service.exe\" --flag")
    );
    assert_eq!(req.service_type, 0x10);
    assert_eq!(req.start_type, 3);
    assert_eq!(req.error_control, 1);
}

#[test]
fn create_request_keeps_kernel_driver_path_verbatim() {
    let mut info = sample_info();
    info.service_type = ServiceType::KernelDriver;
    info.executable_path = "C:\\spaced path\\drv.sys".to_string();
    info.launch_arguments = Vec::new();
    let req = create_service_request(info).unwrap();
    assert_eq!(req.launch_command, utf16("C:\\spaced path\\drv.sys"));
    assert_eq!(req.service_type, 0x1);
}

#[test]
fn create_request_names_the_first_bad_field() {
    let mut info = sample_info();
    info.name = "bad\0name".to_string();
    assert!(matches!(
        create_service_request(info),
        Err(ServiceError::InvalidField(FieldName::ServiceName))
    ));

    let mut info = sample_info();
    info.display_name = "bad\0display".to_string();
    assert!(matches!(
        create_service_request(info),
        Err(ServiceError::InvalidField(FieldName::DisplayName))
    ));

    let mut info = sample_info();
    info.account_name = Some("bad\0account".to_string());
    assert!(matches!(
        create_service_request(info),
        Err(ServiceError::InvalidField(FieldName::AccountName))
    ));

    let mut info = sample_info();
    info.account_password = Some("bad\0pw".to_string());
    assert!(matches!(
        create_service_request(info),
        Err(ServiceError::InvalidField(FieldName::AccountPassword))
    ));

    let mut info = sample_info();
    info.executable_path = "bad\0path".to_string();
    assert!(matches!(
        create_service_request(info),
        Err(ServiceError::InvalidField(FieldName::ExecutablePath))
    ));
}

#[test]
fn create_request_encodes_account_fields_when_present() {
    let mut info = sample_info();
    info.account_name = Some("NT Authority\\System".to_string());
    info.account_password = Some("SECRET-REDACTED".to_string());
    let req = create_service_request(info).unwrap();
    assert_eq!(req.account_name, Some(utf16("NT Authority\\System")));
    assert_eq!(req.account_password, Some(utf16("SECRET-REDACTED")));
}

#[test]
fn open_request_encodes_or_rejects_the_name() {
    assert_eq!(
        open_service_request(&"svc".to_string()).unwrap(),
        utf16("svc")
    );
    assert_eq!(
        open_service_request(&"sv\0c".to_string()),
        Err(ServiceError::InvalidField(FieldName::ServiceName))
    );
}

#[test]
fn connect_request_passes_none_through_and_checks_names() {
    let req = connect_request(&None, &None).unwrap();
    assert!(req.machine.is_none());
    assert!(req.database.is_none());

    let req = connect_request(&Some("host".to_string()), &Some("db".to_string())).unwrap();
    assert_eq!(req.machine, Some(utf16("host")));
    assert_eq!(req.database, Some(utf16("db")));

    assert!(matches!(
        connect_request(&Some("ho\0st".to_string()), &None),
        Err(ServiceError::InvalidField(FieldName::MachineName))
    ));
    assert!(matches!(
        connect_request(&None, &Some("d\0b".to_string())),
        Err(ServiceError::InvalidField(FieldName::DatabaseName))
    ));
}

#[test]
fn to_wide_reports_the_nul_position() {
    assert_eq!(to_wide(&None).unwrap(), None);
    assert_eq!(to_wide(&Some("ab".to_string())).unwrap(), Some(utf16("ab")));
    assert_eq!(to_wide(&Some("a\0b".to_string())), Err(1));
    // A trailing nul merges with the encoding's terminator, as the wide
    // encoder accepts it.
    assert!(to_wide(&Some("ab\0".to_string())).is_ok());
}

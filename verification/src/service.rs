//! The typed domain model of a service and the marshaling between the
//! control manager's fixed-width wire records and that model.

use vstd::prelude::*;

use crate::codes::{
    SERVICE_KERNEL_DRIVER, SERVICE_FILE_SYSTEM_DRIVER, SERVICE_ADAPTER, SERVICE_RECOGNIZER_DRIVER,
    SERVICE_WIN32_OWN_PROCESS, SERVICE_WIN32_SHARE_PROCESS, SERVICE_USER_SERVICE,
    SERVICE_USERSERVICE_INSTANCE, SERVICE_INTERACTIVE_PROCESS, SERVICE_PKG_SERVICE,
    SERVICE_TYPE_UNRECOGNIZED, SERVICE_BOOT_START, SERVICE_SYSTEM_START, SERVICE_AUTO_START,
    SERVICE_DEMAND_START, SERVICE_DISABLED, SERVICE_ERROR_IGNORE, SERVICE_ERROR_NORMAL,
    SERVICE_ERROR_SEVERE, SERVICE_ERROR_CRITICAL, SERVICE_STOPPED, SERVICE_START_PENDING,
    SERVICE_STOP_PENDING, SERVICE_RUNNING, SERVICE_CONTINUE_PENDING, SERVICE_PAUSE_PENDING,
    SERVICE_PAUSED, SERVICE_CONTROL_STOP, SERVICE_CONTROL_PAUSE, SERVICE_CONTROL_CONTINUE,
    SERVICE_CONTROL_INTERROGATE, SERVICE_CONTROL_SHUTDOWN, SERVICE_CONTROL_PARAMCHANGE,
    SERVICE_CONTROL_NETBINDADD, SERVICE_CONTROL_NETBINDREMOVE, SERVICE_CONTROL_NETBINDENABLE,
    SERVICE_CONTROL_NETBINDDISABLE, SERVICE_CONTROL_PRESHUTDOWN, SERVICE_ACCEPT_KNOWN_MASK,
    NO_ERROR, ERROR_SERVICE_SPECIFIC_ERROR,
};
use crate::error::{EnumKind, ServiceError};

verus! {

// ---------------------------------------------------------------------------
// Service type: lenient decoding.
// ---------------------------------------------------------------------------

/// The role a service registers as.
#[derive(Debug, Clone, Copy, PartialEq, Eq, Hash, Structural)]
pub enum ServiceType {
    /// File system driver service.
    FileSystemDriver,
    /// Kernel driver service; its launch path is never shell-escaped.
    KernelDriver,
    Adapter,
    RecognizerDriver,
    /// Service that runs in its own process.
    OwnProcess,
    /// Service that shares a process with other services.
    Win32ShareProcess,
    UserService,
    UserServiceInstance,
    InteractiveProcess,
    PkgService,
    /// Sentinel for a wire code this client does not recognize; decoding
    /// must not fail the whole operation, since the manager may report
    /// roles newer than this client.
    InvalidServiceType,
}

pub open spec fn spec_service_type_to_raw(t: ServiceType) -> u32 {
    match t {
        ServiceType::FileSystemDriver => SERVICE_FILE_SYSTEM_DRIVER,
        ServiceType::KernelDriver => SERVICE_KERNEL_DRIVER,
        ServiceType::Adapter => SERVICE_ADAPTER,
        ServiceType::RecognizerDriver => SERVICE_RECOGNIZER_DRIVER,
        ServiceType::OwnProcess => SERVICE_WIN32_OWN_PROCESS,
        ServiceType::Win32ShareProcess => SERVICE_WIN32_SHARE_PROCESS,
        ServiceType::UserService => SERVICE_USER_SERVICE,
        ServiceType::UserServiceInstance => SERVICE_USERSERVICE_INSTANCE,
        ServiceType::InteractiveProcess => SERVICE_INTERACTIVE_PROCESS,
        ServiceType::PkgService => SERVICE_PKG_SERVICE,
        ServiceType::InvalidServiceType => SERVICE_TYPE_UNRECOGNIZED,
    }
}

/// The wire codes naming a service role this client knows.
pub open spec fn is_known_service_type_code(raw: u32) -> bool {
    ||| raw == SERVICE_FILE_SYSTEM_DRIVER
    ||| raw == SERVICE_KERNEL_DRIVER
    ||| raw == SERVICE_ADAPTER
    ||| raw == SERVICE_RECOGNIZER_DRIVER
    ||| raw == SERVICE_WIN32_OWN_PROCESS
    ||| raw == SERVICE_WIN32_SHARE_PROCESS
    ||| raw == SERVICE_USER_SERVICE
    ||| raw == SERVICE_USERSERVICE_INSTANCE
    ||| raw == SERVICE_INTERACTIVE_PROCESS
    ||| raw == SERVICE_PKG_SERVICE
}

pub open spec fn spec_service_type_from_raw(raw: u32) -> ServiceType {
    if raw == SERVICE_FILE_SYSTEM_DRIVER {
        ServiceType::FileSystemDriver
    } else if raw == SERVICE_KERNEL_DRIVER {
        ServiceType::KernelDriver
    } else if raw == SERVICE_ADAPTER {
        ServiceType::Adapter
    } else if raw == SERVICE_RECOGNIZER_DRIVER {
        ServiceType::RecognizerDriver
    } else if raw == SERVICE_WIN32_OWN_PROCESS {
        ServiceType::OwnProcess
    } else if raw == SERVICE_WIN32_SHARE_PROCESS {
        ServiceType::Win32ShareProcess
    } else if raw == SERVICE_USER_SERVICE {
        ServiceType::UserService
    } else if raw == SERVICE_USERSERVICE_INSTANCE {
        ServiceType::UserServiceInstance
    } else if raw == SERVICE_INTERACTIVE_PROCESS {
        ServiceType::InteractiveProcess
    } else if raw == SERVICE_PKG_SERVICE {
        ServiceType::PkgService
    } else {
        ServiceType::InvalidServiceType
    }
}

impl ServiceType {
    /// Decode a wire code leniently: an unrecognized code maps to the
    /// sentinel instead of an error, so enumeration can continue.
    pub fn from_raw(raw_value: u32) -> (r: Result<Self, ServiceError>)
        ensures
            r matches Ok(t) && t == spec_service_type_from_raw(raw_value),
    {
        let service_type = if raw_value == SERVICE_FILE_SYSTEM_DRIVER {
            ServiceType::FileSystemDriver
        } else if raw_value == SERVICE_KERNEL_DRIVER {
            ServiceType::KernelDriver
        } else if raw_value == SERVICE_ADAPTER {
            ServiceType::Adapter
        } else if raw_value == SERVICE_RECOGNIZER_DRIVER {
            ServiceType::RecognizerDriver
        } else if raw_value == SERVICE_WIN32_OWN_PROCESS {
            ServiceType::OwnProcess
        } else if raw_value == SERVICE_WIN32_SHARE_PROCESS {
            ServiceType::Win32ShareProcess
        } else if raw_value == SERVICE_USER_SERVICE {
            ServiceType::UserService
        } else if raw_value == SERVICE_USERSERVICE_INSTANCE {
            ServiceType::UserServiceInstance
        } else if raw_value == SERVICE_INTERACTIVE_PROCESS {
            ServiceType::InteractiveProcess
        } else if raw_value == SERVICE_PKG_SERVICE {
            ServiceType::PkgService
        } else {
            ServiceType::InvalidServiceType
        };
        Ok(service_type)
    }

    pub fn to_raw(&self) -> (r: u32)
        ensures
            r == spec_service_type_to_raw(*self),
    {
        match *self {
            ServiceType::FileSystemDriver => SERVICE_FILE_SYSTEM_DRIVER,
            ServiceType::KernelDriver => SERVICE_KERNEL_DRIVER,
            ServiceType::Adapter => SERVICE_ADAPTER,
            ServiceType::RecognizerDriver => SERVICE_RECOGNIZER_DRIVER,
            ServiceType::OwnProcess => SERVICE_WIN32_OWN_PROCESS,
            ServiceType::Win32ShareProcess => SERVICE_WIN32_SHARE_PROCESS,
            ServiceType::UserService => SERVICE_USER_SERVICE,
            ServiceType::UserServiceInstance => SERVICE_USERSERVICE_INSTANCE,
            ServiceType::InteractiveProcess => SERVICE_INTERACTIVE_PROCESS,
            ServiceType::PkgService => SERVICE_PKG_SERVICE,
            ServiceType::InvalidServiceType => SERVICE_TYPE_UNRECOGNIZED,
        }
    }
}

/// Law: decoding a known service-role code and re-encoding it gives the
/// code back.
pub proof fn lemma_service_type_raw_round_trip(raw: u32)
    requires
        is_known_service_type_code(raw),
    ensures
        spec_service_type_to_raw(spec_service_type_from_raw(raw)) == raw,
{
}

/// Law: the service-role decoder maps every code outside the known set to
/// the unrecognized sentinel, never to an error, while the strict decoders
/// for start type, error control and state reject such a code.
pub proof fn lemma_unknown_code_policy(raw: u32)
    ensures
        !is_known_service_type_code(raw) ==> spec_service_type_from_raw(raw)
            == ServiceType::InvalidServiceType,
        !is_known_start_type_code(raw) ==> spec_start_type_from_raw(raw) is None,
        !is_known_error_control_code(raw) ==> spec_error_control_from_raw(raw) is None,
        !is_known_state_code(raw) ==> spec_state_from_raw(raw) is None,
{
}

// ---------------------------------------------------------------------------
// Start type: strict decoding.
// ---------------------------------------------------------------------------

/// When the system starts a service.
#[derive(Debug, Clone, Copy, PartialEq, Eq, Hash, Structural)]
pub enum ServiceStartType {
    /// Started by the boot loader.
    BootStart,
    /// Autostart on system startup.
    AutoStart,
    /// Service is enabled, can be started manually.
    OnDemand,
    /// Disabled service.
    Disabled,
    /// Started during kernel initialization.
    SystemStart,
}

pub open spec fn spec_start_type_to_raw(t: ServiceStartType) -> u32 {
    match t {
        ServiceStartType::BootStart => SERVICE_BOOT_START,
        ServiceStartType::AutoStart => SERVICE_AUTO_START,
        ServiceStartType::OnDemand => SERVICE_DEMAND_START,
        ServiceStartType::Disabled => SERVICE_DISABLED,
        ServiceStartType::SystemStart => SERVICE_SYSTEM_START,
    }
}

pub open spec fn is_known_start_type_code(raw: u32) -> bool {
    ||| raw == SERVICE_BOOT_START
    ||| raw == SERVICE_AUTO_START
    ||| raw == SERVICE_DEMAND_START
    ||| raw == SERVICE_DISABLED
    ||| raw == SERVICE_SYSTEM_START
}

pub open spec fn spec_start_type_from_raw(raw: u32) -> Option<ServiceStartType> {
    if raw == SERVICE_AUTO_START {
        Some(ServiceStartType::AutoStart)
    } else if raw == SERVICE_BOOT_START {
        Some(ServiceStartType::BootStart)
    } else if raw == SERVICE_DEMAND_START {
        Some(ServiceStartType::OnDemand)
    } else if raw == SERVICE_SYSTEM_START {
        Some(ServiceStartType::SystemStart)
    } else if raw == SERVICE_DISABLED {
        Some(ServiceStartType::Disabled)
    } else {
        None
    }
}

impl ServiceStartType {
    pub fn to_raw(&self) -> (r: u32)
        ensures
            r == spec_start_type_to_raw(*self),
    {
        match *self {
            ServiceStartType::BootStart => SERVICE_BOOT_START,
            ServiceStartType::AutoStart => SERVICE_AUTO_START,
            ServiceStartType::OnDemand => SERVICE_DEMAND_START,
            ServiceStartType::Disabled => SERVICE_DISABLED,
            ServiceStartType::SystemStart => SERVICE_SYSTEM_START,
        }
    }

    /// Decode a wire code strictly: an unknown code is a hard error, since
    /// the manager reports no start type this client does not know absent a
    /// version mismatch the caller should hear about.
    pub fn from_raw(raw_value: u32) -> (r: Result<Self, ServiceError>)
        ensures
            match r {
                Ok(t) => spec_start_type_from_raw(raw_value) == Some(t),
                Err(e) => spec_start_type_from_raw(raw_value) is None && e
                    == ServiceError::InvalidEnumValue(EnumKind::StartType, raw_value),
            },
    {
        if raw_value == SERVICE_AUTO_START {
            Ok(ServiceStartType::AutoStart)
        } else if raw_value == SERVICE_BOOT_START {
            Ok(ServiceStartType::BootStart)
        } else if raw_value == SERVICE_DEMAND_START {
            Ok(ServiceStartType::OnDemand)
        } else if raw_value == SERVICE_SYSTEM_START {
            Ok(ServiceStartType::SystemStart)
        } else if raw_value == SERVICE_DISABLED {
            Ok(ServiceStartType::Disabled)
        } else {
            Err(ServiceError::InvalidEnumValue(EnumKind::StartType, raw_value))
        }
    }
}

// ---------------------------------------------------------------------------
// Error control: strict decoding.
// ---------------------------------------------------------------------------

/// The severity of, and action taken on, a failure to start the service.
#[derive(Debug, Clone, Copy, PartialEq, Eq, Hash, Structural)]
pub enum ServiceErrorControl {
    Critical,
    Ignore,
    Normal,
    Severe,
}

pub open spec fn spec_error_control_to_raw(t: ServiceErrorControl) -> u32 {
    match t {
        ServiceErrorControl::Critical => SERVICE_ERROR_CRITICAL,
        ServiceErrorControl::Ignore => SERVICE_ERROR_IGNORE,
        ServiceErrorControl::Normal => SERVICE_ERROR_NORMAL,
        ServiceErrorControl::Severe => SERVICE_ERROR_SEVERE,
    }
}

pub open spec fn is_known_error_control_code(raw: u32) -> bool {
    ||| raw == SERVICE_ERROR_CRITICAL
    ||| raw == SERVICE_ERROR_IGNORE
    ||| raw == SERVICE_ERROR_NORMAL
    ||| raw == SERVICE_ERROR_SEVERE
}

pub open spec fn spec_error_control_from_raw(raw: u32) -> Option<ServiceErrorControl> {
    if raw == SERVICE_ERROR_CRITICAL {
        Some(ServiceErrorControl::Critical)
    } else if raw == SERVICE_ERROR_IGNORE {
        Some(ServiceErrorControl::Ignore)
    } else if raw == SERVICE_ERROR_NORMAL {
        Some(ServiceErrorControl::Normal)
    } else if raw == SERVICE_ERROR_SEVERE {
        Some(ServiceErrorControl::Severe)
    } else {
        None
    }
}

impl ServiceErrorControl {
    pub fn to_raw(&self) -> (r: u32)
        ensures
            r == spec_error_control_to_raw(*self),
    {
        match *self {
            ServiceErrorControl::Critical => SERVICE_ERROR_CRITICAL,
            ServiceErrorControl::Ignore => SERVICE_ERROR_IGNORE,
            ServiceErrorControl::Normal => SERVICE_ERROR_NORMAL,
            ServiceErrorControl::Severe => SERVICE_ERROR_SEVERE,
        }
    }

    /// Decode a wire code strictly: an unknown code is a hard error.
    pub fn from_raw(raw_value: u32) -> (r: Result<Self, ServiceError>)
        ensures
            match r {
                Ok(t) => spec_error_control_from_raw(raw_value) == Some(t),
                Err(e) => spec_error_control_from_raw(raw_value) is None && e
                    == ServiceError::InvalidEnumValue(EnumKind::ErrorControl, raw_value),
            },
    {
        if raw_value == SERVICE_ERROR_CRITICAL {
            Ok(ServiceErrorControl::Critical)
        } else if raw_value == SERVICE_ERROR_IGNORE {
            Ok(ServiceErrorControl::Ignore)
        } else if raw_value == SERVICE_ERROR_NORMAL {
            Ok(ServiceErrorControl::Normal)
        } else if raw_value == SERVICE_ERROR_SEVERE {
            Ok(ServiceErrorControl::Severe)
        } else {
            Err(ServiceError::InvalidEnumValue(EnumKind::ErrorControl, raw_value))
        }
    }
}

// ---------------------------------------------------------------------------
// Control commands: strict decoding.
// ---------------------------------------------------------------------------

/// An outbound control command for a service.
#[derive(Debug, Clone, Copy, PartialEq, Eq, Hash, Structural)]
pub enum ServiceControl {
    Continue,
    Interrogate,
    NetBindAdd,
    NetBindDisable,
    NetBindEnable,
    NetBindRemove,
    ParamChange,
    Pause,
    Preshutdown,
    Shutdown,
    Stop,
}

pub open spec fn spec_control_to_raw(t: ServiceControl) -> u32 {
    match t {
        ServiceControl::Continue => SERVICE_CONTROL_CONTINUE,
        ServiceControl::Interrogate => SERVICE_CONTROL_INTERROGATE,
        ServiceControl::NetBindAdd => SERVICE_CONTROL_NETBINDADD,
        ServiceControl::NetBindDisable => SERVICE_CONTROL_NETBINDDISABLE,
        ServiceControl::NetBindEnable => SERVICE_CONTROL_NETBINDENABLE,
        ServiceControl::NetBindRemove => SERVICE_CONTROL_NETBINDREMOVE,
        ServiceControl::ParamChange => SERVICE_CONTROL_PARAMCHANGE,
        ServiceControl::Pause => SERVICE_CONTROL_PAUSE,
        ServiceControl::Preshutdown => SERVICE_CONTROL_PRESHUTDOWN,
        ServiceControl::Shutdown => SERVICE_CONTROL_SHUTDOWN,
        ServiceControl::Stop => SERVICE_CONTROL_STOP,
    }
}

pub open spec fn spec_control_from_raw(raw: u32) -> Option<ServiceControl> {
    if raw == SERVICE_CONTROL_CONTINUE {
        Some(ServiceControl::Continue)
    } else if raw == SERVICE_CONTROL_INTERROGATE {
        Some(ServiceControl::Interrogate)
    } else if raw == SERVICE_CONTROL_NETBINDADD {
        Some(ServiceControl::NetBindAdd)
    } else if raw == SERVICE_CONTROL_NETBINDDISABLE {
        Some(ServiceControl::NetBindDisable)
    } else if raw == SERVICE_CONTROL_NETBINDENABLE {
        Some(ServiceControl::NetBindEnable)
    } else if raw == SERVICE_CONTROL_NETBINDREMOVE {
        Some(ServiceControl::NetBindRemove)
    } else if raw == SERVICE_CONTROL_PARAMCHANGE {
        Some(ServiceControl::ParamChange)
    } else if raw == SERVICE_CONTROL_PAUSE {
        Some(ServiceControl::Pause)
    } else if raw == SERVICE_CONTROL_PRESHUTDOWN {
        Some(ServiceControl::Preshutdown)
    } else if raw == SERVICE_CONTROL_SHUTDOWN {
        Some(ServiceControl::Shutdown)
    } else if raw == SERVICE_CONTROL_STOP {
        Some(ServiceControl::Stop)
    } else {
        None
    }
}

impl ServiceControl {
    /// Decode a wire code strictly; only needed when parsing external
    /// input, and an unknown code is a hard error.
    pub fn from_raw(raw_value: u32) -> (r: Result<Self, ServiceError>)
        ensures
            match r {
                Ok(t) => spec_control_from_raw(raw_value) == Some(t),
                Err(e) => spec_control_from_raw(raw_value) is None && e
                    == ServiceError::InvalidEnumValue(EnumKind::Control, raw_value),
            },
    {
        if raw_value == SERVICE_CONTROL_CONTINUE {
            Ok(ServiceControl::Continue)
        } else if raw_value == SERVICE_CONTROL_INTERROGATE {
            Ok(ServiceControl::Interrogate)
        } else if raw_value == SERVICE_CONTROL_NETBINDADD {
            Ok(ServiceControl::NetBindAdd)
        } else if raw_value == SERVICE_CONTROL_NETBINDDISABLE {
            Ok(ServiceControl::NetBindDisable)
        } else if raw_value == SERVICE_CONTROL_NETBINDENABLE {
            Ok(ServiceControl::NetBindEnable)
        } else if raw_value == SERVICE_CONTROL_NETBINDREMOVE {
            Ok(ServiceControl::NetBindRemove)
        } else if raw_value == SERVICE_CONTROL_PARAMCHANGE {
            Ok(ServiceControl::ParamChange)
        } else if raw_value == SERVICE_CONTROL_PAUSE {
            Ok(ServiceControl::Pause)
        } else if raw_value == SERVICE_CONTROL_PRESHUTDOWN {
            Ok(ServiceControl::Preshutdown)
        } else if raw_value == SERVICE_CONTROL_SHUTDOWN {
            Ok(ServiceControl::Shutdown)
        } else if raw_value == SERVICE_CONTROL_STOP {
            Ok(ServiceControl::Stop)
        } else {
            Err(ServiceError::InvalidEnumValue(EnumKind::Control, raw_value))
        }
    }

    pub fn to_raw(&self) -> (r: u32)
        ensures
            r == spec_control_to_raw(*self),
    {
        match *self {
            ServiceControl::Continue => SERVICE_CONTROL_CONTINUE,
            ServiceControl::Interrogate => SERVICE_CONTROL_INTERROGATE,
            ServiceControl::NetBindAdd => SERVICE_CONTROL_NETBINDADD,
            ServiceControl::NetBindDisable => SERVICE_CONTROL_NETBINDDISABLE,
            ServiceControl::NetBindEnable => SERVICE_CONTROL_NETBINDENABLE,
            ServiceControl::NetBindRemove => SERVICE_CONTROL_NETBINDREMOVE,
            ServiceControl::ParamChange => SERVICE_CONTROL_PARAMCHANGE,
            ServiceControl::Pause => SERVICE_CONTROL_PAUSE,
            ServiceControl::Preshutdown => SERVICE_CONTROL_PRESHUTDOWN,
            ServiceControl::Shutdown => SERVICE_CONTROL_SHUTDOWN,
            ServiceControl::Stop => SERVICE_CONTROL_STOP,
        }
    }
}

// ---------------------------------------------------------------------------
// Run state: strict decoding.
// ---------------------------------------------------------------------------

/// The run state reported in a service status.
#[derive(Debug, Clone, Copy, PartialEq, Eq, Hash, Structural)]
pub enum ServiceState {
    Stopped,
    StartPending,
    StopPending,
    Running,
    ContinuePending,
    PausePending,
    Paused,
}

pub open spec fn spec_state_to_raw(t: ServiceState) -> u32 {
    match t {
        ServiceState::Stopped => SERVICE_STOPPED,
        ServiceState::StartPending => SERVICE_START_PENDING,
        ServiceState::StopPending => SERVICE_STOP_PENDING,
        ServiceState::Running => SERVICE_RUNNING,
        ServiceState::ContinuePending => SERVICE_CONTINUE_PENDING,
        ServiceState::PausePending => SERVICE_PAUSE_PENDING,
        ServiceState::Paused => SERVICE_PAUSED,
    }
}

pub open spec fn is_known_state_code(raw: u32) -> bool {
    ||| raw == SERVICE_STOPPED
    ||| raw == SERVICE_START_PENDING
    ||| raw == SERVICE_STOP_PENDING
    ||| raw == SERVICE_RUNNING
    ||| raw == SERVICE_CONTINUE_PENDING
    ||| raw == SERVICE_PAUSE_PENDING
    ||| raw == SERVICE_PAUSED
}

pub open spec fn spec_state_from_raw(raw: u32) -> Option<ServiceState> {
    if raw == SERVICE_STOPPED {
        Some(ServiceState::Stopped)
    } else if raw == SERVICE_START_PENDING {
        Some(ServiceState::StartPending)
    } else if raw == SERVICE_STOP_PENDING {
        Some(ServiceState::StopPending)
    } else if raw == SERVICE_RUNNING {
        Some(ServiceState::Running)
    } else if raw == SERVICE_CONTINUE_PENDING {
        Some(ServiceState::ContinuePending)
    } else if raw == SERVICE_PAUSE_PENDING {
        Some(ServiceState::PausePending)
    } else if raw == SERVICE_PAUSED {
        Some(ServiceState::Paused)
    } else {
        None
    }
}

impl ServiceState {
    /// Decode a wire code strictly: an unknown state is a hard error.
    pub fn from_raw(raw_state: u32) -> (r: Result<Self, ServiceError>)
        ensures
            match r {
                Ok(t) => spec_state_from_raw(raw_state) == Some(t),
                Err(e) => spec_state_from_raw(raw_state) is None && e
                    == ServiceError::InvalidEnumValue(EnumKind::State, raw_state),
            },
    {
        if raw_state == SERVICE_STOPPED {
            Ok(ServiceState::Stopped)
        } else if raw_state == SERVICE_START_PENDING {
            Ok(ServiceState::StartPending)
        } else if raw_state == SERVICE_STOP_PENDING {
            Ok(ServiceState::StopPending)
        } else if raw_state == SERVICE_RUNNING {
            Ok(ServiceState::Running)
        } else if raw_state == SERVICE_CONTINUE_PENDING {
            Ok(ServiceState::ContinuePending)
        } else if raw_state == SERVICE_PAUSE_PENDING {
            Ok(ServiceState::PausePending)
        } else if raw_state == SERVICE_PAUSED {
            Ok(ServiceState::Paused)
        } else {
            Err(ServiceError::InvalidEnumValue(EnumKind::State, raw_state))
        }
    }

    pub fn to_raw(&self) -> (r: u32)
        ensures
            r == spec_state_to_raw(*self),
    {
        match *self {
            ServiceState::Stopped => SERVICE_STOPPED,
            ServiceState::StartPending => SERVICE_START_PENDING,
            ServiceState::StopPending => SERVICE_STOP_PENDING,
            ServiceState::Running => SERVICE_RUNNING,
            ServiceState::ContinuePending => SERVICE_CONTINUE_PENDING,
            ServiceState::PausePending => SERVICE_PAUSE_PENDING,
            ServiceState::Paused => SERVICE_PAUSED,
        }
    }
}

// ---------------------------------------------------------------------------
// Raw status records: the wire shape of a status snapshot.
// ---------------------------------------------------------------------------

/// The control manager's fixed-width status record, one `u32` per field.
#[derive(Debug, Clone, Copy, PartialEq, Eq, Hash, Structural)]
pub struct RawServiceStatus {
    pub service_type: u32,
    pub current_state: u32,
    pub controls_accepted: u32,
    pub win32_exit_code: u32,
    pub service_specific_exit_code: u32,
    pub checkpoint: u32,
    pub wait_hint: u32,
}

/// The status record the enumeration call returns, which adds process-level
/// detail to [`RawServiceStatus`].
#[derive(Debug, Clone, Copy, PartialEq, Eq, Hash, Structural)]
pub struct RawServiceStatusProcess {
    pub service_type: u32,
    pub current_state: u32,
    pub controls_accepted: u32,
    pub win32_exit_code: u32,
    pub service_specific_exit_code: u32,
    pub checkpoint: u32,
    pub wait_hint: u32,
    pub process_id: u32,
    pub service_flags: u32,
}

/// The plain status fields of an extended record.
pub open spec fn spec_status_part(p: RawServiceStatusProcess) -> RawServiceStatus {
    RawServiceStatus {
        service_type: p.service_type,
        current_state: p.current_state,
        controls_accepted: p.controls_accepted,
        win32_exit_code: p.win32_exit_code,
        service_specific_exit_code: p.service_specific_exit_code,
        checkpoint: p.checkpoint,
        wait_hint: p.wait_hint,
    }
}

// ---------------------------------------------------------------------------
// Exit code: a tagged union over two wire fields.
// ---------------------------------------------------------------------------

/// A service's exit code: either a platform error code, or a
/// service-specific code. The wire encoding signals the latter by setting
/// the primary field to the service-specific sentinel and carrying the
/// custom code in the secondary field.
#[derive(Debug, Clone, Copy, PartialEq, Eq, Hash, Structural)]
pub enum ServiceExitCode {
    Win32(u32),
    ServiceSpecific(u32),
}

/// How an exit code fills the two wire fields.
pub open spec fn spec_exit_code_write(code: ServiceExitCode, s: RawServiceStatus)
    -> RawServiceStatus {
    match code {
        ServiceExitCode::Win32(w) => RawServiceStatus {
            win32_exit_code: w,
            service_specific_exit_code: 0,
            ..s
        },
        ServiceExitCode::ServiceSpecific(c) => RawServiceStatus {
            win32_exit_code: ERROR_SERVICE_SPECIFIC_ERROR,
            service_specific_exit_code: c,
            ..s
        },
    }
}

/// How the two wire fields decode to an exit code.
pub open spec fn spec_exit_code_from_parts(win32: u32, service_specific: u32)
    -> ServiceExitCode {
    if win32 == ERROR_SERVICE_SPECIFIC_ERROR {
        ServiceExitCode::ServiceSpecific(service_specific)
    } else {
        ServiceExitCode::Win32(win32)
    }
}

impl ServiceExitCode {
    /// Write this exit code into a raw status record's two exit-code
    /// fields, leaving every other field as it was.
    pub fn copy_to(&self, raw_service_status: &mut RawServiceStatus)
        ensures
            *final(raw_service_status) == spec_exit_code_write(*self, *old(raw_service_status)),
    {
        match *self {
            ServiceExitCode::Win32(win32_error_code) => {
                raw_service_status.win32_exit_code = win32_error_code;
                raw_service_status.service_specific_exit_code = 0;
            },
            ServiceExitCode::ServiceSpecific(service_error_code) => {
                raw_service_status.win32_exit_code = ERROR_SERVICE_SPECIFIC_ERROR;
                raw_service_status.service_specific_exit_code = service_error_code;
            },
        }
    }

    /// Decode the exit code carried by a raw status record.
    pub fn from_status(raw_service_status: &RawServiceStatus) -> (r: Self)
        ensures
            r == spec_exit_code_from_parts(
                raw_service_status.win32_exit_code,
                raw_service_status.service_specific_exit_code,
            ),
    {
        if raw_service_status.win32_exit_code == ERROR_SERVICE_SPECIFIC_ERROR {
            ServiceExitCode::ServiceSpecific(raw_service_status.service_specific_exit_code)
        } else {
            ServiceExitCode::Win32(raw_service_status.win32_exit_code)
        }
    }

    /// Decode the exit code carried by an extended status record.
    pub fn from_status_process(raw_status: &RawServiceStatusProcess) -> (r: Self)
        ensures
            r == spec_exit_code_from_parts(
                raw_status.win32_exit_code,
                raw_status.service_specific_exit_code,
            ),
    {
        if raw_status.win32_exit_code == ERROR_SERVICE_SPECIFIC_ERROR {
            ServiceExitCode::ServiceSpecific(raw_status.service_specific_exit_code)
        } else {
            ServiceExitCode::Win32(raw_status.win32_exit_code)
        }
    }
}

impl Default for ServiceExitCode {
    /// The default exit code: platform code "success".
    fn default() -> (r: Self)
        ensures
            r == ServiceExitCode::Win32(NO_ERROR),
    {
        ServiceExitCode::Win32(NO_ERROR)
    }
}

/// Law: writing an exit code into a status record and decoding the two
/// fields back yields the same code, as long as a platform code is not the
/// service-specific sentinel itself.
pub proof fn lemma_exit_code_round_trip(code: ServiceExitCode, s: RawServiceStatus)
    requires
        code matches ServiceExitCode::Win32(k) ==> k != ERROR_SERVICE_SPECIFIC_ERROR,
    ensures
        spec_exit_code_from_parts(
            spec_exit_code_write(code, s).win32_exit_code,
            spec_exit_code_write(code, s).service_specific_exit_code,
        ) == code,
{
}

// ---------------------------------------------------------------------------
// Accepted-control bits: decoded by truncating unknown bits.
// ---------------------------------------------------------------------------

/// The set of control commands a running service currently accepts, as a
/// bit set over the known accepted-control bits.
#[derive(Debug, Clone, Copy, PartialEq, Eq, Hash, Structural)]
pub struct ServiceControlAccept {
    pub bits: u32,
}

impl ServiceControlAccept {
    /// Holds when only known bits are set.
    pub open spec fn wf(self) -> bool {
        self.bits & SERVICE_ACCEPT_KNOWN_MASK == self.bits
    }

    /// Decode a wire bit set by truncating unknown bits rather than
    /// failing: unknown future flags must not break parsing.
    pub fn from_bits_truncate(raw: u32) -> (r: Self)
        ensures
            r.bits == raw & SERVICE_ACCEPT_KNOWN_MASK,
            r.wf(),
    {
        let r = ServiceControlAccept { bits: raw & SERVICE_ACCEPT_KNOWN_MASK };
        proof {
            assert((raw & SERVICE_ACCEPT_KNOWN_MASK) & SERVICE_ACCEPT_KNOWN_MASK
                == raw & SERVICE_ACCEPT_KNOWN_MASK) by (bit_vector);
        }
        r
    }

    pub fn bits(&self) -> (r: u32)
        ensures
            r == self.bits,
    {
        self.bits
    }

    /// Whether every bit of `other` is set here.
    pub fn contains(&self, other: Self) -> (r: bool)
        ensures
            r == (self.bits & other.bits == other.bits),
    {
        self.bits & other.bits == other.bits
    }
}

// ---------------------------------------------------------------------------
// Durations: the wait hint as whole milliseconds.
// ---------------------------------------------------------------------------

/// A span of time held as whole milliseconds. The status model stores the
/// wait hint this way; callers that keep finer-grained durations convert at
/// the boundary.
#[derive(Debug, Clone, Copy, PartialEq, Eq, Hash, Structural)]
pub struct MilliDuration {
    pub millis: u64,
}

impl MilliDuration {
    pub fn from_millis(millis: u64) -> (r: Self)
        ensures
            r.millis == millis,
    {
        MilliDuration { millis }
    }

    pub fn as_millis(&self) -> (r: u64)
        ensures
            r == self.millis,
    {
        self.millis
    }

    pub fn as_secs(&self) -> (r: u64)
        ensures
            r == self.millis / 1000,
    {
        self.millis / 1000
    }
}

// ---------------------------------------------------------------------------
// The status model.
// ---------------------------------------------------------------------------

/// A snapshot of a service's runtime condition, decoded from or encoded to
/// the manager's raw status record.
#[derive(Debug, Clone, Copy, PartialEq, Eq, Hash, Structural)]
pub struct ServiceStatus {
    /// Type of service.
    pub service_type: ServiceType,
    /// Current state of the service.
    pub current_state: ServiceState,
    /// Control commands that the service accepts.
    pub controls_accepted: ServiceControlAccept,
    /// The error code the service reports when it fails while starting or
    /// stopping.
    pub exit_code: ServiceExitCode,
    /// Progress value during a lengthy start, stop, pause or continue
    /// operation; the producer keeps it zero when no such transition is
    /// pending.
    pub checkpoint: u32,
    /// Estimated time for a pending operation. The wire field carries
    /// milliseconds truncated from whole seconds on the outbound path, so
    /// sub-second precision is lost there by design.
    pub wait_hint: MilliDuration,
}

pub open spec fn spec_status_to_raw(s: ServiceStatus) -> RawServiceStatus {
    RawServiceStatus {
        service_type: spec_service_type_to_raw(s.service_type),
        current_state: spec_state_to_raw(s.current_state),
        controls_accepted: s.controls_accepted.bits,
        win32_exit_code: match s.exit_code {
            ServiceExitCode::Win32(w) => w,
            ServiceExitCode::ServiceSpecific(_) => ERROR_SERVICE_SPECIFIC_ERROR,
        },
        service_specific_exit_code: match s.exit_code {
            ServiceExitCode::Win32(_) => 0,
            ServiceExitCode::ServiceSpecific(c) => c,
        },
        checkpoint: s.checkpoint,
        wait_hint: ((s.wait_hint.millis / 1000) * 1000) as u32,
    }
}

pub open spec fn spec_status_from_raw(raw: RawServiceStatus)
    -> Result<ServiceStatus, ServiceError> {
    if spec_state_from_raw(raw.current_state) is None {
        Err(ServiceError::InvalidEnumValue(EnumKind::State, raw.current_state))
    } else {
        Ok(ServiceStatus {
            service_type: spec_service_type_from_raw(raw.service_type),
            current_state: spec_state_from_raw(raw.current_state)->Some_0,
            controls_accepted: ServiceControlAccept {
                bits: raw.controls_accepted & SERVICE_ACCEPT_KNOWN_MASK,
            },
            exit_code: spec_exit_code_from_parts(
                raw.win32_exit_code,
                raw.service_specific_exit_code,
            ),
            checkpoint: raw.checkpoint,
            wait_hint: MilliDuration { millis: raw.wait_hint as u64 },
        })
    }
}

impl ServiceStatus {
    /// Encode this snapshot as the manager's raw record. The wait hint is
    /// sent as whole seconds expressed in milliseconds, truncated to the
    /// wire field's width; the hint is never meant to be large enough for
    /// the truncation to bite.
    pub fn to_raw(&self) -> (r: RawServiceStatus)
        ensures
            r == spec_status_to_raw(*self),
    {
        let mut raw_status = RawServiceStatus {
            service_type: 0,
            current_state: 0,
            controls_accepted: 0,
            win32_exit_code: 0,
            service_specific_exit_code: 0,
            checkpoint: 0,
            wait_hint: 0,
        };
        raw_status.service_type = self.service_type.to_raw();
        raw_status.current_state = self.current_state.to_raw();
        raw_status.controls_accepted = self.controls_accepted.bits();
        self.exit_code.copy_to(&mut raw_status);
        raw_status.checkpoint = self.checkpoint;
        let secs = self.wait_hint.as_secs();
        proof {
            assert((self.wait_hint.millis / 1000) * 1000 <= self.wait_hint.millis)
                by (nonlinear_arith);
        }
        raw_status.wait_hint = #[verifier::truncate] ((secs * 1000) as u32);
        raw_status
    }

    /// Decode the manager's raw record; fails only on an unknown state
    /// code, since the state decoder is the strict one on this path.
    pub fn from_raw(raw_status: RawServiceStatus) -> (r: Result<Self, ServiceError>)
        ensures
            r == spec_status_from_raw(raw_status),
    {
        let service_type = match ServiceType::from_raw(raw_status.service_type) {
            Ok(t) => t,
            Err(e) => { return Err(e); },
        };
        let current_state = match ServiceState::from_raw(raw_status.current_state) {
            Ok(s) => s,
            Err(e) => { return Err(e); },
        };
        Ok(ServiceStatus {
            service_type,
            current_state,
            controls_accepted: ServiceControlAccept::from_bits_truncate(
                raw_status.controls_accepted,
            ),
            exit_code: ServiceExitCode::from_status(&raw_status),
            checkpoint: raw_status.checkpoint,
            wait_hint: MilliDuration::from_millis(raw_status.wait_hint as u64),
        })
    }

    /// Decode the extended record the enumeration call returns.
    pub fn from_raw_ex(raw_status: RawServiceStatusProcess) -> (r: Result<Self, ServiceError>)
        ensures
            r == spec_status_from_raw(spec_status_part(raw_status)),
    {
        Self::from_raw(RawServiceStatus {
            service_type: raw_status.service_type,
            current_state: raw_status.current_state,
            controls_accepted: raw_status.controls_accepted,
            win32_exit_code: raw_status.win32_exit_code,
            service_specific_exit_code: raw_status.service_specific_exit_code,
            checkpoint: raw_status.checkpoint,
            wait_hint: raw_status.wait_hint,
        })
    }
}

/// A status snapshot extended with the process-level detail only the
/// enumeration path exposes.
#[derive(Debug, Clone, Copy, PartialEq, Eq, Hash, Structural)]
pub struct ServiceStatusExt {
    pub status: ServiceStatus,
    pub process_id: u32,
    pub service_flags: u32,
}

pub open spec fn spec_status_ext_from_raw(raw: RawServiceStatusProcess)
    -> Result<ServiceStatusExt, ServiceError> {
    match spec_status_from_raw(spec_status_part(raw)) {
        Err(e) => Err(e),
        Ok(status) => Ok(ServiceStatusExt {
            status,
            process_id: raw.process_id,
            service_flags: raw.service_flags,
        }),
    }
}

impl ServiceStatusExt {
    /// Decode the enumeration call's extended record.
    pub fn from_raw(raw_status: RawServiceStatusProcess) -> (r: Result<Self, ServiceError>)
        ensures
            r == spec_status_ext_from_raw(raw_status),
    {
        let status = match ServiceStatus::from_raw_ex(raw_status) {
            Ok(s) => s,
            Err(e) => { return Err(e); },
        };
        Ok(ServiceStatusExt {
            status,
            process_id: raw_status.process_id,
            service_flags: raw_status.service_flags,
        })
    }
}

// ---------------------------------------------------------------------------
// The enumeration buffer: fixed-size records addressed by byte offset.
// ---------------------------------------------------------------------------

/// The size in bytes of one enumeration record in the filled buffer: two
/// 8-byte string references, nine 4-byte status fields, and 4 bytes of
/// trailing padding that aligns the next record.
pub const ENUM_RECORD_SIZE: usize = 56;

/// One record of the filled enumeration buffer: the manager's references
/// to the service's name and display name (opaque to this layer; the
/// caller resolves them to text) and the extended status snapshot.
#[derive(Debug, Clone, Copy, PartialEq, Eq, Hash, Structural)]
pub struct EnumServiceStatusProcess {
    pub name_ref: u64,
    pub display_name_ref: u64,
    pub status: RawServiceStatusProcess,
}

/// The little-endian 32-bit value at byte offset `off`.
pub open spec fn spec_le_u32(b: Seq<u8>, off: int) -> u32 {
    ((b[off] as int) + (b[off + 1] as int) * 0x100 + (b[off + 2] as int) * 0x10000
        + (b[off + 3] as int) * 0x1000000) as u32
}

/// The little-endian 64-bit value at byte offset `off`.
pub open spec fn spec_le_u64(b: Seq<u8>, off: int) -> u64 {
    ((b[off] as int) + (b[off + 1] as int) * 0x100 + (b[off + 2] as int) * 0x10000
        + (b[off + 3] as int) * 0x1000000 + (b[off + 4] as int) * 0x100000000
        + (b[off + 5] as int) * 0x10000000000 + (b[off + 6] as int) * 0x1000000000000
        + (b[off + 7] as int) * 0x100000000000000) as u64
}

/// The record at index `i` of the buffer, by its documented field offsets.
pub open spec fn spec_enum_record_at(b: Seq<u8>, i: int) -> EnumServiceStatusProcess {
    EnumServiceStatusProcess {
        name_ref: spec_le_u64(b, i * 56),
        display_name_ref: spec_le_u64(b, i * 56 + 8),
        status: RawServiceStatusProcess {
            service_type: spec_le_u32(b, i * 56 + 16),
            current_state: spec_le_u32(b, i * 56 + 20),
            controls_accepted: spec_le_u32(b, i * 56 + 24),
            win32_exit_code: spec_le_u32(b, i * 56 + 28),
            service_specific_exit_code: spec_le_u32(b, i * 56 + 32),
            checkpoint: spec_le_u32(b, i * 56 + 36),
            wait_hint: spec_le_u32(b, i * 56 + 40),
            process_id: spec_le_u32(b, i * 56 + 44),
            service_flags: spec_le_u32(b, i * 56 + 48),
        },
    }
}

/// How many whole records the view may expose: never more than the
/// reported count, and never past the bytes the buffer actually holds.
pub open spec fn spec_enum_record_capacity(size: int, bytes: int) -> int {
    if size <= bytes / 56 {
        size
    } else {
        bytes / 56
    }
}

fn read_le_u32(buffer: &Vec<u8>, offset: usize) -> (r: u32)
    requires
        offset + 4 <= buffer@.len(),
    ensures
        r == spec_le_u32(buffer@, offset as int),
{
    let _len: usize = buffer.len();
    let b0 = buffer[offset] as u32;
    let b1 = buffer[offset + 1] as u32;
    let b2 = buffer[offset + 2] as u32;
    let b3 = buffer[offset + 3] as u32;
    b0 + b1 * 0x100 + b2 * 0x10000 + b3 * 0x1000000
}

fn read_le_u64(buffer: &Vec<u8>, offset: usize) -> (r: u64)
    requires
        offset + 8 <= buffer@.len(),
    ensures
        r == spec_le_u64(buffer@, offset as int),
{
    let _len: usize = buffer.len();
    let b0 = buffer[offset] as u64;
    let b1 = buffer[offset + 1] as u64;
    let b2 = buffer[offset + 2] as u64;
    let b3 = buffer[offset + 3] as u64;
    let b4 = buffer[offset + 4] as u64;
    let b5 = buffer[offset + 5] as u64;
    let b6 = buffer[offset + 6] as u64;
    let b7 = buffer[offset + 7] as u64;
    b0 + b1 * 0x100 + b2 * 0x10000 + b3 * 0x1000000 + b4 * 0x100000000 + b5 * 0x10000000000
        + b6 * 0x1000000000000 + b7 * 0x100000000000000
}

fn read_enum_record(buffer: &Vec<u8>, i: usize) -> (r: EnumServiceStatusProcess)
    requires
        i * 56 + 56 <= buffer@.len(),
    ensures
        r == spec_enum_record_at(buffer@, i as int),
{
    let _len: usize = buffer.len();
    let base = i * 56;
    EnumServiceStatusProcess {
        name_ref: read_le_u64(buffer, base),
        display_name_ref: read_le_u64(buffer, base + 8),
        status: RawServiceStatusProcess {
            service_type: read_le_u32(buffer, base + 16),
            current_state: read_le_u32(buffer, base + 20),
            controls_accepted: read_le_u32(buffer, base + 24),
            win32_exit_code: read_le_u32(buffer, base + 28),
            service_specific_exit_code: read_le_u32(buffer, base + 32),
            checkpoint: read_le_u32(buffer, base + 36),
            wait_hint: read_le_u32(buffer, base + 40),
            process_id: read_le_u32(buffer, base + 44),
            service_flags: read_le_u32(buffer, base + 48),
        },
    }
}

/// The filled enumeration buffer, exposed as a bounds-checked sequence of
/// fixed-size records addressed by byte offset. The buffer is arena
/// storage; each record is decoded at `index * record size` and no read
/// ever goes past the bytes the buffer holds, whatever count the manager
/// reported.
pub struct EnumListServiceResult {
    buffer: Vec<u8>,
    index: usize,
    size: usize,
}

impl EnumListServiceResult {
    /// The bytes of the buffer.
    pub closed spec fn spec_buffer(&self) -> Seq<u8> {
        self.buffer@
    }

    /// The index of the next record to hand out.
    pub closed spec fn spec_index(&self) -> int {
        self.index as int
    }

    /// The record count the manager reported.
    pub closed spec fn spec_size(&self) -> int {
        self.size as int
    }

    /// Wrap a filled buffer together with the record count the second
    /// enumeration call reported.
    pub fn from_raw(buffer: Vec<u8>, size: u32) -> (r: EnumListServiceResult)
        ensures
            r.spec_buffer() == buffer@,
            r.spec_index() == 0,
            r.spec_size() == size as int,
    {
        EnumListServiceResult { buffer, index: 0, size: size as usize }
    }

    /// Hand out the next record, if the reported count has not run out and
    /// the buffer actually holds all of the record's bytes.
    pub fn next(&mut self) -> (r: Option<EnumServiceStatusProcess>)
        ensures
            final(self).spec_buffer() == old(self).spec_buffer(),
            final(self).spec_size() == old(self).spec_size(),
            match r {
                Some(rec) => old(self).spec_index() < old(self).spec_size()
                    && (old(self).spec_index() + 1) * 56 <= old(self).spec_buffer().len()
                    && rec == spec_enum_record_at(old(self).spec_buffer(), old(self).spec_index())
                    && final(self).spec_index() == old(self).spec_index() + 1,
                None => (old(self).spec_index() >= old(self).spec_size()
                    || (old(self).spec_index() + 1) * 56 > old(self).spec_buffer().len())
                    && final(self).spec_index() == old(self).spec_index(),
            },
    {
        if self.index < self.size && self.index < self.buffer.len() / 56 {
            proof {
                assert((self.index + 1) * 56 <= self.buffer@.len()) by (nonlinear_arith)
                    requires (self.index as int) < self.buffer@.len() as int / 56
                ;
            }
            let rec = read_enum_record(&self.buffer, self.index);
            self.index = self.index + 1;
            Some(rec)
        } else {
            proof {
                if self.index as int >= self.buffer@.len() as int / 56 {
                    assert((self.index + 1) * 56 > self.buffer@.len()) by (nonlinear_arith)
                        requires (self.index as int) >= self.buffer@.len() as int / 56
                    ;
                }
            }
            None
        }
    }

    /// Decode every exposable record in order: one per reported record,
    /// stopping early if the buffer runs out of whole records.
    pub fn into_records(self) -> (r: Vec<EnumServiceStatusProcess>)
        requires
            self.spec_index() == 0,
        ensures
            r@.len() == spec_enum_record_capacity(self.spec_size(), self.spec_buffer().len() as int),
            forall|i: int| 0 <= i < r@.len() ==> r@[i] == spec_enum_record_at(
                self.spec_buffer(),
                i,
            ),
    {
        let whole = self.buffer.len() / 56;
        let count = if self.size <= whole {
            self.size
        } else {
            whole
        };
        let mut out: Vec<EnumServiceStatusProcess> = Vec::new();
        let mut i: usize = 0;
        while i < count
            invariant
                count as int == spec_enum_record_capacity(self.spec_size(), self.spec_buffer().len() as int),
                count * 56 <= self.spec_buffer().len(),
                0 <= i <= count,
                out@.len() == i as int,
                forall|j: int| 0 <= j < i as int ==> out@[j] == spec_enum_record_at(
                    self.spec_buffer(),
                    j,
                ),
            decreases count - i,
        {
            proof {
                assert((i + 1) * 56 <= count * 56) by (nonlinear_arith)
                    requires (i as int) < count as int
                ;
            }
            let rec = read_enum_record(&self.buffer, i);
            out.push(rec);
            i = i + 1;
        }
        out
    }
}

// ---------------------------------------------------------------------------
// Caller-supplied service descriptions and enumeration output records.
// ---------------------------------------------------------------------------

/// What a caller supplies to register a new service.
#[derive(Debug, Clone)]
pub struct ServiceInfo {
    /// Service name.
    pub name: String,
    /// User-friendly service name.
    pub display_name: String,
    /// The service type.
    pub service_type: ServiceType,
    /// The service startup options.
    pub start_type: ServiceStartType,
    /// The severity of the error, and action taken, if this service fails
    /// to start.
    pub error_control: ServiceErrorControl,
    /// Path to the service binary.
    pub executable_path: String,
    /// Launch arguments passed to the service's entry point when the
    /// system starts it.
    pub launch_arguments: Vec<String>,
    /// Account to use for running the service; `None` runs it as the
    /// local system account.
    pub account_name: Option<String>,
    /// Account password; for system accounts this is normally `None`.
    pub account_password: Option<String>,
}

/// The enumeration's per-service output record. The optional
/// configuration fields are present together or absent together: they come
/// from one secondary query per service, and when that query fails the
/// record degrades to status only, with a diagnostic in `binary_path`.
#[derive(Debug, Clone)]
pub struct ServiceDetail {
    pub status: ServiceStatusExt,
    pub name: String,
    pub display_name: String,
    pub binary_path: Option<String>,
    pub start_type: Option<ServiceStartType>,
    pub error_control: Option<ServiceErrorControl>,
    pub load_order_group: Option<String>,
    pub tag_id: Option<u32>,
    pub dependencies: Option<String>,
    pub start_name: Option<String>,
}

/// Law: the checkpoint survives a status encode/decode round trip
/// unchanged, and so does the wait hint when it holds a whole number of
/// seconds that fits the wire field; a finer-grained hint loses its
/// sub-second part on the outbound path by design.
pub proof fn lemma_status_round_trip_checkpoint_wait_hint(s: ServiceStatus)
    requires
        s.wait_hint.millis % 1000 == 0,
        s.wait_hint.millis <= u32::MAX,
    ensures
        spec_status_from_raw(spec_status_to_raw(s)) matches Ok(d)
            && d.checkpoint == s.checkpoint
            && d.wait_hint == s.wait_hint,
{
    let raw = spec_status_to_raw(s);
    assert(is_known_state_code(raw.current_state));
    assert((s.wait_hint.millis / 1000) * 1000 == s.wait_hint.millis) by (nonlinear_arith)
        requires s.wait_hint.millis % 1000 == 0
    ;
}

} // verus!

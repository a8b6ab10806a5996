//! The manager-level logic: validating and encoding what the connect,
//! create and open operations send, building the launch command line, and
//! the decision and assembly logic of the two-phase enumeration protocol.
//!
//! The privileged calls themselves live outside this crate; every function
//! here maps plain values to plain values, so a caller performs a call and
//! hands its outcome back to the next function.

use vstd::prelude::*;

use crate::codes::ERROR_MORE_DATA;
use crate::error::{EnumKind, FieldName, ServiceError};
use crate::service::{
    spec_error_control_from_raw, spec_error_control_to_raw, spec_service_type_to_raw,
    spec_start_type_from_raw, spec_start_type_to_raw, spec_status_ext_from_raw, ServiceDetail,
    ServiceInfo, ServiceStatusExt, ServiceType, ServiceStartType, ServiceErrorControl,
    RawServiceStatusProcess,
};
use crate::text::{
    check_no_nul, escape_token, no_interior_nul, no_nul, utf16_encode, utf16_of, win_escaped_of,
};
use vstd::pervasive::unreached;

verus! {

// ---------------------------------------------------------------------------
// The sizing probe.
// ---------------------------------------------------------------------------

/// What the enumeration protocol does after its zero-buffer sizing probe.
#[derive(Debug, Clone, Copy, PartialEq, Eq, Structural)]
pub enum ProbeDecision {
    /// There are no services: the result is an empty list, not an error.
    NoServices,
    /// Allocate exactly this many bytes and repeat the call.
    Fill(u32),
    /// A real platform error; carries the last platform error code.
    Fail(u32),
}

pub open spec fn spec_probe_decision(call_succeeded: bool, last_error: u32, bytes_needed: u32)
    -> ProbeDecision {
    if call_succeeded {
        ProbeDecision::NoServices
    } else if last_error == ERROR_MORE_DATA {
        if bytes_needed == 0 {
            ProbeDecision::NoServices
        } else {
            ProbeDecision::Fill(bytes_needed)
        }
    } else {
        ProbeDecision::Fail(last_error)
    }
}

/// Interpret the outcome of the zero-buffer sizing probe. The probe is
/// expected to fail with the more-data signal while reporting the bytes
/// needed; an outright success means nothing needed reporting, a more-data
/// signal with zero bytes needed is treated as zero services, and any
/// other signal is a real error that aborts the whole enumeration.
pub fn probe_decision(call_succeeded: bool, last_error: u32, bytes_needed: u32)
    -> (r: ProbeDecision)
    ensures
        r == spec_probe_decision(call_succeeded, last_error, bytes_needed),
{
    if call_succeeded {
        ProbeDecision::NoServices
    } else if last_error == ERROR_MORE_DATA {
        if bytes_needed == 0 {
            ProbeDecision::NoServices
        } else {
            ProbeDecision::Fill(bytes_needed)
        }
    } else {
        ProbeDecision::Fail(last_error)
    }
}

/// Whether a service's secondary configuration probe reported enough bytes
/// to fetch the configuration; zero bytes needed means the query failed
/// and the record degrades instead of aborting the enumeration.
pub fn config_fetch_decision(bytes_needed: u32) -> (r: bool)
    ensures
        r == (bytes_needed > 0),
{
    bytes_needed > 0
}

// ---------------------------------------------------------------------------
// Per-service assembly of the enumeration output.
// ---------------------------------------------------------------------------

/// One service as the filled enumeration buffer reports it, with the
/// manager's string references already resolved to text.
#[derive(Debug, Clone)]
pub struct EnumServiceEntry {
    pub name: String,
    pub display_name: String,
    pub status: RawServiceStatusProcess,
}

/// A service's configuration as the secondary query reports it.
#[derive(Debug, Clone)]
pub struct RawServiceConfig {
    pub service_type: u32,
    pub start_type: u32,
    pub error_control: u32,
    pub binary_path: String,
    pub load_order_group: String,
    pub tag_id: u32,
    pub dependencies: String,
    pub start_name: String,
    pub display_name: String,
}

/// How one service's secondary configuration query went: either its
/// configuration, or a diagnostic describing the failure.
#[derive(Debug, Clone)]
pub enum ConfigQueryOutcome {
    Fetched(RawServiceConfig),
    Failed(String),
}

/// The detail record one entry and its configuration outcome assemble to:
/// a fetched configuration fills every optional field, a failed query
/// degrades the record to status only with the diagnostic in
/// `binary_path`; a strict decoder meeting an unknown code aborts with
/// that error.
pub open spec fn spec_detail_result(e: EnumServiceEntry, o: ConfigQueryOutcome)
    -> Result<ServiceDetail, ServiceError> {
    match spec_status_ext_from_raw(e.status) {
        Err(err) => Err(err),
        Ok(status) => match o {
            ConfigQueryOutcome::Fetched(c) => {
                if spec_start_type_from_raw(c.start_type) is None {
                    Err(ServiceError::InvalidEnumValue(EnumKind::StartType, c.start_type))
                } else if spec_error_control_from_raw(c.error_control) is None {
                    Err(ServiceError::InvalidEnumValue(EnumKind::ErrorControl, c.error_control))
                } else {
                    Ok(ServiceDetail {
                        status,
                        name: e.name,
                        display_name: e.display_name,
                        binary_path: Some(c.binary_path),
                        start_type: Some(spec_start_type_from_raw(c.start_type)->Some_0),
                        error_control: Some(spec_error_control_from_raw(c.error_control)->Some_0),
                        load_order_group: Some(c.load_order_group),
                        tag_id: Some(c.tag_id),
                        dependencies: Some(c.dependencies),
                        start_name: Some(c.start_name),
                    })
                }
            },
            ConfigQueryOutcome::Failed(diagnostic) => Ok(ServiceDetail {
                status,
                name: e.name,
                display_name: e.display_name,
                binary_path: Some(diagnostic),
                start_type: None,
                error_control: None,
                load_order_group: None,
                tag_id: None,
                dependencies: None,
                start_name: None,
            }),
        },
    }
}

/// Assemble one service's detail record from its enumeration entry and the
/// outcome of its secondary configuration query.
pub fn detail_from_entry(entry: EnumServiceEntry, outcome: ConfigQueryOutcome)
    -> (r: Result<ServiceDetail, ServiceError>)
    ensures
        r == spec_detail_result(entry, outcome),
{
    let status = match ServiceStatusExt::from_raw(entry.status) {
        Ok(s) => s,
        Err(e) => { return Err(e); },
    };
    match outcome {
        ConfigQueryOutcome::Fetched(c) => {
            let start_type = match ServiceStartType::from_raw(c.start_type) {
                Ok(t) => t,
                Err(e) => { return Err(e); },
            };
            let error_control = match ServiceErrorControl::from_raw(c.error_control) {
                Ok(t) => t,
                Err(e) => { return Err(e); },
            };
            Ok(ServiceDetail {
                status,
                name: entry.name,
                display_name: entry.display_name,
                binary_path: Some(c.binary_path),
                start_type: Some(start_type),
                error_control: Some(error_control),
                load_order_group: Some(c.load_order_group),
                tag_id: Some(c.tag_id),
                dependencies: Some(c.dependencies),
                start_name: Some(c.start_name),
            })
        },
        ConfigQueryOutcome::Failed(diagnostic) => Ok(ServiceDetail {
            status,
            name: entry.name,
            display_name: entry.display_name,
            binary_path: Some(diagnostic),
            start_type: None,
            error_control: None,
            load_order_group: None,
            tag_id: None,
            dependencies: None,
            start_name: None,
        }),
    }
}

/// The detail records assembled from the first `n` entries, or the first
/// decode error among them.
pub open spec fn spec_collect_details(
    entries: Seq<EnumServiceEntry>,
    outcomes: Seq<ConfigQueryOutcome>,
    n: int,
) -> Result<Seq<ServiceDetail>, ServiceError>
    decreases n,
{
    if n <= 0 {
        Ok(Seq::empty())
    } else {
        match spec_collect_details(entries, outcomes, n - 1) {
            Err(e) => Err(e),
            Ok(l) => match spec_detail_result(entries[n - 1], outcomes[n - 1]) {
                Err(e) => Err(e),
                Ok(d) => Ok(l.push(d)),
            },
        }
    }
}

/// Assemble the whole enumeration output: one detail record per service,
/// in order. A failed secondary query degrades only its own record; only a
/// strict decoder meeting an unknown code aborts the whole list, with the
/// first such error.
pub fn collect_service_details(
    entries: &Vec<EnumServiceEntry>,
    outcomes: &Vec<ConfigQueryOutcome>,
) -> (r: Result<Vec<ServiceDetail>, ServiceError>)
    requires
        entries@.len() == outcomes@.len(),
    ensures
        match r {
            Ok(l) => spec_collect_details(entries@, outcomes@, entries@.len() as int)
                == Ok::<Seq<ServiceDetail>, ServiceError>(l@),
            Err(e) => spec_collect_details(entries@, outcomes@, entries@.len() as int)
                == Err::<Seq<ServiceDetail>, ServiceError>(e),
        },
{
    let n: usize = entries.len();
    let mut details: Vec<ServiceDetail> = Vec::new();
    let mut i: usize = 0;
    while i < n
        invariant
            n as int == entries@.len(),
            entries@.len() == outcomes@.len(),
            0 <= i <= n,
            spec_collect_details(entries@, outcomes@, i as int)
                == Ok::<Seq<ServiceDetail>, ServiceError>(details@),
        decreases n - i,
    {
        let entry = clone_entry(&entries[i]);
        let outcome = clone_outcome(&outcomes[i]);
        match detail_from_entry(entry, outcome) {
            Ok(d) => { details.push(d); },
            Err(e) => {
                proof {
                    assert(spec_collect_details(entries@, outcomes@, i as int + 1)
                        == Err::<Seq<ServiceDetail>, ServiceError>(e));
                    lemma_collect_error_persists(entries@, outcomes@, i as int + 1,
                        entries@.len() as int);
                }
                return Err(e);
            },
        }
        i = i + 1;
    }
    Ok(details)
}

/// An owned copy of one enumeration entry.
fn clone_entry(e: &EnumServiceEntry) -> (r: EnumServiceEntry)
    ensures
        r == *e,
{
    EnumServiceEntry {
        name: e.name.clone(),
        display_name: e.display_name.clone(),
        status: e.status,
    }
}

/// An owned copy of one configuration-query outcome.
fn clone_outcome(o: &ConfigQueryOutcome) -> (r: ConfigQueryOutcome)
    ensures
        r == *o,
{
    match o {
        ConfigQueryOutcome::Fetched(c) => ConfigQueryOutcome::Fetched(RawServiceConfig {
            service_type: c.service_type,
            start_type: c.start_type,
            error_control: c.error_control,
            binary_path: c.binary_path.clone(),
            load_order_group: c.load_order_group.clone(),
            tag_id: c.tag_id,
            dependencies: c.dependencies.clone(),
            start_name: c.start_name.clone(),
            display_name: c.display_name.clone(),
        }),
        ConfigQueryOutcome::Failed(diagnostic) => ConfigQueryOutcome::Failed(diagnostic.clone()),
    }
}

/// Once a prefix of the assembly has failed, every longer prefix fails
/// with the same error.
proof fn lemma_collect_error_persists(
    entries: Seq<EnumServiceEntry>,
    outcomes: Seq<ConfigQueryOutcome>,
    j: int,
    m: int,
)
    requires
        0 <= j <= m,
        spec_collect_details(entries, outcomes, j) is Err,
    ensures
        spec_collect_details(entries, outcomes, m) == spec_collect_details(entries, outcomes, j),
    decreases m - j,
{
    if j < m {
        lemma_collect_error_persists(entries, outcomes, j, m - 1);
    }
}

/// Law: when every record decodes, enumeration yields exactly one detail
/// record per service, each assembled from its own entry and outcome.
pub proof fn lemma_collect_all_decode(
    entries: Seq<EnumServiceEntry>,
    outcomes: Seq<ConfigQueryOutcome>,
    n: int,
)
    requires
        entries.len() == outcomes.len(),
        0 <= n <= entries.len(),
        forall|i: int| 0 <= i < entries.len() ==> spec_detail_result(entries[i], outcomes[i]) is Ok,
    ensures
        spec_collect_details(entries, outcomes, n) matches Ok(l) && l.len() == n
            && forall|i: int| 0 <= i < n ==> l[i] == spec_detail_result(
                entries[i],
                outcomes[i],
            )->Ok_0,
    decreases n,
{
    if n > 0 {
        lemma_collect_all_decode(entries, outcomes, n - 1);
    }
}

/// Law: when one of the services' secondary configuration queries fails
/// and every record decodes, the list still holds one record per service;
/// exactly the failed one is degraded, its configuration fields absent and
/// its binary path carrying the diagnostic, while every other record is
/// fully populated.
pub proof fn lemma_one_failed_query_degrades_one(
    entries: Seq<EnumServiceEntry>,
    outcomes: Seq<ConfigQueryOutcome>,
    k: int,
)
    requires
        entries.len() == outcomes.len(),
        0 <= k < entries.len(),
        forall|i: int| 0 <= i < entries.len() ==> spec_detail_result(entries[i], outcomes[i]) is Ok,
        outcomes[k] is Failed,
        forall|i: int| 0 <= i < entries.len() && i != k ==> outcomes[i] is Fetched,
    ensures
        spec_collect_details(entries, outcomes, entries.len() as int) matches Ok(l)
            && l.len() == entries.len()
            && l[k].start_type is None
            && l[k].error_control is None
            && l[k].load_order_group is None
            && l[k].tag_id is None
            && l[k].dependencies is None
            && l[k].start_name is None
            && l[k].binary_path == Some(outcomes[k]->Failed_0)
            && forall|i: int| 0 <= i < entries.len() && i != k ==> l[i].start_type is Some
                && l[i].error_control is Some
                && l[i].load_order_group is Some
                && l[i].tag_id is Some
                && l[i].dependencies is Some
                && l[i].start_name is Some
                && l[i].binary_path == Some(outcomes[i]->Fetched_0.binary_path),
{
    lemma_collect_all_decode(entries, outcomes, entries.len() as int);
}

// ---------------------------------------------------------------------------
// Encoding caller-supplied text and building the launch command.
// ---------------------------------------------------------------------------

/// Encode an optional string as wide text: `None` passes through, and a
/// present string must carry no interior nul; the error carries the
/// position of the offending nul unit.
pub fn to_wide(s: &Option<String>) -> (r: Result<Option<Vec<u16>>, usize>)
    ensures
        match r {
            Ok(w) => match *s {
                Option::None => w is None,
                Option::Some(ref t) => {
                    &&& no_interior_nul(t@)
                    &&& w matches Some(v) && v@ == utf16_of(t@)
                },
            },
            Err(_) => s matches Some(t) && !no_interior_nul(t@),
        },
{
    match s {
        Option::Some(t) => match utf16_encode(t.as_str()) {
            Ok(v) => Ok(Some(v)),
            Err(p) => Err(p),
        },
        Option::None => Ok(None),
    }
}

/// The base of the launch command: a kernel driver's path is used verbatim
/// and unescaped, because the manager does not parse a driver's launch
/// string as a shell command; every other role gets the escaped path.
pub open spec fn spec_escaped_base(service_type: ServiceType, path: Seq<char>) -> Seq<char> {
    if service_type == ServiceType::KernelDriver {
        path
    } else {
        win_escaped_of(path)
    }
}

/// The base followed by each escaped argument, space-separated.
pub open spec fn spec_joined_command(base: Seq<char>, args: Seq<Seq<char>>) -> Seq<char>
    decreases args.len(),
{
    if args.len() == 0 {
        base
    } else {
        spec_joined_command(base, args.drop_last()) + seq![' '] + win_escaped_of(args.last())
    }
}

/// The single command string a service's path and launch arguments
/// combine into.
pub open spec fn spec_launch_command(
    service_type: ServiceType,
    path: Seq<char>,
    args: Seq<Seq<char>>,
) -> Seq<char> {
    spec_joined_command(spec_escaped_base(service_type, path), args)
}

/// Law: a kernel driver's launch command is its path, verbatim and
/// unescaped, whatever characters the path holds.
pub proof fn lemma_kernel_driver_path_verbatim(path: Seq<char>)
    ensures
        spec_launch_command(ServiceType::KernelDriver, path, Seq::empty()) == path,
{
}

/// Escape the executable path and each launch argument and join them,
/// space-separated, into the single launch command; a kernel driver's path
/// goes in verbatim. Every token must be entirely free of nul characters.
pub fn launch_command(
    service_type: ServiceType,
    executable_path: &String,
    launch_arguments: &Vec<String>,
) -> (r: Result<String, ServiceError>)
    ensures
        match r {
            Ok(cmd) => no_nul(executable_path@) && (forall|i: int|
                0 <= i < launch_arguments@.len() ==> no_nul(launch_arguments@[i]@)) && cmd@
                == spec_launch_command(
                    service_type,
                    executable_path@,
                    launch_arguments.deep_view(),
                ) && no_nul(cmd@),
            Err(e) => {
                ||| (e == ServiceError::InvalidField(FieldName::ExecutablePath)
                    && !no_nul(executable_path@))
                ||| (e == ServiceError::InvalidField(FieldName::LaunchArgument)
                    && no_nul(executable_path@) && exists|i: int|
                    0 <= i < launch_arguments@.len() && !no_nul(launch_arguments@[i]@))
            },
        },
{
    if !check_no_nul(executable_path.as_str()) {
        return Err(ServiceError::InvalidField(FieldName::ExecutablePath));
    }
    let is_kernel_driver = match service_type {
        ServiceType::KernelDriver => true,
        _ => false,
    };
    let mut cmd: String = if is_kernel_driver {
        executable_path.clone()
    } else {
        escape_token(executable_path.as_str())
    };
    let ghost base = cmd@;
    assert(base == spec_escaped_base(service_type, executable_path@));
    let n: usize = launch_arguments.len();
    let mut i: usize = 0;
    while i < n
        invariant
            n as int == launch_arguments@.len(),
            0 <= i <= n,
            no_nul(executable_path@),
            base == spec_escaped_base(service_type, executable_path@),
            forall|j: int| 0 <= j < i as int ==> no_nul(launch_arguments@[j]@),
            cmd@ == spec_joined_command(base, launch_arguments.deep_view().take(i as int)),
            no_nul(cmd@),
        decreases n - i,
    {
        let arg = &launch_arguments[i];
        if !check_no_nul(arg.as_str()) {
            return Err(ServiceError::InvalidField(FieldName::LaunchArgument));
        }
        let escaped = escape_token(arg.as_str());
        let ghost cmd_before = cmd@;
        cmd.append(" ");
        cmd.append(escaped.as_str());
        proof {
            reveal_strlit(" ");
            let dv = launch_arguments.deep_view();
            assert(dv[i as int] == launch_arguments@[i as int]@);
            assert(dv.take(i as int + 1).drop_last() =~= dv.take(i as int));
            assert(dv.take(i as int + 1).last() == dv[i as int]);
            assert(" "@ =~= seq![' ']);
            assert(cmd@ =~= cmd_before + seq![' '] + win_escaped_of(dv[i as int]));
            assert(cmd@ == spec_joined_command(base, dv.take(i as int + 1)));
            assert forall|j: int| 0 <= j < cmd@.len() implies cmd@[j] != '\0' by {
                if j < cmd_before.len() {
                    assert(cmd@[j] == cmd_before[j]);
                } else if j == cmd_before.len() {
                    assert(cmd@[j] == ' ');
                } else {
                    assert(cmd@[j] == win_escaped_of(dv[i as int])[j - cmd_before.len() - 1]);
                }
            }
        }
        i = i + 1;
    }
    proof {
        assert(launch_arguments.deep_view().take(n as int) =~= launch_arguments.deep_view());
    }
    Ok(cmd)
}

// ---------------------------------------------------------------------------
// The requests the manager-level operations send.
// ---------------------------------------------------------------------------

/// What a connect operation hands to the platform: the optional machine
/// and database names as wide text. `None` for the machine means the local
/// host; `None` for the database means the active database.
pub struct ConnectRequest {
    pub machine: Option<Vec<u16>>,
    pub database: Option<Vec<u16>>,
}

/// Validate and encode a connect operation's names.
pub fn connect_request(machine: &Option<String>, database: &Option<String>)
    -> (r: Result<ConnectRequest, ServiceError>)
    ensures
        match r {
            Ok(req) => (match *machine {
                Option::None => req.machine is None,
                Option::Some(ref t) => {
                    &&& no_interior_nul(t@)
                    &&& req.machine matches Some(v) && v@ == utf16_of(t@)
                },
            }) && (match *database {
                Option::None => req.database is None,
                Option::Some(ref t) => {
                    &&& no_interior_nul(t@)
                    &&& req.database matches Some(v) && v@ == utf16_of(t@)
                },
            }),
            Err(e) => {
                ||| {
                    &&& e == ServiceError::InvalidField(FieldName::MachineName)
                    &&& machine matches Some(t) && !no_interior_nul(t@)
                }
                ||| {
                    &&& e == ServiceError::InvalidField(FieldName::DatabaseName)
                    &&& (machine matches Some(t) ==> no_interior_nul(t@))
                    &&& database matches Some(t) && !no_interior_nul(t@)
                }
            },
        },
{
    let machine_wide = match to_wide(machine) {
        Ok(w) => w,
        Err(_) => { return Err(ServiceError::InvalidField(FieldName::MachineName)); },
    };
    let database_wide = match to_wide(database) {
        Ok(w) => w,
        Err(_) => { return Err(ServiceError::InvalidField(FieldName::DatabaseName)); },
    };
    Ok(ConnectRequest { machine: machine_wide, database: database_wide })
}

/// Validate and encode the name of a service to open.
pub fn open_service_request(name: &String) -> (r: Result<Vec<u16>, ServiceError>)
    ensures
        match r {
            Ok(v) => no_interior_nul(name@) && v@ == utf16_of(name@),
            Err(e) => !no_interior_nul(name@) && e == ServiceError::InvalidField(
                FieldName::ServiceName,
            ),
        },
{
    match utf16_encode(name.as_str()) {
        Ok(v) => Ok(v),
        Err(_) => Err(ServiceError::InvalidField(FieldName::ServiceName)),
    }
}

/// What a create operation hands to the platform: every caller-supplied
/// string validated and encoded as wide text, the launch command already
/// escaped and joined, and the three policy codes re-encoded for the wire.
pub struct CreateServiceRequest {
    pub name: Vec<u16>,
    pub display_name: Vec<u16>,
    pub account_name: Option<Vec<u16>>,
    pub account_password: Option<Vec<u16>>,
    pub launch_command: Vec<u16>,
    pub service_type: u32,
    pub start_type: u32,
    pub error_control: u32,
}

/// The first field of a service description that cannot be encoded, if
/// any, in the order the create operation checks them.
pub open spec fn spec_create_error(info: ServiceInfo) -> Option<ServiceError> {
    if !no_interior_nul(info.name@) {
        Some(ServiceError::InvalidField(FieldName::ServiceName))
    } else if !no_interior_nul(info.display_name@) {
        Some(ServiceError::InvalidField(FieldName::DisplayName))
    } else if !(info.account_name matches Some(t) ==> no_interior_nul(t@)) {
        Some(ServiceError::InvalidField(FieldName::AccountName))
    } else if !(info.account_password matches Some(t) ==> no_interior_nul(t@)) {
        Some(ServiceError::InvalidField(FieldName::AccountPassword))
    } else if !no_nul(info.executable_path@) {
        Some(ServiceError::InvalidField(FieldName::ExecutablePath))
    } else if exists|i: int|
        0 <= i < info.launch_arguments@.len() && !no_nul(info.launch_arguments@[i]@) {
        Some(ServiceError::InvalidField(FieldName::LaunchArgument))
    } else {
        None
    }
}

/// Validate and encode everything a create operation sends: each string
/// field is checked and encoded, and the executable path and launch
/// arguments are escaped and joined into the launch command, except that a
/// kernel driver's path is used verbatim.
///
/// A field that becomes a standalone nul-terminated string tolerates one
/// trailing nul, which merges with its terminator; a command token cannot,
/// because other tokens follow it inside one string.
pub fn create_service_request(service_info: ServiceInfo)
    -> (r: Result<CreateServiceRequest, ServiceError>)
    ensures
        match r {
            Ok(req) => spec_create_error(service_info) is None
                && req.name@ == utf16_of(service_info.name@)
                && req.display_name@ == utf16_of(service_info.display_name@)
                && (match service_info.account_name {
                    Option::None => req.account_name is None,
                    Option::Some(ref t) => req.account_name matches Some(v) && v@
                        == utf16_of(t@),
                })
                && (match service_info.account_password {
                    Option::None => req.account_password is None,
                    Option::Some(ref t) => req.account_password matches Some(v) && v@
                        == utf16_of(t@),
                })
                && req.launch_command@ == utf16_of(spec_launch_command(
                    service_info.service_type,
                    service_info.executable_path@,
                    service_info.launch_arguments.deep_view(),
                ))
                && req.service_type == spec_service_type_to_raw(service_info.service_type)
                && req.start_type == spec_start_type_to_raw(service_info.start_type)
                && req.error_control == spec_error_control_to_raw(service_info.error_control),
            Err(e) => spec_create_error(service_info) == Some(e),
        },
{
    let name = match utf16_encode(service_info.name.as_str()) {
        Ok(v) => v,
        Err(_) => { return Err(ServiceError::InvalidField(FieldName::ServiceName)); },
    };
    let display_name = match utf16_encode(service_info.display_name.as_str()) {
        Ok(v) => v,
        Err(_) => { return Err(ServiceError::InvalidField(FieldName::DisplayName)); },
    };
    let account_name = match to_wide(&service_info.account_name) {
        Ok(w) => w,
        Err(_) => { return Err(ServiceError::InvalidField(FieldName::AccountName)); },
    };
    let account_password = match to_wide(&service_info.account_password) {
        Ok(w) => w,
        Err(_) => { return Err(ServiceError::InvalidField(FieldName::AccountPassword)); },
    };
    let cmd = match launch_command(
        service_info.service_type,
        &service_info.executable_path,
        &service_info.launch_arguments,
    ) {
        Ok(c) => c,
        Err(e) => { return Err(e); },
    };
    let launch_command_wide = match utf16_encode(cmd.as_str()) {
        Ok(v) => v,
        Err(_) => unreached(),
    };
    Ok(CreateServiceRequest {
        name,
        display_name,
        account_name,
        account_password,
        launch_command: launch_command_wide,
        service_type: service_info.service_type.to_raw(),
        start_type: service_info.start_type.to_raw(),
        error_control: service_info.error_control.to_raw(),
    })
}

} // verus!

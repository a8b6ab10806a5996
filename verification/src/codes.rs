//! Numeric codes of the control manager's wire protocol.
//!
//! These are the fixed values the protocol assigns to service roles, start
//! policies, error-control policies, run states, control commands, accepted
//! control bits, access rights, and the few distinguished error codes the
//! enumeration protocol interprets.

use vstd::prelude::*;

verus! {

// Service role codes.
pub const SERVICE_KERNEL_DRIVER: u32 = 0x1;
pub const SERVICE_FILE_SYSTEM_DRIVER: u32 = 0x2;
pub const SERVICE_ADAPTER: u32 = 0x4;
pub const SERVICE_RECOGNIZER_DRIVER: u32 = 0x8;
pub const SERVICE_WIN32_OWN_PROCESS: u32 = 0x10;
pub const SERVICE_WIN32_SHARE_PROCESS: u32 = 0x20;
pub const SERVICE_USER_SERVICE: u32 = 0x40;
pub const SERVICE_USERSERVICE_INSTANCE: u32 = 0x80;
pub const SERVICE_INTERACTIVE_PROCESS: u32 = 0x100;
pub const SERVICE_PKG_SERVICE: u32 = 0x200;

/// The sentinel this client re-encodes an unrecognized service role as.
pub const SERVICE_TYPE_UNRECOGNIZED: u32 = 288;

/// Class mask selecting ordinary (own- or shared-process) services.
pub const SERVICE_WIN32: u32 = 0x30;

/// Class mask selecting driver services.
pub const SERVICE_DRIVER: u32 = 0xB;

// Start policy codes.
pub const SERVICE_BOOT_START: u32 = 0;
pub const SERVICE_SYSTEM_START: u32 = 1;
pub const SERVICE_AUTO_START: u32 = 2;
pub const SERVICE_DEMAND_START: u32 = 3;
pub const SERVICE_DISABLED: u32 = 4;

// Error-control policy codes.
pub const SERVICE_ERROR_IGNORE: u32 = 0;
pub const SERVICE_ERROR_NORMAL: u32 = 1;
pub const SERVICE_ERROR_SEVERE: u32 = 2;
pub const SERVICE_ERROR_CRITICAL: u32 = 3;

// Run state codes.
pub const SERVICE_STOPPED: u32 = 1;
pub const SERVICE_START_PENDING: u32 = 2;
pub const SERVICE_STOP_PENDING: u32 = 3;
pub const SERVICE_RUNNING: u32 = 4;
pub const SERVICE_CONTINUE_PENDING: u32 = 5;
pub const SERVICE_PAUSE_PENDING: u32 = 6;
pub const SERVICE_PAUSED: u32 = 7;

// Control command codes.
pub const SERVICE_CONTROL_STOP: u32 = 1;
pub const SERVICE_CONTROL_PAUSE: u32 = 2;
pub const SERVICE_CONTROL_CONTINUE: u32 = 3;
pub const SERVICE_CONTROL_INTERROGATE: u32 = 4;
pub const SERVICE_CONTROL_SHUTDOWN: u32 = 5;
pub const SERVICE_CONTROL_PARAMCHANGE: u32 = 6;
pub const SERVICE_CONTROL_NETBINDADD: u32 = 7;
pub const SERVICE_CONTROL_NETBINDREMOVE: u32 = 8;
pub const SERVICE_CONTROL_NETBINDENABLE: u32 = 9;
pub const SERVICE_CONTROL_NETBINDDISABLE: u32 = 10;
pub const SERVICE_CONTROL_PRESHUTDOWN: u32 = 0xF;

// Accepted-control bits.
pub const SERVICE_ACCEPT_STOP: u32 = 0x1;
pub const SERVICE_ACCEPT_PAUSE_CONTINUE: u32 = 0x2;
pub const SERVICE_ACCEPT_SHUTDOWN: u32 = 0x4;
pub const SERVICE_ACCEPT_PARAMCHANGE: u32 = 0x8;
pub const SERVICE_ACCEPT_NETBINDCHANGE: u32 = 0x10;
pub const SERVICE_ACCEPT_PRESHUTDOWN: u32 = 0x100;

/// Every accepted-control bit this client knows.
pub const SERVICE_ACCEPT_KNOWN_MASK: u32 = 0x11F;

// Access rights for a service handle.
pub const SERVICE_QUERY_STATUS: u32 = 0x4;
pub const SERVICE_START: u32 = 0x10;
pub const SERVICE_STOP: u32 = 0x20;
pub const SERVICE_PAUSE_CONTINUE: u32 = 0x40;
pub const SERVICE_INTERROGATE: u32 = 0x80;
pub const DELETE: u32 = 0x10000;

// Access rights for a manager handle.
pub const SC_MANAGER_CONNECT: u32 = 0x1;
pub const SC_MANAGER_CREATE_SERVICE: u32 = 0x2;
pub const SC_MANAGER_ENUMERATE_SERVICE: u32 = 0x4;
pub const SC_MANAGER_ALL_ACCESS: u32 = 0xF003F;

// Enumeration call parameters.
pub const SC_ENUM_PROCESS_INFO: u32 = 0;
pub const SERVICE_STATE_ALL: u32 = 0x3;

// Distinguished platform error codes.
pub const NO_ERROR: u32 = 0;
pub const ERROR_MORE_DATA: u32 = 234;

/// Sentinel in the primary exit-code field meaning "see the secondary field".
pub const ERROR_SERVICE_SPECIFIC_ERROR: u32 = 1066;

} // verus!

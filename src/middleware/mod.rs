use vstd::prelude::*;

use crate::logging::LogLevel;

pub mod trace;
pub mod trace_body;

verus! {

/// Span field that carries the peer address of the TCP connection.
pub const DIRECT_CONNECT_IP: &'static str = "direct-connect-ip";

pub const X_FORWARDED_FOR: &'static str = "x-forwarded-for";

pub const X_REAL_IP: &'static str = "x-real-ip";

pub const X_REQUEST_ID: &'static str = "x-request-id";

/// Severity of records about failures inside the middleware itself.
pub const DEFAULT_ERROR_LEVEL: LogLevel = LogLevel::Error;

/// Severity of the records and spans the middleware emits by default.
pub const DEFAULT_MESSAGE_LEVEL: LogLevel = LogLevel::Debug;

} // verus!

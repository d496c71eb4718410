use vstd::prelude::*;
use vstd::string::StringExecFns;
use vstd::utf8::{decode_utf8, valid_utf8};

use super::{DEFAULT_ERROR_LEVEL, DEFAULT_MESSAGE_LEVEL};
use crate::logging::LogLevel;
use crate::text::{debug_quoted, quote_debug, utf8_text};

verus! {

/// Status returned when the request body cannot be read.
pub const BAD_REQUEST: u16 = 400;

/// Status returned when the response body cannot be read.
pub const INTERNAL_SERVER_ERROR: u16 = 500;

/// Which half of an exchange a body belongs to.
#[derive(Debug, Clone, Copy, PartialEq, Eq, Structural)]
pub enum Direction {
    Request,
    Response,
}

impl Direction {
    pub open spec fn spec_name(self) -> Seq<char> {
        match self {
            Direction::Request => "request"@,
            Direction::Response => "response"@,
        }
    }

    /// The tag that the body's log record carries.
    pub fn name(&self) -> (r: &'static str)
        ensures
            r@ == self.spec_name(),
    {
        match self {
            Direction::Request => "request",
            Direction::Response => "response",
        }
    }
}

/// One record for the logging sink.
pub struct LogRecord {
    pub level: LogLevel,
    pub message: String,
}

/// The line logged for a body that decodes as `text`.
pub open spec fn body_line(direction: Direction, text: Seq<char>) -> Seq<char> {
    direction.spec_name() + " body = "@ + debug_quoted(text)
}

/// The line logged when a body could not be read to its end.
pub open spec fn read_failure_line(direction: Direction, cause: Seq<char>) -> Seq<char> {
    "failed to read "@ + direction.spec_name() + " body: "@ + cause
}

/// `record` is what a drained body `bytes` logs: its text when it is UTF-8, else nothing.
pub open spec fn logs_body(
    record: Option<LogRecord>,
    direction: Direction,
    level: LogLevel,
    bytes: Seq<u8>,
) -> bool {
    if valid_utf8(bytes) {
        record matches Some(rec) && rec.level == level && rec.message@ == body_line(
            direction,
            decode_utf8(bytes),
        )
    } else {
        record is None
    }
}

/// `record` reports that the body of `direction` failed to read with `cause`.
pub open spec fn logs_read_failure(
    record: Option<LogRecord>,
    direction: Direction,
    cause: Seq<char>,
) -> bool {
    record matches Some(rec) && rec.level == DEFAULT_ERROR_LEVEL && rec.message@
        == read_failure_line(direction, cause)
}

/// A drained body and what it logs.
pub struct Collected {
    pub bytes: Result<Vec<u8>, String>,
    pub record: Option<LogRecord>,
}

/// Takes the outcome of draining one body and yields the bytes to rebuild it from,
/// together with the record to log.
pub fn collect_and_log(direction: Direction, drained: Result<Vec<u8>, String>, level: LogLevel) -> (r:
    Collected)
    ensures
        match drained {
            Ok(b) => r.bytes matches Ok(out) && out@ == b@ && logs_body(
                r.record,
                direction,
                level,
                b@,
            ),
            Err(e) => r.bytes matches Err(cause) && cause@ == e@ && logs_read_failure(
                r.record,
                direction,
                e@,
            ),
        },
{
    match drained {
        Ok(bytes) => {
            let record = match utf8_text(bytes.as_slice()) {
                Some(text) => {
                    let quoted = quote_debug(text.as_str());
                    let message = String::from_str(direction.name()).concat(" body = ").concat(
                        quoted.as_str(),
                    );
                    Some(LogRecord { level, message })
                },
                None => None,
            };
            Collected { bytes: Ok(bytes), record }
        },
        Err(cause) => {
            let message = String::from_str("failed to read ").concat(direction.name()).concat(
                " body: ",
            ).concat(cause.as_str());
            Collected {
                bytes: Err(cause),
                record: Some(LogRecord { level: DEFAULT_ERROR_LEVEL, message }),
            }
        },
    }
}

/// Configures body tracing: the severity at which body text is logged.
#[derive(Debug, Clone, Copy)]
pub struct TraceBodyLayer {
    level: LogLevel,
}

impl TraceBodyLayer {
    pub closed spec fn spec_level(self) -> LogLevel {
        self.level
    }

    /// Logs bodies at the default message severity.
    pub fn new() -> (r: Self)
        ensures
            r.spec_level() == DEFAULT_MESSAGE_LEVEL,
    {
        TraceBodyLayer { level: DEFAULT_MESSAGE_LEVEL }
    }

    /// Logs bodies at `level` instead.
    pub fn level(self, level: LogLevel) -> (r: Self)
        ensures
            r.spec_level() == level,
    {
        TraceBodyLayer { level }
    }

    /// The severity at which body text is logged.
    pub fn body_level(&self) -> (r: LogLevel)
        ensures
            r == self.spec_level(),
    {
        self.level
    }

    /// The interceptor for one exchange, waiting for the request body.
    pub fn layer(&self) -> (r: TraceBody)
        ensures
            r.spec_level() == self.spec_level(),
            r.spec_phase() == Phase::ReadingRequest,
    {
        TraceBody { level: self.level, phase: Phase::ReadingRequest }
    }
}

impl Default for TraceBodyLayer {
    fn default() -> (r: Self)
        ensures
            r.spec_level() == DEFAULT_MESSAGE_LEVEL,
    {
        Self::new()
    }
}

/// Where one exchange through the interceptor stands.
#[derive(Debug, Clone, Copy, PartialEq, Eq, Structural)]
pub enum Phase {
    /// The request body is being drained.
    ReadingRequest,
    /// The inner service has the rebuilt request.
    AwaitingInner,
    /// The response body is being drained.
    ReadingResponse,
    /// A response or an error has been handed back.
    Finished,
}

/// What the runner of an exchange is to do next.
pub enum Action {
    /// Call the inner service with the request rebuilt around these bytes.
    CallInner(Vec<u8>),
    /// Return the inner service's response rebuilt around these bytes.
    Forward(Vec<u8>),
    /// Return a fresh response with this status and body, dropping anything earlier.
    Respond { status: u16, body: String },
    /// Return the inner service's error as it came.
    PropagateError,
}

/// One transition of an exchange: the action and the record to log.
pub struct Step {
    pub action: Action,
    pub record: Option<LogRecord>,
}

/// The body-tracing interceptor of one exchange. It decides, from what draining each
/// body and calling the inner service gave, what is logged and what is handed on.
pub struct TraceBody {
    level: LogLevel,
    phase: Phase,
}

impl TraceBody {
    pub closed spec fn spec_level(self) -> LogLevel {
        self.level
    }

    pub closed spec fn spec_phase(self) -> Phase {
        self.phase
    }

    pub fn phase(&self) -> (r: Phase)
        ensures
            r == self.spec_phase(),
    {
        self.phase
    }

    /// The request body has been drained (`Ok`) or failed to drain (`Err`).
    /// The inner service is called only with the very bytes that were read; a failed
    /// read ends the exchange with `400 Bad Request`.
    pub fn on_request_body(&mut self, drained: Result<Vec<u8>, String>) -> (s: Step)
        requires
            old(self).spec_phase() == Phase::ReadingRequest,
        ensures
            final(self).spec_level() == old(self).spec_level(),
            match drained {
                Ok(b) => {
                    &&& s.action matches Action::CallInner(out) && out@ == b@
                    &&& logs_body(s.record, Direction::Request, old(self).spec_level(), b@)
                    &&& final(self).spec_phase() == Phase::AwaitingInner
                },
                Err(e) => {
                    &&& s.action matches Action::Respond { status, body } && status == BAD_REQUEST
                        && body@ == "Bad Request"@
                    &&& logs_read_failure(s.record, Direction::Request, e@)
                    &&& final(self).spec_phase() == Phase::Finished
                },
            },
    {
        let collected = collect_and_log(Direction::Request, drained, self.level);
        match collected.bytes {
            Ok(bytes) => {
                self.phase = Phase::AwaitingInner;
                Step { action: Action::CallInner(bytes), record: collected.record }
            },
            Err(_) => {
                self.phase = Phase::Finished;
                Step {
                    action: Action::Respond {
                        status: BAD_REQUEST,
                        body: String::from_str("Bad Request"),
                    },
                    record: collected.record,
                }
            },
        }
    }

    /// The inner service failed: its error goes back untouched.
    pub fn on_inner_error(&mut self) -> (a: Action)
        requires
            old(self).spec_phase() == Phase::AwaitingInner,
        ensures
            a is PropagateError,
            final(self).spec_level() == old(self).spec_level(),
            final(self).spec_phase() == Phase::Finished,
    {
        self.phase = Phase::Finished;
        Action::PropagateError
    }

    /// The inner service answered: its response body is drained next.
    pub fn on_inner_response(&mut self)
        requires
            old(self).spec_phase() == Phase::AwaitingInner,
        ensures
            final(self).spec_level() == old(self).spec_level(),
            final(self).spec_phase() == Phase::ReadingResponse,
    {
        self.phase = Phase::ReadingResponse;
    }

    /// The response body has been drained (`Ok`) or failed to drain (`Err`).
    /// The response goes back with the very bytes that were read; a failed read
    /// replaces it, whatever its status, with `500 Internal Server Error`.
    pub fn on_response_body(&mut self, drained: Result<Vec<u8>, String>) -> (s: Step)
        requires
            old(self).spec_phase() == Phase::ReadingResponse,
        ensures
            final(self).spec_level() == old(self).spec_level(),
            final(self).spec_phase() == Phase::Finished,
            match drained {
                Ok(b) => {
                    &&& s.action matches Action::Forward(out) && out@ == b@
                    &&& logs_body(s.record, Direction::Response, old(self).spec_level(), b@)
                },
                Err(e) => {
                    &&& s.action matches Action::Respond { status, body } && status
                        == INTERNAL_SERVER_ERROR && body@ == "Internal Server Error"@
                    &&& logs_read_failure(s.record, Direction::Response, e@)
                },
            },
    {
        let collected = collect_and_log(Direction::Response, drained, self.level);
        self.phase = Phase::Finished;
        match collected.bytes {
            Ok(bytes) => Step { action: Action::Forward(bytes), record: collected.record },
            Err(_) => Step {
                action: Action::Respond {
                    status: INTERNAL_SERVER_ERROR,
                    body: String::from_str("Internal Server Error"),
                },
                record: collected.record,
            },
        }
    }
}

/// Body tracing is installed only where the sink's threshold `max_level` (`None`: logging
/// is off) lets through records at the default message severity.
pub fn trace_body(max_level: Option<LogLevel>) -> (r: Option<TraceBodyLayer>)
    ensures
        r is Some <==> (max_level matches Some(l) && DEFAULT_MESSAGE_LEVEL.verbosity()
            <= l.verbosity()),
        r matches Some(layer) ==> layer.spec_level() == DEFAULT_MESSAGE_LEVEL,
{
    match max_level {
        Some(l) => {
            if l.admits(DEFAULT_MESSAGE_LEVEL) {
                Some(TraceBodyLayer::default())
            } else {
                None
            }
        },
        None => None,
    }
}

} // verus!

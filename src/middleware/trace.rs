use vstd::prelude::*;
use vstd::string::StringExecFns;
use vstd::utf8::{decode_utf8, valid_utf8};

use super::{DEFAULT_MESSAGE_LEVEL, X_FORWARDED_FOR, X_REAL_IP, X_REQUEST_ID};
use crate::logging::LogLevel;
use crate::text::utf8_text;

verus! {

/// Stands in a span field whose value is not known.
pub const UNKNOWN: &'static str = "N/A";

/// One request header: its lower-case name and its raw value.
pub struct HeaderEntry {
    pub name: String,
    pub value: Vec<u8>,
}

/// What the span of a request is made from.
pub struct RequestMeta {
    /// The peer's IP address, where the transport gives one.
    pub peer_ip: Option<String>,
    pub method: String,
    pub uri: String,
    pub version: String,
    /// The headers in the order they came.
    pub headers: Vec<HeaderEntry>,
}

/// The fields that depend on the span's shape.
pub enum SpanFields {
    /// The three client-identifying headers, each resolved to its text or to `UNKNOWN`.
    Compact { forwarded_for: String, real_ip: String, request_id: String },
    /// Every header as it came.
    Verbose { headers: Vec<HeaderEntry> },
}

/// The structured context attached to one request.
pub struct RequestSpan {
    pub level: LogLevel,
    pub direct_connect_ip: String,
    pub method: String,
    pub uri: String,
    pub version: String,
    pub fields: SpanFields,
}

/// A byte that a header value may hold and still read as text.
pub open spec fn is_visible_ascii(b: u8) -> bool {
    (32 <= b && b < 127) || b == 9
}

/// The value of the first header named `name`.
pub open spec fn lookup(headers: Seq<HeaderEntry>, name: Seq<char>) -> Option<Seq<u8>>
    decreases headers.len(),
{
    if headers.len() == 0 {
        None
    } else if headers[0].name@ == name {
        Some(headers[0].value@)
    } else {
        lookup(headers.drop_first(), name)
    }
}

/// The text of a header value, where it has one.
pub open spec fn value_text(value: Seq<u8>) -> Option<Seq<char>> {
    if (forall|i: int| 0 <= i < value.len() ==> is_visible_ascii(#[trigger] value[i]))
        && valid_utf8(value) {
        Some(decode_utf8(value))
    } else {
        None
    }
}

/// The span field for header `name`: its text, or `UNKNOWN`.
pub open spec fn header_field(headers: Seq<HeaderEntry>, name: Seq<char>) -> Seq<char> {
    match lookup(headers, name) {
        Some(v) => match value_text(v) {
            Some(t) => t,
            None => UNKNOWN@,
        },
        None => UNKNOWN@,
    }
}

fn all_visible_ascii(value: &Vec<u8>) -> (r: bool)
    ensures
        r == forall|i: int| 0 <= i < value@.len() ==> is_visible_ascii(#[trigger] value@[i]),
{
    let mut i: usize = 0;
    while i < value.len()
        invariant
            i <= value@.len(),
            forall|j: int| 0 <= j < i ==> is_visible_ascii(#[trigger] value@[j]),
        decreases value@.len() - i,
    {
        let b: u8 = value[i];
        if !((32 <= b && b < 127) || b == 9) {
            return false;
        }
        i = i + 1;
    }
    true
}

/// Resolves header `name` to the text of its first value, or to `UNKNOWN`.
pub fn header_value(headers: &Vec<HeaderEntry>, name: &str) -> (r: String)
    ensures
        r@ == header_field(headers@, name@),
{
    let wanted = String::from_str(name);
    let mut i: usize = 0;
    assert(headers@.subrange(0, headers@.len() as int) =~= headers@);
    while i < headers.len()
        invariant
            i <= headers@.len(),
            wanted@ == name@,
            lookup(headers@, name@) == lookup(headers@.subrange(i as int, headers@.len() as int), name@),
        decreases headers@.len() - i,
    {
        let entry = &headers[i];
        proof {
            let rest = headers@.subrange(i as int, headers@.len() as int);
            assert(rest.drop_first() =~= headers@.subrange(i + 1, headers@.len() as int));
        }
        if entry.name == wanted {
            if all_visible_ascii(&entry.value) {
                match utf8_text(entry.value.as_slice()) {
                    Some(text) => {
                        return text;
                    },
                    None => {},
                }
            }
            return String::from_str(UNKNOWN);
        }
        i = i + 1;
    }
    String::from_str(UNKNOWN)
}

/// Builds the tracing context of each request.
#[derive(Debug, Clone, Copy)]
pub struct CustomMakeSpan {
    level: LogLevel,
    include_headers: bool,
}

impl CustomMakeSpan {
    pub closed spec fn spec_level(self) -> LogLevel {
        self.level
    }

    pub closed spec fn spec_include_headers(self) -> bool {
        self.include_headers
    }

    /// Compact spans at the default message severity.
    pub fn new() -> (r: Self)
        ensures
            r.spec_level() == DEFAULT_MESSAGE_LEVEL,
            !r.spec_include_headers(),
    {
        CustomMakeSpan { level: DEFAULT_MESSAGE_LEVEL, include_headers: false }
    }

    /// Spans at severity `level` instead.
    pub fn level(self, level: LogLevel) -> (r: Self)
        ensures
            r.spec_level() == level,
            r.spec_include_headers() == self.spec_include_headers(),
    {
        CustomMakeSpan { level, include_headers: self.include_headers }
    }

    /// Verbose spans, with every header, where `include_headers` holds.
    pub fn include_headers(self, include_headers: bool) -> (r: Self)
        ensures
            r.spec_level() == self.spec_level(),
            r.spec_include_headers() == include_headers,
    {
        CustomMakeSpan { level: self.level, include_headers }
    }

    /// The tracing context of `req`. No request is refused: missing data becomes `UNKNOWN`.
    /// A compact span holds the three client headers and never the raw header set; a
    /// verbose one holds the raw header set and looks none of them up.
    pub fn make_span(&self, req: RequestMeta) -> (r: RequestSpan)
        ensures
            r.level == self.spec_level(),
            r.direct_connect_ip@ == match req.peer_ip {
                Some(ip) => ip@,
                None => UNKNOWN@,
            },
            r.method@ == req.method@,
            r.uri@ == req.uri@,
            r.version@ == req.version@,
            self.spec_include_headers() ==> (r.fields matches SpanFields::Verbose { headers }
                && headers@ == req.headers@),
            !self.spec_include_headers() ==> (r.fields matches SpanFields::Compact {
                forwarded_for,
                real_ip,
                request_id,
            } && forwarded_for@ == header_field(req.headers@, X_FORWARDED_FOR@) && real_ip@
                == header_field(req.headers@, X_REAL_IP@) && request_id@ == header_field(
                req.headers@,
                X_REQUEST_ID@,
            )),
    {
        let RequestMeta { peer_ip, method, uri, version, headers } = req;
        let direct_connect_ip = match peer_ip {
            Some(ip) => ip,
            None => String::from_str(UNKNOWN),
        };
        let fields = if self.include_headers {
            SpanFields::Verbose { headers }
        } else {
            SpanFields::Compact {
                forwarded_for: header_value(&headers, X_FORWARDED_FOR),
                real_ip: header_value(&headers, X_REAL_IP),
                request_id: header_value(&headers, X_REQUEST_ID),
            }
        };
        RequestSpan { level: self.level, direct_connect_ip, method, uri, version, fields }
    }
}

impl Default for CustomMakeSpan {
    fn default() -> (r: Self)
        ensures
            r.spec_level() == DEFAULT_MESSAGE_LEVEL,
            !r.spec_include_headers(),
    {
        Self::new()
    }
}

} // verus!

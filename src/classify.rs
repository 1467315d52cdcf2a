//! Maps a transport or protocol error, given as a domain and a code, to a
//! retry class.

use vstd::prelude::*;

verus! {

/// Numeric identifier of the resource error domain.
pub const RESOURCE_DOMAIN_ID: u32 = 1;

/// Numeric identifier of the stream error domain.
pub const STREAM_DOMAIN_ID: u32 = 2;

/// Numeric identifier of the URI parsing error domain.
pub const URI_DOMAIN_ID: u32 = 3;

/// Numeric identifier of the authentication error domain.
pub const UNAUTHORIZED_DOMAIN_ID: u32 = 4;

/// URI error code (GLib `G_URI_ERROR_BAD_SCHEME`): the scheme (protocol) is not valid.
pub const URI_BAD_SCHEME: i32 = 1;

/// URI error code (GLib `G_URI_ERROR_BAD_HOST`): the host (domain) is not valid.
pub const URI_BAD_HOST: i32 = 5;

/// URI error code (GLib `G_URI_ERROR_BAD_PORT`): the port is not valid.
pub const URI_BAD_PORT: i32 = 6;

/// URI error code (GLib `G_URI_ERROR_BAD_PATH`): the path is not valid.
pub const URI_BAD_PATH: i32 = 7;

/// How an error domain is identified by whoever reports the error: by a
/// symbolic name or by a number. The names known are the GLib quark strings
/// "gst-resource-error-quark", "gst-stream-error-quark" and "g-uri-quark"
/// (whose codes follow GLib's `GUriError`), and "unauthorized" for
/// authentication failures; the numbers known are the `*_DOMAIN_ID`
/// constants of this module.
pub enum DomainId {
    Name(String),
    Number(u32),
}

/// The error domains that the classifier knows.
#[derive(PartialEq, Eq, Structural, Clone, Copy, Debug)]
pub enum Domain {
    Unauthorized,
    Uri,
    Resource,
    Stream,
    Unknown,
}

/// Why an error was put in its class.
#[derive(PartialEq, Eq, Structural, Clone, Copy, Debug)]
pub enum Reason {
    Unauthorized,
    InvalidScheme,
    InvalidPath,
    InvalidHost,
    InvalidPort,
    ResourceError,
    StreamError,
}

/// The human-readable text of each reason.
pub open spec fn reason_text(r: Reason) -> Seq<char> {
    match r {
        Reason::Unauthorized => "Unauthorized"@,
        Reason::InvalidScheme => "invalid scheme"@,
        Reason::InvalidPath => "invalid path"@,
        Reason::InvalidHost => "invalid host"@,
        Reason::InvalidPort => "invalid port"@,
        Reason::ResourceError => "resource error"@,
        Reason::StreamError => "stream error"@,
    }
}

impl Reason {
    pub fn message(&self) -> (r: &'static str)
        ensures
            r@ == reason_text(*self),
    {
        match self {
            Reason::Unauthorized => "Unauthorized",
            Reason::InvalidScheme => "invalid scheme",
            Reason::InvalidPath => "invalid path",
            Reason::InvalidHost => "invalid host",
            Reason::InvalidPort => "invalid port",
            Reason::ResourceError => "resource error",
            Reason::StreamError => "stream error",
        }
    }
}

/// Different reasons read differently.
pub proof fn lemma_reason_texts_distinct(a: Reason, b: Reason)
    requires
        a != b,
    ensures
        reason_text(a) != reason_text(b),
{
    reveal_strlit("Unauthorized");
    reveal_strlit("invalid scheme");
    reveal_strlit("invalid path");
    reveal_strlit("invalid host");
    reveal_strlit("invalid port");
    reveal_strlit("resource error");
    reveal_strlit("stream error");
    if reason_text(a) == reason_text(b) {
        assert(reason_text(a)[0] == reason_text(b)[0]);
        assert(reason_text(a)[8] == reason_text(b)[8]);
        assert(reason_text(a)[9] == reason_text(b)[9]);
    }
}

/// Retry class of an error.
#[derive(PartialEq, Eq, Structural, Clone, Copy, Debug)]
pub enum ErrorClass {
    /// A transient interruption: retrying is sensible.
    Retriable(Reason),
    /// The target itself is invalid or inaccessible: retrying is wasted.
    Irretriable(Reason),
    /// Not recognised: the caller decides.
    Undefined,
}

pub open spec fn domain_of_name(name: Seq<char>) -> Domain {
    if name == "gst-resource-error-quark"@ {
        Domain::Resource
    } else if name == "gst-stream-error-quark"@ {
        Domain::Stream
    } else if name == "g-uri-quark"@ {
        Domain::Uri
    } else if name == "unauthorized"@ {
        Domain::Unauthorized
    } else {
        Domain::Unknown
    }
}

pub open spec fn domain_of_number(n: u32) -> Domain {
    if n == RESOURCE_DOMAIN_ID {
        Domain::Resource
    } else if n == STREAM_DOMAIN_ID {
        Domain::Stream
    } else if n == URI_DOMAIN_ID {
        Domain::Uri
    } else if n == UNAUTHORIZED_DOMAIN_ID {
        Domain::Unauthorized
    } else {
        Domain::Unknown
    }
}

impl DomainId {
    /// The domain that this identifier denotes.
    pub open spec fn domain(&self) -> Domain {
        match self {
            DomainId::Name(s) => domain_of_name(s@),
            DomainId::Number(n) => domain_of_number(*n),
        }
    }
}

/// The reason behind a URI error code, if the code is one of the
/// malformations that the classifier knows.
pub open spec fn uri_reason(code: i32) -> Option<Reason> {
    if code == URI_BAD_SCHEME {
        Some(Reason::InvalidScheme)
    } else if code == URI_BAD_PATH {
        Some(Reason::InvalidPath)
    } else if code == URI_BAD_HOST {
        Some(Reason::InvalidHost)
    } else if code == URI_BAD_PORT {
        Some(Reason::InvalidPort)
    } else {
        None
    }
}

/// The retry policy.
pub open spec fn class_of(domain: Domain, code: i32) -> ErrorClass {
    match domain {
        Domain::Unauthorized => ErrorClass::Irretriable(Reason::Unauthorized),
        Domain::Uri => match uri_reason(code) {
            Some(r) => ErrorClass::Irretriable(r),
            None => ErrorClass::Undefined,
        },
        Domain::Resource => ErrorClass::Irretriable(Reason::ResourceError),
        Domain::Stream => ErrorClass::Retriable(Reason::StreamError),
        Domain::Unknown => ErrorClass::Undefined,
    }
}

/// Each malformed-address error is irretriable, and two different
/// malformations are told apart by their messages.
pub proof fn lemma_uri_malformations_distinct(d: DomainId, c1: i32, c2: i32)
    requires
        d.domain() == Domain::Uri,
        uri_reason(c1) is Some,
        uri_reason(c2) is Some,
        c1 != c2,
    ensures
        class_of(d.domain(), c1) == ErrorClass::Irretriable(uri_reason(c1).unwrap()),
        class_of(d.domain(), c2) == ErrorClass::Irretriable(uri_reason(c2).unwrap()),
        reason_text(uri_reason(c1).unwrap()) != reason_text(uri_reason(c2).unwrap()),
{
    lemma_reason_texts_distinct(uri_reason(c1).unwrap(), uri_reason(c2).unwrap());
}

fn same_text(a: &str, b: &str) -> (r: bool)
    ensures
        r == (a@ == b@),
{
    let x = String::from_str(a);
    let y = String::from_str(b);
    x == y
}

/// Resolves a domain identifier.
pub fn resolve_domain(id: &DomainId) -> (d: Domain)
    ensures
        d == id.domain(),
{
    match id {
        DomainId::Name(s) => {
            let s = s.as_str();
            if same_text(s, "gst-resource-error-quark") {
                Domain::Resource
            } else if same_text(s, "gst-stream-error-quark") {
                Domain::Stream
            } else if same_text(s, "g-uri-quark") {
                Domain::Uri
            } else if same_text(s, "unauthorized") {
                Domain::Unauthorized
            } else {
                Domain::Unknown
            }
        },
        DomainId::Number(n) => {
            if *n == RESOURCE_DOMAIN_ID {
                Domain::Resource
            } else if *n == STREAM_DOMAIN_ID {
                Domain::Stream
            } else if *n == URI_DOMAIN_ID {
                Domain::Uri
            } else if *n == UNAUTHORIZED_DOMAIN_ID {
                Domain::Unauthorized
            } else {
                Domain::Unknown
            }
        },
    }
}

/// Classifies an error reported with the given domain and code. Total: an
/// unrecognised pair gives `Undefined`.
pub fn classify(domain: &DomainId, code: i32) -> (c: ErrorClass)
    ensures
        c == class_of(domain.domain(), code),
        domain.domain() == Domain::Unauthorized ==> c == ErrorClass::Irretriable(Reason::Unauthorized),
        domain.domain() == Domain::Uri && code == URI_BAD_SCHEME ==> c == ErrorClass::Irretriable(Reason::InvalidScheme),
        domain.domain() == Domain::Uri && code == URI_BAD_PATH ==> c == ErrorClass::Irretriable(Reason::InvalidPath),
        domain.domain() == Domain::Uri && code == URI_BAD_HOST ==> c == ErrorClass::Irretriable(Reason::InvalidHost),
        domain.domain() == Domain::Uri && code == URI_BAD_PORT ==> c == ErrorClass::Irretriable(Reason::InvalidPort),
        domain.domain() == Domain::Resource ==> c == ErrorClass::Irretriable(Reason::ResourceError),
        domain.domain() == Domain::Stream ==> c == ErrorClass::Retriable(Reason::StreamError),
        domain.domain() == Domain::Unknown || (domain.domain() == Domain::Uri && uri_reason(code) is None)
            ==> c == ErrorClass::Undefined,
{
    match resolve_domain(domain) {
        Domain::Unauthorized => ErrorClass::Irretriable(Reason::Unauthorized),
        Domain::Uri => {
            if code == URI_BAD_SCHEME {
                ErrorClass::Irretriable(Reason::InvalidScheme)
            } else if code == URI_BAD_PATH {
                ErrorClass::Irretriable(Reason::InvalidPath)
            } else if code == URI_BAD_HOST {
                ErrorClass::Irretriable(Reason::InvalidHost)
            } else if code == URI_BAD_PORT {
                ErrorClass::Irretriable(Reason::InvalidPort)
            } else {
                ErrorClass::Undefined
            }
        },
        Domain::Resource => ErrorClass::Irretriable(Reason::ResourceError),
        Domain::Stream => ErrorClass::Retriable(Reason::StreamError),
        Domain::Unknown => ErrorClass::Undefined,
    }
}

} // verus!

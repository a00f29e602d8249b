//! Endpoint parsing: maps a user-supplied endpoint URL onto a typed backend
//! selector, with scheme-based default host and port.

use vstd::prelude::*;
use vstd::string::StringExecFns;

use crate::errors::ParseError;
use crate::strutil::{spec_dec_seq, str_eq, u64_to_dec_string};

verus! {

/// Defines how the exporter connects to the collector: gRPC, HTTP, or no
/// collector at all, in which case the collected signals are written to
/// files under the contained directory.
#[derive(Clone, Debug)]
pub enum GlideOpenTelemetrySignalsExporter {
    /// Collector is listening on grpc; the value is `host:port`.
    Grpc(String),
    /// Collector is listening on http; the value is `host:port`.
    Http(String),
    /// No collector: write the collected signals to files placed in the
    /// contained directory.
    File(String),
}

/// What `url::Url::parse` extracts from a string: `None` when the string is
/// not a syntactically valid URL, otherwise the scheme, the host (absent for
/// host-less URLs) and the explicitly recorded port.
pub uninterp spec fn url_parts_of(s: Seq<char>) -> Option<(Seq<char>, Option<Seq<char>>, Option<u16>)>;

struct UrlParts {
    scheme: String,
    host: Option<String>,
    port: Option<u16>,
}

/// Relies on `url::Url::parse` and the accessors `Url::scheme`,
/// `Url::host_str` and `Url::port`: the outcome depends on the input string
/// alone, and `scheme` returns the (normalised) scheme of the parsed URL.
#[verifier::external_body]
fn parse_url_parts(endpoint: &str) -> (r: Option<UrlParts>)
    ensures
        match r {
            Some(p) => url_parts_of(endpoint@) matches Some(q) && p.scheme@ == q.0
                && p.host.deep_view() == q.1 && p.port == q.2,
            None => url_parts_of(endpoint@) is None,
        },
{
    match url::Url::parse(endpoint) {
        Ok(u) => Some(
            UrlParts {
                scheme: u.scheme().to_string(),
                host: u.host_str().map(|h| h.to_string()),
                port: u.port(),
            },
        ),
        Err(_) => None,
    }
}

/// The `host:port` endpoint encoded in a selector, with the default host
/// substituted when the URL has none and the default port when none is
/// recorded.
pub open spec fn spec_endpoint_string(
    host: Option<Seq<char>>,
    port: Option<u16>,
    default_port: u16,
) -> Seq<char> {
    (match host {
        Some(h) => h,
        None => "127.0.0.1"@,
    }) + seq![':'] + spec_dec_seq(
        (match port {
            Some(p) => p,
            None => default_port,
        }) as nat,
    )
}

fn format_endpoint(host: &Option<String>, port: &Option<u16>, default_port: u16) -> (s: String)
    ensures
        s@ == spec_endpoint_string(host.deep_view(), *port, default_port),
{
    let mut s = match host {
        Some(h) => h.clone(),
        None => String::from_str("127.0.0.1"),
    };
    proof {
        reveal_strlit(":");
        assert(":"@ =~= seq![':']);
    }
    s.append(":");
    let p: u16 = match port {
        Some(p) => *p,
        None => default_port,
    };
    let digits = u64_to_dec_string(p as u64);
    s.append(digits.as_str());
    s
}

/// Parses an endpoint URL into a backend selector.
///
/// `http` and `https` URLs select the HTTP backend with default ports 80 and
/// 443; `grpc` URLs select the gRPC backend with default port 80. Anything
/// unparsable is rejected as `Invalid`, any other scheme as
/// `UnsupportedScheme`, both carrying the original string.
pub fn parse_endpoint(endpoint: &str) -> (r: Result<
    GlideOpenTelemetrySignalsExporter,
    ParseError,
>)
    ensures
        match r {
            Ok(sel) => url_parts_of(endpoint@) matches Some(q) && ({
                ||| (sel matches GlideOpenTelemetrySignalsExporter::Http(e) && q.0 == "http"@
                    && e@ == spec_endpoint_string(q.1, q.2, 80))
                ||| (sel matches GlideOpenTelemetrySignalsExporter::Http(e) && q.0 == "https"@
                    && e@ == spec_endpoint_string(q.1, q.2, 443))
                ||| (sel matches GlideOpenTelemetrySignalsExporter::Grpc(e) && q.0 == "grpc"@
                    && e@ == spec_endpoint_string(q.1, q.2, 80))
            }),
            Err(ParseError::Invalid(orig)) => orig@ == endpoint@ && url_parts_of(endpoint@) is None,
            Err(ParseError::UnsupportedScheme(orig)) => url_parts_of(endpoint@) matches Some(q)
                && orig@ == endpoint@ && q.0 != "http"@ && q.0 != "https"@ && q.0 != "grpc"@,
        },
{
    match parse_url_parts(endpoint) {
        None => Err(ParseError::Invalid(endpoint.to_owned())),
        Some(parts) => {
            if str_eq(parts.scheme.as_str(), "http") {
                Ok(
                    GlideOpenTelemetrySignalsExporter::Http(
                        format_endpoint(&parts.host, &parts.port, 80),
                    ),
                )
            } else if str_eq(parts.scheme.as_str(), "https") {
                Ok(
                    GlideOpenTelemetrySignalsExporter::Http(
                        format_endpoint(&parts.host, &parts.port, 443),
                    ),
                )
            } else if str_eq(parts.scheme.as_str(), "grpc") {
                Ok(
                    GlideOpenTelemetrySignalsExporter::Grpc(
                        format_endpoint(&parts.host, &parts.port, 80),
                    ),
                )
            } else {
                Err(ParseError::UnsupportedScheme(endpoint.to_owned()))
            }
        },
    }
}

impl core::str::FromStr for GlideOpenTelemetrySignalsExporter {
    type Err = ParseError;

    fn from_str(s: &str) -> Result<Self, ParseError> {
        parse_endpoint(s)
    }
}

} // verus!

//! The immutable configuration of one scan, built once from validated
//! command-line input and shared read-only by every worker.

use vstd::prelude::*;
use crate::classify::StatusPolicy;
use crate::classify::spec_make_policy;
use crate::classify::make_policy;
use crate::executor::RetryPolicy;
use crate::headers::HeaderArg;
use crate::target::BaseUrl;
use crate::target::split_url;
use crate::target::url_split_of;
use crate::text::str_eq;

verus! {

/// The standard HTTP request methods.
#[derive(Clone, Copy, PartialEq, Eq, Structural, Debug)]
pub enum HttpMethod {
    Get,
    Post,
    Put,
    Delete,
    Head,
    Options,
    Patch,
    Trace,
    Connect,
}

/// The request-line name of a method.
pub open spec fn spec_method_name(m: HttpMethod) -> Seq<char> {
    match m {
        HttpMethod::Get => "GET"@,
        HttpMethod::Post => "POST"@,
        HttpMethod::Put => "PUT"@,
        HttpMethod::Delete => "DELETE"@,
        HttpMethod::Head => "HEAD"@,
        HttpMethod::Options => "OPTIONS"@,
        HttpMethod::Patch => "PATCH"@,
        HttpMethod::Trace => "TRACE"@,
        HttpMethod::Connect => "CONNECT"@,
    }
}

/// The method a name denotes, by exact upper-case match.
pub open spec fn spec_method_from_name(s: Seq<char>) -> Option<HttpMethod> {
    if s == "GET"@ {
        Some(HttpMethod::Get)
    } else if s == "POST"@ {
        Some(HttpMethod::Post)
    } else if s == "PUT"@ {
        Some(HttpMethod::Put)
    } else if s == "DELETE"@ {
        Some(HttpMethod::Delete)
    } else if s == "HEAD"@ {
        Some(HttpMethod::Head)
    } else if s == "OPTIONS"@ {
        Some(HttpMethod::Options)
    } else if s == "PATCH"@ {
        Some(HttpMethod::Patch)
    } else if s == "TRACE"@ {
        Some(HttpMethod::Trace)
    } else if s == "CONNECT"@ {
        Some(HttpMethod::Connect)
    } else {
        None
    }
}

impl HttpMethod {
    /// The request-line name of this method.
    pub fn name(&self) -> (r: &'static str)
        ensures
            r@ == spec_method_name(*self),
    {
        match self {
            HttpMethod::Get => "GET",
            HttpMethod::Post => "POST",
            HttpMethod::Put => "PUT",
            HttpMethod::Delete => "DELETE",
            HttpMethod::Head => "HEAD",
            HttpMethod::Options => "OPTIONS",
            HttpMethod::Patch => "PATCH",
            HttpMethod::Trace => "TRACE",
            HttpMethod::Connect => "CONNECT",
        }
    }

    /// Parses a method name, by exact upper-case match.
    pub fn from_name(s: &str) -> (r: Option<HttpMethod>)
        ensures
            r == spec_method_from_name(s@),
    {
        if str_eq(s, "GET") {
            Some(HttpMethod::Get)
        } else if str_eq(s, "POST") {
            Some(HttpMethod::Post)
        } else if str_eq(s, "PUT") {
            Some(HttpMethod::Put)
        } else if str_eq(s, "DELETE") {
            Some(HttpMethod::Delete)
        } else if str_eq(s, "HEAD") {
            Some(HttpMethod::Head)
        } else if str_eq(s, "OPTIONS") {
            Some(HttpMethod::Options)
        } else if str_eq(s, "PATCH") {
            Some(HttpMethod::Patch)
        } else if str_eq(s, "TRACE") {
            Some(HttpMethod::Trace)
        } else if str_eq(s, "CONNECT") {
            Some(HttpMethod::Connect)
        } else {
            None
        }
    }
}

/// A configuration error: fatal, detected before the scan starts.
#[derive(Clone, Copy, PartialEq, Eq, Structural, Debug)]
pub enum ConfigError {
    /// The base URL does not parse as an absolute URL with a host.
    InvalidBaseUrl,
    /// The concurrency limit is zero.
    InvalidConcurrency,
}

/// The immutable configuration of one scan.
pub struct ScanConfig {
    /// The base URL's components.
    pub base: BaseUrl,
    /// The request method.
    pub method: HttpMethod,
    /// The extensions to try per wordlist line; empty for none.
    pub extensions: Vec<String>,
    /// Whether a trailing slash is appended to every candidate path.
    pub add_slash: bool,
    /// Headers attached to every request.
    pub headers: Vec<HeaderArg>,
    /// The cookie string attached to every request, when set.
    pub cookies: Option<String>,
    /// Whether redirects are followed to their final response.
    pub follow_redirects: bool,
    /// Whether certificate errors are ignored.
    pub skip_tls_validation: bool,
    /// The retry policy for timed-out attempts.
    pub retry: RetryPolicy,
    /// The status-code policy.
    pub policy: StatusPolicy,
    /// The bound on simultaneously executing requests; at least 1.
    pub concurrency: u64,
}

impl ScanConfig {
    /// Well-formedness: the concurrency limit is positive.
    pub open spec fn wf(&self) -> bool {
        self.concurrency >= 1
    }

    /// Builds the configuration of one scan from validated command-line
    /// input. The base URL must parse as an absolute URL with a host and the
    /// concurrency limit must be positive; each is checked here, and the
    /// first violation is the error. The status-code policy is built from the
    /// two optional lists: a supplied deny-list wins, and with neither list
    /// the default deny-list `{404}` applies.
    pub fn new(
        base_url: &str,
        method: HttpMethod,
        extensions: Vec<String>,
        add_slash: bool,
        headers: Vec<HeaderArg>,
        cookies: Option<String>,
        follow_redirects: bool,
        skip_tls_validation: bool,
        retry: RetryPolicy,
        allow_codes: Option<Vec<u16>>,
        deny_codes: Option<Vec<u16>>,
        concurrency: u64,
    ) -> (r: Result<ScanConfig, ConfigError>)
        ensures
            r is Ok <==> url_split_of(base_url@) is Some && concurrency >= 1,
            url_split_of(base_url@) is None ==> r == Err::<ScanConfig, _>(
                ConfigError::InvalidBaseUrl,
            ),
            url_split_of(base_url@) is Some && concurrency == 0 ==> r == Err::<ScanConfig, _>(
                ConfigError::InvalidConcurrency,
            ),
            r matches Ok(c) ==> {
                &&& c.wf()
                &&& url_split_of(base_url@) == Some(c.base@)
                &&& c.method == method
                &&& c.extensions == extensions
                &&& c.add_slash == add_slash
                &&& c.headers == headers
                &&& c.cookies == cookies
                &&& c.follow_redirects == follow_redirects
                &&& c.skip_tls_validation == skip_tls_validation
                &&& c.retry == retry
                &&& c.policy@ == spec_make_policy(allow_codes.deep_view(), deny_codes.deep_view())
                &&& c.concurrency == concurrency
            },
    {
        let base = match split_url(base_url) {
            Some(b) => b,
            None => {
                return Err(ConfigError::InvalidBaseUrl);
            },
        };
        if concurrency == 0 {
            return Err(ConfigError::InvalidConcurrency);
        }
        let policy = make_policy(allow_codes, deny_codes);
        Ok(
            ScanConfig {
                base,
                method,
                extensions,
                add_slash,
                headers,
                cookies,
                follow_redirects,
                skip_tls_validation,
                retry,
                policy,
                concurrency,
            },
        )
    }
}

} // verus!

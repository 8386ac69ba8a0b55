//! The known HTTP methods and validation of verb strings.

use vstd::prelude::*;

use crate::error::ApiError;
use crate::text::str_eq;

verus! {

/// One of the nine standard HTTP methods.
#[derive(PartialEq, Eq, Structural, Clone, Copy, Debug)]
pub enum HttpMethod {
    Get,
    Post,
    Put,
    Delete,
    Head,
    Options,
    Connect,
    Patch,
    Trace,
}

/// The canonical spelling of a method.
pub open spec fn spec_method_name(m: HttpMethod) -> Seq<char> {
    match m {
        HttpMethod::Get => "GET"@,
        HttpMethod::Post => "POST"@,
        HttpMethod::Put => "PUT"@,
        HttpMethod::Delete => "DELETE"@,
        HttpMethod::Head => "HEAD"@,
        HttpMethod::Options => "OPTIONS"@,
        HttpMethod::Connect => "CONNECT"@,
        HttpMethod::Patch => "PATCH"@,
        HttpMethod::Trace => "TRACE"@,
    }
}

/// The method a verb string names, if it is one of the nine: exact,
/// uppercase spellings only.
pub open spec fn spec_parse_method(s: Seq<char>) -> Option<HttpMethod> {
    if s == "GET"@ {
        Some(HttpMethod::Get)
    } else if s == "POST"@ {
        Some(HttpMethod::Post)
    } else if s == "PUT"@ {
        Some(HttpMethod::Put)
    } else if s == "DELETE"@ {
        Some(HttpMethod::Delete)
    } else if s == "HEAD"@ {
        Some(HttpMethod::Head)
    } else if s == "OPTIONS"@ {
        Some(HttpMethod::Options)
    } else if s == "CONNECT"@ {
        Some(HttpMethod::Connect)
    } else if s == "PATCH"@ {
        Some(HttpMethod::Patch)
    } else if s == "TRACE"@ {
        Some(HttpMethod::Trace)
    } else {
        None
    }
}

impl HttpMethod {
    /// The canonical spelling of this method.
    pub fn as_str(&self) -> (r: &'static str)
        ensures
            r@ == spec_method_name(*self),
    {
        match self {
            HttpMethod::Get => "GET",
            HttpMethod::Post => "POST",
            HttpMethod::Put => "PUT",
            HttpMethod::Delete => "DELETE",
            HttpMethod::Head => "HEAD",
            HttpMethod::Options => "OPTIONS",
            HttpMethod::Connect => "CONNECT",
            HttpMethod::Patch => "PATCH",
            HttpMethod::Trace => "TRACE",
        }
    }
}

/// Validates a verb string against the known HTTP method set; an
/// unrecognized verb yields an [`ApiError::InvalidMethod`] naming the verb.
pub fn parse_method(method: &str) -> (r: Result<HttpMethod, ApiError>)
    ensures
        spec_parse_method(method@) matches Some(m) ==> r == Ok::<HttpMethod, ApiError>(m),
        spec_parse_method(method@) is None ==> (r matches Err(e) && e matches ApiError::InvalidMethod {
            method: v,
        } && v@ == method@),
{
    if str_eq(method, "GET") {
        Ok(HttpMethod::Get)
    } else if str_eq(method, "POST") {
        Ok(HttpMethod::Post)
    } else if str_eq(method, "PUT") {
        Ok(HttpMethod::Put)
    } else if str_eq(method, "DELETE") {
        Ok(HttpMethod::Delete)
    } else if str_eq(method, "HEAD") {
        Ok(HttpMethod::Head)
    } else if str_eq(method, "OPTIONS") {
        Ok(HttpMethod::Options)
    } else if str_eq(method, "CONNECT") {
        Ok(HttpMethod::Connect)
    } else if str_eq(method, "PATCH") {
        Ok(HttpMethod::Patch)
    } else if str_eq(method, "TRACE") {
        Ok(HttpMethod::Trace)
    } else {
        Err(ApiError::InvalidMethod { method: method.to_owned() })
    }
}

} // verus!

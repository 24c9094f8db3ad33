//! The request that the HTTP probe sends and the response that it judges.

use crate::text::{decimal, decimal_text, lemma_lower_is_idempotent, lower, to_ascii_lowercase};
use std::time::Duration;
use vstd::prelude::*;
use vstd::string::StringExecFns;

verus! {

/// The method of a request.
#[derive(Clone, Copy, Debug, PartialEq, Eq, Structural)]
pub enum Method {
    Get,
    Head,
    Post,
    Put,
    Delete,
    Connect,
    Options,
    Trace,
    Patch,
}

impl Method {
    /// The method as it stands in a request line.
    pub open spec fn spec_name(self) -> Seq<char> {
        match self {
            Method::Get => "GET"@,
            Method::Head => "HEAD"@,
            Method::Post => "POST"@,
            Method::Put => "PUT"@,
            Method::Delete => "DELETE"@,
            Method::Connect => "CONNECT"@,
            Method::Options => "OPTIONS"@,
            Method::Trace => "TRACE"@,
            Method::Patch => "PATCH"@,
        }
    }

    /// The method as it stands in a request line.
    pub fn name(&self) -> (r: &'static str)
        ensures
            r@ == self.spec_name(),
    {
        match self {
            Method::Get => "GET",
            Method::Head => "HEAD",
            Method::Post => "POST",
            Method::Put => "PUT",
            Method::Delete => "DELETE",
            Method::Connect => "CONNECT",
            Method::Options => "OPTIONS",
            Method::Trace => "TRACE",
            Method::Patch => "PATCH",
        }
    }
}

/// What is requested, and on whose behalf.
///
/// The probe hands the description to the transport as it is; none of the
/// rules reads it but for the URL, which is where the walk starts.
#[derive(Debug, PartialEq, Eq)]
pub struct ClientConfig {
    pub url: String,
    pub method: Method,
    pub user_agent: Option<String>,
    /// Additional header fields, each a name and a value.
    pub headers: Option<Vec<(String, String)>>,
    pub timeout: Duration,
    pub auth_user: Option<String>,
    pub auth_pw: Option<String>,
}

/// Whether no two header fields have the same name, without regard to case.
pub open spec fn unique_names(headers: Seq<(String, String)>) -> bool {
    forall|i: int, j: int|
        0 <= i < j < headers.len() ==> lower(#[trigger] headers[i].0@) != lower(
            #[trigger] headers[j].0@,
        )
}

impl ClientConfig {
    /// A request is well formed where its additional header fields have
    /// names that differ, without regard to case.
    pub open spec fn well_formed(&self) -> bool {
        self.headers matches Some(headers) ==> unique_names(headers@)
    }

    /// Whether the request is well formed.
    pub fn is_well_formed(&self) -> (r: bool)
        ensures
            r == self.well_formed(),
    {
        match &self.headers {
            None => true,
            Some(headers) => has_unique_names(headers),
        }
    }
}

/// Whether no two header fields have the same name, without regard to case.
pub fn has_unique_names(headers: &Vec<(String, String)>) -> (r: bool)
    ensures
        r == unique_names(headers@),
{
    let mut j: usize = 0;
    while j < headers.len()
        invariant
            j <= headers.len(),
            forall|a: int, b: int|
                0 <= a < b < j ==> lower(#[trigger] headers@[a].0@) != lower(
                    #[trigger] headers@[b].0@,
                ),
        decreases headers.len() - j,
    {
        let name = to_ascii_lowercase(headers[j].0.as_str());
        let mut i: usize = 0;
        while i < j
            invariant
                i <= j < headers.len(),
                name@ == lower(headers@[j as int].0@),
                forall|a: int| 0 <= a < i ==> lower(#[trigger] headers@[a].0@) != name@,
            decreases j - i,
        {
            let other = to_ascii_lowercase(headers[i].0.as_str());
            if other == name {
                return false;
            }
            i += 1;
        }
        j += 1;
    }
    true
}

/// Whether the body of the response is wanted.
#[derive(Clone, Copy, Debug, PartialEq, Eq, Structural)]
pub struct RequestConfig {
    pub without_body: bool,
}

/// The protocol version of a response.
#[derive(Clone, Copy, Debug, PartialEq, Eq, Structural)]
pub enum Version {
    Http09,
    Http10,
    Http11,
    H2,
    H3,
}

impl Version {
    /// The version as it stands in a status line.
    pub open spec fn spec_name(self) -> Seq<char> {
        match self {
            Version::Http09 => "HTTP/0.9"@,
            Version::Http10 => "HTTP/1.0"@,
            Version::Http11 => "HTTP/1.1"@,
            Version::H2 => "HTTP/2.0"@,
            Version::H3 => "HTTP/3.0"@,
        }
    }

    /// The version as it stands in a status line.
    pub fn name(&self) -> (r: &'static str)
        ensures
            r@ == self.spec_name(),
    {
        match self {
            Version::Http09 => "HTTP/0.9",
            Version::Http10 => "HTTP/1.0",
            Version::Http11 => "HTTP/1.1",
            Version::H2 => "HTTP/2.0",
            Version::H3 => "HTTP/3.0",
        }
    }
}

/// A request line: the method, the path with its query, and the version
/// that the probe speaks, with one space between.
pub open spec fn request_line_text(method: Method, path: Seq<char>, query: Option<Seq<char>>)
    -> Seq<char> {
    method.spec_name() + " "@ + path + (match query {
        Some(q) => "?"@ + q,
        None => Seq::empty(),
    }) + " HTTP/1.1"@
}

/// The request line for `method` on `path`, with `query` behind a question
/// mark where there is one.
pub fn request_line(method: Method, path: &str, query: Option<&str>) -> (r: String)
    ensures
        r@ == request_line_text(
            method,
            path@,
            match query {
                Some(q) => Some(q@),
                None => None,
            },
        ),
{
    let mut line = method.name().to_owned();
    line.append(" ");
    line.append(path);
    match query {
        Some(q) => {
            line.append("?");
            line.append(q);
        },
        None => {
            assert(line@ + Seq::<char>::empty() =~= line@);
        },
    }
    line.append(" HTTP/1.1");
    line
}

/// One response as the transport received it.
#[derive(Debug, PartialEq, Eq)]
pub struct Response {
    pub version: Version,
    /// The status code.
    pub status: u16,
    /// The reason text as the server sent it.
    pub reason: String,
    /// Every header field, in the order received.
    pub headers: Vec<(String, String)>,
    /// The body; `None` where it was not fetched.
    pub body: Option<Vec<u8>>,
    /// Milliseconds from the start of the first transmission to the end of
    /// this response.
    pub elapsed_ms: u64,
    /// The request line that was transmitted.
    pub request_line: String,
}

/// The response that ends a walk, and how many redirects led to it.
#[derive(Debug, PartialEq, Eq)]
pub struct FinalResponse {
    pub response: Response,
    /// The number of redirects that were followed.
    pub redirects: usize,
}

/// The standard reason phrase of a status code, where it has one.
pub uninterp spec fn standard_reason(code: u16) -> Option<Seq<char>>;

/// `http::StatusCode::canonical_reason` of the status code made by
/// `StatusCode::from_u16`: the standard reason phrase of a code that has
/// one, and `None` for any other number.
#[verifier::external_body]
pub(crate) fn canonical_reason(code: u16) -> (r: Option<&'static str>)
    ensures
        match r {
            Some(phrase) => standard_reason(code) == Some(phrase@),
            None => standard_reason(code) is None,
        },
{
    match ::http::StatusCode::from_u16(code) {
        Ok(status) => status.canonical_reason(),
        Err(_) => None,
    }
}

/// The reason text shown for a code: its standard phrase, or a fixed text
/// for a code that has none.
pub open spec fn shown_reason(phrase: Option<Seq<char>>) -> Seq<char> {
    match phrase {
        Some(phrase) => phrase,
        None => "<unknown status code>"@,
    }
}

/// A status line: version, code and reason text with one space between.
pub open spec fn status_line_text(version: Version, code: u16, phrase: Option<Seq<char>>) -> Seq<
    char,
> {
    version.spec_name() + " "@ + decimal_text(code as nat) + " "@ + shown_reason(phrase)
}

/// The status line of a response with the reason phrase `phrase`.
pub fn status_line_with(version: Version, code: u16, phrase: Option<&str>) -> (r: String)
    ensures
        r@ == status_line_text(
            version,
            code,
            match phrase {
                Some(p) => Some(p@),
                None => None,
            },
        ),
{
    let mut line = version.name().to_owned();
    line.append(" ");
    line.append(decimal(code as u64).as_str());
    line.append(" ");
    match phrase {
        Some(p) => line.append(p),
        None => line.append("<unknown status code>"),
    }
    line
}

/// The status line of a response, with the standard reason phrase of its
/// code in place of whatever text the server sent.
pub fn status_line(version: Version, code: u16) -> (r: String)
    ensures
        r@ == status_line_text(version, code, standard_reason(code)),
{
    status_line_with(version, code, canonical_reason(code))
}

/// The value of the first header field named `name`, without regard to the
/// case of the name.
pub open spec fn header_value(headers: Seq<(String, String)>, name: Seq<char>) -> Option<Seq<char>>
    decreases headers.len(),
{
    if headers.len() == 0 {
        None
    } else if lower(headers[0].0@) == lower(name) {
        Some(headers[0].1@)
    } else {
        header_value(headers.skip(1), name)
    }
}

/// The value of the first header field named `name`, without regard to the
/// case of the name.
pub fn find_header<'a>(headers: &'a Vec<(String, String)>, name: &str) -> (r: Option<&'a String>)
    ensures
        match r {
            Some(value) => header_value(headers@, name@) == Some(value@),
            None => header_value(headers@, name@) is None,
        },
{
    let wanted = to_ascii_lowercase(name);
    let mut i: usize = 0;
    assert(headers@.skip(0) =~= headers@);
    while i < headers.len()
        invariant
            i <= headers.len(),
            wanted@ == lower(name@),
            header_value(headers@, name@) == header_value(headers@.skip(i as int), name@),
        decreases headers.len() - i,
    {
        let ghost rest = headers@.skip(i as int);
        assert(rest[0] == headers@[i as int]);
        assert(rest.skip(1) =~= headers@.skip(i + 1));
        let found = to_ascii_lowercase(headers[i].0.as_str());
        if found == wanted {
            return Some(&headers[i].1);
        }
        i += 1;
    }
    None
}

impl FinalResponse {
    /// The status code of the last response.
    pub fn status(&self) -> (r: u16)
        ensures
            r == self.response.status,
    {
        self.response.status
    }

    /// The length of the body in bytes, where the body was fetched.
    pub fn body_len(&self) -> (r: Option<usize>)
        ensures
            r == match self.response.body {
                Some(body) => Some(body@.len() as usize),
                None => None,
            },
    {
        match &self.response.body {
            Some(body) => Some(body.len()),
            None => None,
        }
    }
}

/// The case of the letters of a name does not matter to what is found
/// under it.
pub proof fn lemma_header_name_ignores_case(headers: Seq<(String, String)>, name: Seq<char>)
    ensures
        header_value(headers, lower(name)) == header_value(headers, name),
    decreases headers.len(),
{
    lemma_lower_is_idempotent(name);
    if headers.len() > 0 {
        lemma_header_name_ignores_case(headers.skip(1), name);
    }
}

} // verus!

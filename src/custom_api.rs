use vstd::prelude::*;
use vstd::string::StrSliceExecFns;
use vstd::string::StringExecFns;

use crate::contracts::{CustomApiSourceConfig, HttpHeaderPair, VersionCandidate, VersionSourceKind};
use crate::errors::{VersionError, VersionResult};
use crate::text::{has_prefix, same_text, starts_with};

verus! {

/// The upper-case form of a text, as `str::to_uppercase` gives it.
pub uninterp spec fn upper_of(s: Seq<char>) -> Seq<char>;

/// Whether a character is alphabetic or numeric, as `char::is_alphanumeric` decides it.
pub uninterp spec fn alnum(c: char) -> bool;

/// Relies on str::to_uppercase: the Unicode upper-case mapping of each character.
#[verifier::external_body]
fn to_upper(s: &str) -> (r: String)
    ensures
        r@ == upper_of(s@),
{
    s.to_uppercase()
}

/// Relies on char::is_alphanumeric: Unicode `Alphabetic` or `Numeric`.
#[verifier::external_body]
fn is_alnum(c: char) -> (r: bool)
    ensures
        r == alnum(c),
{
    c.is_alphanumeric()
}

/// The request methods a custom source may use.
#[derive(Debug, Clone, Copy, PartialEq, Eq, Structural)]
pub enum HttpMethod {
    Get,
    Post,
}

/// Reads the latest version from an arbitrary HTTP endpoint that answers with a JSON object.
#[derive(Debug, Clone)]
pub struct CustomApiProvider {
    pub config: CustomApiSourceConfig,
}

/// The endpoint uses the `http` or `https` scheme.
pub open spec fn url_allowed(url: Seq<char>) -> bool {
    has_prefix(url, "http://"@) || has_prefix(url, "https://"@)
}

/// The method named (in any case) is GET or POST.
pub open spec fn method_of(method: Seq<char>) -> Option<HttpMethod> {
    if upper_of(method) == "GET"@ {
        Some(HttpMethod::Get)
    } else if upper_of(method) == "POST"@ {
        Some(HttpMethod::Post)
    } else {
        None
    }
}

/// A header name made of letters, digits, dashes and underscores only.
pub open spec fn header_key_allowed(key: Seq<char>) -> bool {
    forall|i: int| 0 <= i < key.len() ==> alnum(#[trigger] key[i]) || key[i] == '-' || key[i] == '_'
}

/// The request a configuration describes may be sent: an http(s) endpoint,
/// GET or POST, and safe header names.
pub open spec fn request_allowed(config: CustomApiSourceConfig) -> bool {
    &&& url_allowed(config.endpoint@)
    &&& method_of(config.method@) is Some
    &&& forall|i: int| 0 <= i < config.headers@.len() ==> header_key_allowed(#[trigger] config.headers@[i].key@)
}

/// Whether a header name holds only letters, digits, dashes and underscores.
pub fn header_key_is_safe(key: &str) -> (r: bool)
    ensures
        r == header_key_allowed(key@),
{
    let n = key.unicode_len();
    let mut i: usize = 0;
    while i < n
        invariant
            n == key@.len(),
            i <= n,
            forall|j: int| 0 <= j < i ==> alnum(#[trigger] key@[j]) || key@[j] == '-' || key@[j] == '_',
        decreases n - i,
    {
        let c = key.get_char(i);
        if !(is_alnum(c) || c == '-' || c == '_') {
            return false;
        }
        i = i + 1;
    }
    true
}

impl CustomApiProvider {
    pub fn new(config: CustomApiSourceConfig) -> (r: CustomApiProvider)
        ensures
            r.config == config,
    {
        CustomApiProvider { config }
    }

    /// Accepts only `http://` and `https://` endpoints.
    pub fn validate_url(&self) -> (r: VersionResult<()>)
        ensures
            r is Ok <==> url_allowed(self.config.endpoint@),
            r is Err ==> r->Err_0 is InvalidInput,
    {
        proof {
            reveal_strlit("http://");
            reveal_strlit("https://");
        }
        let url = self.config.endpoint.as_str();
        if !starts_with(url, "http://") && !starts_with(url, "https://") {
            let mut m = String::from_str("Invalid URL scheme: ");
            m.append(url);
            m.append(". Only http:// and https:// are allowed");
            return Err(VersionError::InvalidInput(m));
        }
        Ok(())
    }

    /// The configured method, which must be GET or POST in any case.
    pub fn validate_method(&self) -> (r: VersionResult<HttpMethod>)
        ensures
            r is Ok <==> method_of(self.config.method@) is Some,
            r is Ok ==> Some(r->Ok_0) == method_of(self.config.method@),
            r is Err ==> r->Err_0 is InvalidInput,
    {
        proof {
            reveal_strlit("GET");
            reveal_strlit("POST");
        }
        let upper = to_upper(self.config.method.as_str());
        if same_text(upper.as_str(), "GET") {
            Ok(HttpMethod::Get)
        } else if same_text(upper.as_str(), "POST") {
            Ok(HttpMethod::Post)
        } else {
            let mut m = String::from_str("Unsupported HTTP method: ");
            m.append(self.config.method.as_str());
            m.append(". Only GET and POST are supported");
            Err(VersionError::InvalidInput(m))
        }
    }

    /// Checks the whole request before anything is sent: the endpoint, then
    /// the method, then each header name in order.
    pub fn validate_request(&self) -> (r: VersionResult<HttpMethod>)
        ensures
            r is Ok <==> request_allowed(self.config),
            r is Ok ==> Some(r->Ok_0) == method_of(self.config.method@),
            r is Err ==> r->Err_0 is InvalidInput,
    {
        self.validate_url()?;
        let method = self.validate_method()?;
        let headers: &Vec<HttpHeaderPair> = &self.config.headers;
        let mut i: usize = 0;
        while i < headers.len()
            invariant
                headers@ == self.config.headers@,
                i <= headers@.len(),
                forall|j: int| 0 <= j < i ==> header_key_allowed(#[trigger] headers@[j].key@),
            decreases headers.len() - i,
        {
            if !header_key_is_safe(headers[i].key.as_str()) {
                let mut m = String::from_str("Invalid header key: ");
                m.append(headers[i].key.as_str());
                return Err(VersionError::InvalidInput(m));
            }
            i = i + 1;
        }
        Ok(method)
    }

    /// The candidate built from the fields read out of the response: the
    /// version field is required, the notes and publication fields are not.
    pub fn candidate_from_fields(&self, version: Option<String>, notes: Option<String>,
        published_at: Option<String>) -> (r: VersionResult<VersionCandidate>)
        ensures
            r is Err <==> version is None,
            r is Err ==> r->Err_0 is Parse,
            r is Ok ==> r->Ok_0 == (VersionCandidate {
                source: VersionSourceKind::CustomApi,
                version: version->0,
                digest: None,
                release_notes: notes,
                published_at,
                raw_reference: Some(self.config.endpoint),
            }),
    {
        match version {
            None => {
                let mut m = String::from_str("Version field '");
                m.append(self.config.version_field.as_str());
                m.append("' not found in response");
                Err(VersionError::Parse(m))
            },
            Some(v) => Ok(VersionCandidate {
                source: VersionSourceKind::CustomApi,
                version: v,
                digest: None,
                release_notes: notes,
                published_at,
                raw_reference: Some(self.config.endpoint.clone()),
            }),
        }
    }
}

} // verus!

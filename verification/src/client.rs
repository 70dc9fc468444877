use vstd::prelude::*;
use vstd::string::StringExecFns;

use crate::header::{BuilderView, HeaderHook, HeaderPairs, RestHeaderBuilder, hs_view};
use crate::decimal::{spec_decimal, u64_to_string};
use crate::{Request, RequestMethod, Response, RestError};

verus! {

/// What resolving the relative reference `rel` against the base URL `base`
/// yields, and `None` where the two do not form a valid URL.
pub uninterp spec fn resolved_url_of(base: Seq<char>, rel: Seq<char>) -> Option<Seq<char>>;

/// Relies on url::Url::parse and url::Url::join: resolving a relative
/// reference against a base URL depends on the two strings alone, and fails
/// exactly where parsing the base or joining the reference fails.
#[verifier::external_body]
fn resolve_url(base: &str, rel: &str) -> (r: Result<String, String>)
    ensures
        r matches Ok(s) ==> resolved_url_of(base@, rel@) == Some(s@),
        r is Err ==> resolved_url_of(base@, rel@) is None,
{
    match url::Url::parse(base) {
        Ok(u) => match u.join(rel) {
            Ok(joined) => Ok(String::from(joined.as_str())),
            Err(e) => Err(e.to_string()),
        },
        Err(e) => Err(e.to_string()),
    }
}

/// A fully prepared call: exactly what the transport has to send.
#[derive(Debug, Clone)]
pub struct PreparedRequest {
    pub method: RequestMethod,
    pub url: String,
    pub headers: Vec<(String, String)>,
    pub body: String,
}

/// Whether the request value serializes in its declared encoding.
pub open spec fn spec_encodes<R: Request>(req: R) -> bool {
    if R::spec_in_uri() {
        req.spec_query() is Some
    } else {
        req.spec_json() is Some
    }
}

/// The relative reference a request resolves: its static path, with the
/// value's query string appended after a `?` in URI mode.
pub open spec fn spec_relative_ref<R: Request>(req: R) -> Option<Seq<char>> {
    if R::spec_in_uri() {
        match req.spec_query() {
            Some(q) => Some(R::spec_path() + "?"@ + q),
            None => None,
        }
    } else {
        Some(R::spec_path())
    }
}

/// The URL a request resolves to under a given host.
pub open spec fn spec_url_of<R: Request>(host: Seq<char>, req: R) -> Option<Seq<char>> {
    match spec_relative_ref(req) {
        Some(rel) => resolved_url_of(host, rel),
        None => None,
    }
}

/// The headers a call carries: those that the hook, if one is set, derives
/// from the seeded builder, and the builder's seed headers otherwise.
pub open spec fn spec_built_headers<H: HeaderHook>(hook: Option<H>, seeded: BuilderView) -> HeaderPairs {
    match hook {
        Some(h) => h.spec_apply(seeded).headers,
        None => seeded.headers,
    }
}

/// Whether the transport-level status code reports failure.
pub open spec fn spec_http_failure(status: u16) -> bool {
    400 <= status <= 599
}

/// The shared client: an immutable base host, plus at most one
/// header-customization hook, set once after construction.
#[derive(Clone)]
pub struct RestClient<H: HeaderHook> {
    host: String,
    header_build_fn: Option<H>,
}

impl<H: HeaderHook> RestClient<H> {
    /// The base host URL every call's path is resolved against.
    pub closed spec fn spec_host(&self) -> Seq<char> {
        self.host@
    }

    /// The header-customization hook, if one was registered.
    pub closed spec fn spec_hook(&self) -> Option<H> {
        self.header_build_fn
    }

    pub fn new(host: String) -> (c: Self)
        ensures
            c.spec_host() == host@,
            c.spec_hook() is None,
    {
        RestClient { host, header_build_fn: None }
    }

    /// Register the hook that customizes the headers of every later call.
    pub fn header_builder(&mut self, headers_build_fn: H)
        ensures
            final(self).spec_host() == old(self).spec_host(),
            final(self).spec_hook() == Some(headers_build_fn),
    {
        self.header_build_fn = Some(headers_build_fn);
    }

    /// Encode a request value, resolve its URL and build its headers: all of
    /// a call up to the point where the transport takes over.
    ///
    /// In URI mode the body is empty and the URL carries the value's
    /// query-string serialization; in body mode the body is the value's JSON
    /// serialization and the URL is the bare path resolved against the host.
    /// Exactly one of the two carries the value.
    pub fn prepare<R: Request>(&self, request: &R) -> (r: Result<PreparedRequest, RestError>)
        ensures
            r is Ok <==> (spec_encodes(*request) && spec_url_of(self.spec_host(), *request) is Some),
            r matches Ok(p) ==> {
                &&& p.method == R::spec_method()
                &&& Some(p.url@) == spec_url_of(self.spec_host(), *request)
                &&& (R::spec_in_uri() ==> p.body@ == Seq::<char>::empty())
                &&& (!R::spec_in_uri() ==> Some(p.body@) == request.spec_json())
                &&& hs_view(p.headers@) == spec_built_headers(
                    self.spec_hook(),
                    BuilderView {
                        method: R::spec_method(),
                        url: p.url@,
                        body: p.body@,
                        headers: Seq::empty(),
                    },
                )
            },
            r matches Err(e) ==> {
                &&& (!spec_encodes(*request) ==> e matches RestError::Encode { .. })
                &&& (spec_encodes(*request) ==> e matches RestError::Url { .. })
            },
    {
        let in_uri = R::in_uri();
        let mut rel: String = R::path().to_owned();
        let body: String;
        if in_uri {
            let q = match request.to_query() {
                Ok(q) => q,
                Err(m) => {
                    return Err(RestError::Encode { message: m });
                },
            };
            body = String::new();
            rel.append("?");
            rel.append(q.as_str());
            proof {
                assert(rel@ =~= R::spec_path() + "?"@ + q@);
            }
        } else {
            body = match request.to_json() {
                Ok(b) => b,
                Err(m) => {
                    return Err(RestError::Encode { message: m });
                },
            };
        }
        let url = match resolve_url(self.host.as_str(), rel.as_str()) {
            Ok(u) => u,
            Err(m) => {
                return Err(RestError::Url { message: m });
            },
        };
        let mut builder = RestHeaderBuilder::new(R::method(), url.as_str(), body.as_str());
        builder = match &self.header_build_fn {
            Some(h) => h.apply(builder),
            None => builder,
        };
        let headers = builder.build();
        Ok(PreparedRequest { method: R::method(), url, headers, body })
    }
}

/// Interpret what the transport brought back: the status check, the
/// deserialization into the declared envelope, and the extraction step, in
/// that order. A failure status fails at once with an HTTP-status error and
/// the body is never parsed; a success status is parsed and the envelope's
/// own ruling is the call's result.
pub fn complete<T: Response>(status: u16, body: &[u8]) -> (r: Result<T::Data, RestError>)
    ensures
        spec_http_failure(status) ==> (r matches Err(e) && (e matches RestError::Http {
            status: s,
            message,
        } && s == status && message@ == "http status "@ + spec_decimal(status as nat))),
        !spec_http_failure(status) ==> match T::spec_parse(body@) {
            None => r matches Err(e) && e matches RestError::Deserialize { .. },
            Some(env) => match env.spec_extract() {
                Ok(d) => r == Ok::<T::Data, RestError>(d),
                Err(m) => r matches Err(e) && (e matches RestError::Application { message }
                    && message@ == m),
            },
        },
{
    if 400 <= status && status <= 599 {
        let mut message: String = "http status ".to_owned();
        message.append(u64_to_string(status as u64).as_str());
        return Err(RestError::Http { status, message });
    }
    let env = match T::parse(body) {
        Ok(v) => v,
        Err(m) => {
            return Err(RestError::Deserialize { message: m });
        },
    };
    env.extract()
}

} // verus!

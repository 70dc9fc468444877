use vstd::prelude::*;

pub mod client;
pub mod decimal;
pub mod envelope;
pub mod header;

verus! {

/// The request verb: the four HTTP methods this layer supports.
#[derive(Copy, Clone, PartialEq, Eq, Structural, Debug)]
pub enum RequestMethod {
    Get,
    Post,
    Delete,
    Put,
}

impl RequestMethod {
    /// The canonical uppercase name of the verb.
    pub open spec fn spec_str(self) -> Seq<char> {
        match self {
            RequestMethod::Get => "GET"@,
            RequestMethod::Post => "POST"@,
            RequestMethod::Delete => "DELETE"@,
            RequestMethod::Put => "PUT"@,
        }
    }

    pub fn as_str(&self) -> (s: &'static str)
        ensures
            s@ == self.spec_str(),
    {
        match self {
            RequestMethod::Get => "GET",
            RequestMethod::Post => "POST",
            RequestMethod::Delete => "DELETE",
            RequestMethod::Put => "PUT",
        }
    }
}

/// Everything that can go wrong during one call, one variant per stage.
///
/// An HTTP-level failure (`Http`) and an application-level failure reported
/// inside a well-formed envelope (`Application`) are distinct variants on
/// purpose: a success status can still carry an application failure, and
/// callers must be able to tell the two apart.
#[derive(Debug, Clone)]
pub enum RestError {
    /// The request value could not be serialized to its chosen encoding.
    Encode { message: String },
    /// The host and the relative path do not form a valid URL.
    Url { message: String },
    /// The transport itself failed (connection, timeout, TLS).
    Transport { message: String },
    /// The response arrived with a failure HTTP status.
    Http { status: u16, message: String },
    /// The response body does not have the shape of the expected envelope.
    Deserialize { message: String },
    /// The envelope parsed, but reported failure or was missing its payload.
    Application { message: String },
}

/// The request side of the typed binding: a request type fixes its verb, its
/// path and its encoding mode once, at the type level, and declares which
/// envelope type its responses deserialize into. A request value only
/// contributes its two serializations.
///
/// The `spec_*` functions are the mathematical description of those choices;
/// the executable methods must agree with them, which is what lets the
/// generic dispatch in [`client`] carry exact contracts. Each has a default
/// that leaves it arbitrary, so that an implementation outside the verifier
/// needs no ghost items; one written for verification must define them all,
/// since the executable methods cannot meet their contracts otherwise.
pub trait Request: Sized {
    /// The envelope type responses to this request deserialize into.
    type Response: Response;

    /// The verb of every call made with this request type.
    open spec fn spec_method() -> RequestMethod {
        arbitrary()
    }

    /// The path of every call, relative to the client's host.
    open spec fn spec_path() -> Seq<char> {
        arbitrary()
    }

    /// Whether the value is sent as a query string (`true`) or a JSON body.
    open spec fn spec_in_uri() -> bool {
        arbitrary()
    }

    /// The value's query-string serialization, `None` if it has none.
    open spec fn spec_query(self) -> Option<Seq<char>> {
        arbitrary()
    }

    /// The value's JSON serialization, `None` if it has none.
    open spec fn spec_json(self) -> Option<Seq<char>> {
        arbitrary()
    }

    fn method() -> (m: RequestMethod)
        ensures
            m == Self::spec_method(),
    ;

    fn path() -> (p: &'static str)
        ensures
            p@ == Self::spec_path(),
    ;

    fn in_uri() -> (b: bool)
        ensures
            b == Self::spec_in_uri(),
    ;

    /// Serialize the value as a query string.
    fn to_query(&self) -> (r: Result<String, String>)
        ensures
            r matches Ok(s) ==> self.spec_query() == Some(s@),
            r is Err ==> self.spec_query() is None,
    ;

    /// Serialize the value as a JSON body.
    fn to_json(&self) -> (r: Result<String, String>)
        ensures
            r matches Ok(s) ==> self.spec_json() == Some(s@),
            r is Err ==> self.spec_json() is None,
    ;
}

/// The response side of the typed binding: an envelope type knows how to
/// deserialize itself from the raw body bytes and how to extract its payload,
/// interpreting its own success convention. Callers never look inside an
/// envelope; extraction is the one place its convention is interpreted.
pub trait Response: Sized {
    /// The payload carried by a successful envelope.
    type Data;

    /// Which byte sequences parse as this envelope, and to which value.
    /// Arbitrary unless the implementation defines it, as in [`Request`].
    open spec fn spec_parse(body: Seq<u8>) -> Option<Self> {
        arbitrary()
    }

    /// What the envelope itself rules: its payload, or the message of the
    /// application-level failure it reports.
    open spec fn spec_extract(self) -> Result<Self::Data, Seq<char>> {
        arbitrary()
    }

    /// Deserialize an envelope from the raw response bytes.
    fn parse(body: &[u8]) -> (r: Result<Self, String>)
        ensures
            r matches Ok(v) ==> Self::spec_parse(body@) == Some(v),
            r is Err ==> Self::spec_parse(body@) is None,
    ;

    /// Consume the envelope and yield its payload, or the application error
    /// it reports.
    fn extract(self) -> (r: Result<Self::Data, RestError>)
        ensures
            match self.spec_extract() {
                Ok(d) => r == Ok::<Self::Data, RestError>(d),
                Err(m) => r matches Err(e) && (e matches RestError::Application { message } && message@
                    == m),
            },
    ;
}

} // verus!

//! Plain-value views of the parts of a request and of a response that the
//! rate limiter reads or produces. The host server converts to and from its
//! own types at the edge.

use vstd::prelude::*;

verus! {

/// Status of a rejected request.
pub const TOO_MANY_REQUESTS: u16 = 429;

/// Default status of a failed key extraction.
pub const INTERNAL_SERVER_ERROR: u16 = 500;

/// A status for a request without credentials.
pub const UNAUTHORIZED: u16 = 401;

/// A status for a request that is not allowed.
pub const FORBIDDEN: u16 = 403;

/// A status for a request that has to authenticate to the network first.
pub const NETWORK_AUTHENTICATION_REQUIRED: u16 = 511;

/// A request method: one of the nine standard verbs, or an extension token.
#[derive(Debug, PartialEq, Eq, Hash)]
pub enum Method {
    Get,
    Post,
    Put,
    Delete,
    Head,
    Options,
    Connect,
    Patch,
    Trace,
    Extension(String),
}

/// The mathematical value of a [`Method`].
pub enum MethodView {
    Get,
    Post,
    Put,
    Delete,
    Head,
    Options,
    Connect,
    Patch,
    Trace,
    Extension(Seq<char>),
}

impl View for Method {
    type V = MethodView;

    open spec fn view(&self) -> MethodView {
        match *self {
            Method::Get => MethodView::Get,
            Method::Post => MethodView::Post,
            Method::Put => MethodView::Put,
            Method::Delete => MethodView::Delete,
            Method::Head => MethodView::Head,
            Method::Options => MethodView::Options,
            Method::Connect => MethodView::Connect,
            Method::Patch => MethodView::Patch,
            Method::Trace => MethodView::Trace,
            Method::Extension(token) => MethodView::Extension(token@),
        }
    }
}

impl Clone for Method {
    fn clone(&self) -> (method: Method)
        ensures
            method == *self,
    {
        match self {
            Method::Get => Method::Get,
            Method::Post => Method::Post,
            Method::Put => Method::Put,
            Method::Delete => Method::Delete,
            Method::Head => Method::Head,
            Method::Options => Method::Options,
            Method::Connect => Method::Connect,
            Method::Patch => Method::Patch,
            Method::Trace => Method::Trace,
            Method::Extension(token) => Method::Extension(token.clone()),
        }
    }
}

impl Method {
    /// Whether two methods are the same verb.
    pub fn same_as(&self, other: &Method) -> (same: bool)
        ensures
            same == (self@ == other@),
    {
        match self {
            Method::Get => matches!(other, Method::Get),
            Method::Post => matches!(other, Method::Post),
            Method::Put => matches!(other, Method::Put),
            Method::Delete => matches!(other, Method::Delete),
            Method::Head => matches!(other, Method::Head),
            Method::Options => matches!(other, Method::Options),
            Method::Connect => matches!(other, Method::Connect),
            Method::Patch => matches!(other, Method::Patch),
            Method::Trace => matches!(other, Method::Trace),
            Method::Extension(a) => match other {
                Method::Extension(b) => *a == *b,
                _ => false,
            },
        }
    }
}

/// The views of a list of methods.
pub open spec fn method_views(methods: Seq<Method>) -> Seq<MethodView> {
    methods.map_values(|m: Method| m@)
}

/// Whether `method` occurs in `methods`.
pub fn contains_method(methods: &Vec<Method>, method: &Method) -> (found: bool)
    ensures
        found == method_views(methods@).contains(method@),
{
    let mut i: usize = 0;
    while i < methods.len()
        invariant
            i <= methods.len(),
            forall|j: int| 0 <= j < i ==> method_views(methods@)[j] != method@,
        decreases methods.len() - i,
    {
        if methods[i].same_as(method) {
            assert(method_views(methods@)[i as int] == method@);
            return true;
        }
        i += 1;
    }
    false
}

/// A copy of a list of methods.
pub fn clone_methods(methods: &Vec<Method>) -> (copy: Vec<Method>)
    ensures
        copy@ == methods@,
{
    let mut copy: Vec<Method> = Vec::new();
    let mut i: usize = 0;
    while i < methods.len()
        invariant
            i <= methods.len(),
            copy@ == methods@.subrange(0, i as int),
        decreases methods.len() - i,
    {
        copy.push(methods[i].clone());
        assert(methods@.subrange(0, i + 1) =~= methods@.subrange(0, i as int).push(
            methods@[i as int],
        ));
        i += 1;
    }
    assert(methods@.subrange(0, methods@.len() as int) =~= methods@);
    copy
}

/// A media type of a response body.
#[derive(Debug, PartialEq, Eq)]
pub enum ContentType {
    /// `text/plain; charset=utf-8`
    Plaintext,
    /// `application/json`
    Json,
    /// `text/html; charset=utf-8`
    Html,
    /// Any other media type, written out.
    Other(String),
}

impl Clone for ContentType {
    fn clone(&self) -> (ct: ContentType)
        ensures
            ct == *self,
    {
        match self {
            ContentType::Plaintext => ContentType::Plaintext,
            ContentType::Json => ContentType::Json,
            ContentType::Html => ContentType::Html,
            ContentType::Other(mime) => ContentType::Other(mime.clone()),
        }
    }
}

impl ContentType {
    /// The header value of a media type.
    pub open spec fn spec_mime(self) -> Seq<char> {
        match self {
            ContentType::Plaintext => "text/plain; charset=utf-8"@,
            ContentType::Json => "application/json"@,
            ContentType::Html => "text/html; charset=utf-8"@,
            ContentType::Other(mime) => mime@,
        }
    }

    pub fn plaintext() -> (ct: ContentType)
        ensures
            ct == ContentType::Plaintext,
    {
        ContentType::Plaintext
    }

    pub fn json() -> (ct: ContentType)
        ensures
            ct == ContentType::Json,
    {
        ContentType::Json
    }

    pub fn html() -> (ct: ContentType)
        ensures
            ct == ContentType::Html,
    {
        ContentType::Html
    }

    /// The value to send in the `content-type` header.
    pub fn mime(&self) -> (value: String)
        ensures
            value@ == self.spec_mime(),
    {
        match self {
            ContentType::Plaintext => String::from_str("text/plain; charset=utf-8"),
            ContentType::Json => String::from_str("application/json"),
            ContentType::Html => String::from_str("text/html; charset=utf-8"),
            ContentType::Other(mime) => mime.clone(),
        }
    }
}

/// One header line: a name and a value.
#[derive(Clone, Debug, PartialEq, Eq)]
pub struct Header {
    pub name: String,
    pub value: String,
}

impl View for Header {
    type V = (Seq<char>, Seq<char>);

    open spec fn view(&self) -> (Seq<char>, Seq<char>) {
        (self.name@, self.value@)
    }
}

impl Header {
    pub fn new(name: &str, value: String) -> (header: Header)
        ensures
            header@ == (name@, value@),
    {
        Header { name: String::from_str(name), value }
    }
}

/// The views of a list of headers, in order.
pub open spec fn header_views(headers: Seq<Header>) -> Seq<(Seq<char>, Seq<char>)> {
    headers.map_values(|h: Header| h@)
}

/// The address of the direct network peer of a request, as the integer that
/// its octets spell in network order.
#[derive(Clone, Copy, Debug, PartialEq, Eq, Hash, Structural)]
pub enum PeerIp {
    V4(u32),
    V6(u128),
}

/// What the rate limiter may read of a request.
#[derive(Clone, Debug, PartialEq, Eq)]
pub struct RequestView {
    pub method: Method,
    pub peer_addr: Option<PeerIp>,
    pub headers: Vec<Header>,
}

/// A response description: what the host server is to send.
#[derive(Clone, Debug, PartialEq, Eq)]
pub struct Response {
    pub status_code: u16,
    pub headers: Vec<Header>,
    pub content_type: Option<ContentType>,
    pub body: String,
}

/// A response under construction.
#[derive(Clone, Debug, PartialEq, Eq)]
pub struct ResponseBuilder {
    pub status_code: u16,
    pub headers: Vec<Header>,
    pub content_type: Option<ContentType>,
}

impl ResponseBuilder {
    /// A builder with the given status, no headers and no content type.
    pub fn new(status_code: u16) -> (builder: ResponseBuilder)
        ensures
            builder.status_code == status_code,
            builder.headers@ == Seq::<Header>::empty(),
            builder.content_type is None,
    {
        ResponseBuilder { status_code, headers: Vec::new(), content_type: None }
    }

    /// Replaces the status.
    pub fn status(self, status_code: u16) -> (builder: ResponseBuilder)
        ensures
            builder.status_code == status_code,
            builder.headers == self.headers,
            builder.content_type == self.content_type,
    {
        ResponseBuilder { status_code, headers: self.headers, content_type: self.content_type }
    }

    /// Appends one header.
    pub fn insert_header(self, header: Header) -> (builder: ResponseBuilder)
        ensures
            builder.status_code == self.status_code,
            builder.headers@ == self.headers@.push(header),
            builder.content_type == self.content_type,
    {
        let mut headers = self.headers;
        headers.push(header);
        ResponseBuilder { status_code: self.status_code, headers, content_type: self.content_type }
    }

    /// Sets the media type of the body.
    pub fn content_type(self, content_type: ContentType) -> (builder: ResponseBuilder)
        ensures
            builder.status_code == self.status_code,
            builder.headers == self.headers,
            builder.content_type == Some(content_type),
    {
        ResponseBuilder {
            status_code: self.status_code,
            headers: self.headers,
            content_type: Some(content_type),
        }
    }

    /// Finishes the response with the given body.
    pub fn body(self, body: String) -> (response: Response)
        ensures
            response.status_code == self.status_code,
            response.headers == self.headers,
            response.content_type == self.content_type,
            response.body == body,
    {
        Response {
            status_code: self.status_code,
            headers: self.headers,
            content_type: self.content_type,
            body,
        }
    }
}

} // verus!

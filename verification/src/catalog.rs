use crate::error::BridgeError;
use vstd::prelude::*;
use vstd::string::StringExecFns;

verus! {

/// Where the catalog's server list lives.
pub const CATALOG_URL: &'static str = "https://www.modelscope.cn/openapi/v1/mcp/servers";

/// The client identifier sent with every catalog request.
pub const USER_AGENT: &'static str = "IntelAIA/2.2.0";

/// The value of both content headers, `Content-Type` and `Accept`.
pub const JSON_MEDIA_TYPE: &'static str = "application/json";

/// Seconds after which a catalog request is given up.
pub const REQUEST_TIMEOUT_SECS: u64 = 30;

/// The sort direction every listing asks for.
pub const LISTING_DIRECTION: u32 = 1;

/// The filter object of a listing. A `None` category means that the
/// transmitted object has no `category` key at all.
#[derive(Debug, PartialEq, Eq)]
pub struct CatalogFilter {
    pub category: Option<String>,
    pub is_hosted: bool,
}

/// The envelope of a listing request.
#[derive(Debug, PartialEq, Eq)]
pub struct CatalogRequest {
    pub direction: u32,
    pub filter: CatalogFilter,
    pub page_number: u32,
    pub page_size: u32,
    pub search: String,
}

/// The two kinds of request the catalog is sent.
#[derive(Debug, Clone, Copy, PartialEq, Eq, Structural)]
pub enum HttpMethod {
    Get,
    Put,
}

/// Everything the transport needs for one request to the catalog.
#[derive(Debug, PartialEq, Eq)]
pub struct CatalogCall {
    pub method: HttpMethod,
    pub url: String,
    /// Value of the `Content-Type` header.
    pub content_type: String,
    /// Value of the `Accept` header.
    pub accept: String,
    /// Value of the `User-Agent` header.
    pub user_agent: String,
    pub timeout_secs: u64,
    /// The JSON body; `None` for a request without one.
    pub body: Option<CatalogRequest>,
}

/// What came back from the transport for one request.
#[derive(Debug)]
pub enum HttpReply {
    /// The server answered; `body` is the response text as received.
    Response { status: u16, body: String },
    /// No usable answer: name lookup, connect, timeout or a broken body.
    Failed { message: String },
}

/// The filter for a category: only hosted servers, and of the category where
/// one is named.
pub open spec fn filter_for(category: String) -> CatalogFilter {
    CatalogFilter {
        category: if category@.len() == 0 { None } else { Some(category) },
        is_hosted: true,
    }
}

/// The request envelope for one page of a listing.
pub open spec fn request_for(page_number: u32, page_size: u32, category: String, search: String) -> CatalogRequest {
    CatalogRequest {
        direction: LISTING_DIRECTION,
        filter: filter_for(category),
        page_number,
        page_size,
        search,
    }
}

/// A call carries the fixed headers and the fixed timeout.
pub open spec fn has_fixed_settings(call: CatalogCall) -> bool {
    &&& call.content_type@ == JSON_MEDIA_TYPE@
    &&& call.accept@ == JSON_MEDIA_TYPE@
    &&& call.user_agent@ == USER_AGENT@
    &&& call.timeout_secs == REQUEST_TIMEOUT_SECS
}

/// Statuses 200 to 299 count as success.
pub open spec fn is_success_status(status: u16) -> bool {
    200 <= status <= 299
}

/// What a caller receives for a reply: the body of a successful response
/// unparsed, the status of any other response, the transport's message where
/// there was no response.
pub open spec fn outcome_of(reply: HttpReply) -> Result<String, BridgeError> {
    match reply {
        HttpReply::Response { status, body } => if is_success_status(status) {
            Ok(body)
        } else {
            Err(BridgeError::HttpStatus(status))
        },
        HttpReply::Failed { message } => Err(BridgeError::Transport(message)),
    }
}

/// Builds the filter object: the category key is left out for an empty
/// category and carries the category otherwise.
pub fn build_filter(category: String) -> (filter: CatalogFilter)
    ensures
        filter == filter_for(category),
        filter.is_hosted,
        category@.len() == 0 ==> filter.category is None,
        category@.len() > 0 ==> filter.category == Some(category),
{
    if category.as_str().is_empty() {
        CatalogFilter { category: None, is_hosted: true }
    } else {
        CatalogFilter { category: Some(category), is_hosted: true }
    }
}

/// Builds the envelope of a listing request.
pub fn build_request(page_number: u32, page_size: u32, category: String, search: String) -> (request:
    CatalogRequest)
    ensures
        request == request_for(page_number, page_size, category, search),
{
    CatalogRequest {
        direction: LISTING_DIRECTION,
        filter: build_filter(category),
        page_number,
        page_size,
        search,
    }
}

/// The characters an identifier may hold: ASCII letters and digits, and
/// `-`, `.`, `_`, `~` and `@`. None of them ends a path segment, starts a
/// query or a fragment, or starts an escape.
pub open spec fn is_safe_id_char(c: char) -> bool {
    let code = c as u32;
    ||| 0x61 <= code <= 0x7A
    ||| 0x41 <= code <= 0x5A
    ||| 0x30 <= code <= 0x39
    ||| c == '-'
    ||| c == '.'
    ||| c == '_'
    ||| c == '~'
    ||| c == '@'
}

/// The two segments that an address resolves away: `.` and `..`.
pub open spec fn is_dot_segment(id: Seq<char>) -> bool {
    ||| id.len() == 1 && id[0] == '.'
    ||| id.len() == 2 && id[0] == '.' && id[1] == '.'
}

/// An identifier that stands for exactly one path segment: not empty, made
/// of safe characters only, and not a dot segment.
pub open spec fn is_valid_id(id: Seq<char>) -> bool {
    &&& id.len() > 0
    &&& forall|i: int| 0 <= i < id.len() ==> is_safe_id_char(#[trigger] id[i])
    &&& !is_dot_segment(id)
}

/// A valid identifier adds one segment to an address and nothing else: it
/// holds no `/`, `?`, `#` or `%`.
pub proof fn lemma_valid_id_is_one_segment(id: Seq<char>)
    requires
        is_valid_id(id),
    ensures
        !id.contains('/'),
        !id.contains('?'),
        !id.contains('#'),
        !id.contains('%'),
{
    assert forall|i: int| 0 <= i < id.len() implies id[i] != '/' && id[i] != '?' && id[i] != '#'
        && id[i] != '%' by {
        assert(is_safe_id_char(id[i]));
    }
}

/// Tells whether a character may stand in an identifier.
pub fn is_safe_char(c: char) -> (safe: bool)
    ensures
        safe == is_safe_id_char(c),
{
    let code: u32 = c as u32;
    (0x61 <= code && code <= 0x7A) || (0x41 <= code && code <= 0x5A) || (0x30 <= code && code <= 0x39)
        || c == '-' || c == '.' || c == '_' || c == '~' || c == '@'
}

/// Tells whether an identifier stands for exactly one path segment.
pub fn is_valid_identifier(id: &str) -> (valid: bool)
    ensures
        valid == is_valid_id(id@),
{
    let length: usize = id.unicode_len();
    if length == 0 {
        return false;
    }
    let mut i: usize = 0;
    while i < length
        invariant
            i <= length,
            length == id@.len(),
            forall|j: int| 0 <= j < i ==> is_safe_id_char(#[trigger] id@[j]),
        decreases length - i,
    {
        if !is_safe_char(id.get_char(i)) {
            return false;
        }
        i += 1;
    }
    if length == 1 {
        id.get_char(0) != '.'
    } else if length == 2 {
        !(id.get_char(0) == '.' && id.get_char(1) == '.')
    } else {
        true
    }
}

/// The address of one server's entry: the listing's address, a slash and the
/// identifier as its one further segment. An identifier that is not valid
/// is refused, so that it can neither add segments nor a query.
pub fn server_url(id: &str) -> (url: Result<String, BridgeError>)
    ensures
        match url {
            Ok(address) => is_valid_id(id@) && address@ == CATALOG_URL@ + "/"@ + id@,
            Err(error) => !is_valid_id(id@) && error is InvalidIdentifier,
        },
{
    if is_valid_identifier(id) {
        Ok(String::from_str(CATALOG_URL).concat("/").concat(id))
    } else {
        Err(BridgeError::InvalidIdentifier)
    }
}

/// Plans the request for one page of the server listing: a `PUT` of the
/// envelope to the listing's address.
pub fn listing_call(page_number: u32, page_size: u32, category: String, search: String) -> (call:
    CatalogCall)
    ensures
        call.method == HttpMethod::Put,
        call.url@ == CATALOG_URL@,
        has_fixed_settings(call),
        call.body == Some(request_for(page_number, page_size, category, search)),
{
    CatalogCall {
        method: HttpMethod::Put,
        url: String::from_str(CATALOG_URL),
        content_type: String::from_str(JSON_MEDIA_TYPE),
        accept: String::from_str(JSON_MEDIA_TYPE),
        user_agent: String::from_str(USER_AGENT),
        timeout_secs: REQUEST_TIMEOUT_SECS,
        body: Some(build_request(page_number, page_size, category, search)),
    }
}

/// Plans the request for one server's entry: a `GET` without a body, to the
/// listing's address with the identifier as one further segment. An
/// identifier that is not valid is refused and no request is planned.
pub fn lookup_call(id: &str) -> (planned: Result<CatalogCall, BridgeError>)
    ensures
        planned is Ok <==> is_valid_id(id@),
        match planned {
            Ok(call) => {
                &&& call.method == HttpMethod::Get
                &&& call.url@ == CATALOG_URL@ + "/"@ + id@
                &&& has_fixed_settings(call)
                &&& call.body is None
            },
            Err(error) => error is InvalidIdentifier,
        },
{
    match server_url(id) {
        Ok(url) => Ok(
            CatalogCall {
                method: HttpMethod::Get,
                url,
                content_type: String::from_str(JSON_MEDIA_TYPE),
                accept: String::from_str(JSON_MEDIA_TYPE),
                user_agent: String::from_str(USER_AGENT),
                timeout_secs: REQUEST_TIMEOUT_SECS,
                body: None,
            },
        ),
        Err(error) => Err(error),
    }
}

/// Tells whether a status is in the success range.
pub fn is_success(status: u16) -> (success: bool)
    ensures
        success == is_success_status(status),
{
    200 <= status && status <= 299
}

/// Turns the transport's reply into the caller's result.
pub fn interpret_reply(reply: HttpReply) -> (outcome: Result<String, BridgeError>)
    ensures
        outcome == outcome_of(reply),
{
    match reply {
        HttpReply::Response { status, body } => {
            if is_success(status) {
                Ok(body)
            } else {
                Err(BridgeError::HttpStatus(status))
            }
        },
        HttpReply::Failed { message } => Err(BridgeError::Transport(message)),
    }
}

} // verus!

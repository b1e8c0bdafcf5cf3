//! The doc file server's decision layer: it routes a request (method and
//! path) against the current crate metadata to either a redirect, a file
//! under the documentation root, or a rejection, and it maps the outcome of
//! reading that file to the HTTP response the client sees. All file and
//! network traffic stays outside this crate; callers hand in the request and
//! the bytes the file read produced, and get the full response back.

use vstd::prelude::*;
use crate::resolver::{
    resolved_rel_path, resolve_rel_path, has_parent_segment, contains_parent_segment,
};

verus! {

/// The request methods the server distinguishes. Only GET is served; every
/// other method is answered "not found".
#[derive(Clone, Copy, PartialEq, Eq, Structural, Debug)]
pub enum HttpMethod {
    Get,
    Head,
    Post,
    Put,
    Delete,
    Options,
    Other,
}

/// The documentation root: the sanitized package name and the directory that
/// holds the generated tree. Produced from the build metadata, fresh for each
/// request.
#[derive(Clone, PartialEq, Eq, Debug)]
pub struct CrateInfo {
    pub name: String,
    pub doc_path: String,
}

/// What the package name looks like on disk: every '-' becomes '_'.
pub open spec fn sanitized_name(s: Seq<char>) -> Seq<char> {
    s.map_values(|c: char| if c == '-' { '_' } else { c })
}

/// Replace every '-' in `name` with '_', as documentation directories are
/// named.
pub fn sanitize_name(name: &str) -> (r: String)
    ensures
        r@ == sanitized_name(name@),
{
    let len: usize = name.unicode_len();
    let mut out = String::new();
    let mut i: usize = 0;
    while i < len
        invariant
            i <= len,
            len == name@.len(),
            out@ == sanitized_name(name@.take(i as int)),
        decreases len - i,
    {
        let c = name.get_char(i);
        if c == '-' {
            out.append("_");
            proof {
                reveal_strlit("_");
                assert(out@ =~= sanitized_name(name@.take(i as int + 1)));
            }
        } else {
            let piece = name.substring_char(i, i + 1);
            out.append(piece);
            proof {
                assert(piece@ =~= seq![name@[i as int]]);
                assert(out@ =~= sanitized_name(name@.take(i as int + 1)));
            }
        }
        i = i + 1;
    }
    proof {
        assert(name@.take(len as int) =~= name@);
    }
    out
}

impl CrateInfo {
    /// Build the documentation root from the package name and the build
    /// target directory: the name is sanitized, and the generated tree lives
    /// in the target directory's "doc" subdirectory.
    pub fn new(package_name: &str, target_directory: &str) -> (r: CrateInfo)
        ensures
            r.name@ == sanitized_name(package_name@),
            r.doc_path@ == target_directory@ + "/doc"@,
    {
        CrateInfo {
            name: sanitize_name(package_name),
            doc_path: target_directory.to_owned().concat("/doc"),
        }
    }
}

/// Where a request is sent: a redirect to the package's index document, a
/// file under the documentation root, or a rejection.
#[derive(Clone, PartialEq, Eq, Debug)]
pub enum Route {
    Redirect { location: String },
    File { full_path: String },
    Rejected,
}

/// The ghost shape of a `Route`.
#[verifier::ext_equal]
pub enum RouteModel {
    Redirect { location: Seq<char> },
    File { full_path: Seq<char> },
    Rejected,
}

impl View for Route {
    type V = RouteModel;

    open spec fn view(&self) -> RouteModel {
        match self {
            Route::Redirect { location } => RouteModel::Redirect { location: location@ },
            Route::File { full_path } => RouteModel::File { full_path: full_path@ },
            Route::Rejected => RouteModel::Rejected,
        }
    }
}

/// Where a GET for "/" is redirected: "/{name}/index.html".
pub open spec fn redirect_location(name: Seq<char>) -> Seq<char> {
    "/"@ + name + "/index.html"@
}

/// The on-disk path a request path resolves to, under the documentation
/// root.
pub open spec fn full_path_of(doc_path: Seq<char>, path: Seq<char>) -> Seq<char> {
    doc_path + "/"@ + resolved_rel_path(path)
}

/// How a request is routed. Only GET is served. "/" is redirected to the
/// package's index document. A resolved path holding a ".." segment is
/// rejected, so no request can name a file outside the documentation root.
pub open spec fn spec_route(
    method: HttpMethod,
    path: Seq<char>,
    name: Seq<char>,
    doc_path: Seq<char>,
) -> RouteModel {
    if !(method is Get) {
        RouteModel::Rejected
    } else if path == "/"@ {
        RouteModel::Redirect { location: redirect_location(name) }
    } else if has_parent_segment(resolved_rel_path(path)) {
        RouteModel::Rejected
    } else {
        RouteModel::File { full_path: full_path_of(doc_path, path) }
    }
}

/// Route a request against the current documentation root.
pub fn route(method: HttpMethod, path: &str, info: &CrateInfo) -> (r: Route)
    ensures
        r@ == spec_route(method, path@, info.name@, info.doc_path@),
{
    match method {
        HttpMethod::Get => {
            let is_root = path.unicode_len() == 1 && path.get_char(0) == '/';
            proof {
                reveal_strlit("/");
                if is_root {
                    assert(path@ =~= "/"@);
                }
            }
            if is_root {
                let mut loc = "/".to_owned();
                loc.append(info.name.as_str());
                loc.append("/index.html");
                Route::Redirect { location: loc }
            } else {
                let rel = resolve_rel_path(path);
                if contains_parent_segment(rel.as_str()) {
                    Route::Rejected
                } else {
                    let mut full = info.doc_path.clone();
                    full.append("/");
                    full.append(rel.as_str());
                    Route::File { full_path: full }
                }
            }
        },
        _ => Route::Rejected,
    }
}

/// What came of reading the resolved file: its bytes, "the file is not
/// there", or any other I/O failure.
#[derive(Clone, PartialEq, Eq, Debug)]
pub enum ReadOutcome {
    Content(Vec<u8>),
    Missing,
    Failed,
}

/// The ghost shape of a `ReadOutcome`.
#[verifier::ext_equal]
pub enum OutcomeModel {
    Content(Seq<u8>),
    Missing,
    Failed,
}

impl View for ReadOutcome {
    type V = OutcomeModel;

    open spec fn view(&self) -> OutcomeModel {
        match self {
            ReadOutcome::Content(bytes) => OutcomeModel::Content(bytes@),
            ReadOutcome::Missing => OutcomeModel::Missing,
            ReadOutcome::Failed => OutcomeModel::Failed,
        }
    }
}

/// A response body: empty, a short text, or a file's bytes.
#[derive(Clone, PartialEq, Eq, Debug)]
pub enum DocBody {
    Empty,
    Text(String),
    Bytes(Vec<u8>),
}

/// The ghost shape of a `DocBody`.
#[verifier::ext_equal]
pub enum BodyModel {
    Empty,
    Text(Seq<char>),
    Bytes(Seq<u8>),
}

impl View for DocBody {
    type V = BodyModel;

    open spec fn view(&self) -> BodyModel {
        match self {
            DocBody::Empty => BodyModel::Empty,
            DocBody::Text(s) => BodyModel::Text(s@),
            DocBody::Bytes(b) => BodyModel::Bytes(b@),
        }
    }
}

/// Everything the HTTP front end needs to write a response: the status code,
/// the Content-Type and Location headers when they are set, and the body.
#[derive(Clone, PartialEq, Eq, Debug)]
pub struct DocResponse {
    pub status: u16,
    pub content_type: Option<String>,
    pub location: Option<String>,
    pub body: DocBody,
}

/// The ghost shape of a `DocResponse`.
#[verifier::ext_equal]
pub struct ResponseModel {
    pub status: u16,
    pub content_type: Option<Seq<char>>,
    pub location: Option<Seq<char>>,
    pub body: BodyModel,
}

impl View for DocResponse {
    type V = ResponseModel;

    open spec fn view(&self) -> ResponseModel {
        ResponseModel {
            status: self.status,
            content_type: match &self.content_type {
                Some(s) => Some(s@),
                None => None,
            },
            location: match &self.location {
                Some(s) => Some(s@),
                None => None,
            },
            body: self.body@,
        }
    }
}

/// The MIME type mime_guess infers from a path's extension.
pub uninterp spec fn mime_of(path: Seq<char>) -> Seq<char>;

/// Relies on mime_guess::from_path, first_or_octet_stream and Mime's Display
/// form: the guess is a case-insensitive table lookup on the path's
/// extension, with no disk access, so it depends on the path string alone.
#[verifier::external_body]
fn guess_mime(path: &str) -> (r: String)
    ensures
        r@ == mime_of(path@),
{
    mime_guess::from_path(path).first_or_octet_stream().to_string()
}

/// The 404 response: body "not found", no headers.
pub open spec fn not_found_model() -> ResponseModel {
    ResponseModel {
        status: 404,
        content_type: None,
        location: None,
        body: BodyModel::Text("not found"@),
    }
}

/// The redirect response: status 302 with a Location header, empty body.
pub open spec fn redirect_model(location: Seq<char>) -> ResponseModel {
    ResponseModel { status: 302, content_type: None, location: Some(location), body: BodyModel::Empty }
}

/// The response to an I/O failure other than "not found": a bare 500.
pub open spec fn error_model() -> ResponseModel {
    ResponseModel { status: 500, content_type: None, location: None, body: BodyModel::Empty }
}

/// The response once the resolved file has been read: 200 with the file's
/// bytes and inferred content type, 404 when it is missing, 500 on any other
/// failure.
pub open spec fn file_model(full_path: Seq<char>, outcome: OutcomeModel) -> ResponseModel {
    match outcome {
        OutcomeModel::Content(bytes) => ResponseModel {
            status: 200,
            content_type: Some(mime_of(full_path)),
            location: None,
            body: BodyModel::Bytes(bytes),
        },
        OutcomeModel::Missing => not_found_model(),
        OutcomeModel::Failed => error_model(),
    }
}

/// Build the 404 response.
pub fn not_found() -> (r: DocResponse)
    ensures
        r@ == not_found_model(),
{
    DocResponse {
        status: 404,
        content_type: None,
        location: None,
        body: DocBody::Text("not found".to_owned()),
    }
}

/// Build the 302 redirect response for `location`.
pub fn redirect_response(location: String) -> (r: DocResponse)
    ensures
        r@ == redirect_model(location@),
{
    DocResponse { status: 302, content_type: None, location: Some(location), body: DocBody::Empty }
}

/// Build the bare 500 response.
pub fn error_response() -> (r: DocResponse)
    ensures
        r@ == error_model(),
{
    DocResponse { status: 500, content_type: None, location: None, body: DocBody::Empty }
}

/// Build the response for the file at `full_path` once reading it came out
/// as `outcome`.
pub fn file_response(full_path: &str, outcome: ReadOutcome) -> (r: DocResponse)
    ensures
        r@ == file_model(full_path@, outcome@),
{
    match outcome {
        ReadOutcome::Content(bytes) => DocResponse {
            status: 200,
            content_type: Some(guess_mime(full_path)),
            location: None,
            body: DocBody::Bytes(bytes),
        },
        ReadOutcome::Missing => not_found(),
        ReadOutcome::Failed => error_response(),
    }
}

/// The whole decision layer as one function of the request and of what the
/// file read produced. For routes that read no file the outcome is ignored.
pub open spec fn spec_respond(
    method: HttpMethod,
    path: Seq<char>,
    name: Seq<char>,
    doc_path: Seq<char>,
    outcome: OutcomeModel,
) -> ResponseModel {
    match spec_route(method, path, name, doc_path) {
        RouteModel::Redirect { location } => redirect_model(location),
        RouteModel::File { full_path } => file_model(full_path, outcome),
        RouteModel::Rejected => not_found_model(),
    }
}

/// Answer a request, given the outcome of reading the resolved file. The
/// caller reads the file at the path `route` names (and hands in any
/// placeholder outcome for routes that read no file).
pub fn respond(method: HttpMethod, path: &str, info: &CrateInfo, outcome: ReadOutcome) -> (r:
    DocResponse)
    ensures
        r@ == spec_respond(method, path@, info.name@, info.doc_path@, outcome@),
{
    match route(method, path, info) {
        Route::Redirect { location } => redirect_response(location),
        Route::File { full_path } => file_response(full_path.as_str(), outcome),
        Route::Rejected => not_found(),
    }
}

/// Law: a GET for "/" is answered with a 302 redirect to
/// "/{package name}/index.html", whatever the file tree holds.
pub proof fn lemma_root_always_redirects(
    name: Seq<char>,
    doc_path: Seq<char>,
    outcome: OutcomeModel,
)
    ensures
        spec_respond(HttpMethod::Get, "/"@, name, doc_path, outcome) == redirect_model(
            redirect_location(name),
        ),
{
}

/// Law: when the resolved file is missing, a GET for any path other than "/"
/// is answered 404 with body "not found".
pub proof fn lemma_missing_file_not_found(path: Seq<char>, name: Seq<char>, doc_path: Seq<char>)
    requires
        path != "/"@,
    ensures
        spec_respond(HttpMethod::Get, path, name, doc_path, OutcomeModel::Missing)
            == not_found_model(),
{
}

/// Law: a request with any method other than GET is answered 404 with body
/// "not found", whatever the path and the file tree.
pub proof fn lemma_non_get_not_found(
    method: HttpMethod,
    path: Seq<char>,
    name: Seq<char>,
    doc_path: Seq<char>,
    outcome: OutcomeModel,
)
    requires
        !(method is Get),
    ensures
        spec_respond(method, path, name, doc_path, outcome) == not_found_model(),
{
}

/// Law: the response is a function of the request and of the bytes the file
/// read produced, so repeating a request over an unchanged file tree yields
/// an identical response.
pub proof fn lemma_response_deterministic(
    method: HttpMethod,
    path: Seq<char>,
    name: Seq<char>,
    doc_path: Seq<char>,
    first: OutcomeModel,
    second: OutcomeModel,
)
    requires
        first == second,
    ensures
        spec_respond(method, path, name, doc_path, first) == spec_respond(
            method,
            path,
            name,
            doc_path,
            second,
        ),
{
}

} // verus!

//! The data request and the validation of its response.

use vstd::prelude::*;
use vstd::slice::slice_subrange;
use vstd::utf8::encode_utf8;
use crate::constants::{SCHEDULE_API_URL, SEMESTER_SELECTOR, SNIPPET_LIMIT, TIME_GRID_SELECTOR};
use crate::discovery::{
    nodes_or_empty, parse_course_meta, probe_fields, probe_form_body, semesters_of, time_grid_of, CourseMeta,
};
use crate::form::{encode_form, field, fields_view, form_encoded};
use crate::html::{matched_nodes, opt_text};
use crate::text::{lossy_text, starts_with_bytes, starts_with_seq, utf8_lossy};

verus! {

/// Why a retrieval failed.
#[derive(Debug)]
pub enum RetrievalError {
    /// Discovery gave no semester to ask for.
    Discovery,
    /// The server answered with a status outside the success class.
    HttpStatus { code: u16 },
    /// The body is an HTML page where data was expected: the session is no
    /// longer valid. `snippet` quotes the start of the body.
    SessionInvalid { snippet: String },
    /// The body is no HTML page, yet it could not be read as a schedule.
    Parse { cause: String },
    /// An event arrived that the retrieval did not wait for.
    OutOfOrder,
}

/// The fields of the data request for one semester and one time grid, in the
/// order in which they are sent. The empty week filter asks for all weeks.
pub open spec fn schedule_fields(semester_id: Seq<char>, kbjcmsid: Seq<char>) -> Seq<(Seq<char>, Seq<char>)> {
    seq![
        ("viweType"@, "1"@),
        ("needData"@, "1"@),
        ("pageNum"@, "1"@),
        ("pageSize"@, "20"@),
        ("baseUrl"@, "/jsxsd"@),
        ("sfykb"@, "2"@),
        ("xsflMapListJsonStr"@, "讲课学时,实践学时,"@),
        ("xnxq01id"@, semester_id),
        ("kbjcmsid"@, kbjcmsid),
        ("zc"@, ""@),
    ]
}

/// Lists the fields of the data request. The semester asked for is the first
/// one discovered, whichever is marked current.
pub fn schedule_form_fields(meta: &CourseMeta) -> (r: Result<Vec<(String, String)>, RetrievalError>)
    ensures
        meta@.semesters.len() == 0 ==> (r matches Err(e) && e is Discovery),
        meta@.semesters.len() > 0 ==> (r matches Ok(fields) && fields_view(fields@) == schedule_fields(
            meta@.semesters[0].id,
            meta@.kbjcmsid,
        )),
{
    if meta.semesters.len() == 0 {
        return Err(RetrievalError::Discovery);
    }
    let mut fields: Vec<(String, String)> = Vec::new();
    fields.push(field("viweType", "1"));
    fields.push(field("needData", "1"));
    fields.push(field("pageNum", "1"));
    fields.push(field("pageSize", "20"));
    fields.push(field("baseUrl", "/jsxsd"));
    fields.push(field("sfykb", "2"));
    fields.push(field("xsflMapListJsonStr", "讲课学时,实践学时,"));
    fields.push(field("xnxq01id", meta.semesters[0].id.as_str()));
    fields.push(field("kbjcmsid", meta.kbjcmsid.as_str()));
    fields.push(field("zc", ""));
    assert(fields_view(fields@) =~= schedule_fields(meta@.semesters[0].id, meta@.kbjcmsid));
    Ok(fields)
}

/// Builds the body of the data request.
pub fn schedule_form_body(meta: &CourseMeta) -> (r: Result<String, RetrievalError>)
    ensures
        meta@.semesters.len() == 0 ==> (r matches Err(e) && e is Discovery),
        meta@.semesters.len() > 0 ==> (r matches Ok(body) && body@ == form_encoded(
            schedule_fields(meta@.semesters[0].id, meta@.kbjcmsid),
        )),
{
    match schedule_form_fields(meta) {
        Ok(fields) => Ok(encode_form(&fields)),
        Err(e) => Err(e),
    }
}

/// The media type that magic-byte sniffing gives a byte string, if any.
pub uninterp spec fn sniffed_mime(content: Seq<u8>) -> Option<Seq<char>>;

/// Calls `infer::get` and copies the media type of the kind it found. The
/// result is a function of the bytes alone, named by [`sniffed_mime`].
/// Believed, not proved.
#[verifier::external_body]
pub(crate) fn sniff_mime(content: &[u8]) -> (r: Option<String>)
    ensures
        opt_text(r) == sniffed_mime(content@),
{
    infer::get(content).map(|kind| kind.mime_type().to_string())
}

/// The status is in the success class.
pub open spec fn is_success_status(status: u16) -> bool {
    200 <= status <= 299
}

/// The bytes are a marker page: they start with a document type declaration,
/// or sniffing takes them for HTML.
pub open spec fn is_marker_page(content: Seq<u8>) -> bool {
    ||| starts_with_seq(content, encode_utf8("<!DOCTYPE"@))
    ||| sniffed_mime(content) == Some("text/html"@)
}

/// The part of a body that a diagnostic quotes: its first bytes, up to the
/// snippet limit.
pub open spec fn snippet_bytes(content: Seq<u8>) -> Seq<u8> {
    if content.len() <= SNIPPET_LIMIT {
        content
    } else {
        content.subrange(0, SNIPPET_LIMIT as int)
    }
}

/// What is made of a response before any attempt to read it as data.
pub enum Verdict {
    /// The body may be read as data.
    Data,
    /// The status is outside the success class.
    BadStatus { code: u16 },
    /// The body is a marker page, quoted in `snippet`.
    MarkerPage { snippet: Seq<char> },
}

/// The verdict on a response: the status is looked at first, then the body.
pub open spec fn response_verdict(status: u16, content: Seq<u8>) -> Verdict {
    if !is_success_status(status) {
        Verdict::BadStatus { code: status }
    } else if is_marker_page(content) {
        Verdict::MarkerPage { snippet: utf8_lossy(snippet_bytes(content)) }
    } else {
        Verdict::Data
    }
}

/// The result of a check says what the verdict says.
pub open spec fn states_verdict(r: Result<(), RetrievalError>, verdict: Verdict) -> bool {
    match verdict {
        Verdict::Data => r is Ok,
        Verdict::BadStatus { code } => r matches Err(RetrievalError::HttpStatus { code: c }) && c == code,
        Verdict::MarkerPage { snippet } => r matches Err(RetrievalError::SessionInvalid { snippet: s }) && s@
            == snippet,
    }
}

/// Tells a marker page from any other body, given the media type that
/// sniffing found for it.
pub fn is_html_content(content: &[u8], mime: &Option<String>) -> (r: bool)
    ensures
        r == (starts_with_seq(content@, encode_utf8("<!DOCTYPE"@)) || opt_text(*mime) == Some("text/html"@)),
{
    if starts_with_bytes(content, "<!DOCTYPE".as_bytes()) {
        return true;
    }
    match mime {
        Some(found) => *found == "text/html".to_owned(),
        None => false,
    }
}

/// Tells a marker page from any other body.
pub fn is_html_page(content: &[u8]) -> (r: bool)
    ensures
        r == is_marker_page(content@),
{
    let mime = sniff_mime(content);
    is_html_content(content, &mime)
}

/// Quotes the start of a body for a diagnostic.
pub fn body_snippet(content: &[u8]) -> (r: String)
    ensures
        r@ == utf8_lossy(snippet_bytes(content@)),
{
    if content.len() <= SNIPPET_LIMIT {
        lossy_text(content)
    } else {
        lossy_text(slice_subrange(content, 0, SNIPPET_LIMIT))
    }
}

/// Validates the response to the data request. `Ok` means that the body may
/// now be read as data; a marker page is reported as an invalid session, and
/// no reading is to be attempted.
pub fn check_response(status: u16, content: &[u8]) -> (r: Result<(), RetrievalError>)
    ensures
        states_verdict(r, response_verdict(status, content@)),
{
    if status < 200 || status > 299 {
        return Err(RetrievalError::HttpStatus { code: status });
    }
    if is_html_page(content) {
        return Err(RetrievalError::SessionInvalid { snippet: body_snippet(content) });
    }
    Ok(())
}

/// A body that starts with a document type declaration is never read as
/// data, whatever follows the declaration: with a success status the verdict
/// is a marker page.
pub proof fn lemma_doctype_is_marker_page(status: u16, content: Seq<u8>)
    requires
        is_success_status(status),
        starts_with_seq(content, encode_utf8("<!DOCTYPE"@)),
    ensures
        response_verdict(status, content) is MarkerPage,
{
}

/// A body that sniffing takes for HTML is never read as data: with a success
/// status the verdict is a marker page.
pub proof fn lemma_html_is_marker_page(status: u16, content: Seq<u8>)
    requires
        is_success_status(status),
        sniffed_mime(content) == Some("text/html"@),
    ensures
        response_verdict(status, content) is MarkerPage,
{
}

/// The snippet never quotes more bytes than the limit, and always a prefix of
/// the body.
pub proof fn lemma_snippet_is_bounded_prefix(content: Seq<u8>)
    ensures
        snippet_bytes(content).len() <= SNIPPET_LIMIT,
        snippet_bytes(content).len() <= content.len(),
        snippet_bytes(content) == content.subrange(0, snippet_bytes(content).len() as int),
{
    assert(content.subrange(0, content.len() as int) =~= content);
}

/// Where a retrieval stands.
#[derive(Debug)]
pub enum RetrievalState {
    /// Nothing has been sent.
    Start,
    /// The probe was sent.
    AwaitingForm,
    /// The data request was sent.
    AwaitingData,
    /// The retrieval is over.
    Done,
}

/// What the caller reports back to the retrieval.
#[derive(Debug)]
pub enum RetrievalEvent {
    /// The retrieval starts.
    Begin,
    /// The probe was answered with this page.
    FormPage { html: String },
    /// The data request was answered with this status and body.
    DataResponse { status: u16, content: Vec<u8> },
}

/// What the caller has to do next.
#[derive(Debug)]
pub enum RetrievalAction {
    /// POST the form body `body` to `url` and report the answer.
    PostForm { url: String, body: String },
    /// Read `content` as a schedule: it passed validation.
    Decode { content: Vec<u8> },
    /// Stop: the retrieval failed with `error`.
    Fail { error: RetrievalError },
}

/// The action says what the verdict on a body says.
pub open spec fn acts_on_verdict(action: RetrievalAction, verdict: Verdict, content: Seq<u8>) -> bool {
    match verdict {
        Verdict::Data => action matches RetrievalAction::Decode { content: c } && c@ == content,
        Verdict::BadStatus { code } => action matches RetrievalAction::Fail {
            error: RetrievalError::HttpStatus { code: c },
        } && c == code,
        Verdict::MarkerPage { snippet } => action matches RetrievalAction::Fail {
            error: RetrievalError::SessionInvalid { snippet: s },
        } && s@ == snippet,
    }
}

/// The step a retrieval takes from `state` on `event`.
///
/// The probe comes first; the data request asks for the first semester that
/// the answer to the probe offers; a body is handed on for decoding only
/// after the verdict on it. An event that the state did not wait for ends the
/// retrieval with `OutOfOrder`.
pub open spec fn retrieval_step_spec(
    state: RetrievalState,
    event: RetrievalEvent,
    step: (RetrievalState, RetrievalAction),
) -> bool {
    match (state, event) {
        (RetrievalState::Start, RetrievalEvent::Begin) => {
            &&& step.0 is AwaitingForm
            &&& step.1 matches RetrievalAction::PostForm { url, body }
            &&& url@ == SCHEDULE_API_URL@
            &&& body@ == form_encoded(probe_fields())
        },
        (RetrievalState::AwaitingForm, RetrievalEvent::FormPage { html }) => {
            let found = semesters_of(nodes_or_empty(matched_nodes(html@, SEMESTER_SELECTOR@)));
            let grid = time_grid_of(matched_nodes(html@, TIME_GRID_SELECTOR@));
            if found.len() == 0 {
                &&& step.0 is Done
                &&& step.1 matches RetrievalAction::Fail { error }
                &&& error is Discovery
            } else {
                &&& step.0 is AwaitingData
                &&& step.1 matches RetrievalAction::PostForm { url, body }
                &&& url@ == SCHEDULE_API_URL@
                &&& body@ == form_encoded(schedule_fields(found[0].id, grid))
            }
        },
        (RetrievalState::AwaitingData, RetrievalEvent::DataResponse { status, content }) => {
            &&& step.0 is Done
            &&& acts_on_verdict(step.1, response_verdict(status, content@), content@)
        },
        _ => {
            &&& step.0 is Done
            &&& step.1 matches RetrievalAction::Fail { error }
            &&& error is OutOfOrder
        },
    }
}

/// Advances a retrieval by one event and says what to do next.
pub fn retrieval_step(state: RetrievalState, event: RetrievalEvent) -> (r: (RetrievalState, RetrievalAction))
    ensures
        retrieval_step_spec(state, event, r),
{
    match (state, event) {
        (RetrievalState::Start, RetrievalEvent::Begin) => (
            RetrievalState::AwaitingForm,
            RetrievalAction::PostForm { url: SCHEDULE_API_URL.to_owned(), body: probe_form_body() },
        ),
        (RetrievalState::AwaitingForm, RetrievalEvent::FormPage { html }) => {
            let meta = match parse_course_meta(html.as_str()) {
                Ok(meta) => meta,
                Err(_) => {
                    return (RetrievalState::Done, RetrievalAction::Fail { error: RetrievalError::Discovery });
                },
            };
            match schedule_form_body(&meta) {
                Ok(body) => (
                    RetrievalState::AwaitingData,
                    RetrievalAction::PostForm { url: SCHEDULE_API_URL.to_owned(), body },
                ),
                Err(error) => (RetrievalState::Done, RetrievalAction::Fail { error }),
            }
        },
        (RetrievalState::AwaitingData, RetrievalEvent::DataResponse { status, content }) => {
            match check_response(status, content.as_slice()) {
                Ok(()) => (RetrievalState::Done, RetrievalAction::Decode { content }),
                Err(error) => (RetrievalState::Done, RetrievalAction::Fail { error }),
            }
        },
        _ => (RetrievalState::Done, RetrievalAction::Fail { error: RetrievalError::OutOfOrder }),
    }
}

/// A body is handed on for decoding only as the answer to the data request,
/// with a success status, and only when it is no marker page.
pub proof fn lemma_decode_only_validated(
    state: RetrievalState,
    event: RetrievalEvent,
    step: (RetrievalState, RetrievalAction),
)
    requires
        retrieval_step_spec(state, event, step),
        step.1 is Decode,
    ensures
        state is AwaitingData,
        event matches RetrievalEvent::DataResponse { status, content } && is_success_status(status)
            && !is_marker_page(content@) && step.1->Decode_content@ == content@,
{
}

} // verus!

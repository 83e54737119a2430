//! HTTP exchanges as plain values: what a driver is asked to send.

use vstd::prelude::*;
use vstd::slice::slice_to_vec;

verus! {

/// The request methods that the endpoint uses.
#[derive(Clone, Copy, Debug, PartialEq, Eq, Structural)]
pub enum Method {
    Get,
    Post,
}

/// One header line of a request.
#[derive(Debug, PartialEq, Eq)]
pub struct Header {
    pub name: String,
    pub value: String,
}

/// A request for the driver to perform.
#[derive(Debug, PartialEq, Eq)]
pub struct HttpRequest {
    pub method: Method,
    pub url: String,
    pub headers: Vec<Header>,
    pub body: Option<Vec<u8>>,
}

/// A request as mathematical data.
pub struct HttpRequestView {
    pub method: Method,
    pub url: Seq<char>,
    pub headers: Seq<(Seq<char>, Seq<char>)>,
    pub body: Option<Seq<u8>>,
}

impl View for Header {
    type V = (Seq<char>, Seq<char>);

    open spec fn view(&self) -> (Seq<char>, Seq<char>) {
        (self.name@, self.value@)
    }
}

impl View for HttpRequest {
    type V = HttpRequestView;

    open spec fn view(&self) -> HttpRequestView {
        HttpRequestView {
            method: self.method,
            url: self.url@,
            headers: Seq::new(self.headers@.len(), |i: int| self.headers@[i]@),
            body: match self.body {
                Some(bytes) => Some(bytes@),
                None => None,
            },
        }
    }
}

/// A status code in the success class, 200 to 299.
pub open spec fn is_success(status: u16) -> bool {
    200 <= status < 300
}

/// Tells whether a status code is in the success class.
pub fn status_is_success(status: u16) -> (ok: bool)
    ensures
        ok == is_success(status),
{
    200 <= status && status < 300
}

/// Why a fetch gave no body.
#[derive(Debug, PartialEq, Eq)]
pub enum FetchError {
    /// The request could not be sent.
    Send(String),
    /// The reply's status is outside the success class.
    Status(u16),
    /// The reply's body could not be read.
    Body(String),
}

/// What the driver reports to a fetch: nothing yet, the status of the reply
/// to the request it sent, or the body that it read.
#[derive(Debug, PartialEq, Eq)]
pub enum FetchProgress {
    Start,
    Status(Result<u16, String>),
    Body(Result<Vec<u8>, String>),
}

/// What a fetch asks of the driver.
#[derive(Debug, PartialEq, Eq)]
pub enum FetchAction {
    /// Send this request and come back with the reply's status.
    Send(HttpRequest),
    /// Read the reply's body and come back with it.
    ReadBody,
    /// The fetch is over.
    Finish(Result<Vec<u8>, FetchError>),
}

/// A GET of `url` that asks for JSON and says that it sends JSON.
pub open spec fn json_request(url: Seq<char>) -> HttpRequestView {
    HttpRequestView {
        method: Method::Get,
        url,
        headers: seq![
            ("Accept"@, "application/json"@),
            ("Content-Type"@, "application/json"@),
        ],
        body: None,
    }
}

/// A GET of `url` with no headers of its own.
pub open spec fn plain_request(url: Seq<char>) -> HttpRequestView {
    HttpRequestView { method: Method::Get, url, headers: Seq::empty(), body: None }
}

/// What a fetch does once its request is out: the body is read only behind
/// a status of the success class, and the first failure ends the fetch.
pub open spec fn settles(progress: FetchProgress, action: FetchAction) -> bool {
    match action {
        FetchAction::Send(_) => false,
        FetchAction::ReadBody => progress matches FetchProgress::Status(Ok(status)) && is_success(
            status,
        ),
        FetchAction::Finish(Ok(bytes)) => progress matches FetchProgress::Body(Ok(body)) && bytes@
            == body@,
        FetchAction::Finish(Err(FetchError::Send(why))) => progress matches FetchProgress::Status(
            Err(cause),
        ) && why@ == cause@,
        FetchAction::Finish(Err(FetchError::Status(code))) => progress
            matches FetchProgress::Status(Ok(status)) && !is_success(status) && code == status,
        FetchAction::Finish(Err(FetchError::Body(why))) => progress matches FetchProgress::Body(
            Err(cause),
        ) && why@ == cause@,
    }
}

fn after_status(outcome: Result<u16, String>) -> (action: FetchAction)
    ensures
        settles(FetchProgress::Status(outcome), action),
{
    match outcome {
        Ok(status) => {
            if status_is_success(status) {
                FetchAction::ReadBody
            } else {
                FetchAction::Finish(Err(FetchError::Status(status)))
            }
        },
        Err(cause) => FetchAction::Finish(Err(FetchError::Send(cause))),
    }
}

fn after_body(outcome: Result<Vec<u8>, String>) -> (action: FetchAction)
    ensures
        settles(FetchProgress::Body(outcome), action),
{
    match outcome {
        Ok(body) => FetchAction::Finish(Ok(body)),
        Err(cause) => FetchAction::Finish(Err(FetchError::Body(cause))),
    }
}

/// One turn of fetching a JSON DNS reply from `url`.
///
/// The first call asks for the request to be sent. A status of the success
/// class is followed by reading the body, which is the result as it is; any
/// other status, and a request or a body that failed, end the fetch with an
/// error.
pub fn fetch_dns_data(url: &str, progress: FetchProgress) -> (action: FetchAction)
    ensures
        match action {
            FetchAction::Send(request) => progress is Start && request@ == json_request(url@),
            _ => settles(progress, action),
        },
{
    match progress {
        FetchProgress::Start => {
            let mut headers: Vec<Header> = Vec::new();
            headers.push(
                Header {
                    name: String::from_str("Accept"),
                    value: String::from_str("application/json"),
                },
            );
            headers.push(
                Header {
                    name: String::from_str("Content-Type"),
                    value: String::from_str("application/json"),
                },
            );
            let request = HttpRequest {
                method: Method::Get,
                url: String::from_str(url),
                headers,
                body: None,
            };
            assert(request@.headers =~= json_request(url@).headers);
            FetchAction::Send(request)
        },
        FetchProgress::Status(outcome) => after_status(outcome),
        FetchProgress::Body(outcome) => after_body(outcome),
    }
}

/// One turn of fetching `url` with a plain GET.
///
/// The first call asks for the request to be sent. A status of the success
/// class is followed by reading the body, which is the result as it is; any
/// other status, and a request or a body that failed, end the fetch with an
/// error.
pub fn fetch_http_request(url: &str, progress: FetchProgress) -> (action: FetchAction)
    ensures
        match action {
            FetchAction::Send(request) => progress is Start && request@ == plain_request(url@),
            _ => settles(progress, action),
        },
{
    match progress {
        FetchProgress::Start => {
            let request = HttpRequest {
                method: Method::Get,
                url: String::from_str(url),
                headers: Vec::new(),
                body: None,
            };
            assert(request@.headers =~= plain_request(url@).headers);
            FetchAction::Send(request)
        },
        FetchProgress::Status(outcome) => after_status(outcome),
        FetchProgress::Body(outcome) => after_body(outcome),
    }
}

/// Takes a wire-format message as it is: the result is a copy of the bytes,
/// and there is no input on which it fails.
pub fn process_wire_format(req_wireformat: &[u8]) -> (r: Result<Vec<u8>, FetchError>)
    ensures
        r matches Ok(bytes) && bytes@ == req_wireformat@,
{
    Ok(slice_to_vec(req_wireformat))
}

} // verus!

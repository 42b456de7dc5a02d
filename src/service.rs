use vstd::prelude::*;
use vstd::string::*;

use crate::common::{HttpError, HttpMethod, HttpResult};
use crate::request::Request;
use crate::response::Response;

verus! {

/// What a handler without an answer for the method leaves in `after`, given
/// the response `before` it was handed: status 405 and the text appended to
/// the body; the content type and charset stay.
pub open spec fn not_allowed(before: Response, after: Response) -> bool {
    &&& after.status_code@ == "405"@
    &&& after.status_text@ == "Method Not Allowed"@
    &&& after.content_type == before.content_type
    &&& after.charset == before.charset
    &&& after.writer@ == before.writer@ + "Method Not Allowed".spec_bytes()
}

/// Answers with 405 Method Not Allowed.
pub fn respond_not_allowed(response: &mut Response)
    ensures
        not_allowed(*old(response), *final(response)),
{
    response.status_code = "405";
    response.status_text = "Method Not Allowed";
    response.writer.write("Method Not Allowed".as_bytes());
}

/// The status code and text that answer a failure.
pub open spec fn error_status(error: HttpError) -> (Seq<char>, Seq<char>) {
    match error {
        HttpError::UnsupportedMethod(_) => ("405"@, "Method Not Allowed"@),
        HttpError::PathParse(_) => ("400"@, "Bad Request"@),
        HttpError::UnsupportedFileType(_) => ("404"@, "Not Found"@),
        HttpError::Io(_) => ("500"@, "Internal Server Error"@),
    }
}

/// A fresh response for a request that could not be handled: the status
/// that `error_status` gives, with its text as the body.
pub fn error_response(error: &HttpError) -> (r: Response)
    ensures
        r.status_code@ == error_status(*error).0,
        r.status_text@ == error_status(*error).1,
        r.content_type@ == "text/html"@,
        r.charset@ == "utf-8"@,
        r.writer@ == r.status_text.spec_bytes(),
{
    let (code, text): (&'static str, &'static str) = match error {
        HttpError::UnsupportedMethod(_) => ("405", "Method Not Allowed"),
        HttpError::PathParse(_) => ("400", "Bad Request"),
        HttpError::UnsupportedFileType(_) => ("404", "Not Found"),
        HttpError::Io(_) => ("500", "Internal Server Error"),
    };
    let mut r = Response::new(code, text, "text/html", "utf-8");
    r.writer.write(text.as_bytes());
    r
}

/// A fresh response for a request whose status line does not parse:
/// 400 Bad Request, with that text as the body.
pub fn bad_request_response() -> (r: Response)
    ensures
        r.status_code@ == "400"@,
        r.status_text@ == "Bad Request"@,
        r.content_type@ == "text/html"@,
        r.charset@ == "utf-8"@,
        r.writer@ == "Bad Request".spec_bytes(),
{
    error_response(&HttpError::PathParse(String::new()))
}

/// A handler bound to a route. `get` and `post` answer 405 unless a handler
/// overrides them; `service` picks between them by method.
pub trait Service: Send + Sync {
    fn get(&self, request: &Request, response: &mut Response) -> (r: HttpResult<()>) {
        respond_not_allowed(response);
        Ok(())
    }

    fn post(&self, request: &Request, response: &mut Response) -> (r: HttpResult<()>) {
        respond_not_allowed(response);
        Ok(())
    }

    /// Calls `get` for GET and `post` for POST, handing back that call's
    /// result and leaving the response as the call left it; no handler is
    /// wired to the other methods, which fail with `UnsupportedMethod` and
    /// leave the response as it was.
    fn service(&self, method: HttpMethod, request: &Request, response: &mut Response) -> (r:
        HttpResult<()>)
        ensures
            method is GET ==> exists|m: &mut Response|
                *m == *old(response) && *final(m) == *final(response) && call_ensures(
                    Self::get,
                    (self, request, m),
                    r,
                ),
            method is POST ==> exists|m: &mut Response|
                *m == *old(response) && *final(m) == *final(response) && call_ensures(
                    Self::post,
                    (self, request, m),
                    r,
                ),
            !(method is GET || method is POST) ==> r == Err::<(), _>(
                HttpError::UnsupportedMethod(method),
            ) && *final(response) == *old(response),
    {
        match method {
            HttpMethod::GET => self.get(request, response),
            HttpMethod::POST => self.post(request, response),
            other => Err(HttpError::UnsupportedMethod(other)),
        }
    }
}

} // verus!

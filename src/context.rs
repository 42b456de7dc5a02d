use vstd::prelude::*;
use vstd::string::*;

use crate::common::{str_contains, HttpError, HttpMethod, HttpResult};
use crate::request::Request;
use crate::response::Response;
use crate::router::Router;
use crate::service::{not_allowed, respond_not_allowed, Service};

verus! {

/// The part of `s` after its last `.` (all of `s` where it holds none).
pub open spec fn extension_of(s: Seq<char>) -> Seq<char>
    decreases s.len(),
{
    if s.len() == 0 || s.last() == '.' {
        Seq::empty()
    } else {
        extension_of(s.drop_last()).push(s.last())
    }
}

/// The content type served for a file extension, if it is one of the table's.
pub open spec fn content_type_of(ext: Seq<char>) -> Option<Seq<char>> {
    if ext == "html"@ {
        Some("text/html"@)
    } else if ext == "ico"@ {
        Some("image/ico"@)
    } else if ext == "png"@ {
        Some("image/png"@)
    } else {
        None
    }
}

/// Where a request path is looked up on disk.
pub open spec fn real_path(relative: Seq<char>) -> Seq<char> {
    "./web/"@ + relative
}

proof fn lemma_extension_after(s: Seq<char>, i: int)
    requires
        0 <= i <= s.len(),
        i > 0 ==> s[i - 1] == '.',
        forall|j: int| i <= j < s.len() ==> s[j] != '.',
    ensures
        extension_of(s) == s.subrange(i, s.len() as int),
    decreases s.len(),
{
    if s.len() > i {
        lemma_extension_after(s.drop_last(), i);
        assert(s.subrange(i, s.len() as int) =~= s.drop_last().subrange(i, s.len() - 1).push(
            s.last(),
        ));
    } else {
        assert(s.subrange(i, s.len() as int) =~= Seq::<char>::empty());
        if s.len() > 0 {
            assert(s.last() == '.');
        }
    }
}

/// The extension of `path`: what follows its last `.`, or `None` where it
/// holds no `.`.
pub fn file_extension(path: &str) -> (r: Option<String>)
    ensures
        r is None <==> !path@.contains('.'),
        r matches Some(e) ==> e@ == extension_of(path@),
{
    let n = path.unicode_len();
    let mut i: usize = n;
    while i > 0
        invariant
            n == path@.len(),
            i <= n,
            forall|j: int| i <= j < n ==> path@[j] != '.',
        decreases i,
    {
        if path.get_char(i - 1) == '.' {
            proof {
                lemma_extension_after(path@, i as int);
            }
            return Some(String::from_str(path.substring_char(i, n)));
        }
        i = i - 1;
    }
    assert(!path@.contains('.'));
    None
}

/// The content type that an extension is served with.
pub fn content_type_for(ext: &str) -> (r: Option<&'static str>)
    ensures
        r matches Some(t) ==> content_type_of(ext@) == Some(t@),
        r is None ==> content_type_of(ext@) is None,
{
    if crate::common::str_eq(ext, "html") {
        Some("text/html")
    } else if crate::common::str_eq(ext, "ico") {
        Some("image/ico")
    } else if crate::common::str_eq(ext, "png") {
        Some("image/png")
    } else {
        None
    }
}

/// The handler for paths with no route: every method it answers is 405.
#[derive(Debug)]
pub struct DefaultService {}

impl Service for DefaultService {
    fn get(&self, request: &Request, response: &mut Response) -> (r: HttpResult<()>)
        ensures
            r == Ok::<(), HttpError>(()),
            not_allowed(*old(response), *final(response)),
    {
        respond_not_allowed(response);
        Ok(())
    }

    fn post(&self, request: &Request, response: &mut Response) -> (r: HttpResult<()>)
        ensures
            r == Ok::<(), HttpError>(()),
            not_allowed(*old(response), *final(response)),
    {
        respond_not_allowed(response);
        Ok(())
    }

    fn service(&self, method: HttpMethod, request: &Request, response: &mut Response) -> (r:
        HttpResult<()>)
        ensures
            (method is GET || method is POST) ==> r == Ok::<(), HttpError>(()) && not_allowed(
                *old(response),
                *final(response),
            ),
    {
        match method {
            HttpMethod::GET => self.get(request, response),
            HttpMethod::POST => self.post(request, response),
            other => Err(HttpError::UnsupportedMethod(other)),
        }
    }
}

/// Serves static files from `./web/`, typed by extension.
#[derive(Debug)]
pub struct FileService {}

impl FileService {
    pub fn new() -> (r: Self) {
        FileService {  }
    }

    /// Where `relative_path` lies on disk.
    pub fn get_real_path(&self, relative_path: &str) -> (r: String)
        ensures
            r@ == real_path(relative_path@),
    {
        let mut p = String::from_str("./web/");
        p.append(relative_path);
        p
    }

    /// Answers a GET for `request.path`, given what reading the file there
    /// gave: its bytes, or the message of the failure.
    pub fn get(&self, request: &Request, contents: Result<Vec<u8>, String>, response: &mut Response) -> (r:
        HttpResult<()>)
        ensures
            !request.path@.contains('.') ==> (r matches Err(HttpError::PathParse(p)) && p@
                == request.path@),
            request.path@.contains('.') && contents is Err ==> (r matches Err(HttpError::Io(m))
                && m@ == contents->Err_0@),
            request.path@.contains('.') && contents is Ok && content_type_of(
                extension_of(request.path@),
            ) is None ==> (r matches Err(HttpError::UnsupportedFileType(e)) && e@
                == extension_of(request.path@)),
            r is Err ==> *final(response) == *old(response),
            r is Ok <==> request.path@.contains('.') && contents is Ok && content_type_of(
                extension_of(request.path@),
            ) is Some,
            r is Ok ==> {
                &&& final(response).content_type@ == content_type_of(
                    extension_of(request.path@),
                )->Some_0
                &&& final(response).status_code == old(response).status_code
                &&& final(response).status_text == old(response).status_text
                &&& final(response).charset == old(response).charset
                &&& final(response).writer@ == old(response).writer@ + contents->Ok_0@
            },
    {
        let ext = match file_extension(request.path.as_str()) {
            Some(e) => e,
            None => {
                return Err(HttpError::PathParse(request.path.clone()));
            },
        };
        let bytes = match contents {
            Ok(b) => b,
            Err(m) => {
                return Err(HttpError::Io(m));
            },
        };
        match content_type_for(ext.as_str()) {
            Some(t) => {
                response.content_type = t;
                response.writer.write(bytes.as_slice());
                Ok(())
            },
            None => Err(HttpError::UnsupportedFileType(ext)),
        }
    }

    /// No POST is served from files: 405.
    pub fn post(&self, request: &Request, response: &mut Response) -> (r: HttpResult<()>)
        ensures
            r == Ok::<(), HttpError>(()),
            not_allowed(*old(response), *final(response)),
    {
        respond_not_allowed(response);
        Ok(())
    }
}

/// The handler that a path is routed to.
pub enum Route<'a> {
    /// The static-file handler: the path holds a `.`.
    File,
    /// The handler registered for the path.
    Registered(&'a Box<dyn Service>),
    /// No handler is registered for the path.
    Default,
}

/// What handling a request needs next.
pub enum Dispatch<'a> {
    /// Handling is over, with this outcome.
    Done(HttpResult<()>),
    /// A GET or POST for this registered handler: its `service` is to be
    /// called with the request and the response.
    Handler(&'a Box<dyn Service>),
    /// The file at this path must be read, and what came of it handed to
    /// `Context::finish_file`.
    ReadFile(String),
}

/// The server's settings and its routing state, fixed once built.
pub struct Context {
    pub server_ip: String,
    pub server_port: String,
    router: Router,
    default_service: DefaultService,
    file_service: FileService,
}

impl Context {
    pub fn builder() -> (r: ContextBuilder)
        ensures
            r.ip()@ == Seq::<char>::empty(),
            r.port()@ == Seq::<char>::empty(),
            r.routes()@ == Map::<Seq<char>, int>::empty(),
    {
        ContextBuilder::new()
    }

    pub closed spec fn ip(&self) -> String {
        self.server_ip
    }

    pub closed spec fn port(&self) -> String {
        self.server_port
    }

    /// The routes that the context was built with.
    pub closed spec fn routes(&self) -> Router {
        self.router
    }

    /// Picks the handler for `path`. A path with a `.` goes to the file
    /// handler, even where a route is registered at it; otherwise the route
    /// registered at exactly `path`, or the default handler.
    pub fn route(&self, path: &str) -> (r: Route<'_>)
        ensures
            path@.contains('.') ==> r is File,
            !path@.contains('.') && self.routes()@.contains_key(path@) ==> (r matches Route::Registered(
                s,
            ) && s == self.routes().handler(self.routes()@[path@])),
            !path@.contains('.') && !self.routes()@.contains_key(path@) ==> r is Default,
    {
        if str_contains(path, '.') {
            return Route::File;
        }
        match self.router.get(path) {
            Some(service) => Route::Registered(service),
            None => Route::Default,
        }
    }

    /// Routes `request` and answers it where the library's own handlers
    /// can: a registered handler is handed back for the caller to run, and a
    /// file read is asked for where the file handler needs one.
    pub fn dispatch(&self, request: &Request, response: &mut Response) -> (r: Dispatch<'_>)
        ensures
            !(request.method is GET || request.method is POST) ==> r == Dispatch::Done(
                Err(HttpError::UnsupportedMethod(request.method)),
            ) && *final(response) == *old(response),
            request.path@.contains('.') && request.method is GET ==> (r matches Dispatch::ReadFile(
                p,
            ) && p@ == real_path(request.path@)) && *final(response) == *old(response),
            request.path@.contains('.') && request.method is POST ==> r == Dispatch::Done(Ok(()))
                && not_allowed(*old(response), *final(response)),
            !request.path@.contains('.') && self.routes()@.contains_key(request.path@) && (
            request.method is GET || request.method is POST) ==> (r matches Dispatch::Handler(s)
                && s == self.routes().handler(self.routes()@[request.path@])) && *final(response)
                == *old(response),
            !request.path@.contains('.') && !self.routes()@.contains_key(request.path@) && (
            request.method is GET || request.method is POST) ==> r == Dispatch::Done(Ok(()))
                && not_allowed(*old(response), *final(response)),
    {
        let path = request.path.as_str();
        match self.route(path) {
            Route::File => match request.method {
                HttpMethod::GET => Dispatch::ReadFile(self.file_service.get_real_path(path)),
                HttpMethod::POST => Dispatch::Done(self.file_service.post(request, response)),
                other => Dispatch::Done(Err(HttpError::UnsupportedMethod(other))),
            },
            Route::Registered(service) => match request.method {
                HttpMethod::GET | HttpMethod::POST => Dispatch::Handler(service),
                other => Dispatch::Done(Err(HttpError::UnsupportedMethod(other))),
            },
            Route::Default => Dispatch::Done(
                self.default_service.service(request.method, request, response),
            ),
        }
    }

    /// Completes a GET on the file handler with what reading the file gave.
    pub fn finish_file(
        &self,
        request: &Request,
        contents: Result<Vec<u8>, String>,
        response: &mut Response,
    ) -> (r: HttpResult<()>)
        ensures
            !request.path@.contains('.') ==> (r matches Err(HttpError::PathParse(p)) && p@
                == request.path@),
            request.path@.contains('.') && contents is Err ==> (r matches Err(HttpError::Io(m))
                && m@ == contents->Err_0@),
            request.path@.contains('.') && contents is Ok && content_type_of(
                extension_of(request.path@),
            ) is None ==> (r matches Err(HttpError::UnsupportedFileType(e)) && e@
                == extension_of(request.path@)),
            r is Err ==> *final(response) == *old(response),
            r is Ok <==> request.path@.contains('.') && contents is Ok && content_type_of(
                extension_of(request.path@),
            ) is Some,
            r is Ok ==> {
                &&& final(response).content_type@ == content_type_of(
                    extension_of(request.path@),
                )->Some_0
                &&& final(response).status_code == old(response).status_code
                &&& final(response).status_text == old(response).status_text
                &&& final(response).charset == old(response).charset
                &&& final(response).writer@ == old(response).writer@ + contents->Ok_0@
            },
    {
        self.file_service.get(request, contents, response)
    }
}

/// Collects a context's settings before it is built.
pub struct ContextBuilder {
    server_ip: String,
    server_port: String,
    router: Router,
}

impl ContextBuilder {
    pub closed spec fn ip(&self) -> String {
        self.server_ip
    }

    pub closed spec fn port(&self) -> String {
        self.server_port
    }

    pub closed spec fn routes(&self) -> Router {
        self.router
    }

    fn new() -> (r: Self)
        ensures
            r.ip()@ == Seq::<char>::empty(),
            r.port()@ == Seq::<char>::empty(),
            r.routes()@ == Map::<Seq<char>, int>::empty(),
    {
        ContextBuilder {
            server_ip: String::new(),
            server_port: String::new(),
            router: Router::default(),
        }
    }

    pub fn router(self, router: Router) -> (r: Self)
        ensures
            r.routes() == router,
            r.ip() == self.ip(),
            r.port() == self.port(),
    {
        ContextBuilder { router, ..self }
    }

    pub fn server_ip(self, ip: &str) -> (r: Self)
        ensures
            r.ip()@ == ip@,
            r.port() == self.port(),
            r.routes() == self.routes(),
    {
        ContextBuilder { server_ip: String::from_str(ip), ..self }
    }

    pub fn server_port(self, port: &str) -> (r: Self)
        ensures
            r.port()@ == port@,
            r.ip() == self.ip(),
            r.routes() == self.routes(),
    {
        ContextBuilder { server_port: String::from_str(port), ..self }
    }

    pub fn build(self) -> (r: Context)
        ensures
            r.ip() == self.ip(),
            r.port() == self.port(),
            r.routes() == self.routes(),
    {
        Context {
            server_ip: self.server_ip,
            server_port: self.server_port,
            router: self.router,
            default_service: DefaultService {  },
            file_service: FileService::new(),
        }
    }
}

} // verus!

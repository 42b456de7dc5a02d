use tcp_server::common::{HttpError, HttpMethod};
use tcp_server::context::{
    content_type_for, file_extension, Context, Dispatch, DefaultService, FileService, Route,
};
use tcp_server::request::Request;
use tcp_server::response::Response;
use tcp_server::router::Router;
use tcp_server::service::{bad_request_response, error_response, Service};

#[derive(Debug)]
struct UserService {}

impl Service for UserService {}

#[derive(Debug)]
struct HelloService {}

impl Service for HelloService {
    fn get(&self, _request: &Request, response: &mut Response) -> Result<(), HttpError> {
        response.writer.write(b"hello");
        Ok(())
    }
}

fn request(line: &str) -> Request {
    Request::from_content(&[line]).unwrap()
}

#[test]
fn test_build() {
    let router = Router::default();
    let context = Context::builder()
        .router(router)
        .server_ip("127.0.0.1")
        .server_port("8080")
        .build();
    assert_eq!(context.server_ip, "127.0.0.1");
    assert_eq!(context.server_port, "8080");
}

#[test]
fn test_route() {
    let mut router = Router::default();
    router.insert(("/user/name".to_string(), Box::new(UserService {})));

    let context = Context::builder()
        .router(router)
        .server_ip("127.0.0.1")
        .server_port("8080")
        .build();

    let service = context.route("/user/name");
    assert!(matches!(service, Route::Registered(_)));

    let service = context.route("/notexist");
    assert!(matches!(service, Route::Default));
}

#[test]
fn dotted_path_goes_to_files_even_when_registered() {
    let mut router = Router::default();
    router.insert(("/a.b".to_string(), Box::new(HelloService {})));
    let context = Context::builder().router(router).build();
    assert!(matches!(context.route("/a.b"), Route::File));
    assert!(matches!(context.route("/a"), Route::Default));
}

#[test]
fn routes_are_exact_and_case_sensitive() {
    let mut router = Router::default();
    router.insert(("/user".to_string(), Box::new(HelloService {})));
    assert!(router.get("/user").is_some());
    assert!(router.get("/user/").is_none());
    assert!(router.get("/User").is_none());
    assert!(router.get("").is_none());
}

#[test]
fn later_registration_wins() {
    let mut router = Router::default();
    router.insert(("/p".to_string(), Box::new(UserService {})));
    router.insert(("/p".to_string(), Box::new(HelloService {})));
    let context = Context::builder().router(router).build();
    let mut response = Response::default();
    let req = request("GET /p HTTP/1.1");
    let outcome = match context.dispatch(&req, &mut response) {
        Dispatch::Handler(s) => s.service(req.method, &req, &mut response),
        _ => panic!("expected the registered handler"),
    };
    assert_eq!(outcome, Ok(()));
    assert_eq!(response.status_code, "200");
    assert_eq!(response.writer.get_buffer(), b"hello");
}

#[test]
fn from_map_registers_every_entry() {
    let entries: Vec<(String, Box<dyn Service>)> = vec![
        ("/a".to_string(), Box::new(UserService {})),
        ("/b".to_string(), Box::new(HelloService {})),
    ];
    let router = Router::from_map(entries);
    assert!(router.get("/a").is_some());
    assert!(router.get("/b").is_some());
    assert!(router.get("/c").is_none());
}

#[test]
fn default_service_answers_not_allowed() {
    let context = Context::builder().build();
    for line in ["GET /unknown HTTP/1.1", "POST /unknown HTTP/1.1"] {
        let mut response = Response::default();
        let r = context.dispatch(&request(line), &mut response);
        assert!(matches!(r, Dispatch::Done(Ok(()))));
        assert_eq!(response.status_code, "405");
        assert_eq!(response.status_text, "Method Not Allowed");
        assert_eq!(response.writer.get_buffer(), b"Method Not Allowed");
        assert_eq!(response.status_line("HTTP/1.1"), "HTTP/1.1 405 Method Not Allowed\r\n");
    }
}

#[test]
fn registered_default_methods_answer_not_allowed() {
    let mut router = Router::default();
    router.insert(("/user/name".to_string(), Box::new(UserService {})));
    let context = Context::builder().router(router).build();
    let mut response = Response::default();
    let req = request("POST /user/name HTTP/1.1");
    let outcome = match context.dispatch(&req, &mut response) {
        Dispatch::Handler(s) => s.service(req.method, &req, &mut response),
        _ => panic!("expected the registered handler"),
    };
    assert_eq!(outcome, Ok(()));
    assert_eq!(response.status_code, "405");
    assert_eq!(response.status_text, "Method Not Allowed");
    assert_eq!(response.writer.get_buffer(), b"Method Not Allowed");
}

#[test]
fn delete_is_unsupported_everywhere() {
    let mut router = Router::default();
    router.insert(("/x".to_string(), Box::new(HelloService {})));
    let context = Context::builder().router(router).build();
    for (line, method) in [
        ("DELETE /x HTTP/1.1", HttpMethod::DELETE),
        ("DELETE /y HTTP/1.1", HttpMethod::DELETE),
        ("PUT /f.html HTTP/1.1", HttpMethod::PUT),
        ("PATCH /x HTTP/1.1", HttpMethod::PATCH),
    ] {
        let mut response = Response::default();
        let r = context.dispatch(&request(line), &mut response);
        match r {
            Dispatch::Done(Err(e)) => assert_eq!(e, HttpError::UnsupportedMethod(method)),
            _ => panic!("expected an unsupported method for {}", line),
        }
        assert_eq!(response.status_code, "200");
        assert!(response.writer.get_buffer().is_empty());
    }
}

#[test]
fn service_dispatch_by_method() {
    let s = DefaultService {};
    let req = request("DELETE /x HTTP/1.1");
    let mut response = Response::default();
    assert_eq!(
        s.service(HttpMethod::DELETE, &req, &mut response),
        Err(HttpError::UnsupportedMethod(HttpMethod::DELETE))
    );
    assert_eq!(s.service(HttpMethod::GET, &req, &mut response), Ok(()));
    assert_eq!(response.status_code, "405");
}

#[test]
fn favicon_is_served_as_ico() {
    let context = Context::builder().build();
    let req = request("GET /favicon.ico HTTP/1.1");
    let mut response = Response::default();
    let path = match context.dispatch(&req, &mut response) {
        Dispatch::ReadFile(p) => p,
        _ => panic!("expected a file read"),
    };
    assert_eq!(path, "./web//favicon.ico");
    let bytes = vec![0u8, 1, 2, 254, 255];
    let r = context.finish_file(&req, Ok(bytes.clone()), &mut response);
    assert_eq!(r, Ok(()));
    assert_eq!(response.content_type, "image/ico");
    assert_eq!(response.status_code, "200");
    assert_eq!(response.writer.get_buffer(), bytes.as_slice());
    assert_eq!(
        response.header_block(),
        "Content-Type: image/ico; charset=utf-8\r\nContent-Length: 5\r\n\r\n"
    );
}

#[test]
fn file_types_follow_the_table() {
    let files = FileService::new();
    for (path, ty) in [("/i.html", "text/html"), ("/a.b.png", "image/png"), ("/x.ico", "image/ico")] {
        let mut response = Response::default();
        let r = files.get(&request(&format!("GET {} HTTP/1.1", path)), Ok(vec![7]), &mut response);
        assert_eq!(r, Ok(()));
        assert_eq!(response.content_type, ty);
        assert_eq!(response.writer.get_buffer(), &[7]);
    }
}

#[test]
fn unsupported_file_type() {
    let files = FileService::new();
    let mut response = Response::default();
    let r = files.get(&request("GET /notes.txt HTTP/1.1"), Ok(vec![1]), &mut response);
    assert_eq!(r, Err(HttpError::UnsupportedFileType("txt".to_string())));
    assert_eq!(response.content_type, "text/html");
    assert!(response.writer.get_buffer().is_empty());
}

#[test]
fn path_without_dot_is_a_path_error() {
    let files = FileService::new();
    let mut response = Response::default();
    let r = files.get(&request("GET /readme HTTP/1.1"), Ok(vec![1]), &mut response);
    assert_eq!(r, Err(HttpError::PathParse("/readme".to_string())));
}

#[test]
fn read_failure_is_an_io_error() {
    let context = Context::builder().build();
    let mut response = Response::default();
    let r = context.finish_file(
        &request("GET /missing.png HTTP/1.1"),
        Err("not found".to_string()),
        &mut response,
    );
    assert_eq!(r, Err(HttpError::Io("not found".to_string())));
    assert!(response.writer.get_buffer().is_empty());
}

#[test]
fn file_post_is_not_allowed() {
    let context = Context::builder().build();
    let mut response = Response::default();
    let r = context.dispatch(&request("POST /index.html HTTP/1.1"), &mut response);
    assert!(matches!(r, Dispatch::Done(Ok(()))));
    assert_eq!(response.status_code, "405");
}

#[test]
fn extensions_and_types() {
    assert_eq!(file_extension("/a.b.html"), Some("html".to_string()));
    assert_eq!(file_extension("/a."), Some("".to_string()));
    assert_eq!(file_extension("/abc"), None);
    assert_eq!(content_type_for("png"), Some("image/png"));
    assert_eq!(content_type_for("PNG"), None);
}

#[test]
fn real_path_is_under_web() {
    let files = FileService::new();
    assert_eq!(files.get_real_path("/index.html"), "./web//index.html");
}

#[test]
fn service_passes_get_and_post_to_their_methods() {
    let s = HelloService {};
    let req = request("GET /p HTTP/1.1");
    let mut response = Response::default();
    assert_eq!(s.service(HttpMethod::GET, &req, &mut response), Ok(()));
    assert_eq!(response.status_code, "200");
    assert_eq!(response.writer.get_buffer(), b"hello");
    let mut response = Response::default();
    assert_eq!(s.service(HttpMethod::POST, &req, &mut response), Ok(()));
    assert_eq!(response.status_code, "405");
    assert_eq!(response.writer.get_buffer(), b"Method Not Allowed");
}

#[test]
fn registered_handler_is_the_one_inserted() {
    let mut router = Router::default();
    router.insert(("/user".to_string(), Box::new(HelloService {})));
    let context = Context::builder().router(router).build();
    let req = request("GET /user HTTP/1.1");
    let mut response = Response::default();
    match context.route("/user") {
        Route::Registered(s) => assert_eq!(s.service(req.method, &req, &mut response), Ok(())),
        _ => panic!("expected the registered handler"),
    }
    assert_eq!(response.writer.get_buffer(), b"hello");
    assert!(matches!(context.route("/user/"), Route::Default));
    assert!(matches!(context.route("/User"), Route::Default));
}

#[test]
fn errors_map_to_statuses() {
    let cases = [
        (HttpError::UnsupportedMethod(HttpMethod::PUT), "405", "Method Not Allowed"),
        (HttpError::PathParse("/x".to_string()), "400", "Bad Request"),
        (HttpError::UnsupportedFileType("txt".to_string()), "404", "Not Found"),
        (HttpError::Io("gone".to_string()), "500", "Internal Server Error"),
    ];
    for (error, code, text) in cases {
        let r = error_response(&error);
        assert_eq!(r.status_code, code);
        assert_eq!(r.status_text, text);
        assert_eq!(r.writer.get_buffer(), text.as_bytes());
    }
    let r = bad_request_response();
    assert_eq!(r.status_line("HTTP/1.1"), "HTTP/1.1 400 Bad Request\r\n");
    assert_eq!(r.writer.get_buffer(), b"Bad Request");
}

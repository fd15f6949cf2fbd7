use http_server::content_type::{content_type_for_extension, content_type_of, ContentType};
use http_server::fetch::{fetch_file, get_404_page, FetchError, FileContents};
use http_server::handler::{Action, Handler, Stage};
use http_server::pool::JobQueue;
use http_server::request::{lookup_path, not_found_path, request_path, RequestError};
use http_server::response::{Response, StatusCode};

fn response(status: StatusCode, content_type: ContentType, body: &[u8]) -> Response {
    let mut r = Response::new();
    r.status_line = status.as_str();
    r.content_type = content_type;
    r.content = body.to_vec();
    r
}

fn head(lines: &[&str]) -> Vec<String> {
    lines.iter().map(|l| l.to_string()).collect()
}

/// Runs a handler against an in-memory folder, as the server runs it against the disk.
fn serve(folder: &str, request: &[&str], files: &[(&str, &[u8])]) -> Option<Vec<u8>> {
    let mut handler = Handler::new(folder.to_string());
    let mut action = handler.on_head(&head(request));
    loop {
        match action {
            Action::Close => return None,
            Action::Send(bytes) => return Some(bytes),
            Action::Read(path) => {
                let read = files
                    .iter()
                    .find(|(p, _)| *p == path)
                    .map(|(_, b)| b.to_vec())
                    .ok_or_else(|| "No such file or directory".to_string());
                action = handler.on_read(read);
            }
        }
    }
}

#[test]
fn content_type_header_lines() {
    assert_eq!(ContentType::Html.to_string(), "Content-Type: text/html");
    assert_eq!(ContentType::Pdf.to_string(), "Content-Type: application/pdf");
    assert_eq!(ContentType::Css.to_string(), "Content-Type: text/css");
    assert_eq!(ContentType::Jpg.to_string(), "Content-Type: image/jpeg");
}

#[test]
fn status_lines() {
    assert_eq!(StatusCode::Success.as_str(), "HTTP/1.1 200 OK");
    assert_eq!(StatusCode::NotFound.as_str(), "HTTP/1.1 404 Not Found");
}

#[test]
fn new_response_is_empty_html() {
    let r = Response::new();
    assert_eq!(r.status_line, "");
    assert_eq!(r.content_type, ContentType::Html);
    assert!(r.content.is_empty());
}

#[test]
fn serialized_bytes_follow_the_framing() {
    let bytes = response(StatusCode::Success, ContentType::Html, b"<p>hi</p>").as_bytes();
    let expected: &[u8] =
        b"HTTP/1.1 200 OK\nContent-Type: text/html\nContent-Length: 9\r\n\r\n<p>hi</p>\r\n\r\n";
    assert_eq!(bytes, expected.to_vec());
}

#[test]
fn serialization_is_deterministic_and_ends_with_body_then_blank_line() {
    let body: &[u8] = b"%PDF-1.4 body";
    let a = response(StatusCode::NotFound, ContentType::Pdf, body).as_bytes();
    let b = response(StatusCode::NotFound, ContentType::Pdf, body).as_bytes();
    assert_eq!(a, b);
    assert!(a.ends_with(b"\r\n\r\n"));
    assert_eq!(&a[a.len() - 4 - body.len()..a.len() - 4], body);
}

fn content_length_of(bytes: &[u8]) -> usize {
    let text = String::from_utf8_lossy(bytes);
    let start = text.find("Content-Length: ").unwrap() + "Content-Length: ".len();
    let end = start + text[start..].find("\r\n\r\n").unwrap();
    text[start..end].parse().unwrap()
}

#[test]
fn content_length_matches_empty_body() {
    let bytes = response(StatusCode::Success, ContentType::Css, b"").as_bytes();
    assert_eq!(content_length_of(&bytes), 0);
    assert!(bytes.ends_with(b"Content-Length: 0\r\n\r\n\r\n\r\n"));
}

#[test]
fn content_length_matches_one_byte_body() {
    let bytes = response(StatusCode::Success, ContentType::Css, b"x").as_bytes();
    assert_eq!(content_length_of(&bytes), 1);
    assert!(bytes.ends_with(b"Content-Length: 1\r\n\r\nx\r\n\r\n"));
}

#[test]
fn content_length_matches_large_body() {
    let body = vec![0xffu8; 70_000];
    let bytes = response(StatusCode::Success, ContentType::Jpg, &body).as_bytes();
    assert_eq!(content_length_of(&bytes), 70_000);
    let head = b"HTTP/1.1 200 OK\nContent-Type: image/jpeg\nContent-Length: 70000\r\n\r\n";
    assert_eq!(bytes.len(), head.len() + 70_000 + 4);
    assert_eq!(&bytes[..head.len()], &head[..]);
}

#[test]
fn supported_extensions_map_to_their_types() {
    let ext = |e: &str| Some(e.to_string());
    assert_eq!(content_type_for_extension(&ext("pdf")), Ok(ContentType::Pdf));
    assert_eq!(content_type_for_extension(&ext("html")), Ok(ContentType::Html));
    assert_eq!(content_type_for_extension(&ext("css")), Ok(ContentType::Css));
    assert_eq!(content_type_for_extension(&ext("JPG")), Ok(ContentType::Jpg));
}

#[test]
fn other_extensions_are_unsupported() {
    let ext = |e: &str| Some(e.to_string());
    assert_eq!(content_type_for_extension(&ext("jpg")), Err(FetchError::UnsupportedExtension));
    assert_eq!(content_type_for_extension(&ext("PDF")), Err(FetchError::UnsupportedExtension));
    assert_eq!(content_type_for_extension(&ext("txt")), Err(FetchError::UnsupportedExtension));
    assert_eq!(content_type_for_extension(&None), Err(FetchError::UnsupportedExtension));
}

#[test]
fn content_type_follows_the_path_extension() {
    assert_eq!(content_type_of("site/docs/report.pdf"), Ok(ContentType::Pdf));
    assert_eq!(content_type_of("site/index.html"), Ok(ContentType::Html));
    assert_eq!(content_type_of("site/a.b/style.css"), Ok(ContentType::Css));
    assert_eq!(content_type_of("site/photo.JPG"), Ok(ContentType::Jpg));
    assert_eq!(content_type_of("site/photo.jpg"), Err(FetchError::UnsupportedExtension));
    assert_eq!(content_type_of("site/README"), Err(FetchError::UnsupportedExtension));
    assert_eq!(content_type_of("site/.html"), Err(FetchError::UnsupportedExtension));
}

#[test]
fn request_path_is_second_word_of_first_line() {
    let h = head(&["GET /index.html HTTP/1.1", "Host: localhost"]);
    assert_eq!(request_path(&h), Ok("/index.html".to_string()));
    let h = head(&["  GET \t /a/b.css   HTTP/1.1 "]);
    assert_eq!(request_path(&h), Ok("/a/b.css".to_string()));
    let h = head(&["GET /only"]);
    assert_eq!(request_path(&h), Ok("/only".to_string()));
}

#[test]
fn empty_head_is_an_empty_request() {
    assert_eq!(request_path(&Vec::new()), Err(RequestError::EmptyRequest));
}

#[test]
fn one_word_request_line_is_malformed() {
    assert_eq!(request_path(&head(&["GET"])), Err(RequestError::MalformedRequest));
    assert_eq!(request_path(&head(&["   "])), Err(RequestError::MalformedRequest));
}

#[test]
fn paths_join_root_and_request_as_written() {
    assert_eq!(lookup_path("site", "/index.html"), "site/index.html");
    assert_eq!(lookup_path("site", "/../secret.html"), "site/../secret.html");
    assert_eq!(not_found_path("site"), "site/notfound.html");
}

#[test]
fn fetch_pairs_type_with_bytes_or_reports_cause() {
    let fc = fetch_file(ContentType::Css, Ok(b"body{}".to_vec())).unwrap();
    assert_eq!(fc.content_type, ContentType::Css);
    assert_eq!(fc.contents, b"body{}".to_vec());
    let err = fetch_file(ContentType::Css, Err("permission denied".to_string()));
    assert!(matches!(err, Err(FetchError::Io(c)) if c == "permission denied"));
}

#[test]
fn not_found_page_or_built_in_fallback() {
    let page = FileContents { content_type: ContentType::Html, contents: b"<p>missing</p>".to_vec() };
    assert_eq!(get_404_page(Ok(page)), b"<p>missing</p>".to_vec());
    assert_eq!(get_404_page(Err(FetchError::Io("gone".to_string()))), b"<h1>404 Not Found</h1>".to_vec());
}

const SITE: [(&str, &[u8]); 4] = [
    ("root/index.html", b"<p>hi</p>"),
    ("root/notfound.html", b"<p>missing</p>"),
    ("root/doc.pdf", b"%PDF"),
    ("root/img.JPG", b"\xff\xd8"),
];

#[test]
fn existing_html_page_is_served() {
    let bytes = serve("root", &["GET /index.html HTTP/1.1"], &SITE).unwrap();
    assert_eq!(bytes, response(StatusCode::Success, ContentType::Html, b"<p>hi</p>").as_bytes());
    assert!(bytes.starts_with(b"HTTP/1.1 200 OK\n"));
}

#[test]
fn missing_page_gets_not_found_page() {
    let bytes = serve("root", &["GET /missing.html HTTP/1.1"], &SITE).unwrap();
    assert_eq!(bytes, response(StatusCode::NotFound, ContentType::Html, b"<p>missing</p>").as_bytes());
    assert!(bytes.starts_with(b"HTTP/1.1 404 Not Found\n"));
}

#[test]
fn empty_request_writes_nothing() {
    assert_eq!(serve("root", &[], &SITE), None);
}

#[test]
fn malformed_request_writes_nothing() {
    assert_eq!(serve("root", &["GET"], &SITE), None);
}

#[test]
fn supported_types_are_served_with_their_labels() {
    let pdf = serve("root", &["GET /doc.pdf HTTP/1.1"], &SITE).unwrap();
    assert_eq!(pdf, response(StatusCode::Success, ContentType::Pdf, b"%PDF").as_bytes());
    let jpg = serve("root", &["GET /img.JPG HTTP/1.1"], &SITE).unwrap();
    assert_eq!(jpg, response(StatusCode::Success, ContentType::Jpg, b"\xff\xd8").as_bytes());
}

#[test]
fn unsupported_extension_gets_not_found_page_without_reading() {
    let files: [(&str, &[u8]); 2] = [("root/notes.txt", b"text"), ("root/notfound.html", b"<p>missing</p>")];
    let bytes = serve("root", &["GET /notes.txt HTTP/1.1"], &files).unwrap();
    assert_eq!(bytes, response(StatusCode::NotFound, ContentType::Html, b"<p>missing</p>").as_bytes());
}

#[test]
fn missing_not_found_page_gets_built_in_body() {
    let bytes = serve("root", &["GET /missing.html HTTP/1.1"], &[]).unwrap();
    let expected = response(StatusCode::NotFound, ContentType::Html, b"<h1>404 Not Found</h1>").as_bytes();
    assert_eq!(bytes, expected);
}

#[test]
fn handler_stages_follow_the_reads() {
    let mut handler = Handler::new("root".to_string());
    let action = handler.on_head(&head(&["GET /style.css HTTP/1.1"]));
    assert!(matches!(action, Action::Read(ref p) if p == "root/style.css"));
    assert_eq!(handler.stage, Stage::ReadingFile(ContentType::Css));
    let action = handler.on_read(Err("not found".to_string()));
    assert!(matches!(action, Action::Read(ref p) if p == "root/notfound.html"));
    assert_eq!(handler.stage, Stage::ReadingNotFoundPage);
    let action = handler.on_read(Ok(b"nf".to_vec()));
    assert!(matches!(action, Action::Send(_)));
    assert_eq!(handler.stage, Stage::Done);
}

#[test]
fn every_job_is_taken_once_in_order() {
    let mut queue: JobQueue<u32> = JobQueue::new();
    let mut got = Vec::new();
    for job in 0..20u32 {
        queue.submit(job);
        if job % 3 == 0 {
            if let Some(j) = queue.take() {
                got.push(j);
            }
        }
    }
    while let Some(j) = queue.take() {
        got.push(j);
    }
    assert_eq!(got, (0..20u32).collect::<Vec<_>>());
    assert_eq!(queue.len(), 0);
    assert_eq!(queue.take(), None);
}

#[test]
fn empty_queue_hands_out_nothing() {
    let mut queue: JobQueue<&str> = JobQueue::new();
    assert_eq!(queue.take(), None);
    queue.submit("a");
    queue.submit("b");
    assert_eq!(queue.len(), 2);
    assert_eq!(queue.take(), Some("a"));
    assert_eq!(queue.take(), Some("b"));
    assert_eq!(queue.take(), None);
}

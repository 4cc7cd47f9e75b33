use basic_http_server::config::Config;
use basic_http_server::error::{Error, IoErrorKind};
use basic_http_server::handler::{hand_over, step, Action, Event, State};
use basic_http_server::mime::Mime;
use basic_http_server::response::{respond_with_file, Response};
use basic_http_server::status::Status;
use basic_http_server::template::render_error_html;

fn config(root_dir: &str) -> Config {
    Config::from_arguments(Some(root_dir), None, false)
}

fn request(path: &str) -> Event {
    Event::Request { path: path.to_string() }
}

/// What the file system reports for one file.
enum Disk {
    Content(Vec<u8>),
    OpenFails(IoErrorKind),
    ReadFails(IoErrorKind),
}

/// Runs one request to the response that goes to the hook, with the file
/// that was asked for, if one was.
fn run(root_dir: &str, path: &str, disk: Disk) -> (Option<String>, Response) {
    let config = config(root_dir);
    let (state, action) = step(&config, State::Idle, request(path));
    let (state, action, file) = match action {
        Action::Open { path: file } => {
            let (state, action) = match disk {
                Disk::OpenFails(kind) => step(&config, state, Event::OpenFailed(kind)),
                Disk::Content(content) => {
                    let (state, action) = step(&config, state, Event::Opened);
                    assert!(matches!(action, Action::Read));
                    step(&config, state, Event::Read { content })
                }
                Disk::ReadFails(kind) => {
                    let (state, action) = step(&config, state, Event::Opened);
                    assert!(matches!(action, Action::Read));
                    step(&config, state, Event::ReadFailed(kind))
                }
            };
            (state, action, Some(file))
        }
        other => (state, other, None),
    };
    assert!(matches!(state, State::Hooking));
    match action {
        Action::Hook { response } => (file, response),
        other => panic!("expected the response for the hook, got {:?}", other),
    }
}

#[test]
fn existing_index_file_is_served() {
    let (file, response) = run("root", "/index.html", Disk::Content(b"hello".to_vec()));
    assert_eq!(file, Some("root/index.html".to_string()));
    assert_eq!(response.status, Status::Success);
    assert_eq!(response.content_length, 5);
    assert_eq!(response.content_type.map(|m| m.as_str()), Some("text/html"));
    assert_eq!(response.body, b"hello".to_vec());
}

#[test]
fn directory_request_serves_its_index_file() {
    let (file, response) = run("root", "/docs/?v=2", Disk::Content(b"<p>docs</p>".to_vec()));
    assert_eq!(file, Some("root/docs/index.html".to_string()));
    assert_eq!(response.status, Status::Success);
    assert_eq!(response.content_type, Some(Mime::TextHtml));
    assert_eq!(response.content_length, 11);
}

#[test]
fn request_without_leading_slash_gets_500_and_opens_nothing() {
    for path in ["index.html", "", "*", "?x"] {
        let (file, response) = run("root", path, Disk::Content(b"never read".to_vec()));
        assert_eq!(file, None);
        assert_eq!(response.status, Status::InternalServerError);
        assert_eq!(response.content_type, None);
        assert_eq!(response.content_length, response.body.len() as u64);
        assert_eq!(
            response.body,
            render_error_html(Status::InternalServerError).unwrap().into_bytes()
        );
    }
}

#[test]
fn missing_file_gets_404_page() {
    let (file, response) = run("root", "/nothing.html", Disk::OpenFails(IoErrorKind::NotFound));
    assert_eq!(file, Some("root/nothing.html".to_string()));
    assert_eq!(response.status, Status::NotFound);
    assert_eq!(response.content_type, None);
    assert_eq!(response.content_length, response.body.len() as u64);
    let page = String::from_utf8(response.body).unwrap();
    assert!(page.contains("404"));
    assert!(page.starts_with("<!DOCTYPE html>"));
}

#[test]
fn unreadable_directory_gets_500() {
    let (_, response) = run("root", "/private/", Disk::OpenFails(IoErrorKind::PermissionDenied));
    assert_eq!(response.status, Status::InternalServerError);
    let (_, response) = run("root", "/dir", Disk::OpenFails(IoErrorKind::Other));
    assert_eq!(response.status, Status::InternalServerError);
}

#[test]
fn failed_read_gets_500() {
    for kind in [IoErrorKind::NotFound, IoErrorKind::PermissionDenied, IoErrorKind::Other] {
        let (file, response) = run("root", "/dir", Disk::ReadFails(kind));
        assert_eq!(file, Some("root/dir".to_string()));
        assert_eq!(response.status, Status::InternalServerError);
        assert!(String::from_utf8(response.body).unwrap().contains("500"));
    }
}

#[test]
fn files_come_back_byte_for_byte() {
    let files: [(&str, Vec<u8>); 4] = [
        ("a.txt", b"plain".to_vec()),
        ("img/logo.png", vec![0x89, b'P', b'N', b'G', 0, 255]),
        ("deep/er/still/app.js", b"let x = 1;\n".to_vec()),
        ("empty.css", Vec::new()),
    ];
    for (relative, content) in files {
        let path = format!("/{}", relative);
        let (file, response) = run("/srv/www", &path, Disk::Content(content.clone()));
        assert_eq!(file, Some(format!("/srv/www/{}", relative)));
        assert_eq!(response.status, Status::Success);
        assert_eq!(response.content_length, content.len() as u64);
        assert_eq!(response.body, content);
    }
}

#[test]
fn same_request_twice_gives_identical_responses() {
    let cases = [
        ("/index.html", Disk::Content(b"hello".to_vec()), Disk::Content(b"hello".to_vec())),
        (
            "/gone",
            Disk::OpenFails(IoErrorKind::NotFound),
            Disk::OpenFails(IoErrorKind::NotFound),
        ),
        ("bad", Disk::Content(Vec::new()), Disk::Content(Vec::new())),
    ];
    for (path, first_disk, second_disk) in cases {
        let (first_file, first) = run("root", path, first_disk);
        let (second_file, second) = run("root", path, second_disk);
        assert_eq!(first_file, second_file);
        assert_eq!(first.status, second.status);
        assert_eq!(first.content_length, second.content_length);
        assert_eq!(first.content_type, second.content_type);
        assert_eq!(first.body, second.body);
    }
}

#[test]
fn open_keeps_the_path_for_the_content_type() {
    let config = config("root");
    let (state, action) = step(&config, State::Idle, request("/style.css?v=3"));
    match (&state, &action) {
        (State::Opening { path: kept }, Action::Open { path: asked }) => {
            assert_eq!(kept, "root/style.css");
            assert_eq!(asked, "root/style.css");
        }
        _ => panic!("expected the file to be opened"),
    }
    let (state, action) = step(&config, state, Event::Opened);
    assert!(matches!(action, Action::Read));
    match &state {
        State::Reading { path } => assert_eq!(path, "root/style.css"),
        _ => panic!("expected the file to be read"),
    }
    let (_, action) = step(&config, state, Event::Read { content: b"a{}".to_vec() });
    match action {
        Action::Hook { response } => assert_eq!(response.content_type, Some(Mime::TextCss)),
        _ => panic!("expected the response for the hook"),
    }
}

#[test]
fn hook_response_is_sent_as_returned() {
    let config = config("root");
    let rewritten = Response {
        status: Status::NotFound,
        content_length: 3,
        content_type: Some(Mime::TextMarkdown),
        body: b"# x".to_vec(),
    };
    let (state, action) = step(&config, State::Hooking, Event::HookReturned { response: rewritten });
    assert!(matches!(state, State::Done));
    match action {
        Action::Send { response } => {
            assert_eq!(response.status, Status::NotFound);
            assert_eq!(response.content_length, 3);
            assert_eq!(response.content_type, Some(Mime::TextMarkdown));
            assert_eq!(response.body, b"# x".to_vec());
        }
        other => panic!("expected the response to be sent, got {:?}", other),
    }
}

#[test]
fn hook_failure_fails_the_request() {
    let (state, action) = step(&config("root"), State::Hooking, Event::HookFailed);
    assert!(matches!(state, State::Done));
    assert!(matches!(action, Action::Fail(Error::Hook)));
}

#[test]
fn event_out_of_turn_fails_the_request() {
    let config = config("root");
    let out_of_turn = [
        (State::Idle, Event::Opened),
        (State::Idle, Event::HookFailed),
        (State::Opening { path: "root/a".to_string() }, request("/a")),
        (State::Opening { path: "root/a".to_string() }, Event::Read { content: Vec::new() }),
        (State::Reading { path: "root/a".to_string() }, Event::Opened),
        (State::Reading { path: "root/a".to_string() }, Event::OpenFailed(IoErrorKind::Other)),
        (State::Hooking, Event::ReadFailed(IoErrorKind::Other)),
        (State::Hooking, request("/a")),
        (State::Done, request("/a")),
        (State::Done, Event::HookFailed),
    ];
    for (state, event) in out_of_turn {
        let (next, action) = step(&config, state, event);
        assert!(matches!(next, State::Done));
        assert!(matches!(action, Action::Fail(Error::UnexpectedEvent)));
    }
}

#[test]
fn built_response_is_handed_to_the_hook() {
    let (state, action) = hand_over(Ok(respond_with_file(b"x".to_vec(), "a.svg")));
    assert!(matches!(state, State::Hooking));
    match action {
        Action::Hook { response } => {
            assert_eq!(response.content_type, Some(Mime::ImageSvg));
            assert_eq!(response.body, b"x".to_vec());
        }
        other => panic!("expected the response for the hook, got {:?}", other),
    }
}

#[test]
fn unbuilt_response_fails_the_request() {
    let (state, action) = hand_over(Err(Error::Handlebars));
    assert!(matches!(state, State::Done));
    assert!(matches!(action, Action::Fail(Error::Handlebars)));
}

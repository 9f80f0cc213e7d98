use web_server::address::{listen_address, WORKERS};
use web_server::connection::{loaded, probed, received, Action};
use web_server::response::{decimal_string, render, render_bare_not_found};
use web_server::route::{ContentType, Folder, Location, Status, Target};

fn target(status: Status, folder: Folder, name: &str, content_type: ContentType) -> Target {
    Target { status, file: Location { folder, name: name.to_string() }, content_type }
}

#[test]
fn decimal_notation() {
    assert_eq!(decimal_string(0), "0");
    assert_eq!(decimal_string(7), "7");
    assert_eq!(decimal_string(10), "10");
    assert_eq!(decimal_string(109), "109");
    assert_eq!(decimal_string(12345), "12345");
    assert_eq!(decimal_string(usize::MAX), usize::MAX.to_string());
}

#[test]
fn full_response_has_status_length_type_and_body() {
    assert_eq!(
        render(Status::Success, ContentType::Html, "<h1>Hi</h1>"),
        "HTTP/1.1 200 OK\r\nContent-Length: 11\r\nContent-Type: text/html\r\n\r\n<h1>Hi</h1>"
    );
    assert_eq!(
        render(Status::NotFound, ContentType::Html, "gone"),
        "HTTP/1.1 404 NOT FOUND\r\nContent-Length: 4\r\nContent-Type: text/html\r\n\r\ngone"
    );
    assert_eq!(
        render(Status::Success, ContentType::JavaScript, ""),
        "HTTP/1.1 200 OK\r\nContent-Length: 0\r\nContent-Type: application/javascript\r\n\r\n"
    );
}

#[test]
fn content_length_counts_bytes() {
    assert_eq!(
        render(Status::Success, ContentType::Plain, "\u{e9}\u{4e16}\u{1f600}"),
        "HTTP/1.1 200 OK\r\nContent-Length: 9\r\nContent-Type: text/plain\r\n\r\n\u{e9}\u{4e16}\u{1f600}"
    );
    let body = "x".repeat(1234);
    let response = render(Status::Success, ContentType::Css, &body);
    assert_eq!(
        response,
        format!("HTTP/1.1 200 OK\r\nContent-Length: 1234\r\nContent-Type: text/css\r\n\r\n{body}")
    );
}

#[test]
fn bare_not_found_has_no_headers_and_no_body() {
    assert_eq!(render_bare_not_found(), "HTTP/1.1 404 NOT FOUND\r\n\r\n");
}

#[test]
fn connection_without_a_request_line_writes_nothing() {
    assert_eq!(received(None), Action::Close);
}

#[test]
fn request_line_leads_to_a_load_or_a_probe() {
    assert_eq!(
        received(Some("GET / HTTP/1.1")),
        Action::Load(target(Status::Success, Folder::Base, "html/home.html", ContentType::Html))
    );
    assert_eq!(
        received(Some("GET /static/app.css HTTP/1.1")),
        Action::Load(target(Status::Success, Folder::Base, "static/app.css", ContentType::Css))
    );
    assert_eq!(
        received(Some("")),
        Action::Load(target(Status::NotFound, Folder::Base, "html/404.html", ContentType::Html))
    );
    assert_eq!(
        received(Some("GET /blog/first.html HTTP/1.1")),
        Action::Probe(Location { folder: Folder::Blog, name: "first.html".to_string() })
    );
}

#[test]
fn probe_answer_picks_the_entry_or_the_not_found_page() {
    let file = Location { folder: Folder::Blog, name: "first.html".to_string() };
    assert_eq!(
        probed(file.clone(), true),
        Action::Load(target(Status::Success, Folder::Blog, "first.html", ContentType::Html))
    );
    assert_eq!(
        probed(file, false),
        Action::Load(target(Status::NotFound, Folder::Base, "html/404.html", ContentType::Html))
    );
}

#[test]
fn loaded_file_is_sent_with_its_headers() {
    let home = target(Status::Success, Folder::Base, "html/home.html", ContentType::Html);
    assert_eq!(
        loaded(&home, Some("<p>home</p>")),
        Action::Send(
            "HTTP/1.1 200 OK\r\nContent-Length: 11\r\nContent-Type: text/html\r\n\r\n<p>home</p>".to_string()
        )
    );
    let missing = target(Status::NotFound, Folder::Base, "html/404.html", ContentType::Html);
    assert_eq!(
        loaded(&missing, Some("nothing here")),
        Action::Send(
            "HTTP/1.1 404 NOT FOUND\r\nContent-Length: 12\r\nContent-Type: text/html\r\n\r\nnothing here"
                .to_string()
        )
    );
}

#[test]
fn unreadable_file_is_answered_with_the_bare_not_found() {
    let home = target(Status::Success, Folder::Base, "html/home.html", ContentType::Html);
    assert_eq!(loaded(&home, None), Action::Send("HTTP/1.1 404 NOT FOUND\r\n\r\n".to_string()));
    let style = target(Status::Success, Folder::Base, "static/app.css", ContentType::Css);
    assert_eq!(loaded(&style, None), Action::Send("HTTP/1.1 404 NOT FOUND\r\n\r\n".to_string()));
}

#[test]
fn whole_exchange_for_a_blog_entry() {
    let first = received(Some("GET /blog/first.html HTTP/1.1"));
    let file = match first {
        Action::Probe(file) => file,
        other => panic!("{other:?}"),
    };
    let target = match probed(file, true) {
        Action::Load(target) => target,
        other => panic!("{other:?}"),
    };
    assert_eq!(
        loaded(&target, Some("post")),
        Action::Send("HTTP/1.1 200 OK\r\nContent-Length: 4\r\nContent-Type: text/html\r\n\r\npost".to_string())
    );
}

#[test]
fn listening_address_defaults() {
    assert_eq!(listen_address(None, None), "127.0.0.1:7878");
    assert_eq!(listen_address(Some("0.0.0.0"), None), "0.0.0.0:7878");
    assert_eq!(listen_address(None, Some("8080")), "127.0.0.1:8080");
    assert_eq!(listen_address(Some("example.org"), Some("80")), "example.org:80");
    assert_eq!(listen_address(Some(""), Some("")), ":");
}

#[test]
fn server_starts_four_workers() {
    assert_eq!(WORKERS, 4);
}

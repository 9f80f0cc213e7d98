//! The router: from a request line to the file to serve, the status line to
//! send with it and its content type.
//!
//! Routing reads nothing but the request line. The one rule that depends on
//! the file system, the blog entries, is returned as a question
//! ([`Route::IfFile`]) that [`Route::settle`] answers once the caller has
//! looked.

use crate::text::{
    chars_of, find_token_end, matches_at, same_chars, token_end, trim_end_index, trim_end_matches,
    trim_start_index, trim_start_matches,
};
use vstd::prelude::*;
use vstd::string::StrSliceExecFns;

verus! {

/// The status of a response.
#[derive(Clone, Copy, Debug, PartialEq, Eq, Structural)]
pub enum Status {
    /// `200 OK`
    Success,
    /// `404 NOT FOUND`
    NotFound,
}

/// The content type announced for a file.
#[derive(Clone, Copy, Debug, PartialEq, Eq, Structural)]
pub enum ContentType {
    Html,
    Css,
    JavaScript,
    Plain,
}

/// The directory that a file name is joined to.
#[derive(Clone, Copy, Debug, PartialEq, Eq, Structural)]
pub enum Folder {
    /// The server's base directory.
    Base,
    /// The `blog` directory below the base directory.
    Blog,
}

/// A file: `name` joined to `folder`.
#[derive(Clone, Debug, PartialEq, Eq)]
pub struct Location {
    pub folder: Folder,
    pub name: String,
}

/// What is sent for a request: the file at `file`, announced with `status`
/// and `content_type`.
#[derive(Clone, Debug, PartialEq, Eq)]
pub struct Target {
    pub status: Status,
    pub file: Location,
    pub content_type: ContentType,
}

/// The router's answer.
#[derive(Clone, Debug, PartialEq, Eq)]
pub enum Route {
    /// Serve this target.
    Serve(Target),
    /// Serve this file as HTML if it is a regular file, the not-found page
    /// otherwise.
    IfFile(Location),
}

/// The mathematical value of a [`Location`].
pub struct LocationView {
    pub folder: Folder,
    pub name: Seq<char>,
}

/// The mathematical value of a [`Target`].
pub struct TargetView {
    pub status: Status,
    pub file: LocationView,
    pub content_type: ContentType,
}

/// The mathematical value of a [`Route`].
pub enum RouteView {
    Serve(TargetView),
    IfFile(LocationView),
}

impl View for Location {
    type V = LocationView;

    open spec fn view(&self) -> LocationView {
        LocationView { folder: self.folder, name: self.name@ }
    }
}

impl View for Target {
    type V = TargetView;

    open spec fn view(&self) -> TargetView {
        TargetView { status: self.status, file: self.file@, content_type: self.content_type }
    }
}

impl View for Route {
    type V = RouteView;

    open spec fn view(&self) -> RouteView {
        match self {
            Route::Serve(target) => RouteView::Serve(target@),
            Route::IfFile(file) => RouteView::IfFile(file@),
        }
    }
}

impl Status {
    /// The status line, without its line terminator.
    pub open spec fn line(self) -> Seq<char> {
        match self {
            Status::Success => "HTTP/1.1 200 OK"@,
            Status::NotFound => "HTTP/1.1 404 NOT FOUND"@,
        }
    }

    /// The status line, without its line terminator.
    pub fn status_line(self) -> (text: &'static str)
        ensures
            text@ == self.line(),
    {
        match self {
            Status::Success => "HTTP/1.1 200 OK",
            Status::NotFound => "HTTP/1.1 404 NOT FOUND",
        }
    }
}

impl ContentType {
    /// The media type, as written in a `Content-Type` header.
    pub open spec fn media_type(self) -> Seq<char> {
        match self {
            ContentType::Html => "text/html"@,
            ContentType::Css => "text/css"@,
            ContentType::JavaScript => "application/javascript"@,
            ContentType::Plain => "text/plain"@,
        }
    }

    /// The media type, as written in a `Content-Type` header.
    pub fn as_str(self) -> (text: &'static str)
        ensures
            text@ == self.media_type(),
    {
        match self {
            ContentType::Html => "text/html",
            ContentType::Css => "text/css",
            ContentType::JavaScript => "application/javascript",
            ContentType::Plain => "text/plain",
        }
    }
}

/// `path` without the `/` and `/.` that it ends in, however many; a path that
/// is only `.` is empty.
pub open spec fn without_trailing(path: Seq<char>) -> Seq<char>
    decreases path.len(),
{
    let n = path.len() as int;
    if n >= 1 && path[n - 1] == '/' {
        without_trailing(path.take(n - 1))
    } else if n >= 2 && path[n - 1] == '.' && path[n - 2] == '/' {
        without_trailing(path.take(n - 2))
    } else if n == 1 && path[0] == '.' {
        Seq::empty()
    } else {
        path
    }
}

/// The index just after the last `/` of `path`, 0 where it has none.
pub open spec fn after_last_slash(path: Seq<char>) -> int
    decreases path.len(),
{
    if path.len() == 0 {
        0
    } else if path.last() == '/' {
        path.len() as int
    } else {
        after_last_slash(path.drop_last())
    }
}

/// The index of the last `.` of `name`, -1 where it has none.
pub open spec fn last_dot(name: Seq<char>) -> int
    decreases name.len(),
{
    if name.len() == 0 {
        -1
    } else if name.last() == '.' {
        name.len() - 1
    } else {
        last_dot(name.drop_last())
    }
}

/// The final component of a `/`-separated path: its last segment that is
/// neither empty nor `.`. Empty where the path has no such segment.
pub open spec fn final_component(path: Seq<char>) -> Seq<char> {
    let trimmed = without_trailing(path);
    trimmed.skip(after_last_slash(trimmed))
}

/// The file name of a path: its final component, unless that is `..`.
pub open spec fn file_name(path: Seq<char>) -> Option<Seq<char>> {
    let last = final_component(path);
    if last.len() == 0 || last == seq!['.', '.'] {
        None
    } else {
        Some(last)
    }
}

/// The extension of a path: what follows the last `.` of its file name,
/// where the name has a `.` that is not its first character.
pub open spec fn extension(path: Seq<char>) -> Option<Seq<char>> {
    match file_name(path) {
        None => None,
        Some(name) => if last_dot(name) <= 0 {
            None
        } else {
            Some(name.skip(last_dot(name) + 1))
        },
    }
}

/// The content type of a static asset, by the extension of its path.
pub open spec fn content_type_of(path: Seq<char>) -> ContentType {
    let ext = extension(path);
    if ext == Some("css"@) {
        ContentType::Css
    } else if ext == Some("js"@) {
        ContentType::JavaScript
    } else {
        ContentType::Plain
    }
}

/// The file of a request of the static rule: the request path, which runs
/// from the `/` after `GET ` to the next whitespace, without that `/`.
pub open spec fn asset_name(line: Seq<char>) -> Seq<char> {
    line.subrange(5, token_end(line, 4))
}

/// The file of a request of the blog rule: the request line without the
/// leading `GET /blog/` and the trailing ` HTTP/1.1`, each as often as it
/// is there.
pub open spec fn entry_name(line: Seq<char>) -> Seq<char> {
    trim_end_matches(trim_start_matches(line, "GET /blog/"@), " HTTP/1.1"@)
}

/// A page of the `html` directory, as HTML.
pub open spec fn page(status: Status, name: Seq<char>) -> TargetView {
    TargetView {
        status,
        file: LocationView { folder: Folder::Base, name },
        content_type: ContentType::Html,
    }
}

/// The not-found page, with the not-found status.
pub open spec fn not_found_page() -> TargetView {
    page(Status::NotFound, "html/404.html"@)
}

/// The routing rules, first match first.
pub open spec fn route_of(line: Seq<char>) -> RouteView {
    if line == "GET / HTTP/1.1"@ {
        RouteView::Serve(page(Status::Success, "html/home.html"@))
    } else if line == "GET /blog HTTP/1.1"@ {
        RouteView::Serve(page(Status::Success, "html/blog.html"@))
    } else if "GET /static/"@.is_prefix_of(line) {
        RouteView::Serve(
            TargetView {
                status: Status::Success,
                file: LocationView { folder: Folder::Base, name: asset_name(line) },
                content_type: content_type_of(asset_name(line)),
            },
        )
    } else if "GET /blog/"@.is_prefix_of(line) {
        RouteView::IfFile(LocationView { folder: Folder::Blog, name: entry_name(line) })
    } else {
        RouteView::Serve(not_found_page())
    }
}

/// What a route comes to once it is known whether its file is a regular file.
pub open spec fn settled(route: RouteView, is_file: bool) -> TargetView {
    match route {
        RouteView::Serve(target) => target,
        RouteView::IfFile(file) => if is_file {
            TargetView { status: Status::Success, file, content_type: ContentType::Html }
        } else {
            not_found_page()
        },
    }
}

/// The characters of `s` from index `from` up to `to`.
fn copy_range(s: &Vec<char>, from: usize, to: usize) -> (part: Vec<char>)
    requires
        from <= to <= s.len(),
    ensures
        part@ == s@.subrange(from as int, to as int),
{
    let mut part: Vec<char> = Vec::new();
    let mut i: usize = from;
    while i < to
        invariant
            from <= i <= to <= s.len(),
            part@ == s@.subrange(from as int, i as int),
        decreases to - i,
    {
        part.push(s[i]);
        i += 1;
    }
    part
}

/// Where `path` ends once the `/` and `/.` that it ends in are left out.
fn trimmed_len(path: &Vec<char>) -> (end: usize)
    ensures
        end <= path.len(),
        path@.take(end as int) == without_trailing(path@),
{
    let mut end: usize = path.len();
    let mut done = false;
    assert(path@.take(end as int) =~= path@);
    while !done
        invariant
            end <= path.len(),
            without_trailing(path@.take(end as int)) == without_trailing(path@),
            done ==> without_trailing(path@.take(end as int)) == path@.take(end as int),
        decreases end + (if done { 0int } else { 1int }),
    {
        let ghost here = path@.take(end as int);
        if end >= 1 && path[end - 1] == '/' {
            proof {
                assert(here.take(end - 1) =~= path@.take(end - 1));
            }
            end -= 1;
        } else if end >= 2 && path[end - 1] == '.' && path[end - 2] == '/' {
            proof {
                assert(here.take(end - 2) =~= path@.take(end - 2));
            }
            end -= 2;
        } else if end == 1 && path[0] == '.' {
            end = 0;
        } else {
            done = true;
        }
    }
    end
}

/// The content type of a static asset whose path has the characters `path`.
fn content_type_of_chars(path: &Vec<char>) -> (content_type: ContentType)
    ensures
        content_type == content_type_of(path@),
{
    let end = trimmed_len(path);
    let ghost trimmed = path@.take(end as int);
    let mut start: usize = end;
    while start > 0 && path[start - 1] != '/'
        invariant
            start <= end <= path.len(),
            trimmed == path@.take(end as int),
            after_last_slash(trimmed) == after_last_slash(path@.take(start as int)),
        decreases start,
    {
        proof {
            assert(path@.take(start as int).drop_last() =~= path@.take(start - 1));
        }
        start -= 1;
    }
    let ghost name = path@.subrange(start as int, end as int);
    proof {
        assert(trimmed.skip(start as int) =~= name);
    }
    if start == end {
        return ContentType::Plain;
    }
    if end - start == 2 && path[start] == '.' && path[start + 1] == '.' {
        proof {
            assert(name =~= seq!['.', '.']);
        }
        return ContentType::Plain;
    }
    let mut dot: usize = end;
    while dot > start && path[dot - 1] != '.'
        invariant
            start <= dot <= end <= path.len(),
            name == path@.subrange(start as int, end as int),
            last_dot(name) == last_dot(path@.subrange(start as int, dot as int)),
        decreases dot,
    {
        proof {
            assert(path@.subrange(start as int, dot as int).drop_last() =~= path@.subrange(
                start as int,
                dot - 1,
            ));
        }
        dot -= 1;
    }
    if dot <= start + 1 {
        return ContentType::Plain;
    }
    let ghost ext = path@.subrange(dot as int, end as int);
    proof {
        reveal_strlit("css");
        reveal_strlit("js");
        assert(name.skip(last_dot(name) + 1) =~= ext);
    }
    if end - dot == 3 && path[dot] == 'c' && path[dot + 1] == 's' && path[dot + 2] == 's' {
        proof {
            assert(ext =~= "css"@);
        }
        ContentType::Css
    } else if end - dot == 2 && path[dot] == 'j' && path[dot + 1] == 's' {
        proof {
            assert(ext =~= "js"@);
        }
        ContentType::JavaScript
    } else {
        proof {
            if ext == "css"@ {
                assert(ext[0] == 'c' && ext[1] == 's' && ext[2] == 's');
            }
            if ext == "js"@ {
                assert(ext[0] == 'j' && ext[1] == 's');
            }
        }
        ContentType::Plain
    }
}

/// The content type of a static asset, by the extension of its path.
pub fn content_type_for(path: &str) -> (content_type: ContentType)
    ensures
        content_type == content_type_of(path@),
{
    let chars = chars_of(path);
    content_type_of_chars(&chars)
}

/// A page of the `html` directory, as HTML.
fn page_target(status: Status, name: &str) -> (target: Target)
    ensures
        target@ == page(status, name@),
{
    Target {
        status,
        file: Location { folder: Folder::Base, name: name.to_owned() },
        content_type: ContentType::Html,
    }
}

/// Routes a request line.
///
/// The rules, first match first: the line `GET / HTTP/1.1` is the home page
/// and `GET /blog HTTP/1.1` the blog page; a line that starts with
/// `GET /static/` is the file that its request path names below the base
/// directory, with the content type of that path's extension; a line that
/// starts with `GET /blog/` is a blog entry, served if it is a regular file;
/// anything else is the not-found page.
pub fn route(line: &str) -> (route: Route)
    ensures
        route@ == route_of(line@),
{
    let chars = chars_of(line);
    let home = chars_of("GET / HTTP/1.1");
    let blog = chars_of("GET /blog HTTP/1.1");
    let static_prefix = chars_of("GET /static/");
    let blog_prefix = chars_of("GET /blog/");
    let version_suffix = chars_of(" HTTP/1.1");
    proof {
        assert(chars@.subrange(0, chars@.len() as int) =~= chars@);
    }
    if same_chars(&chars, &home) {
        Route::Serve(page_target(Status::Success, "html/home.html"))
    } else if same_chars(&chars, &blog) {
        Route::Serve(page_target(Status::Success, "html/blog.html"))
    } else if matches_at(&chars, 0, &static_prefix) {
        proof {
            reveal_strlit("GET /static/");
            let head = chars@.subrange(0, 12);
        }
        let end = find_token_end(&chars, 5);
        let name_chars = copy_range(&chars, 5, end);
        let content_type = content_type_of_chars(&name_chars);
        let name = line.substring_char(5, end).to_owned();
        Route::Serve(
            Target {
                status: Status::Success,
                file: Location { folder: Folder::Base, name },
                content_type,
            },
        )
    } else if matches_at(&chars, 0, &blog_prefix) {
        let start = trim_start_index(&chars, &blog_prefix);
        let rest = copy_range(&chars, start, chars.len());
        let kept = trim_end_index(&rest, &version_suffix);
        proof {
            assert(rest@.take(kept as int) =~= chars@.subrange(start as int, start + kept));
        }
        let name = line.substring_char(start, start + kept).to_owned();
        Route::IfFile(Location { folder: Folder::Blog, name })
    } else {
        Route::Serve(page_target(Status::NotFound, "html/404.html"))
    }
}

impl Route {
    /// Settles the route, given whether the file it asks about is a regular
    /// file. A route that asks nothing is its own target, whatever
    /// `is_file` says.
    pub fn settle(self, is_file: bool) -> (target: Target)
        ensures
            target@ == settled(self@, is_file),
    {
        match self {
            Route::Serve(target) => target,
            Route::IfFile(file) => if is_file {
                Target { status: Status::Success, file, content_type: ContentType::Html }
            } else {
                page_target(Status::NotFound, "html/404.html")
            },
        }
    }
}


} // verus!

//! The handling of one connection, as a chain of decisions.
//!
//! The caller does the reading and writing and reports what it found; each
//! function here answers with the next thing to do. The chain starts with
//! [`received`] and ends with [`Action::Close`] or [`Action::Send`]:
//! nothing is written unless an action says so.

use crate::response::{bare_not_found, render, render_bare_not_found, rendered};
use crate::route::{
    route, route_of, settled, Location, LocationView, Route, RouteView, Target, TargetView,
};
use crate::text::text_of;
use vstd::prelude::*;

verus! {

/// What the handler of a connection does next.
#[derive(Clone, Debug, PartialEq, Eq)]
pub enum Action {
    /// Write nothing and close the connection.
    Close,
    /// Find out whether this file is a regular file and report it to
    /// [`probed`].
    Probe(Location),
    /// Read the file of this target as text and report it to [`loaded`].
    Load(Target),
    /// Write this text, then close the connection.
    Send(String),
}

/// The mathematical value of an [`Action`].
pub enum ActionView {
    Close,
    Probe(LocationView),
    Load(TargetView),
    Send(Seq<char>),
}

impl View for Action {
    type V = ActionView;

    open spec fn view(&self) -> ActionView {
        match self {
            Action::Close => ActionView::Close,
            Action::Probe(file) => ActionView::Probe(file@),
            Action::Load(target) => ActionView::Load(target@),
            Action::Send(text) => ActionView::Send(text@),
        }
    }
}

/// What follows the attempt to read a request line: without a line the
/// connection is closed with nothing written; a line is routed, and its
/// route either asks about a file or names the target to load.
pub open spec fn after_request(line: Option<Seq<char>>) -> ActionView {
    match line {
        None => ActionView::Close,
        Some(line) => match route_of(line) {
            RouteView::Serve(target) => ActionView::Load(target),
            RouteView::IfFile(file) => ActionView::Probe(file),
        },
    }
}

/// What is sent for `target`: with the contents of its file, the full
/// response; without them, the bare not-found response, whatever the
/// target's status.
pub open spec fn response_to(target: TargetView, contents: Option<Seq<char>>) -> Seq<char> {
    match contents {
        Some(body) => rendered(target.status, target.content_type, body),
        None => bare_not_found(),
    }
}

/// Decides what to do once the request line has been read, or has turned out
/// not to be there (`None`: the peer closed the connection, or what it sent
/// is no line of text).
pub fn received(request_line: Option<&str>) -> (action: Action)
    ensures
        action@ == after_request(text_of(request_line)),
        request_line is None <==> action is Close,
{
    match request_line {
        None => Action::Close,
        Some(line) => match route(line) {
            Route::Serve(target) => Action::Load(target),
            Route::IfFile(file) => Action::Probe(file),
        },
    }
}

/// Decides what to load once it is known whether `file` is a regular file:
/// the file itself, as HTML, or the not-found page.
pub fn probed(file: Location, is_file: bool) -> (action: Action)
    ensures
        action@ == ActionView::Load(settled(RouteView::IfFile(file@), is_file)),
{
    Action::Load(Route::IfFile(file).settle(is_file))
}

/// Decides what to send once the file of `target` has been read (`None`: it
/// could not be read as text).
pub fn loaded(target: &Target, contents: Option<&str>) -> (action: Action)
    ensures
        action@ == ActionView::Send(response_to(target@, text_of(contents))),
{
    match contents {
        Some(body) => Action::Send(render(target.status, target.content_type, body)),
        None => Action::Send(render_bare_not_found()),
    }
}

} // verus!

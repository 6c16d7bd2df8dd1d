//! The router: which handler a method and a path lead to.

use vstd::prelude::*;
use crate::request::Method;
use crate::text::{chars_of, find_char, position_of, same_chars, starts_with};

verus! {

/// A route of the service. The three routes that name an entry carry the
/// path segment that stands for its identifier, as it was sent.
#[derive(Clone, Debug, PartialEq, Eq)]
pub enum Route {
    Info,
    HealthCheck,
    DiaryList,
    DiaryCreate,
    DiaryUpdateAlbum(String),
    DiaryUpdateThoughts(String),
    DiaryDelete(String),
}

/// A `Route` as a mathematical value.
pub enum RouteView {
    Info,
    HealthCheck,
    DiaryList,
    DiaryCreate,
    DiaryUpdateAlbum(Seq<char>),
    DiaryUpdateThoughts(Seq<char>),
    DiaryDelete(Seq<char>),
}

impl View for Route {
    type V = RouteView;

    open spec fn view(&self) -> RouteView {
        match *self {
            Route::Info => RouteView::Info,
            Route::HealthCheck => RouteView::HealthCheck,
            Route::DiaryList => RouteView::DiaryList,
            Route::DiaryCreate => RouteView::DiaryCreate,
            Route::DiaryUpdateAlbum(segment) => RouteView::DiaryUpdateAlbum(segment@),
            Route::DiaryUpdateThoughts(segment) => RouteView::DiaryUpdateThoughts(segment@),
            Route::DiaryDelete(segment) => RouteView::DiaryDelete(segment@),
        }
    }
}

impl RouteView {
    /// Whether the route reads or writes diary entries.
    pub open spec fn is_crud(self) -> bool {
        !(self is Info) && !(self is HealthCheck)
    }
}

impl Route {
    /// Whether the route reads or writes diary entries.
    pub fn is_crud(&self) -> (yes: bool)
        ensures
            yes == self@.is_crud(),
    {
        match self {
            Route::Info => false,
            Route::HealthCheck => false,
            _ => true,
        }
    }
}

/// An optional route as a mathematical value.
pub open spec fn route_view(route: Option<Route>) -> Option<RouteView> {
    match route {
        Some(route) => Some(route@),
        None => None,
    }
}

/// The one segment that follows `prefix` in `path`: the rest of the path,
/// where the path begins with the prefix and the rest is neither empty nor
/// split by a further `/`.
pub open spec fn segment_after(path: Seq<char>, prefix: Seq<char>) -> Option<Seq<char>> {
    if prefix.is_prefix_of(path) && prefix.len() < path.len() && position_of(
        path,
        '/',
        prefix.len() as int,
    ) == path.len() {
        Some(path.subrange(prefix.len() as int, path.len() as int))
    } else {
        None
    }
}

/// The route that `method` and `path` lead to, if any.
pub open spec fn route_of(method: Method, path: Seq<char>) -> Option<RouteView> {
    match method {
        Method::Get => if path == "/info"@ {
            Some(RouteView::Info)
        } else if path == "/health_check"@ {
            Some(RouteView::HealthCheck)
        } else if path == "/diary"@ {
            Some(RouteView::DiaryList)
        } else {
            None
        },
        Method::Post => if path == "/diary/new"@ {
            Some(RouteView::DiaryCreate)
        } else {
            None
        },
        Method::Put => match segment_after(path, "/diary/update/album/"@) {
            Some(segment) => Some(RouteView::DiaryUpdateAlbum(segment)),
            None => match segment_after(path, "/diary/update/thoughts/"@) {
                Some(segment) => Some(RouteView::DiaryUpdateThoughts(segment)),
                None => None,
            },
        },
        Method::Delete => match segment_after(path, "/diary/delete/"@) {
            Some(segment) => Some(RouteView::DiaryDelete(segment)),
            None => None,
        },
        Method::Other => None,
    }
}

fn is_path(path: &Vec<char>, exact: &str) -> (yes: bool)
    ensures
        yes == (path@ == exact@),
{
    let wanted = chars_of(exact);
    same_chars(path, &wanted)
}

/// The one segment that follows `prefix` in `path`, where there is one.
/// `chars` holds the characters of `path`.
fn segment(path: &str, chars: &Vec<char>, prefix: &str) -> (found: Option<String>)
    requires
        chars@ == path@,
    ensures
        match found {
            Some(text) => segment_after(path@, prefix@) == Some(text@),
            None => segment_after(path@, prefix@) is None,
        },
{
    let head = chars_of(prefix);
    if !starts_with(chars, &head) || head.len() >= chars.len() {
        return None;
    }
    if find_char(chars, '/', head.len()) != chars.len() {
        return None;
    }
    let rest = path.substring_char(head.len(), chars.len());
    Some(rest.to_owned())
}

/// Finds the route for a request. `None` means that no route matches.
pub fn route(method: Method, path: &str) -> (found: Option<Route>)
    ensures
        route_view(found) == route_of(method, path@),
{
    let chars = chars_of(path);
    match method {
        Method::Get => {
            if is_path(&chars, "/info") {
                Some(Route::Info)
            } else if is_path(&chars, "/health_check") {
                Some(Route::HealthCheck)
            } else if is_path(&chars, "/diary") {
                Some(Route::DiaryList)
            } else {
                None
            }
        },
        Method::Post => {
            if is_path(&chars, "/diary/new") {
                Some(Route::DiaryCreate)
            } else {
                None
            }
        },
        Method::Put => match segment(path, &chars, "/diary/update/album/") {
            Some(text) => Some(Route::DiaryUpdateAlbum(text)),
            None => match segment(path, &chars, "/diary/update/thoughts/") {
                Some(text) => Some(Route::DiaryUpdateThoughts(text)),
                None => None,
            },
        },
        Method::Delete => match segment(path, &chars, "/diary/delete/") {
            Some(text) => Some(Route::DiaryDelete(text)),
            None => None,
        },
        Method::Other => None,
    }
}

} // verus!

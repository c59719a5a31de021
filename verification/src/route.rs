//! Which handler a path reaches.

use vstd::prelude::*;
use vstd::string::*;
use crate::text::same_text;

verus! {

/// The handlers of the HTTP/3 server that have a path.
#[derive(Clone, Copy, Debug, PartialEq, Eq, Structural)]
pub enum Route {
    /// Echoes a small body.
    Small,
    /// Answers a large body with one of the same size.
    Large,
    /// Streams chunks to the client.
    ServerStream,
    /// Counts the chunks of the client.
    ClientStream,
    /// Echoes the chunks of the client as they come.
    Bidi,
}

/// The path of a handler.
pub open spec fn path_of(route: Route) -> Seq<char> {
    match route {
        Route::Small => "/small"@,
        Route::Large => "/large"@,
        Route::ServerStream => "/server-stream"@,
        Route::ClientStream => "/client-stream"@,
        Route::Bidi => "/bidi"@,
    }
}

/// The handler of a path; `None` for a path that no handler has.
pub open spec fn route_of(path: Seq<char>) -> Option<Route> {
    if path == "/small"@ {
        Some(Route::Small)
    } else if path == "/large"@ {
        Some(Route::Large)
    } else if path == "/server-stream"@ {
        Some(Route::ServerStream)
    } else if path == "/client-stream"@ {
        Some(Route::ClientStream)
    } else if path == "/bidi"@ {
        Some(Route::Bidi)
    } else {
        None
    }
}

/// A handler is reached by its own path and by no other.
pub proof fn law_each_route_has_one_path(path: Seq<char>, route: Route)
    ensures
        route_of(path) == Some(route) <==> path == path_of(route),
{
    reveal_strlit("/small");
    reveal_strlit("/large");
    reveal_strlit("/server-stream");
    reveal_strlit("/client-stream");
    reveal_strlit("/bidi");
    assert("/small"@.len() == 6);
    assert("/large"@.len() == 6);
    assert("/small"@[1] == 's');
    assert("/large"@[1] == 'l');
    assert("/server-stream"@.len() == 14);
    assert("/client-stream"@.len() == 14);
    assert("/server-stream"@[1] == 's');
    assert("/client-stream"@[1] == 'c');
    assert("/bidi"@.len() == 5);
}

/// The path of a handler.
pub fn route_path(route: Route) -> (path: &'static str)
    ensures
        path@ == path_of(route),
{
    match route {
        Route::Small => "/small",
        Route::Large => "/large",
        Route::ServerStream => "/server-stream",
        Route::ClientStream => "/client-stream",
        Route::Bidi => "/bidi",
    }
}

/// Finds the handler of a path.
pub fn find_route(path: &str) -> (route: Option<Route>)
    ensures
        route == route_of(path@),
{
    if same_text(path, "/small") {
        Some(Route::Small)
    } else if same_text(path, "/large") {
        Some(Route::Large)
    } else if same_text(path, "/server-stream") {
        Some(Route::ServerStream)
    } else if same_text(path, "/client-stream") {
        Some(Route::ClientStream)
    } else if same_text(path, "/bidi") {
        Some(Route::Bidi)
    } else {
        None
    }
}

} // verus!

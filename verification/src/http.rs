use vstd::prelude::*;
use std::sync::{Arc, Mutex};

use crate::level::{answers, needs_connectivity, Body, Level, Method};
use crate::support::GameState;
use crate::text::same_text;

verus! {

/// std's lock, which the window and the web server share the game through.
#[verifier::external_type_specification]
#[verifier::external_body]
#[verifier::reject_recursive_types(T)]
pub struct ExMutex<T: ?Sized>(Mutex<T>);

/// The game's web server: it answers the browser's requests while the game
/// is played.
pub struct GameServer {
    state: Arc<Mutex<GameState>>,
}

/// Browsers ask every site for an icon; the game has none.
pub open spec fn is_icon_request(path: Seq<char>) -> bool {
    path == "/favicon.ico"@
}

impl GameServer {
    pub closed spec fn shared_state(self) -> Arc<Mutex<GameState>> {
        self.state
    }

    /// A server for the game held in `state`.
    pub fn new(state: Arc<Mutex<GameState>>) -> (s: Self)
        ensures
            s.shared_state() == state,
    {
        GameServer { state }
    }

    /// The game that the server answers for.
    pub fn state(&self) -> (s: &Arc<Mutex<GameState>>)
        ensures
            *s == self.shared_state(),
    {
        &self.state
    }

    /// How the server answers a request for `path` while `level` is played:
    /// the icon is never found; every other request is answered as the
    /// level says (see `Level::handle_request`). The first part of the
    /// result is the level that follows, if the request moves the game on;
    /// the second is what is sent, where nothing means "not found".
    pub fn call<F: FnOnce() -> bool>(level: &Level, method: &Method, path: &str, is_online: F) -> (r: (
        Option<Level>,
        Option<Body>,
    ))
        requires
            !is_icon_request(path@) && needs_connectivity(*level, *method, path@) ==> call_requires(
                is_online,
                (),
            ),
        ensures
            is_icon_request(path@) ==> r.0 is None && r.1 is None,
            !is_icon_request(path@) && needs_connectivity(*level, *method, path@) ==> exists|
                online: bool,
            |
                call_ensures(is_online, (), online) && answers(
                    *level,
                    *method,
                    path@,
                    online,
                    r.0,
                    r.1,
                ),
            !is_icon_request(path@) && !needs_connectivity(*level, *method, path@) ==> answers(
                *level,
                *method,
                path@,
                false,
                r.0,
                r.1,
            ),
            path@ == "/favicon.ico"@ ==> r.0 is None && r.1 is None,
            path@ != "/favicon.ico"@ && needs_connectivity(*level, *method, path@) ==> exists|
                online: bool,
            |
                call_ensures(is_online, (), online) && answers(
                    *level,
                    *method,
                    path@,
                    online,
                    r.0,
                    r.1,
                ),
            path@ != "/favicon.ico"@ && !needs_connectivity(*level, *method, path@) ==> answers(
                *level,
                *method,
                path@,
                false,
                r.0,
                r.1,
            ),
    {
        if same_text(path, "/favicon.ico") {
            (None, None)
        } else {
            level.handle_request(method, path, is_online)
        }
    }
}

/// Only the icon is refused by the server itself: a path is an icon
/// request exactly when it is `/favicon.ico`.
pub proof fn lemma_icon_request_is_only_the_icon(path: Seq<char>)
    ensures
        is_icon_request(path) <==> path == "/favicon.ico"@,
{
}

} // verus!

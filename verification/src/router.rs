use vstd::prelude::*;
use crate::chain::Chain;

verus! {

/// Where the router sends an inbound request: one of the three handled
/// routes, a handled path asked for with the wrong method, or no match at
/// all. The last two fall to the server's default replies.
#[derive(Debug, Clone, Copy, PartialEq, Eq, Structural)]
pub enum Route {
    Root,
    Hints(Chain),
    MethodNotAllowed,
    NotFound,
}

/// The full dispatch table: exactly three paths are known, each only for
/// the GET method.
pub open spec fn spec_route(method: Seq<char>, path: Seq<char>) -> Route {
    if path == "/"@ || path == "/hints/bitcoin"@ || path == "/hints/signet"@ {
        if method == "GET"@ {
            if path == "/"@ {
                Route::Root
            } else if path == "/hints/bitcoin"@ {
                Route::Hints(Chain::Bitcoin)
            } else {
                Route::Hints(Chain::Signet)
            }
        } else {
            Route::MethodNotAllowed
        }
    } else {
        Route::NotFound
    }
}

/// Equality of two string slices, decided character by character.
pub fn str_eq(a: &str, b: &str) -> (r: bool)
    ensures
        r == (a@ == b@),
{
    let a_len = a.unicode_len();
    let b_len = b.unicode_len();
    if a_len != b_len {
        return false;
    }
    let mut i: usize = 0;
    while i < a_len
        invariant
            a_len == a@.len(),
            b_len == b@.len(),
            a_len == b_len,
            i <= a_len,
            forall|j: int| 0 <= j < i ==> a@[j] == b@[j],
        decreases a_len - i,
    {
        if a.get_char(i) != b.get_char(i) {
            return false;
        }
        i += 1;
    }
    proof {
        assert(a@ =~= b@);
    }
    true
}

/// Dispatches a request by method and path, exactly as the dispatch table
/// says. The router holds no state and has no side effect beyond choosing.
pub fn route_request(method: &str, path: &str) -> (r: Route)
    ensures
        r == spec_route(method@, path@),
{
    let is_get = str_eq(method, "GET");
    if str_eq(path, "/") {
        if is_get {
            Route::Root
        } else {
            Route::MethodNotAllowed
        }
    } else if str_eq(path, "/hints/bitcoin") {
        if is_get {
            Route::Hints(Chain::Bitcoin)
        } else {
            Route::MethodNotAllowed
        }
    } else if str_eq(path, "/hints/signet") {
        if is_get {
            Route::Hints(Chain::Signet)
        } else {
            Route::MethodNotAllowed
        }
    } else {
        Route::NotFound
    }
}

} // verus!

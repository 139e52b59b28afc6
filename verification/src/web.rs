//! The routing decision of a tiny web server: which page a request line
//! asks for, and the status line that answers it. Reading the request and
//! writing the response are the host program's business.

use vstd::prelude::*;
use vstd::string::*;

verus! {

/// Character-for-character equality of two strings.
pub fn eq_str(a: &str, b: &str) -> (r: bool)
    ensures
        r == (a@ == b@),
{
    let la = a.unicode_len();
    let lb = b.unicode_len();
    if la != lb {
        return false;
    }
    let mut i: usize = 0;
    while i < la && a.get_char(i) == b.get_char(i)
        invariant
            i <= la,
            la == a@.len(),
            la == b@.len(),
            forall|k: int| 0 <= k < i ==> a@[k] == b@[k],
        decreases la - i,
    {
        i += 1;
    }
    if i == la {
        proof {
            assert(a@ =~= b@);
        }
        true
    } else {
        false
    }
}

/// What a request line asks for.
#[derive(Clone, Copy, PartialEq, Eq, Structural, Debug)]
pub enum Route {
    /// The front page.
    Hello,
    /// The front page, after a deliberate delay.
    SleepThenHello,
    /// Anything else.
    NotFound,
}

/// Maps the request line to the page it asks for: the front page, the
/// slow front page, or nothing known.
pub fn route(request_line: &str) -> (r: Route)
    ensures
        request_line@ == "GET / HTTP/1.1"@ ==> r is Hello,
        request_line@ == "GET /sleep HTTP/1.1"@ ==> r is SleepThenHello,
        request_line@ != "GET / HTTP/1.1"@ && request_line@ != "GET /sleep HTTP/1.1"@ ==> r
            is NotFound,
{
    proof {
        reveal_strlit("GET / HTTP/1.1");
        reveal_strlit("GET /sleep HTTP/1.1");
        assert("GET / HTTP/1.1"@.len() == 14);
        assert("GET /sleep HTTP/1.1"@.len() == 19);
        assert("GET / HTTP/1.1"@ != "GET /sleep HTTP/1.1"@);
    }
    if eq_str(request_line, "GET / HTTP/1.1") {
        Route::Hello
    } else if eq_str(request_line, "GET /sleep HTTP/1.1") {
        Route::SleepThenHello
    } else {
        Route::NotFound
    }
}

/// The status line that answers a route: success for the pages that
/// exist, not found for the rest.
pub fn status_line(r: &Route) -> (s: &'static str)
    ensures
        (*r is Hello || *r is SleepThenHello) ==> s@ == "HTTP/1.1 200 OK"@,
        *r is NotFound ==> s@ == "HTTP/1.1 404 NOT FOUND"@,
{
    match r {
        Route::NotFound => "HTTP/1.1 404 NOT FOUND",
        _ => "HTTP/1.1 200 OK",
    }
}

} // verus!

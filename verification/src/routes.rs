//! The routing surface of the page shell: exactly one route, the root
//! path, mapped to the home page; every other path yields the not-found
//! error view.

use vstd::prelude::*;

verus! {

/// The view a path resolves to.
pub enum Page {
    Home,
    NotFound,
}

/// The root path: the empty path or the single slash.
pub open spec fn is_root_path(p: Seq<char>) -> bool {
    p.len() == 0 || p == seq!['/']
}

/// Resolves a request path: the root path renders the home page, any
/// other path the not-found error view.
pub fn route_view(path: &str) -> (r: Page)
    ensures
        (r is Home) <==> is_root_path(path@),
{
    let n = path.unicode_len();
    if n == 0 {
        Page::Home
    } else if n == 1 && path.get_char(0) == '/' {
        proof {
            assert(path@ =~= seq!['/']);
        }
        Page::Home
    } else {
        proof {
            if path@ == seq!['/'] {
                assert(path@.len() == 1 && path@[0] == '/');
            }
        }
        Page::NotFound
    }
}

} // verus!

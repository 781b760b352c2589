//! The pages of the site and the paths that lead to them.
//!
//! Two paths are routed: `/` is the home page, and `/products/` followed by
//! a signed decimal `i32` is the detail page of that product. Every other
//! path has no route; what a host does with such a path is its own affair.

use vstd::prelude::*;
use vstd::slice::slice_subrange;

use crate::decimal::{i32_of, i32_text_reads_back, parse_i32_chars, push_i32, text_of};
use crate::text::{chars_of, starts_with};

verus! {

/// A page of the site, with what it needs to be shown.
#[derive(Debug, Clone, Copy, PartialEq, Eq, Structural)]
pub enum Route {
    /// The detail page of the product with this identifier.
    ProductDetail(i32),
    /// The home page.
    HomePage,
}

/// The path of the home page.
pub const HOME_PATH: &'static str = "/";

/// Product detail pages live below this path.
pub const PRODUCT_PATH_PREFIX: &'static str = "/products/";

/// The page that `path` leads to, if it leads anywhere.
pub open spec fn route_of(path: Seq<char>) -> Option<Route> {
    if path == HOME_PATH@ {
        Some(Route::HomePage)
    } else if PRODUCT_PATH_PREFIX@.is_prefix_of(path) {
        match i32_of(path.skip(PRODUCT_PATH_PREFIX@.len() as int)) {
            Some(id) => Some(Route::ProductDetail(id)),
            None => None,
        }
    } else {
        None
    }
}

/// The path that leads to `route`: the identifier of a product is written
/// in decimal, with a `-` in front if it is negative.
pub open spec fn path_of(route: Route) -> Seq<char> {
    match route {
        Route::HomePage => HOME_PATH@,
        Route::ProductDetail(id) => PRODUCT_PATH_PREFIX@ + text_of(id as int),
    }
}

/// The path of every route leads back to that route.
pub proof fn path_leads_back(route: Route)
    ensures
        route_of(path_of(route)) == Some(route),
{
    match route {
        Route::HomePage => {},
        Route::ProductDetail(id) => {
            reveal_strlit("/");
            reveal_strlit("/products/");
            let prefix = PRODUCT_PATH_PREFIX@;
            let path = path_of(route);
            assert(path.len() >= prefix.len());
            assert(path.subrange(0, prefix.len() as int) =~= prefix);
            assert(path.skip(prefix.len() as int) =~= text_of(id as int));
            i32_text_reads_back(id);
        },
    }
}

impl Route {
    /// Writes the path that leads to this page.
    pub fn to_path(&self) -> (path: String)
        ensures
            path@ == path_of(*self),
    {
        match self {
            Route::HomePage => String::from_str(HOME_PATH),
            Route::ProductDetail(id) => {
                let mut path = String::from_str(PRODUCT_PATH_PREFIX);
                push_i32(&mut path, *id);
                path
            },
        }
    }

    /// Finds the page that `path` leads to.
    pub fn from_path(path: &str) -> (route: Option<Route>)
        ensures
            route == route_of(path@),
    {
        let chars = chars_of(path);
        let home = chars_of(HOME_PATH);
        let prefix = chars_of(PRODUCT_PATH_PREFIX);
        if chars.len() == home.len() && starts_with(chars.as_slice(), home.as_slice()) {
            assert(path@ =~= HOME_PATH@);
            Some(Route::HomePage)
        } else if starts_with(chars.as_slice(), prefix.as_slice()) {
            let rest = slice_subrange(chars.as_slice(), prefix.len(), chars.len());
            match parse_i32_chars(rest) {
                Some(id) => Some(Route::ProductDetail(id)),
                None => None,
            }
        } else {
            None
        }
    }
}

} // verus!

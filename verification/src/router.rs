//! The fixed route table: a method and a path pick one of seven handlers, in a
//! set priority order, with the text after a matched prefix handed on.

use vstd::prelude::*;
use crate::ascii::bytes_eq;
use crate::ascii::copy_range;
use crate::ascii::echo_prefix;
use crate::ascii::files_prefix;
use crate::ascii::has_prefix;
use crate::ascii::lit_echo_prefix;
use crate::ascii::lit_files_prefix;
use crate::ascii::lit_method_get;
use crate::ascii::lit_method_post;
use crate::ascii::lit_root_path;
use crate::ascii::lit_user_agent_path;
use crate::ascii::method_get;
use crate::ascii::method_post;
use crate::ascii::root_path;
use crate::ascii::starts_with;
use crate::ascii::user_agent_path;

verus! {

/// Where a request goes: the file routes carry the name after `/files/`, the
/// echo route carries the text after `/echo/`.
pub enum Route {
    FileGet(Vec<u8>),
    UserAgent,
    Echo(Vec<u8>),
    Root,
    NotFound,
    FilePost(Vec<u8>),
    MethodNotAllowed,
}

/// The mathematical shape of a route.
pub enum RouteModel {
    FileGet(Seq<u8>),
    UserAgent,
    Echo(Seq<u8>),
    Root,
    NotFound,
    FilePost(Seq<u8>),
    MethodNotAllowed,
}

impl View for Route {
    type V = RouteModel;

    open spec fn view(&self) -> RouteModel {
        match self {
            Route::FileGet(name) => RouteModel::FileGet(name@),
            Route::UserAgent => RouteModel::UserAgent,
            Route::Echo(text) => RouteModel::Echo(text@),
            Route::Root => RouteModel::Root,
            Route::NotFound => RouteModel::NotFound,
            Route::FilePost(name) => RouteModel::FilePost(name@),
            Route::MethodNotAllowed => RouteModel::MethodNotAllowed,
        }
    }
}

/// The route table, in its priority order. GET serves files, the user-agent
/// page, echo, and the root, in that order, and everything else is not found;
/// POST stores files and nothing else; any other method is not allowed.
pub open spec fn route_of(method: Seq<u8>, path: Seq<u8>) -> RouteModel {
    if method == method_get() {
        if starts_with(path, files_prefix()) {
            RouteModel::FileGet(path.skip(files_prefix().len() as int))
        } else if path == user_agent_path() {
            RouteModel::UserAgent
        } else if starts_with(path, echo_prefix()) {
            RouteModel::Echo(path.skip(echo_prefix().len() as int))
        } else if path == root_path() {
            RouteModel::Root
        } else {
            RouteModel::NotFound
        }
    } else if method == method_post() {
        if starts_with(path, files_prefix()) {
            RouteModel::FilePost(path.skip(files_prefix().len() as int))
        } else {
            RouteModel::NotFound
        }
    } else {
        RouteModel::MethodNotAllowed
    }
}

/// Picks the route of a parsed method and path.
pub fn route(method: &Vec<u8>, path: &Vec<u8>) -> (r: Route)
    ensures
        r@ == route_of(method@, path@),
{
    let get = lit_method_get();
    let post = lit_method_post();
    let files = lit_files_prefix();
    if bytes_eq(method, &get) {
        let echo = lit_echo_prefix();
        let agent = lit_user_agent_path();
        let root = lit_root_path();
        if has_prefix(path, &files) {
            let name = copy_range(path, 7, path.len());
            proof {
                assert(name@ =~= path@.skip(files_prefix().len() as int));
            }
            Route::FileGet(name)
        } else if bytes_eq(path, &agent) {
            Route::UserAgent
        } else if has_prefix(path, &echo) {
            let text = copy_range(path, 6, path.len());
            proof {
                assert(text@ =~= path@.skip(echo_prefix().len() as int));
            }
            Route::Echo(text)
        } else if bytes_eq(path, &root) {
            Route::Root
        } else {
            Route::NotFound
        }
    } else if bytes_eq(method, &post) {
        if has_prefix(path, &files) {
            let name = copy_range(path, 7, path.len());
            proof {
                assert(name@ =~= path@.skip(files_prefix().len() as int));
            }
            Route::FilePost(name)
        } else {
            Route::NotFound
        }
    } else {
        Route::MethodNotAllowed
    }
}

} // verus!

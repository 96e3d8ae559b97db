//! The route table: the sections of the site and the one path each is served at.

use crate::controllers::{respond, section_response, Response};
use crate::markup::{escaped, is_special, lemma_escaped_plain};
use crate::structured_data::StructuredData;
use crate::views::render;
use vstd::prelude::*;
use vstd::string::StringExecFns;

verus! {

/// A navigable section of the site.
#[derive(Clone, Copy, Debug, PartialEq, Eq, Hash, Structural)]
pub enum Route {
    Home,
    About,
    Contact,
    Experience,
    Projects,
}

impl Route {
    /// The path this section is served at.
    pub open spec fn path_spec(self) -> Seq<char> {
        match self {
            Route::Home => "/"@,
            Route::About => "/about"@,
            Route::Contact => "/contact"@,
            Route::Experience => "/experience"@,
            Route::Projects => "/projects"@,
        }
    }

    /// Every section once, in the order in which the navigation bar lists them.
    pub open spec fn table() -> Seq<Route> {
        seq![Route::Home, Route::About, Route::Experience, Route::Projects, Route::Contact]
    }

    /// The section served at `path`, if there is one.
    pub open spec fn lookup(path: Seq<char>) -> Option<Route> {
        if path == Route::Home.path_spec() {
            Some(Route::Home)
        } else if path == Route::About.path_spec() {
            Some(Route::About)
        } else if path == Route::Experience.path_spec() {
            Some(Route::Experience)
        } else if path == Route::Projects.path_spec() {
            Some(Route::Projects)
        } else if path == Route::Contact.path_spec() {
            Some(Route::Contact)
        } else {
            None
        }
    }

    /// The path this section is served at.
    pub fn path(&self) -> (path: &'static str)
        ensures
            path@ == self.path_spec(),
    {
        match self {
            Route::Home => "/",
            Route::About => "/about",
            Route::Contact => "/contact",
            Route::Experience => "/experience",
            Route::Projects => "/projects",
        }
    }

    /// The route table.
    pub fn all() -> (routes: Vec<Route>)
        ensures
            routes@ == Route::table(),
    {
        let routes = vec![
            Route::Home,
            Route::About,
            Route::Experience,
            Route::Projects,
            Route::Contact,
        ];
        assert(routes@ =~= Route::table());
        routes
    }

    /// Resolves a request path against the table.
    pub fn from_path(path: &str) -> (found: Option<Route>)
        ensures
            found == Route::lookup(path@),
    {
        let wanted = String::from_str(path);
        let routes = Route::all();
        let mut i: usize = 0;
        while i < routes.len()
            invariant
                i <= routes.len(),
                routes@ == Route::table(),
                wanted@ == path@,
                forall|j: int| 0 <= j < i ==> (#[trigger] routes[j]).path_spec() != path@,
            decreases routes.len() - i,
        {
            let candidate = routes[i];
            if String::from_str(candidate.path()) == wanted {
                proof {
                    lemma_lookup_inverts_path(candidate);
                }
                return Some(candidate);
            }
            i = i + 1;
        }
        proof {
            assert(routes[0] == Route::Home);
            assert(routes[1] == Route::About);
            assert(routes[2] == Route::Experience);
            assert(routes[3] == Route::Projects);
            assert(routes[4] == Route::Contact);
        }
        None
    }

    /// Answers a request to read this section: with its content, bare or
    /// inside the complete page, as the kind of request asks.
    pub fn handler(&self, is_htmx: bool, data: &StructuredData) -> (response: Response)
        ensures
            response@ == section_response(*self, is_htmx, data@),
    {
        respond(is_htmx, *self, render(*self), data)
    }
}

/// No two sections share a path.
pub proof fn lemma_path_injective(a: Route, b: Route)
    ensures
        a.path_spec() == b.path_spec() ==> a == b,
{
    reveal_strlit("/");
    reveal_strlit("/about");
    reveal_strlit("/contact");
    reveal_strlit("/experience");
    reveal_strlit("/projects");
    if a != b {
        assert(a.path_spec().len() != b.path_spec().len());
    }
}

/// A path holds no character that markup gives a meaning to, so it enters a
/// page unchanged.
pub proof fn lemma_path_is_plain(route: Route)
    ensures
        escaped(route.path_spec()) == route.path_spec(),
{
    reveal_strlit("/");
    reveal_strlit("/about");
    reveal_strlit("/contact");
    reveal_strlit("/experience");
    reveal_strlit("/projects");
    let path = route.path_spec();
    assert forall|i: int| 0 <= i < path.len() implies !is_special(#[trigger] path[i]) by {}
    lemma_escaped_plain(path);
}

/// Every section stands in the table, and at one position only.
pub proof fn lemma_table_lists_each_route_once(route: Route)
    ensures
        exists|i: int| 0 <= i < Route::table().len() && Route::table()[i] == route,
        forall|i: int, j: int|
            0 <= i < Route::table().len() && 0 <= j < Route::table().len()
                && Route::table()[i] == Route::table()[j] ==> i == j,
{
    let table = Route::table();
    match route {
        Route::Home => assert(table[0] == route),
        Route::About => assert(table[1] == route),
        Route::Experience => assert(table[2] == route),
        Route::Projects => assert(table[3] == route),
        Route::Contact => assert(table[4] == route),
    }
}

/// Looking a section's own path up leads back to that section.
pub proof fn lemma_lookup_inverts_path(route: Route)
    ensures
        Route::lookup(route.path_spec()) == Some(route),
{
    lemma_path_injective(route, Route::Home);
    lemma_path_injective(route, Route::About);
    lemma_path_injective(route, Route::Experience);
    lemma_path_injective(route, Route::Projects);
    lemma_path_injective(route, Route::Contact);
}

/// A lookup finds a section exactly where the path is that section's own.
pub proof fn lemma_lookup_finds_only_own_path(path: Seq<char>, route: Route)
    ensures
        Route::lookup(path) == Some(route) <==> route.path_spec() == path,
{
    if route.path_spec() == path {
        lemma_lookup_inverts_path(route);
    }
}

/// A lookup finds nothing exactly where the path is no section's own.
pub proof fn lemma_lookup_fails_only_on_unknown_path(path: Seq<char>)
    ensures
        Route::lookup(path) is None <==> forall|route: Route| route.path_spec() != path,
{
    if Route::lookup(path) is Some {
        assert((Route::lookup(path)->0).path_spec() == path);
    }
}

} // verus!

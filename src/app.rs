//! The root of the page tree: on each render it resolves the current path and
//! picks the one page to mount inside the layout.

use vstd::prelude::*;

use crate::route::{route_of_path, Route, RouteNotFound, RouteView};

verus! {

/// The page mounted in the layout's child slot.
#[derive(Debug, Clone, PartialEq, Eq)]
pub enum Page {
    /// The front page.
    Index,
    /// The list of articles.
    ArticlesIndex,
    /// One article, with the identifier handed over unchecked.
    Article { id: String },
    /// The fallback for a path that names no route.
    NotFound,
}

/// The mathematical value of a `Page`.
pub enum PageView {
    Index,
    ArticlesIndex,
    Article { id: Seq<char> },
    NotFound,
}

impl View for Page {
    type V = PageView;

    open spec fn view(&self) -> PageView {
        match self {
            Page::Index => PageView::Index,
            Page::ArticlesIndex => PageView::ArticlesIndex,
            Page::Article { id } => PageView::Article { id: id@ },
            Page::NotFound => PageView::NotFound,
        }
    }
}

/// The page for a resolved route, or the fallback where none was found.
pub open spec fn page_for(route: Option<RouteView>) -> PageView {
    match route {
        Some(RouteView::Home) => PageView::Index,
        Some(RouteView::ArticleList) => PageView::ArticlesIndex,
        Some(RouteView::ArticleDetail { id }) => PageView::Article { id },
        None => PageView::NotFound,
    }
}

/// The page for the current path.
pub open spec fn page_for_path(path: Seq<char>) -> PageView {
    page_for(route_of_path(path))
}

/// The root component. It holds no state of its own.
pub struct App {}

/// The messages of the root component. The root sends none itself; a
/// datatype needs a variant, and the one there is asks for a fresh render.
pub enum Msg {
    Refresh,
}

impl App {
    /// The root component, made once when the application starts.
    pub fn create(_props: ()) -> App {
        App {}
    }

    /// Handles a message; the root always asks to be rendered again.
    pub fn update(&mut self, _msg: Msg) -> (r: bool)
        ensures
            r,
    {
        true
    }

    /// Takes new properties; the root has none, so nothing changes.
    pub fn change(&mut self, _props: ()) -> (r: bool)
        ensures
            !r,
    {
        false
    }

    /// The page to mount for a resolved route.
    pub fn select_page(route: Result<Route, RouteNotFound>) -> (page: Page)
        ensures
            page@ == page_for(
                match route {
                    Ok(r) => Some(r@),
                    Err(_) => None,
                },
            ),
    {
        match route {
            Ok(Route::Home) => Page::Index,
            Ok(Route::ArticleList) => Page::ArticlesIndex,
            Ok(Route::ArticleDetail { id }) => Page::Article { id },
            Err(_) => Page::NotFound,
        }
    }

    /// The page to mount for the current path.
    pub fn view(&self, path: &str) -> (page: Page)
        ensures
            page@ == page_for_path(path@),
    {
        App::select_page(Route::parse(path))
    }
}

/// Dispatching is a function of the current path: two renders of the same
/// path select the same page.
pub proof fn lemma_dispatch_idempotent(p: Seq<char>, q: Seq<char>)
    requires
        p == q,
    ensures
        page_for_path(p) == page_for_path(q),
{
}

/// The fallback page is mounted exactly for the paths that name no route, so
/// the layout's child slot is never left empty.
pub proof fn lemma_fallback_exactly_when_unmatched(p: Seq<char>)
    ensures
        (page_for_path(p) == PageView::NotFound) <==> route_of_path(p) is None,
{
}

} // verus!

//! The closed set of navigable locations and its mapping to and from URL paths.

use vstd::prelude::*;

verus! {

/// A navigable location of the site.
#[derive(Debug, Clone, PartialEq, Eq)]
pub enum Route {
    /// `/`
    Home,
    /// `/articles`
    ArticleList,
    /// `/articles/{id}`: `id` is the last path segment, taken verbatim.
    ArticleDetail { id: String },
}

/// The mathematical value of a `Route`.
pub enum RouteView {
    Home,
    ArticleList,
    ArticleDetail { id: Seq<char> },
}

impl View for Route {
    type V = RouteView;

    open spec fn view(&self) -> RouteView {
        match self {
            Route::Home => RouteView::Home,
            Route::ArticleList => RouteView::ArticleList,
            Route::ArticleDetail { id } => RouteView::ArticleDetail { id: id@ },
        }
    }
}

/// The path of the home page.
pub open spec fn home_path() -> Seq<char> {
    seq!['/']
}

/// The path of the article list.
pub open spec fn articles_path() -> Seq<char> {
    seq!['/', 'a', 'r', 't', 'i', 'c', 'l', 'e', 's']
}

/// What precedes the identifier in the path of a single article.
pub open spec fn article_prefix() -> Seq<char> {
    articles_path().push('/')
}

/// A single path segment: it holds no separator.
pub open spec fn is_segment(s: Seq<char>) -> bool {
    !s.contains('/')
}

/// The route that a path names, if any. The two literal paths are tried
/// before the capturing one.
pub open spec fn route_of_path(p: Seq<char>) -> Option<RouteView> {
    if p == home_path() {
        Some(RouteView::Home)
    } else if p == articles_path() {
        Some(RouteView::ArticleList)
    } else if article_prefix().is_prefix_of(p) && is_segment(p.skip(article_prefix().len() as int)) {
        Some(RouteView::ArticleDetail { id: p.skip(article_prefix().len() as int) })
    } else {
        None
    }
}

/// The canonical path of a route.
pub open spec fn path_of_route(r: RouteView) -> Seq<char> {
    match r {
        RouteView::Home => home_path(),
        RouteView::ArticleList => articles_path(),
        RouteView::ArticleDetail { id } => article_prefix() + id,
    }
}

/// The characters of `s`, in order.
fn chars_of(s: &str) -> (v: Vec<char>)
    ensures
        v@ == s@,
{
    let mut v: Vec<char> = Vec::new();
    for c in it: s.chars()
        invariant
            it.seq() == s@,
            v@ == it.seq().take(it.index() as int),
    {
        v.push(c);
    }
    v
}

/// The current path names no route.
#[derive(Debug, Clone, Copy, PartialEq, Eq)]
pub struct RouteNotFound;

/// Whether `s` begins with `pre`.
fn has_prefix(s: &Vec<char>, pre: &Vec<char>) -> (r: bool)
    ensures
        r == pre@.is_prefix_of(s@),
{
    if pre.len() > s.len() {
        return false;
    }
    let mut i: usize = 0;
    while i < pre.len()
        invariant
            i <= pre.len() <= s.len(),
            forall|j: int| 0 <= j < i ==> s@[j] == pre@[j],
        decreases pre.len() - i,
    {
        if s[i] != pre[i] {
            return false;
        }
        i = i + 1;
    }
    assert(pre@ =~= s@.subrange(0, pre@.len() as int));
    true
}

/// Whether `s` holds a path separator at or after position `from`.
fn has_separator_from(s: &Vec<char>, from: usize) -> (r: bool)
    requires
        from <= s.len(),
    ensures
        r == s@.skip(from as int).contains('/'),
{
    let mut i: usize = from;
    while i < s.len()
        invariant
            from <= i <= s.len(),
            forall|j: int| from <= j < i ==> s@[j] != '/',
        decreases s.len() - i,
    {
        if s[i] == '/' {
            assert(s@.skip(from as int)[i - from] == '/');
            return true;
        }
        i = i + 1;
    }
    assert forall|j: int| 0 <= j < s@.skip(from as int).len() implies s@.skip(from as int)[j] != '/' by {
        assert(s@.skip(from as int)[j] == s@[from + j]);
    }
    false
}

impl Route {
    /// The route that `path` names, or `RouteNotFound`.
    pub fn parse(path: &str) -> (r: Result<Route, RouteNotFound>)
        ensures
            match r {
                Ok(route) => route_of_path(path@) == Some(route@),
                Err(_) => route_of_path(path@) is None,
            },
    {
        let p = chars_of(path);
        let home = chars_of("/");
        let list = chars_of("/articles");
        let prefix = chars_of("/articles/");
        proof {
            reveal_strlit("/");
            reveal_strlit("/articles");
            reveal_strlit("/articles/");
            assert(home@ =~= home_path());
            assert(list@ =~= articles_path());
            assert(prefix@ =~= article_prefix());
        }
        if p.len() == home.len() && has_prefix(&p, &home) {
            assert(p@ =~= home_path());
            return Ok(Route::Home);
        }
        if p.len() == list.len() && has_prefix(&p, &list) {
            assert(p@ =~= articles_path());
            return Ok(Route::ArticleList);
        }
        if has_prefix(&p, &prefix) && !has_separator_from(&p, prefix.len()) {
            let id = path.substring_char(prefix.len(), p.len()).to_owned();
            assert(id@ =~= path@.skip(article_prefix().len() as int));
            return Ok(Route::ArticleDetail { id });
        }
        Err(RouteNotFound)
    }

    /// The canonical path of this route.
    pub fn to_path(&self) -> (r: String)
        ensures
            r@ == path_of_route(self@),
    {
        proof {
            reveal_strlit("/");
            reveal_strlit("/articles");
            reveal_strlit("/articles/");
        }
        match self {
            Route::Home => {
                let s = "/".to_owned();
                assert(s@ =~= home_path());
                s
            },
            Route::ArticleList => {
                let s = "/articles".to_owned();
                assert(s@ =~= articles_path());
                s
            },
            Route::ArticleDetail { id } => {
                let s = "/articles/".to_owned().concat(id.as_str());
                assert(s@ =~= article_prefix() + id@);
                s
            },
        }
    }
}

/// Every route whose identifier is a single path segment survives a trip
/// through its path: parsing the canonical path gives the route back.
pub proof fn lemma_round_trip(r: RouteView)
    requires
        r matches RouteView::ArticleDetail { id } ==> is_segment(id),
    ensures
        route_of_path(path_of_route(r)) == Some(r),
{
    let p = path_of_route(r);
    match r {
        RouteView::Home => {},
        RouteView::ArticleList => {
            assert(p.len() != home_path().len());
        },
        RouteView::ArticleDetail { id } => {
            assert(p.len() != home_path().len());
            assert(p.len() != articles_path().len());
            assert(article_prefix() =~= p.subrange(0, article_prefix().len() as int));
            assert(p.skip(article_prefix().len() as int) =~= id);
        },
    }
}

/// A path that names a route is that route's canonical path: no two paths
/// name the same route.
pub proof fn lemma_parsed_path_is_canonical(p: Seq<char>)
    requires
        route_of_path(p) is Some,
    ensures
        path_of_route(route_of_path(p)->0) == p,
{
    if p != home_path() && p != articles_path() {
        assert(p =~= article_prefix() + p.skip(article_prefix().len() as int));
    }
}

} // verus!

use blog_site::app::{App, Msg, Page};
use blog_site::route::{Route, RouteNotFound};

fn detail(id: &str) -> Route {
    Route::ArticleDetail { id: id.to_string() }
}

#[test]
fn parse_root_is_home() {
    assert_eq!(Route::parse("/"), Ok(Route::Home));
}

#[test]
fn parse_articles_is_list() {
    assert_eq!(Route::parse("/articles"), Ok(Route::ArticleList));
}

#[test]
fn parse_article_with_id() {
    assert_eq!(Route::parse("/articles/42"), Ok(detail("42")));
}

#[test]
fn parse_empty_id_segment_is_detail() {
    assert_eq!(Route::parse("/articles/"), Ok(detail("")));
}

#[test]
fn parse_id_is_taken_verbatim() {
    assert_eq!(Route::parse("/articles/not-a-number"), Ok(detail("not-a-number")));
    assert_eq!(Route::parse("/articles/h\u{e9}llo"), Ok(detail("h\u{e9}llo")));
}

#[test]
fn parse_unknown_path_is_not_found() {
    assert_eq!(Route::parse("/nonexistent"), Err(RouteNotFound));
    assert_eq!(Route::parse("/nonexistent"), Route::parse("/nonexistent"));
}

#[test]
fn parse_rejects_extra_segments() {
    assert_eq!(Route::parse("/articles/1/2"), Err(RouteNotFound));
    assert_eq!(Route::parse("/articles/42/"), Err(RouteNotFound));
}

#[test]
fn parse_rejects_near_misses() {
    assert_eq!(Route::parse(""), Err(RouteNotFound));
    assert_eq!(Route::parse("//"), Err(RouteNotFound));
    assert_eq!(Route::parse("/article"), Err(RouteNotFound));
    assert_eq!(Route::parse("/articlesx"), Err(RouteNotFound));
    assert_eq!(Route::parse("articles"), Err(RouteNotFound));
    assert_eq!(Route::parse("/Articles"), Err(RouteNotFound));
}

#[test]
fn to_path_gives_canonical_paths() {
    assert_eq!(Route::Home.to_path(), "/");
    assert_eq!(Route::ArticleList.to_path(), "/articles");
    assert_eq!(detail("42").to_path(), "/articles/42");
    assert_eq!(detail("").to_path(), "/articles/");
}

#[test]
fn round_trip_through_path() {
    let routes = vec![
        Route::Home,
        Route::ArticleList,
        detail("42"),
        detail(""),
        detail("h\u{e9}llo-world"),
    ];
    for r in routes {
        assert_eq!(Route::parse(&r.to_path()), Ok(r.clone()));
    }
}

#[test]
fn parsed_path_is_canonical() {
    for p in ["/", "/articles", "/articles/7", "/articles/"] {
        let r = Route::parse(p).unwrap();
        assert_eq!(r.to_path(), p);
    }
}

#[test]
fn view_selects_page_for_each_route() {
    let app = App::create(());
    assert_eq!(app.view("/"), Page::Index);
    assert_eq!(app.view("/articles"), Page::ArticlesIndex);
    assert_eq!(app.view("/articles/42"), Page::Article { id: "42".to_string() });
}

#[test]
fn view_falls_back_to_not_found() {
    let app = App::create(());
    assert_eq!(app.view("/nonexistent"), Page::NotFound);
    assert_eq!(app.view("/articles/1/2"), Page::NotFound);
    assert_eq!(app.view(""), Page::NotFound);
}

#[test]
fn view_is_idempotent() {
    let app = App::create(());
    for p in ["/", "/articles", "/articles/42", "/nonexistent"] {
        assert_eq!(app.view(p), app.view(p));
    }
    assert_eq!(app.view("/nonexistent"), App::create(()).view("/nonexistent"));
}

#[test]
fn select_page_maps_routes_and_fallback() {
    assert_eq!(App::select_page(Ok(Route::Home)), Page::Index);
    assert_eq!(App::select_page(Ok(Route::ArticleList)), Page::ArticlesIndex);
    assert_eq!(App::select_page(Ok(detail("9"))), Page::Article { id: "9".to_string() });
    assert_eq!(App::select_page(Err(RouteNotFound)), Page::NotFound);
}

#[test]
fn update_renders_and_change_does_not() {
    let mut app = App::create(());
    assert!(app.update(Msg::Refresh));
    assert!(!app.change(()));
}

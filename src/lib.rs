//! Client-side routing for a small blog front end: the route model (a URL
//! path to a route and back) and the root dispatcher that picks the page to
//! mount inside the site layout.

pub mod route;
pub mod app;

//! Conversion of Gateway-style HTTP route rules into a canonical route model.
//!
//! Routes arrive in one of two schemas (the Gateway API's own and a vendor
//! mirror of it); both are read through [`resource::HttpRouteResource`], and
//! their matches and filters are converted by [`matchers`] and [`filters`]
//! into the types of [`routes`].

pub mod filters;
pub mod gateway;
pub mod matchers;
pub mod resource;
pub mod routes;
pub mod tokens;

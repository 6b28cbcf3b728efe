//! A paginated repository-search fetcher.
//!
//! Given a search string and an authentication token, the fetcher pages
//! through a search endpoint and accumulates the full names of every
//! matching repository, in the order the server returns them.
//!
//! The fetcher itself never touches the network. One fetch step is split
//! in two: [`fetcher::FetchState::next_request`] decides, by the guard
//! `page * per_page >= total`, whether another page is owed, advances the
//! page counter and assembles the request; the caller issues it however
//! it likes and reports back with [`fetcher::FetchState::apply_outcome`],
//! which turns the raw outcome into accumulated items or into the one
//! error the run fails with, rolling a failed attempt back so the whole
//! step leaves the state exactly as it was. A driving loop around those
//! two calls — and the HTTP client under it — stays outside the library.

pub mod config;
pub mod decimal;
pub mod encode;
pub mod error;
pub mod fetcher;
pub mod laws;
pub mod output;
pub mod request;

use vstd::prelude::*;

use crate::decimal::{dec_digits, u32_to_decimal};
use crate::encode::{url_encode, url_encode_str};

verus! {

/// The search endpoint with every query parameter filled in: the search
/// string URL-encoded, then the 1-based page number and the page size in
/// decimal.
pub open spec fn url_spec(search: Seq<char>, page: int, per_page: int) -> Seq<char> {
    "https://api.github.com/search/repositories?q="@ + url_encode(search) + "&page="@ + dec_digits(
        page,
    ) + "&per_page="@ + dec_digits(per_page)
}

/// Builds the request URL for one page of a search.
pub fn build_url(search: &str, page: u32, per_page: u32) -> (r: String)
    ensures
        r@ == url_spec(search@, page as int, per_page as int),
{
    let mut r = "https://api.github.com/search/repositories?q=".to_owned();
    let encoded = url_encode_str(search);
    r.append(encoded.as_str());
    r.append("&page=");
    let page_digits = u32_to_decimal(page);
    r.append(page_digits.as_str());
    r.append("&per_page=");
    let per_page_digits = u32_to_decimal(per_page);
    r.append(per_page_digits.as_str());
    proof {
        assert(r@ =~= url_spec(search@, page as int, per_page as int));
    }
    r
}

/// The `authorization` header value: the word `bearer`, a space, and the
/// token as given.
pub fn bearer_value(token: &str) -> (r: String)
    ensures
        r@ == "bearer "@ + token@,
{
    let mut r = "bearer ".to_owned();
    r.append(token);
    r
}

/// The media type named in the `accept` header.
pub fn accept_value() -> (r: &'static str)
    ensures
        r@ == "application/vnd.github+json"@,
{
    "application/vnd.github+json"
}

/// The name of the API-version header.
pub fn api_version_name() -> (r: &'static str)
    ensures
        r@ == "x-github-api-version"@,
{
    "x-github-api-version"
}

/// The fixed value of the API-version header.
pub fn api_version_value() -> (r: &'static str)
    ensures
        r@ == "2022-11-28"@,
{
    "2022-11-28"
}

/// The client identifier sent as the user-agent header.
pub fn user_agent_value() -> (r: &'static str)
    ensures
        r@ == "rust"@,
{
    "rust"
}

/// One request of the paged search endpoint, ready to be issued: the page
/// it asks for and the strings the transport needs.
#[derive(Debug, Clone, PartialEq, Eq)]
pub struct PageRequest {
    pub page: u32,
    pub per_page: u32,
    pub url: String,
    pub auth: String,
}

impl PageRequest {
    /// Assembles the request for `page` of the search for `search`.
    pub fn new(search: &str, token: &str, page: u32, per_page: u32) -> (r: PageRequest)
        ensures
            r.page == page,
            r.per_page == per_page,
            r.url@ == url_spec(search@, page as int, per_page as int),
            r.auth@ == "bearer "@ + token@,
    {
        PageRequest {
            page,
            per_page,
            url: build_url(search, page, per_page),
            auth: bearer_value(token),
        }
    }
}

} // verus!

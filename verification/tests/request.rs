use repo_search::decimal::u32_to_decimal;
use repo_search::encode::url_encode_str;
use repo_search::request::{
    accept_value, api_version_name, api_version_value, bearer_value, build_url, user_agent_value,
    PageRequest,
};

#[test]
fn decimal_renders_zero() {
    assert_eq!(u32_to_decimal(0), "0");
}

#[test]
fn decimal_renders_small_numbers() {
    assert_eq!(u32_to_decimal(7), "7");
    assert_eq!(u32_to_decimal(30), "30");
    assert_eq!(u32_to_decimal(100), "100");
}

#[test]
fn decimal_renders_large_numbers() {
    assert_eq!(u32_to_decimal(12345), "12345");
    assert_eq!(u32_to_decimal(u32::MAX), "4294967295");
}

#[test]
fn encoding_passes_unreserved_characters_through() {
    assert_eq!(url_encode_str("AZaz09-._~"), "AZaz09-._~");
}

#[test]
fn encoding_percent_encodes_ascii_punctuation() {
    assert_eq!(url_encode_str("hello world"), "hello%20world");
    assert_eq!(url_encode_str("a+b&c=d"), "a%2Bb%26c%3Dd");
    assert_eq!(url_encode_str("100%"), "100%25");
}

#[test]
fn encoding_percent_encodes_multi_byte_characters() {
    // two, three and four UTF-8 bytes respectively
    assert_eq!(url_encode_str("\u{e9}"), "%C3%A9");
    assert_eq!(url_encode_str("\u{20ac}"), "%E2%82%AC");
    assert_eq!(url_encode_str("\u{1f600}"), "%F0%9F%98%80");
}

#[test]
fn encoding_of_empty_is_empty() {
    assert_eq!(url_encode_str(""), "");
}

#[test]
fn url_embeds_search_page_and_page_size() {
    let url = build_url("rust", 2, 30);
    assert_eq!(
        url,
        "https://api.github.com/search/repositories?q=rust&page=2&per_page=30"
    );
}

#[test]
fn url_encodes_the_search_string() {
    let url = build_url("hello world", 1, 30);
    assert_eq!(
        url,
        "https://api.github.com/search/repositories?q=hello%20world&page=1&per_page=30"
    );
}

#[test]
fn bearer_value_prefixes_the_token() {
    assert_eq!(bearer_value("abc123"), "bearer abc123");
}

#[test]
fn header_constants() {
    assert_eq!(accept_value(), "application/vnd.github+json");
    assert_eq!(api_version_name(), "x-github-api-version");
    assert_eq!(api_version_value(), "2022-11-28");
    assert_eq!(user_agent_value(), "rust");
}

#[test]
fn page_request_carries_everything_the_transport_needs() {
    let req = PageRequest::new("serde", "tok", 3, 30);
    assert_eq!(req.page, 3);
    assert_eq!(req.per_page, 30);
    assert_eq!(
        req.url,
        "https://api.github.com/search/repositories?q=serde&page=3&per_page=30"
    );
    assert_eq!(req.auth, "bearer tok");
}

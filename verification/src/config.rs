use vstd::prelude::*;

use crate::error::{ConfigField, FetchError};

verus! {

/// A configuration input that is set and non-empty.
pub open spec fn spec_present(o: Option<String>) -> bool {
    o matches Some(s) && s@.len() > 0
}

/// The three inputs a run needs: the search string, the authentication
/// token, and the output file path.
#[derive(Debug, Clone)]
pub struct Config {
    pub search_str: String,
    pub token: String,
    pub output_path: String,
}

impl Config {
    /// Validates the three inputs as they come from the process
    /// environment; `None` stands for one that is not set at all.
    ///
    /// An absent or empty input is a configuration error naming the
    /// first offending field, in the order search string, token, output
    /// path, surfaced before any other work.
    pub fn new(search_str: Option<String>, token: Option<String>, output_path: Option<String>) -> (r:
        Result<Config, FetchError>)
        ensures
            !spec_present(search_str) ==> r == Err::<Config, FetchError>(
                FetchError::Configuration(ConfigField::SearchStr),
            ),
            spec_present(search_str) && !spec_present(token) ==> r == Err::<Config, FetchError>(
                FetchError::Configuration(ConfigField::Token),
            ),
            spec_present(search_str) && spec_present(token) && !spec_present(output_path) ==> r
                == Err::<Config, FetchError>(FetchError::Configuration(ConfigField::OutputPath)),
            spec_present(search_str) && spec_present(token) && spec_present(output_path) ==> ({
                &&& r matches Ok(c)
                &&& c.search_str == search_str->0
                &&& c.token == token->0
                &&& c.output_path == output_path->0
            }),
    {
        let search = match search_str {
            Some(s) => s,
            None => {
                return Err(FetchError::Configuration(ConfigField::SearchStr));
            },
        };
        if search.as_str().is_empty() {
            return Err(FetchError::Configuration(ConfigField::SearchStr));
        }
        let tok = match token {
            Some(s) => s,
            None => {
                return Err(FetchError::Configuration(ConfigField::Token));
            },
        };
        if tok.as_str().is_empty() {
            return Err(FetchError::Configuration(ConfigField::Token));
        }
        let path = match output_path {
            Some(s) => s,
            None => {
                return Err(FetchError::Configuration(ConfigField::OutputPath));
            },
        };
        if path.as_str().is_empty() {
            return Err(FetchError::Configuration(ConfigField::OutputPath));
        }
        Ok(Config { search_str: search, token: tok, output_path: path })
    }
}

} // verus!

//! The top of the configuration tree handed to the engine at startup.
use vstd::prelude::*;

use crate::http;

verus! {

/// A validated configuration: the HTTP section, when one is present.
pub struct Configuration {
    pub http: Option<http::Http>,
}

} // verus!

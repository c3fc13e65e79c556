//! Responses may have a `_links` object that holds a mapping to other
//! resources.

use vstd::prelude::*;
use std::collections::HashMap;

verus! {

/// A mapping of link names to links, as returned beside a resource.
pub type Links = HashMap<String, Link>;

/// A link to another resource
#[derive(Debug, Clone, PartialEq, Eq)]
pub struct Link {
    /// The link URL
    pub href: String,
}

} // verus!

//! The query that a search request carries.

use vstd::prelude::*;

verus! {

/// A user's search criteria. It may hold the criteria as a fragment of the
/// Elasticsearch query language, a JSON document that this library does not open.
#[derive(Debug)]
pub struct ZDBQuery {
    query_dsl: Option<serde_json::Value>,
}

impl View for ZDBQuery {
    type V = Option<serde_json::Value>;

    /// The query-language fragment, if the query holds one.
    closed spec fn view(&self) -> Option<serde_json::Value> {
        self.query_dsl
    }
}

impl ZDBQuery {
    /// A query whose criteria are the given query-language fragment.
    pub fn new_with_query_dsl(query_dsl: serde_json::Value) -> (query: Self)
        ensures
            query@ == Some(query_dsl),
    {
        ZDBQuery { query_dsl: Some(query_dsl) }
    }

    /// The query-language fragment, or `None` if the query holds none.
    pub fn query_dsl(&self) -> (dsl: Option<&serde_json::Value>)
        ensures
            dsl == match self@ {
                Some(fragment) => Some(&fragment),
                None => None,
            },
    {
        self.query_dsl.as_ref()
    }
}

impl Default for ZDBQuery {
    /// A query that holds no fragment.
    fn default() -> (query: Self)
        ensures
            query@ is None,
    {
        ZDBQuery { query_dsl: None }
    }
}

} // verus!

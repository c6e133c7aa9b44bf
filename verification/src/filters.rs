//! Query filters for the note and tag listings: an optional result
//! limit and an optional tag to filter by.

use vstd::prelude::*;

verus! {

/// What a listing query may restrict: how many rows, and which tag.
#[derive(Debug)]
pub struct QueryFilter {
    pub limit: Option<i64>,
    pub tag_id: Option<i32>,
}

impl Default for QueryFilter {
    /// No restriction at all.
    fn default() -> (r: QueryFilter)
        ensures
            r.limit is None,
            r.tag_id is None,
    {
        QueryFilter { limit: None, tag_id: None }
    }
}

impl QueryFilter {
    /// Start building a filter with no restriction.
    pub fn builder() -> (r: QueryFilterBuilder)
        ensures
            r.limit is None,
            r.tag_id is None,
    {
        QueryFilterBuilder::default()
    }
}

/// Builds a `QueryFilter` step by step.
#[derive(Debug)]
pub struct QueryFilterBuilder {
    pub limit: Option<i64>,
    pub tag_id: Option<i32>,
}

impl Default for QueryFilterBuilder {
    fn default() -> (r: QueryFilterBuilder)
        ensures
            r.limit is None,
            r.tag_id is None,
    {
        QueryFilterBuilder { limit: None, tag_id: None }
    }
}

impl QueryFilterBuilder {
    /// Restrict the number of rows returned.
    pub fn limit(self, l: i64) -> (r: Self)
        ensures
            r.limit == Some(l),
            r.tag_id == self.tag_id,
    {
        let mut b = self;
        b.limit = Some(l);
        b
    }

    /// Restrict the listing to one tag.
    pub fn tag(self, t: i32) -> (r: Self)
        ensures
            r.limit == self.limit,
            r.tag_id == Some(t),
    {
        let mut b = self;
        b.tag_id = Some(t);
        b
    }

    /// Finish the filter.
    pub fn build(self) -> (r: QueryFilter)
        ensures
            r.limit == self.limit,
            r.tag_id == self.tag_id,
    {
        QueryFilter { limit: self.limit, tag_id: self.tag_id }
    }
}

} // verus!

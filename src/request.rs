use vstd::prelude::*;

use crate::filter::Filter;

verus! {

/// A request for rows: an optional filter, an optional row limit and an optional offset.
pub struct Select {
    pub filter: Option<Filter>,
    pub limit: Option<usize>,
    pub offset: Option<usize>,
}

/// Assembles a `Select`: every part starts absent.
pub struct SelectBuilder {
    pub filter: Option<Filter>,
    pub limit: Option<usize>,
    pub offset: Option<usize>,
}

impl Default for SelectBuilder {
    fn default() -> (r: SelectBuilder)
        ensures
            r.filter is None,
            r.limit is None,
            r.offset is None,
    {
        SelectBuilder { filter: None, limit: None, offset: None }
    }
}

impl SelectBuilder {
    pub fn set_filter(self, filter: Filter) -> (r: SelectBuilder)
        ensures
            r == (SelectBuilder { filter: Some(filter), ..self }),
    {
        SelectBuilder { filter: Some(filter), ..self }
    }

    pub fn set_limit(self, limit: usize) -> (r: SelectBuilder)
        ensures
            r == (SelectBuilder { limit: Some(limit), ..self }),
    {
        SelectBuilder { limit: Some(limit), ..self }
    }

    pub fn set_offset(self, offset: usize) -> (r: SelectBuilder)
        ensures
            r == (SelectBuilder { offset: Some(offset), ..self }),
    {
        SelectBuilder { offset: Some(offset), ..self }
    }

    pub fn build(self) -> (r: Select)
        ensures
            r == (Select { filter: self.filter, limit: self.limit, offset: self.offset }),
    {
        Select { filter: self.filter, limit: self.limit, offset: self.offset }
    }
}

impl From<Filter> for Select {
    fn from(filter: Filter) -> Select {
        SelectBuilder::default().set_filter(filter).build()
    }
}

impl vstd::std_specs::convert::FromSpecImpl<Filter> for Select {
    open spec fn obeys_from_spec() -> bool {
        true
    }

    open spec fn from_spec(filter: Filter) -> Select {
        Select { filter: Some(filter), limit: None, offset: None }
    }
}

/// A request for at most one row becomes a request whose limit is one and whose offset is absent.
impl From<SelectOne> for Select {
    fn from(select_one: SelectOne) -> Select {
        let mut b = SelectBuilder::default();
        if let Some(filter) = select_one.filter {
            b = b.set_filter(filter);
        }
        b.set_limit(1).build()
    }
}

impl vstd::std_specs::convert::FromSpecImpl<SelectOne> for Select {
    open spec fn obeys_from_spec() -> bool {
        true
    }

    open spec fn from_spec(select_one: SelectOne) -> Select {
        Select { filter: select_one.filter, limit: Some(1), offset: None }
    }
}

/// Turning a request for one row into a request for rows always sets the limit to one and
/// leaves the offset absent, and keeps the filter.
pub proof fn lemma_select_one_limits_to_one(q: SelectOne)
    ensures
        <Select as vstd::std_specs::convert::FromSpec<SelectOne>>::obeys_from_spec(),
        <Select as vstd::std_specs::convert::FromSpec<SelectOne>>::from_spec(q).limit == Some(1usize),
        <Select as vstd::std_specs::convert::FromSpec<SelectOne>>::from_spec(q).offset is None,
        <Select as vstd::std_specs::convert::FromSpec<SelectOne>>::from_spec(q).filter == q.filter,
{
}

/// A request for the first row that an optional filter admits.
pub struct SelectOne {
    pub filter: Option<Filter>,
}

/// Assembles a `SelectOne`: the filter starts absent.
pub struct SelectOneBuilder {
    pub filter: Option<Filter>,
}

impl Default for SelectOneBuilder {
    fn default() -> (r: SelectOneBuilder)
        ensures
            r.filter is None,
    {
        SelectOneBuilder { filter: None }
    }
}

impl SelectOneBuilder {
    pub fn set_filter(self, filter: Filter) -> (r: SelectOneBuilder)
        ensures
            r.filter == Some(filter),
    {
        SelectOneBuilder { filter: Some(filter) }
    }

    pub fn build(self) -> (r: SelectOne)
        ensures
            r.filter == self.filter,
    {
        SelectOne { filter: self.filter }
    }
}

impl From<Filter> for SelectOne {
    fn from(filter: Filter) -> SelectOne {
        SelectOneBuilder::default().set_filter(filter).build()
    }
}

impl vstd::std_specs::convert::FromSpecImpl<Filter> for SelectOne {
    open spec fn obeys_from_spec() -> bool {
        true
    }

    open spec fn from_spec(filter: Filter) -> SelectOne {
        SelectOne { filter: Some(filter) }
    }
}

/// A request for the number of rows that an optional filter admits.
pub struct Count {
    pub filter: Option<Filter>,
}

/// Assembles a `Count`: the filter starts absent.
pub struct CountBuilder {
    pub filter: Option<Filter>,
}

impl Default for CountBuilder {
    fn default() -> (r: CountBuilder)
        ensures
            r.filter is None,
    {
        CountBuilder { filter: None }
    }
}

impl CountBuilder {
    pub fn set_filter(self, filter: Filter) -> (r: CountBuilder)
        ensures
            r.filter == Some(filter),
    {
        CountBuilder { filter: Some(filter) }
    }

    pub fn build(self) -> (r: Count)
        ensures
            r.filter == self.filter,
    {
        Count { filter: self.filter }
    }
}

impl From<Filter> for Count {
    fn from(filter: Filter) -> Count {
        CountBuilder::default().set_filter(filter).build()
    }
}

impl vstd::std_specs::convert::FromSpecImpl<Filter> for Count {
    open spec fn obeys_from_spec() -> bool {
        true
    }

    open spec fn from_spec(filter: Filter) -> Count {
        Count { filter: Some(filter) }
    }
}

/// A request to delete the rows that an optional filter admits.
pub struct Delete {
    pub filter: Option<Filter>,
}

/// Assembles a `Delete`: the filter starts absent.
pub struct DeleteBuilder {
    pub filter: Option<Filter>,
}

impl Default for DeleteBuilder {
    fn default() -> (r: DeleteBuilder)
        ensures
            r.filter is None,
    {
        DeleteBuilder { filter: None }
    }
}

impl DeleteBuilder {
    pub fn set_filter(self, filter: Filter) -> (r: DeleteBuilder)
        ensures
            r.filter == Some(filter),
    {
        DeleteBuilder { filter: Some(filter) }
    }

    pub fn build(self) -> (r: Delete)
        ensures
            r.filter == self.filter,
    {
        Delete { filter: self.filter }
    }
}

impl From<Filter> for Delete {
    fn from(filter: Filter) -> Delete {
        DeleteBuilder::default().set_filter(filter).build()
    }
}

impl vstd::std_specs::convert::FromSpecImpl<Filter> for Delete {
    open spec fn obeys_from_spec() -> bool {
        true
    }

    open spec fn from_spec(filter: Filter) -> Delete {
        Delete { filter: Some(filter) }
    }
}

} // verus!

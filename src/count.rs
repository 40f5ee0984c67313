use vstd::prelude::*;

verus! {

/// Why the rows that a count query returned give no count.
#[derive(Clone, Debug)]
pub enum CountError {
    /// The query returned these rows instead of exactly one.
    UnexpectedRows(Vec<usize>),
}

/// The count in the rows that a `SELECT COUNT` query returned: there must be exactly one.
pub fn count_result(rows: Vec<usize>) -> (r: Result<usize, CountError>)
    ensures
        rows@.len() == 1 ==> r == Ok::<usize, CountError>(rows@[0]),
        rows@.len() != 1 ==> (r matches Err(CountError::UnexpectedRows(v)) && v@ == rows@),
{
    if rows.len() == 1 {
        Ok(rows[0])
    } else {
        Err(CountError::UnexpectedRows(rows))
    }
}

} // verus!

//! Query results: an immutable table of rows with a shared list of column
//! names, read through borrowed row views and a restartable cursor.

use vstd::prelude::*;
use crate::value::ResultError;
use crate::value::Value;

verus! {

/// `i` is the first position in `columns` that holds `name`.
pub open spec fn is_first_column(columns: Seq<String>, name: Seq<char>, i: int) -> bool {
    &&& 0 <= i < columns.len()
    &&& columns[i]@ == name
    &&& forall|j: int| 0 <= j < i ==> (#[trigger] columns[j])@ != name
}

/// Some column is called `name`.
pub open spec fn has_column(columns: Seq<String>, name: Seq<char>) -> bool {
    exists|i: int| 0 <= i < columns.len() && (#[trigger] columns[i])@ == name
}

/// Every row has one value for each column.
pub open spec fn rows_fit(columns: Seq<String>, rows: Seq<Vec<Value>>) -> bool {
    forall|i: int| 0 <= i < rows.len() ==> (#[trigger] rows[i])@.len() == columns.len()
}

/// What reading position `index` of `values` gives.
pub open spec fn cell(values: Seq<Value>, index: int) -> Result<Value, ResultError> {
    if 0 <= index < values.len() {
        Ok(values[index])
    } else {
        Err(ResultError::ColumnIndexOutOfRange)
    }
}

/// The rows of a completed query.
#[derive(Debug, PartialEq)]
pub struct QueryResult {
    columns: Vec<String>,
    rows: Vec<Vec<Value>>,
}

/// One row of a result, borrowed from it.
#[derive(Debug)]
pub struct Row<'a> {
    columns: &'a Vec<String>,
    values: &'a Vec<Value>,
}

/// A cursor over the rows of a result.
#[derive(Debug)]
pub struct RowIter<'a> {
    result: &'a QueryResult,
    pos: usize,
}

impl QueryResult {
    /// The column names, in column order.
    pub closed spec fn columns(&self) -> Seq<String> {
        self.columns@
    }

    /// The rows, in result order.
    pub closed spec fn rows(&self) -> Seq<Vec<Value>> {
        self.rows@
    }

    /// A result of `rows` under `columns`; `None` unless every row has one
    /// value for each column.
    pub fn new(columns: Vec<String>, rows: Vec<Vec<Value>>) -> (r: Option<QueryResult>)
        ensures
            r is Some <==> rows_fit(columns@, rows@),
            r is Some ==> r->0.columns() == columns@ && r->0.rows() == rows@,
    {
        let mut i: usize = 0;
        while i < rows.len()
            invariant
                i <= rows@.len(),
                forall|j: int| 0 <= j < i ==> (#[trigger] rows@[j])@.len() == columns@.len(),
            decreases rows.len() - i,
        {
            if rows[i].len() != columns.len() {
                return None;
            }
            i += 1;
        }
        Some(QueryResult { columns, rows })
    }

    /// The number of rows.
    pub fn row_count(&self) -> (n: usize)
        ensures
            n == self.rows().len(),
    {
        self.rows.len()
    }

    /// The number of columns.
    pub fn column_count(&self) -> (n: usize)
        ensures
            n == self.columns().len(),
    {
        self.columns.len()
    }

    /// The first position of the column called `name`, if there is one.
    pub fn column_index(&self, name: &str) -> (r: Option<usize>)
        ensures
            match r {
                Some(i) => is_first_column(self.columns(), name@, i as int),
                None => !has_column(self.columns(), name@),
            },
    {
        find_column(&self.columns, name)
    }

    /// The row at `index`, if there is one.
    pub fn row<'a>(&'a self, index: usize) -> (r: Option<Row<'a>>)
        ensures
            r is Some <==> index < self.rows().len(),
            r is Some ==> r->0.values() == self.rows()[index as int]@ && r->0.columns()
                == self.columns(),
    {
        if index < self.rows.len() {
            Some(Row { columns: &self.columns, values: &self.rows[index] })
        } else {
            None
        }
    }

    /// A cursor that stands before the first row.
    pub fn iter<'a>(&'a self) -> (it: RowIter<'a>)
        ensures
            it.result() == *self,
            it.position() == 0,
            it.remaining() == self.rows(),
    {
        let it = RowIter { result: self, pos: 0 };
        proof {
            assert(it.remaining() =~= self.rows());
        }
        it
    }
}

/// The first position in `columns` that holds `name`, if there is one.
pub fn find_column(columns: &Vec<String>, name: &str) -> (r: Option<usize>)
    ensures
        match r {
            Some(i) => is_first_column(columns@, name@, i as int),
            None => !has_column(columns@, name@),
        },
{
    let wanted: String = name.to_owned();
    let mut i: usize = 0;
    while i < columns.len()
        invariant
            i <= columns@.len(),
            wanted@ == name@,
            forall|j: int| 0 <= j < i ==> (#[trigger] columns@[j])@ != name@,
        decreases columns.len() - i,
    {
        if columns[i] == wanted {
            return Some(i);
        }
        i += 1;
    }
    None
}

impl<'a> Row<'a> {
    /// The values of the row, in column order.
    pub closed spec fn values(&self) -> Seq<Value> {
        self.values@
    }

    /// The column names of the result that the row belongs to.
    pub closed spec fn columns(&self) -> Seq<String> {
        self.columns@
    }

    /// The number of values in the row.
    pub fn arity(&self) -> (n: usize)
        ensures
            n == self.values().len(),
    {
        self.values.len()
    }

    /// Lends the value at `index`. A position that the row does not have is
    /// refused with `ColumnIndexOutOfRange`.
    pub fn get(&self, index: usize) -> (r: Result<&'a Value, ResultError>)
        ensures
            match r {
                Ok(v) => Ok(*v),
                Err(e) => Err(e),
            } == cell(self.values(), index as int),
    {
        if index < self.values.len() {
            Ok(&self.values[index])
        } else {
            Err(ResultError::ColumnIndexOutOfRange)
        }
    }

    /// Lends the value under the first column called `name`. A name that no
    /// column has, or whose position the row does not have, is refused with
    /// `ColumnIndexOutOfRange`.
    pub fn get_by_name(&self, name: &str) -> (r: Result<&'a Value, ResultError>)
        ensures
            !has_column(self.columns(), name@) ==> r == Err::<&Value, ResultError>(
                ResultError::ColumnIndexOutOfRange,
            ),
            forall|i: int| #[trigger]
                is_first_column(self.columns(), name@, i) ==> (match r {
                    Ok(v) => Ok(*v),
                    Err(e) => Err(e),
                }) == cell(self.values(), i),
    {
        match find_column(self.columns, name) {
            Some(k) => {
                proof {
                    assert forall|i: int| #[trigger]
                        is_first_column(self.columns(), name@, i) implies i == k by {
                        if i < k {
                            assert(self.columns()[i]@ == name@);
                        } else if k < i {
                            assert(self.columns()[k as int]@ == name@);
                        }
                    }
                }
                self.get(k)
            },
            None => {
                proof {
                    assert forall|i: int| #[trigger]
                        is_first_column(self.columns(), name@, i) implies false by {
                        assert(self.columns()[i]@ == name@);
                    }
                }
                Err(ResultError::ColumnIndexOutOfRange)
            },
        }
    }

    /// Reads the boolean at `index`.
    pub fn get_bool(&self, index: usize) -> (r: Result<bool, ResultError>)
        ensures
            r == (match cell(self.values(), index as int) {
                Ok(Value::Boolean(b)) => Ok::<bool, ResultError>(b),
                Ok(_) => Err(ResultError::ValueTypeMismatch),
                Err(e) => Err(e),
            }),
    {
        match self.get(index) {
            Ok(v) => v.get_bool(),
            Err(e) => Err(e),
        }
    }

    /// Reads the 32-bit integer at `index`.
    pub fn get_i32(&self, index: usize) -> (r: Result<i32, ResultError>)
        ensures
            r == (match cell(self.values(), index as int) {
                Ok(Value::Int(n)) => Ok::<i32, ResultError>(n),
                Ok(_) => Err(ResultError::ValueTypeMismatch),
                Err(e) => Err(e),
            }),
    {
        match self.get(index) {
            Ok(v) => v.get_i32(),
            Err(e) => Err(e),
        }
    }

    /// Reads the 64-bit integer at `index`.
    pub fn get_i64(&self, index: usize) -> (r: Result<i64, ResultError>)
        ensures
            r == (match cell(self.values(), index as int) {
                Ok(Value::BigInt(n)) => Ok::<i64, ResultError>(n),
                Ok(_) => Err(ResultError::ValueTypeMismatch),
                Err(e) => Err(e),
            }),
    {
        match self.get(index) {
            Ok(v) => v.get_i64(),
            Err(e) => Err(e),
        }
    }

    /// Reads the unique identifier at `index`.
    pub fn get_uuid(&self, index: usize) -> (r: Result<u128, ResultError>)
        ensures
            r == (match cell(self.values(), index as int) {
                Ok(Value::Uuid(n)) => Ok::<u128, ResultError>(n),
                Ok(_) => Err(ResultError::ValueTypeMismatch),
                Err(e) => Err(e),
            }),
    {
        match self.get(index) {
            Ok(v) => v.get_uuid(),
            Err(e) => Err(e),
        }
    }

    /// Lends the text at `index`.
    pub fn get_text(&self, index: usize) -> (r: Result<&'a String, ResultError>)
        ensures
            (match r {
                Ok(s) => Ok(*s),
                Err(e) => Err(e),
            }) == (match cell(self.values(), index as int) {
                Ok(Value::Text(s)) => Ok::<String, ResultError>(s),
                Ok(_) => Err(ResultError::ValueTypeMismatch),
                Err(e) => Err(e),
            }),
    {
        if index < self.values.len() {
            match &self.values[index] {
                Value::Text(s) => Ok(s),
                _ => Err(ResultError::ValueTypeMismatch),
            }
        } else {
            Err(ResultError::ColumnIndexOutOfRange)
        }
    }
}

impl<'a> RowIter<'a> {
    /// The result that the cursor walks over.
    pub closed spec fn result(&self) -> QueryResult {
        *self.result
    }

    /// How many rows the cursor has passed.
    pub closed spec fn position(&self) -> nat {
        self.pos as nat
    }

    /// The rows that the cursor has yet to hand out, in order.
    pub open spec fn remaining(&self) -> Seq<Vec<Value>> {
        if self.position() <= self.result().rows().len() {
            self.result().rows().subrange(self.position() as int, self.result().rows().len() as int)
        } else {
            Seq::empty()
        }
    }

    /// Hands out the next row, or `None` past the last one. Past the end the
    /// cursor stays where it is.
    pub fn next(&mut self) -> (r: Option<Row<'a>>)
        ensures
            final(self).result() == old(self).result(),
            r is Some <==> old(self).remaining().len() > 0,
            r is Some ==> r->0.values() == old(self).remaining()[0]@ && r->0.columns() == old(
                self,
            ).result().columns() && final(self).remaining() == old(self).remaining().drop_first(),
            r is None ==> final(self).position() == old(self).position(),
    {
        if self.pos < self.result.rows.len() {
            let row = Row { columns: &self.result.columns, values: &self.result.rows[self.pos] };
            self.pos = self.pos + 1;
            proof {
                assert(self.remaining() =~= old(self).remaining().drop_first());
            }
            Some(row)
        } else {
            None
        }
    }

    /// Puts the cursor back before the first row: every row is to come again.
    pub fn reset(&mut self)
        ensures
            final(self).result() == old(self).result(),
            final(self).position() == 0,
            final(self).remaining() == old(self).result().rows(),
    {
        self.pos = 0;
        proof {
            assert(self.remaining() =~= self.result().rows());
        }
    }
}

/// A cursor that stands before the first row has every row of its result yet
/// to hand out; so two walks from the start go over the same rows.
pub proof fn lemma_walk_from_start(a: RowIter, b: RowIter)
    requires
        a.position() == 0,
        b.position() == 0,
        a.result() == b.result(),
    ensures
        a.remaining() == a.result().rows(),
        a.remaining() == b.remaining(),
{
    assert(a.remaining() =~= a.result().rows());
    assert(b.remaining() =~= b.result().rows());
}

} // verus!

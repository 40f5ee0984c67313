use vstd::prelude::*;

use crate::field::Field;
use crate::schema::Schema;
use crate::sql_type::{LogicalType, is_textual};
use crate::text::{int_text, push_decimal, push_int};

verus! {

/// A comparison between a column and a value.
#[derive(Clone, Copy, PartialEq, Eq, Structural, Debug)]
pub enum Op {
    GreaterThan,
    GreaterEqualThan,
    Equal,
    LowerEqualThan,
    LowerThan,
}

/// A value of one field, in the field's logical type.
#[derive(Clone, Debug)]
pub enum Value {
    I32(i32),
    I64(i64),
    U32(u32),
    U64(u64),
    Str(String),
}

/// A condition on the rows of a table: comparisons on single columns, joined by `AND` and `OR`.
///
/// A leaf names its column by its index in the schema. Only the leaves that a schema
/// admits (see `Schema::admits`) can be compiled against it: the index is one of its
/// columns and the value has the column's logical type.
#[derive(Debug)]
pub enum Filter {
    And(Box<Filter>, Box<Filter>),
    Or(Box<Filter>, Box<Filter>),
    Leaf(usize, Op, Value),
}

/// Why a comparison cannot be built for a schema.
#[derive(Clone, Copy, PartialEq, Eq, Structural, Debug)]
pub enum FilterError {
    /// The schema has no column at that index.
    NoSuchField,
    /// The value is not of the column's logical type.
    ValueTypeMismatch,
}

pub open spec fn op_symbol(op: Op) -> Seq<char> {
    match op {
        Op::GreaterThan => ">"@,
        Op::GreaterEqualThan => ">="@,
        Op::Equal => "="@,
        Op::LowerEqualThan => "<="@,
        Op::LowerThan => "<"@,
    }
}

/// Whether a value has the logical type `t`.
pub open spec fn value_fits(t: LogicalType, v: Value) -> bool {
    match v {
        Value::I32(_) => t == LogicalType::I32,
        Value::I64(_) => t == LogicalType::I64,
        Value::U32(_) => t == LogicalType::U32,
        Value::U64(_) => t == LogicalType::U64,
        Value::Str(_) => t == LogicalType::Str,
    }
}

/// A value as written in SQL text, before any quoting.
pub open spec fn raw_value_text(v: Value) -> Seq<char> {
    match v {
        Value::I32(n) => int_text(n as int),
        Value::I64(n) => int_text(n as int),
        Value::U32(n) => int_text(n as int),
        Value::U64(n) => int_text(n as int),
        Value::Str(s) => s@,
    }
}

/// A value as written in SQL text: between single quotes, unescaped, when `quoted`.
pub open spec fn value_text(v: Value, quoted: bool) -> Seq<char> {
    if quoted {
        "'"@ + raw_value_text(v) + "'"@
    } else {
        raw_value_text(v)
    }
}

/// Whether every leaf of `f` names one of `fields` and carries a value of its logical type.
pub open spec fn admitted_by(fields: Seq<Field>, f: Filter) -> bool
    decreases f,
{
    match f {
        Filter::And(a, b) => admitted_by(fields, *a) && admitted_by(fields, *b),
        Filter::Or(a, b) => admitted_by(fields, *a) && admitted_by(fields, *b),
        Filter::Leaf(i, _, v) => i < fields.len() && value_fits(fields[i as int].logical_type, v),
    }
}

/// The SQL condition that a filter stands for.
///
/// `OR` is followed by two spaces, as in the text that existing consumers compare against.
pub open spec fn condition_text(fields: Seq<Field>, f: Filter) -> Seq<char>
    decreases f,
{
    match f {
        Filter::And(a, b) => "("@ + condition_text(fields, *a) + " AND "@ + condition_text(fields, *b) + ")"@,
        Filter::Or(a, b) => "("@ + condition_text(fields, *a) + " OR  "@ + condition_text(fields, *b) + ")"@,
        Filter::Leaf(i, op, v) => fields[i as int].name@ + " "@ + op_symbol(op) + " "@
            + value_text(v, is_textual(fields[i as int].sql_type)),
    }
}

/// The number of comparisons in a filter.
pub open spec fn leaf_count(f: Filter) -> nat
    decreases f,
{
    match f {
        Filter::And(a, b) => leaf_count(*a) + leaf_count(*b),
        Filter::Or(a, b) => leaf_count(*a) + leaf_count(*b),
        Filter::Leaf(..) => 1,
    }
}

/// The equality on every field of a row, in field order, joined by `AND` nested to the left.
pub open spec fn entity_filter_of(row: Seq<Value>) -> Filter
    decreases row.len(),
{
    if row.len() <= 1 {
        Filter::Leaf(0, Op::Equal, row[0])
    } else {
        Filter::And(
            Box::new(entity_filter_of(row.drop_last())),
            Box::new(Filter::Leaf((row.len() - 1) as usize, Op::Equal, row.last())),
        )
    }
}

/// Whether a row holds one value of the right logical type for each of `fields`.
pub open spec fn row_fits(fields: Seq<Field>, row: Seq<Value>) -> bool {
    &&& row.len() == fields.len()
    &&& forall|i: int| 0 <= i < row.len() ==> value_fits(fields[i].logical_type, #[trigger] row[i])
}

fn op_str(op: Op) -> (r: &'static str)
    ensures
        r@ == op_symbol(op),
{
    match op {
        Op::GreaterThan => ">",
        Op::GreaterEqualThan => ">=",
        Op::Equal => "=",
        Op::LowerEqualThan => "<=",
        Op::LowerThan => "<",
    }
}

impl Value {
    /// A copy of this value.
    pub fn cloned(&self) -> (r: Value)
        ensures
            r == *self,
    {
        match self {
            Value::I32(n) => Value::I32(*n),
            Value::I64(n) => Value::I64(*n),
            Value::U32(n) => Value::U32(*n),
            Value::U64(n) => Value::U64(*n),
            Value::Str(s) => Value::Str(s.clone()),
        }
    }

    /// Whether this value has the logical type `t`.
    pub fn fits(&self, t: LogicalType) -> (r: bool)
        ensures
            r == value_fits(t, *self),
    {
        match self {
            Value::I32(_) => t == LogicalType::I32,
            Value::I64(_) => t == LogicalType::I64,
            Value::U32(_) => t == LogicalType::U32,
            Value::U64(_) => t == LogicalType::U64,
            Value::Str(_) => t == LogicalType::Str,
        }
    }

    /// Appends this value as SQL text to `out`, between single quotes when `quoted`.
    pub fn write_to(&self, out: &mut String, quoted: bool)
        ensures
            final(out)@ == old(out)@ + value_text(*self, quoted),
    {
        if quoted {
            out.append("'");
        }
        match self {
            Value::I32(n) => push_int(out, *n as i64),
            Value::I64(n) => push_int(out, *n),
            Value::U32(n) => push_decimal(out, *n as u128),
            Value::U64(n) => push_decimal(out, *n as u128),
            Value::Str(s) => out.append(s.as_str()),
        }
        if quoted {
            out.append("'");
        }
        assert(final(out)@ =~= old(out)@ + value_text(*self, quoted));
    }
}

fn write_condition(fields: &Vec<Field>, f: &Filter, out: &mut String)
    requires
        admitted_by(fields@, *f),
    ensures
        final(out)@ == old(out)@ + condition_text(fields@, *f),
    decreases f,
{
    match f {
        Filter::And(a, b) => {
            out.append("(");
            write_condition(fields, a, out);
            out.append(" AND ");
            write_condition(fields, b, out);
            out.append(")");
        },
        Filter::Or(a, b) => {
            out.append("(");
            write_condition(fields, a, out);
            out.append(" OR  ");
            write_condition(fields, b, out);
            out.append(")");
        },
        Filter::Leaf(i, op, v) => {
            let field = &fields[*i];
            out.append(field.name.as_str());
            out.append(" ");
            out.append(op_str(*op));
            out.append(" ");
            v.write_to(out, field.sql_type.is_textual());
        },
    }
    assert(final(out)@ =~= old(out)@ + condition_text(fields@, *f));
}

impl Filter {
    /// A copy of this filter.
    pub fn cloned(&self) -> (r: Filter)
        ensures
            r == *self,
        decreases self,
    {
        match self {
            Filter::And(a, b) => Filter::And(Box::new(a.cloned()), Box::new(b.cloned())),
            Filter::Or(a, b) => Filter::Or(Box::new(a.cloned()), Box::new(b.cloned())),
            Filter::Leaf(i, op, v) => Filter::Leaf(*i, *op, v.cloned()),
        }
    }

    /// The comparison of one column of `schema` with a value.
    pub fn leaf(schema: &Schema, field: usize, op: Op, value: Value) -> (r: Result<Filter, FilterError>)
        ensures
            field >= schema.fields@.len() ==> r == Err::<Filter, FilterError>(FilterError::NoSuchField),
            field < schema.fields@.len() && !value_fits(schema.fields@[field as int].logical_type, value)
                ==> r == Err::<Filter, FilterError>(FilterError::ValueTypeMismatch),
            field < schema.fields@.len() && value_fits(schema.fields@[field as int].logical_type, value)
                ==> r == Ok::<Filter, FilterError>(Filter::Leaf(field, op, value)),
    {
        if field >= schema.fields.len() {
            Err(FilterError::NoSuchField)
        } else if !value.fits(schema.fields[field].logical_type) {
            Err(FilterError::ValueTypeMismatch)
        } else {
            Ok(Filter::Leaf(field, op, value))
        }
    }

    /// Both filters hold.
    pub fn and(a: Filter, b: Filter) -> (r: Filter)
        ensures
            r == Filter::And(Box::new(a), Box::new(b)),
    {
        Filter::And(Box::new(a), Box::new(b))
    }

    /// At least one of the filters holds.
    pub fn or(a: Filter, b: Filter) -> (r: Filter)
        ensures
            r == Filter::Or(Box::new(a), Box::new(b)),
    {
        Filter::Or(Box::new(a), Box::new(b))
    }

    /// The SQL condition that this filter stands for, over the columns of `schema`.
    ///
    /// String values are put between single quotes without escaping: a value that holds a
    /// quote gives broken SQL, so this is not for values from untrusted sources.
    pub fn to_condition(&self, schema: &Schema) -> (r: String)
        requires
            schema.admits(*self),
        ensures
            r@ == condition_text(schema.fields@, *self),
    {
        let mut out = String::new();
        write_condition(&schema.fields, self, &mut out);
        assert(out@ =~= condition_text(schema.fields@, *self));
        out
    }
}

/// Compiling a conjunction or a disjunction wraps the compiled operands, in order, in
/// parentheses around the connective.
pub proof fn lemma_condition_compositional(fields: Seq<Field>, a: Filter, b: Filter)
    ensures
        condition_text(fields, Filter::And(Box::new(a), Box::new(b)))
            == "("@ + condition_text(fields, a) + " AND "@ + condition_text(fields, b) + ")"@,
        condition_text(fields, Filter::Or(Box::new(a), Box::new(b)))
            == "("@ + condition_text(fields, a) + " OR  "@ + condition_text(fields, b) + ")"@,
{
}

/// The filter of a row of two or more values has one comparison per value, and is
/// an `AND` whose right operand is the equality on the last field.
pub proof fn lemma_entity_filter_shape(row: Seq<Value>)
    requires
        2 <= row.len() <= usize::MAX,
    ensures
        leaf_count(entity_filter_of(row)) == row.len(),
        entity_filter_of(row) matches Filter::And(_, r)
            && *r == Filter::Leaf((row.len() - 1) as usize, Op::Equal, row.last()),
    decreases row.len(),
{
    let prev = entity_filter_of(row.drop_last());
    let last = Filter::Leaf((row.len() - 1) as usize, Op::Equal, row.last());
    assert(entity_filter_of(row) == Filter::And(Box::new(prev), Box::new(last)));
    if row.len() > 2 {
        lemma_entity_filter_shape(row.drop_last());
    } else {
        assert(leaf_count(prev) == 1);
    }
    assert(leaf_count(Filter::And(Box::new(prev), Box::new(last))) == leaf_count(prev) + leaf_count(last));
}

impl Schema {
    /// Whether every leaf of `f` names a column of this schema and carries a value of its logical type.
    pub open spec fn admits(&self, f: Filter) -> bool {
        admitted_by(self.fields@, f)
    }

    /// Checks that every leaf of `f` names a column of this schema with a value of its logical type.
    pub fn accepts(&self, f: &Filter) -> (r: bool)
        ensures
            r == self.admits(*f),
        decreases f,
    {
        match f {
            Filter::And(a, b) => self.accepts(a) && self.accepts(b),
            Filter::Or(a, b) => self.accepts(a) && self.accepts(b),
            Filter::Leaf(i, _, v) => *i < self.fields.len() && v.fits(self.fields[*i].logical_type),
        }
    }

    /// Checks that `row` holds one value of the right logical type for each column.
    pub fn fits_row(&self, row: &Vec<Value>) -> (r: bool)
        ensures
            r == row_fits(self.fields@, row@),
    {
        if row.len() != self.fields.len() {
            return false;
        }
        let mut i: usize = 0;
        while i < row.len()
            invariant
                i <= row.len(),
                row.len() == self.fields@.len(),
                forall|k: int| 0 <= k < i ==> value_fits(self.fields@[k].logical_type, #[trigger] row@[k]),
            decreases row.len() - i,
        {
            if !row[i].fits(self.fields[i].logical_type) {
                return false;
            }
            i = i + 1;
        }
        true
    }

    /// The filter that holds of exactly the rows equal to `row`: an equality on each column,
    /// in column order, joined by `AND` nested to the left.
    pub fn entity_filter(&self, row: &Vec<Value>) -> (r: Filter)
        requires
            self.wf(),
            row_fits(self.fields@, row@),
        ensures
            r == entity_filter_of(row@),
            self.admits(r),
    {
        let mut acc = Filter::Leaf(0, Op::Equal, row[0].cloned());
        assert(row@.subrange(0, 1).len() == 1);
        let mut i: usize = 1;
        while i < row.len()
            invariant
                1 <= i <= row.len(),
                row_fits(self.fields@, row@),
                acc == entity_filter_of(row@.subrange(0, i as int)),
                admitted_by(self.fields@, acc),
            decreases row.len() - i,
        {
            assert(row@.subrange(0, i + 1).drop_last() =~= row@.subrange(0, i as int));
            assert(value_fits(self.fields@[i as int].logical_type, row@[i as int]));
            let leaf = Filter::Leaf(i, Op::Equal, row[i].cloned());
            assert(admitted_by(self.fields@, leaf));
            acc = Filter::And(Box::new(acc), Box::new(leaf));
            i = i + 1;
        }
        assert(row@.subrange(0, i as int) =~= row@);
        acc
    }
}

} // verus!

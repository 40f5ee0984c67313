use vstd::prelude::*;

use crate::field::Field;
use crate::filter::{Filter, condition_text};
use crate::request::{Count, CountBuilder, Delete, DeleteBuilder, Select, SelectBuilder};
use crate::schema::Schema;
use crate::sql_type::sql_type_text;
use crate::text::{collect_join, collect_join_str, decimal, join, lemma_views_push, push_decimal, str_views, views};

verus! {

/// The names of the columns, in order.
pub open spec fn column_names(fields: Seq<Field>) -> Seq<Seq<char>> {
    Seq::new(fields.len(), |i: int| fields[i].name@)
}

/// The positional parameter `?k`.
pub open spec fn placeholder(k: nat) -> Seq<char> {
    "?"@ + decimal(k)
}

/// `name = ?k`.
pub open spec fn assignment(name: Seq<char>, k: nat) -> Seq<char> {
    name + " = ?"@ + decimal(k)
}

/// The parts that are not empty, in order.
pub open spec fn non_empty(parts: Seq<Seq<char>>) -> Seq<Seq<char>>
    decreases parts.len(),
{
    if parts.len() == 0 {
        Seq::empty()
    } else {
        let p = non_empty(parts.drop_last());
        if parts.last().len() > 0 { p.push(parts.last()) } else { p }
    }
}

/// The constraints of a column, in their fixed order: the primary key, else the
/// nullability when it is set; then uniqueness.
pub open spec fn constraint_tokens(f: Field) -> Seq<Seq<char>> {
    (if f.primary_key {
        seq!["NOT NULL PRIMARY KEY"@]
    } else {
        match f.nullable {
            Some(true) => seq!["NULL"@],
            Some(false) => seq!["NOT NULL"@],
            None => Seq::empty(),
        }
    }) + (if f.unique { seq!["UNIQUE"@] } else { Seq::empty() })
}

/// The definition of one column in `CREATE TABLE`: name, type and constraints, space separated.
pub open spec fn column_def(f: Field) -> Seq<char> {
    join(non_empty(seq![f.name@, sql_type_text(f.sql_type)] + constraint_tokens(f)), " "@)
}

pub open spec fn create_table_text(s: Schema) -> Seq<char> {
    "CREATE TABLE IF NOT EXISTS "@ + s.table_name@ + " ( "@
        + join(Seq::new(s.fields@.len(), |i: int| column_def(s.fields@[i])), ", "@) + " )"@
}

pub open spec fn delete_table_text(s: Schema) -> Seq<char> {
    "DROP TABLE "@ + s.table_name@
}

pub open spec fn insert_text(s: Schema) -> Seq<char> {
    "INSERT INTO "@ + s.table_name@ + " ("@ + join(column_names(s.fields@), ", "@) + ") VALUES ("@
        + join(Seq::new(s.fields@.len(), |i: int| placeholder((i + 1) as nat)), ", "@) + ")"@
}

/// The indices of the primary-key columns, in order.
pub open spec fn pk_indices(fields: Seq<Field>) -> Seq<usize>
    decreases fields.len(),
{
    if fields.len() == 0 {
        Seq::empty()
    } else {
        let p = pk_indices(fields.drop_last());
        if fields.last().primary_key { p.push((fields.len() - 1) as usize) } else { p }
    }
}

/// `UPDATE <table> SET <every column> = ?(P+1).. WHERE <primary keys> = ?1.. AND ..`, where P is
/// the number of primary-key columns.
pub open spec fn update_by_id_text(s: Schema) -> Seq<char> {
    let fields = s.fields@;
    let pks = pk_indices(fields);
    "UPDATE "@ + s.table_name@ + " SET "@
        + join(Seq::new(fields.len(), |i: int| assignment(fields[i].name@, (pks.len() + i + 1) as nat)), ", "@)
        + " WHERE "@
        + join(Seq::new(pks.len(), |j: int| assignment(fields[pks[j] as int].name@, (j + 1) as nat)), " AND "@)
}

/// `UPDATE <table> SET <every column> = ?(N+1).. WHERE <every column> = ?1.. AND ..`.
pub open spec fn update_to_text(s: Schema) -> Seq<char> {
    let fields = s.fields@;
    "UPDATE "@ + s.table_name@ + " SET "@
        + join(Seq::new(fields.len(), |i: int| assignment(fields[i].name@, (fields.len() + i + 1) as nat)), ", "@)
        + " WHERE "@
        + join(Seq::new(fields.len(), |i: int| assignment(fields[i].name@, (i + 1) as nat)), " AND "@)
}

/// Whether an optional filter is absent or admitted by the schema.
pub open spec fn admits_opt(s: Schema, f: Option<Filter>) -> bool {
    match f {
        Some(f) => s.admits(f),
        None => true,
    }
}

/// ` WHERE <condition>` for a filter, nothing without one.
pub open spec fn where_text(fields: Seq<Field>, f: Option<Filter>) -> Seq<char> {
    match f {
        Some(f) => " WHERE "@ + condition_text(fields, f),
        None => Seq::empty(),
    }
}

pub open spec fn select_all_text(s: Schema) -> Seq<char> {
    "SELECT "@ + join(column_names(s.fields@), ", "@) + " FROM "@ + s.table_name@
}

pub open spec fn select_text(s: Schema, q: Select) -> Seq<char> {
    "SELECT "@ + join(column_names(s.fields@), ", "@) + " FROM "@ + s.table_name@
        + where_text(s.fields@, q.filter)
        + match q.limit {
            Some(n) => " LIMIT "@ + decimal(n as nat),
            None => Seq::empty(),
        }
        + match q.offset {
            Some(n) => " ORDER BY ( SELECT NULL ) OFFSET "@ + decimal(n as nat),
            None => Seq::empty(),
        }
}

pub open spec fn count_all_text(s: Schema) -> Seq<char> {
    "SELECT COUNT( "@ + s.fields@[0].name@ + " ) FROM "@ + s.table_name@
}

pub open spec fn count_text(s: Schema, q: Count) -> Seq<char> {
    "SELECT COUNT( "@ + s.fields@[0].name@ + " ) FROM "@ + s.table_name@ + where_text(s.fields@, q.filter)
}

pub open spec fn delete_all_text(s: Schema) -> Seq<char> {
    "DELETE FROM "@ + s.table_name@
}

pub open spec fn delete_text(s: Schema, q: Delete) -> Seq<char> {
    "DELETE FROM "@ + s.table_name@ + where_text(s.fields@, q.filter)
}

/// Selecting with no filter, limit or offset gives the text of selecting every row.
pub proof fn lemma_select_all_is_unfiltered_select(s: Schema)
    ensures
        select_all_text(s) == select_text(s, Select { filter: None, limit: None, offset: None }),
{
    assert(select_all_text(s) =~= select_text(s, Select { filter: None, limit: None, offset: None }));
}

/// Counting or deleting with no filter gives the text of counting or deleting every row.
pub proof fn lemma_unfiltered_count_and_delete(s: Schema)
    ensures
        count_all_text(s) == count_text(s, Count { filter: None }),
        delete_all_text(s) == delete_text(s, Delete { filter: None }),
{
    assert(count_all_text(s) =~= count_text(s, Count { filter: None }));
    assert(delete_all_text(s) =~= delete_text(s, Delete { filter: None }));
}

fn keep_non_empty<'a>(tokens: &Vec<&'a str>) -> (r: Vec<&'a str>)
    ensures
        str_views(r@) == non_empty(str_views(tokens@)),
{
    let mut r: Vec<&'a str> = Vec::new();
    let mut i: usize = 0;
    while i < tokens.len()
        invariant
            i <= tokens.len(),
            str_views(r@) == non_empty(str_views(tokens@.subrange(0, i as int))),
        decreases tokens.len() - i,
    {
        let t = tokens[i];
        assert(str_views(tokens@.subrange(0, i + 1)).drop_last() =~= str_views(tokens@.subrange(0, i as int)));
        assert(str_views(tokens@.subrange(0, i + 1)).last() == t@);
        if t.unicode_len() > 0 {
            r.push(t);
            assert(str_views(r@) =~= non_empty(str_views(tokens@.subrange(0, i + 1))));
        }
        i = i + 1;
    }
    assert(tokens@.subrange(0, i as int) =~= tokens@);
    r
}

fn column_def_exec(f: &Field) -> (r: String)
    ensures
        r@ == column_def(*f),
{
    let ty = f.sql_type.to_string();
    let mut tokens: Vec<&str> = Vec::new();
    tokens.push(f.name.as_str());
    tokens.push(ty.as_str());
    if f.primary_key {
        tokens.push("NOT NULL PRIMARY KEY");
    } else if let Some(nullable) = f.nullable {
        if nullable {
            tokens.push("NULL");
        } else {
            tokens.push("NOT NULL");
        }
    }
    if f.unique {
        tokens.push("UNIQUE");
    }
    assert(str_views(tokens@) =~= seq![f.name@, sql_type_text(f.sql_type)] + constraint_tokens(*f));
    let kept = keep_non_empty(&tokens);
    collect_join_str(&kept, " ")
}

fn column_name_list(fields: &Vec<Field>) -> (r: Vec<String>)
    ensures
        views(r@) == column_names(fields@),
{
    let mut r: Vec<String> = Vec::new();
    let mut i: usize = 0;
    while i < fields.len()
        invariant
            i <= fields.len(),
            views(r@) =~= Seq::new(i as nat, |k: int| fields@[k].name@),
        decreases fields.len() - i,
    {
        let name = fields[i].name.clone();
        proof { lemma_views_push(r@, name); }
        r.push(name);
        i = i + 1;
    }
    r
}

fn placeholder_exec(k: u128) -> (r: String)
    ensures
        r@ == placeholder(k as nat),
{
    let mut r = String::from_str("?");
    push_decimal(&mut r, k);
    r
}

fn assignment_exec(name: &String, k: u128) -> (r: String)
    ensures
        r@ == assignment(name@, k as nat),
{
    let mut r = name.clone();
    r.append(" = ?");
    push_decimal(&mut r, k);
    r
}

impl Schema {
    /// `CREATE TABLE IF NOT EXISTS <table> ( <column definitions> )`, one definition per
    /// column in declared order, separated by `, `.
    pub fn create_table(&self) -> (r: String)
        ensures
            r@ == create_table_text(*self),
    {
        let mut defs: Vec<String> = Vec::new();
        let mut i: usize = 0;
        while i < self.fields.len()
            invariant
                i <= self.fields.len(),
                views(defs@) =~= Seq::new(i as nat, |k: int| column_def(self.fields@[k])),
            decreases self.fields.len() - i,
        {
            let d = column_def_exec(&self.fields[i]);
            proof { lemma_views_push(defs@, d); }
            defs.push(d);
            i = i + 1;
        }
        let mut r = String::from_str("CREATE TABLE IF NOT EXISTS ");
        r.append(self.table_name.as_str());
        r.append(" ( ");
        let body = collect_join(&defs, ", ");
        r.append(body.as_str());
        r.append(" )");
        r
    }

    /// `DROP TABLE <table>`.
    pub fn delete_table(&self) -> (r: String)
        ensures
            r@ == delete_table_text(*self),
    {
        let mut r = String::from_str("DROP TABLE ");
        r.append(self.table_name.as_str());
        r
    }

    /// `INSERT INTO <table> (<columns>) VALUES (?1, ..., ?N)`, in declared order.
    pub fn insert(&self) -> (r: String)
        ensures
            r@ == insert_text(*self),
    {
        let names = column_name_list(&self.fields);
        let mut marks: Vec<String> = Vec::new();
        let mut i: usize = 0;
        while i < self.fields.len()
            invariant
                i <= self.fields.len(),
                views(marks@) =~= Seq::new(i as nat, |k: int| placeholder((k + 1) as nat)),
            decreases self.fields.len() - i,
        {
            let m = placeholder_exec(i as u128 + 1);
            proof { lemma_views_push(marks@, m); }
            marks.push(m);
            i = i + 1;
        }
        let mut r = String::from_str("INSERT INTO ");
        r.append(self.table_name.as_str());
        r.append(" (");
        let cols = collect_join(&names, ", ");
        r.append(cols.as_str());
        r.append(") VALUES (");
        let params = collect_join(&marks, ", ");
        r.append(params.as_str());
        r.append(")");
        r
    }
}

fn numbered_assignments(fields: &Vec<Field>, base: u128) -> (r: Vec<String>)
    requires
        base <= usize::MAX,
    ensures
        views(r@) == Seq::new(fields@.len(), |i: int| assignment(fields@[i].name@, (base + i + 1) as nat)),
{
    let mut r: Vec<String> = Vec::new();
    let mut i: usize = 0;
    while i < fields.len()
        invariant
            i <= fields.len(),
            base <= usize::MAX,
            views(r@) =~= Seq::new(i as nat, |k: int| assignment(fields@[k].name@, (base + k + 1) as nat)),
        decreases fields.len() - i,
    {
        let a = assignment_exec(&fields[i].name, base + i as u128 + 1);
        proof { lemma_views_push(r@, a); }
        r.push(a);
        i = i + 1;
    }
    assert(views(r@) =~= Seq::new(fields@.len(), |i: int| assignment(fields@[i].name@, (base + i + 1) as nat)));
    r
}

impl Schema {
    /// The indices of the primary-key columns, in order.
    pub fn primary_key_indices(&self) -> (r: Vec<usize>)
        ensures
            r@ == pk_indices(self.fields@),
            r@.len() <= self.fields@.len(),
            forall|j: int| 0 <= j < r@.len() ==> r@[j] < self.fields@.len(),
    {
        let mut r: Vec<usize> = Vec::new();
        let mut i: usize = 0;
        while i < self.fields.len()
            invariant
                i <= self.fields.len(),
                r@ == pk_indices(self.fields@.subrange(0, i as int)),
                r@.len() <= i,
                forall|j: int| 0 <= j < r@.len() ==> r@[j] < i,
            decreases self.fields.len() - i,
        {
            assert(self.fields@.subrange(0, i + 1).drop_last() =~= self.fields@.subrange(0, i as int));
            if self.fields[i].primary_key {
                r.push(i);
            }
            i = i + 1;
        }
        assert(self.fields@.subrange(0, i as int) =~= self.fields@);
        r
    }

    /// `UPDATE` of the row whose primary key is bound first; the new values of every column
    /// are bound after it.
    pub fn update_by_id(&self) -> (r: String)
        ensures
            r@ == update_by_id_text(*self),
    {
        let pks = self.primary_key_indices();
        let set = numbered_assignments(&self.fields, pks.len() as u128);
        let mut keys: Vec<String> = Vec::new();
        let mut j: usize = 0;
        while j < pks.len()
            invariant
                j <= pks.len(),
                pks@ == pk_indices(self.fields@),
                forall|k: int| 0 <= k < pks@.len() ==> pks@[k] < self.fields@.len(),
                views(keys@) =~= Seq::new(j as nat, |k: int| assignment(self.fields@[pks@[k] as int].name@, (k + 1) as nat)),
            decreases pks.len() - j,
        {
            let a = assignment_exec(&self.fields[pks[j]].name, j as u128 + 1);
            proof { lemma_views_push(keys@, a); }
            keys.push(a);
            j = j + 1;
        }
        let mut r = String::from_str("UPDATE ");
        r.append(self.table_name.as_str());
        r.append(" SET ");
        let s = collect_join(&set, ", ");
        r.append(s.as_str());
        r.append(" WHERE ");
        let w = collect_join(&keys, " AND ");
        r.append(w.as_str());
        assert(views(set@) =~= Seq::new(self.fields@.len(), |i: int| assignment(self.fields@[i].name@, (pks@.len() + i + 1) as nat)));
        r
    }

    /// `UPDATE` of the rows equal to a whole former value, bound first; the new value is bound after it.
    pub fn update_to(&self) -> (r: String)
        ensures
            r@ == update_to_text(*self),
    {
        let set = numbered_assignments(&self.fields, self.fields.len() as u128);
        let keys = numbered_assignments(&self.fields, 0);
        let mut r = String::from_str("UPDATE ");
        r.append(self.table_name.as_str());
        r.append(" SET ");
        let s = collect_join(&set, ", ");
        r.append(s.as_str());
        r.append(" WHERE ");
        let w = collect_join(&keys, " AND ");
        r.append(w.as_str());
        assert(views(keys@) =~= Seq::new(self.fields@.len(), |i: int| assignment(self.fields@[i].name@, (i + 1) as nat)));
        r
    }

    fn push_where(&self, out: &mut String, filter: &Option<Filter>)
        requires
            admits_opt(*self, *filter),
        ensures
            final(out)@ == old(out)@ + where_text(self.fields@, *filter),
    {
        if let Some(f) = filter {
            out.append(" WHERE ");
            let c = f.to_condition(self);
            out.append(c.as_str());
        }
        assert(final(out)@ =~= old(out)@ + where_text(self.fields@, *filter));
    }

    /// `SELECT <columns> FROM <table>`, then ` WHERE <condition>`, ` LIMIT <n>` and
    /// ` ORDER BY ( SELECT NULL ) OFFSET <n>` for the parts that the request holds.
    pub fn select(&self, select: Select) -> (r: String)
        requires
            admits_opt(*self, select.filter),
        ensures
            r@ == select_text(*self, select),
    {
        let names = column_name_list(&self.fields);
        let mut r = String::from_str("SELECT ");
        let cols = collect_join(&names, ", ");
        r.append(cols.as_str());
        r.append(" FROM ");
        r.append(self.table_name.as_str());
        self.push_where(&mut r, &select.filter);
        if let Some(limit) = select.limit {
            r.append(" LIMIT ");
            push_decimal(&mut r, limit as u128);
        }
        if let Some(offset) = select.offset {
            r.append(" ORDER BY ( SELECT NULL ) OFFSET ");
            push_decimal(&mut r, offset as u128);
        }
        assert(r@ =~= select_text(*self, select));
        r
    }

    /// `SELECT <columns> FROM <table>`: every row.
    pub fn select_all(&self) -> (r: String)
        ensures
            r@ == select_all_text(*self),
    {
        let r = self.select(SelectBuilder::default().build());
        proof { lemma_select_all_is_unfiltered_select(*self); }
        r
    }

    /// `SELECT COUNT( <first column> ) FROM <table>`, then ` WHERE <condition>` for a filter.
    pub fn count_statement(&self, count: Count) -> (r: String)
        requires
            self.fields@.len() >= 1,
            admits_opt(*self, count.filter),
        ensures
            r@ == count_text(*self, count),
    {
        let mut r = String::from_str("SELECT COUNT( ");
        r.append(self.fields[0].name.as_str());
        r.append(" ) FROM ");
        r.append(self.table_name.as_str());
        self.push_where(&mut r, &count.filter);
        assert(r@ =~= count_text(*self, count));
        r
    }

    /// `SELECT COUNT( <first column> ) FROM <table>`: the number of rows.
    pub fn count_all_statement(&self) -> (r: String)
        requires
            self.fields@.len() >= 1,
        ensures
            r@ == count_all_text(*self),
    {
        let r = self.count_statement(CountBuilder::default().build());
        proof { lemma_unfiltered_count_and_delete(*self); }
        r
    }

    /// `DELETE FROM <table>`, then ` WHERE <condition>` for a filter.
    pub fn delete(&self, delete: Delete) -> (r: String)
        requires
            admits_opt(*self, delete.filter),
        ensures
            r@ == delete_text(*self, delete),
    {
        let mut r = String::from_str("DELETE FROM ");
        r.append(self.table_name.as_str());
        self.push_where(&mut r, &delete.filter);
        assert(r@ =~= delete_text(*self, delete));
        r
    }

    /// `DELETE FROM <table>`: every row.
    pub fn delete_all(&self) -> (r: String)
        ensures
            r@ == delete_all_text(*self),
    {
        let r = self.delete(DeleteBuilder::default().build());
        proof { lemma_unfiltered_count_and_delete(*self); }
        r
    }
}

} // verus!

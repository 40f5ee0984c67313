use vstd::prelude::*;

use crate::field::{Field, FieldDecl, FieldError, field_of_decl};

verus! {

/// Why a schema was refused.
#[derive(Clone, Copy, PartialEq, Eq, Structural, Debug)]
pub enum SchemaError {
    /// The entity declares no field.
    NoFields,
    /// The field at this index has the name of an earlier one.
    DuplicateField(usize),
    /// The declaration of the field at this index was refused.
    Field(usize, FieldError),
}

/// The description of one entity: its name, its table and its columns in order.
#[derive(Clone, Debug)]
pub struct Schema {
    pub entity_name: String,
    pub table_name: String,
    pub fields: Vec<Field>,
}

/// Whether a declaration before index `i` has the name of the one at `i`.
pub open spec fn repeats_name(decls: Seq<FieldDecl>, i: int) -> bool {
    exists|j: int| 0 <= j < i && (#[trigger] decls[j]).name@ == decls[i].name@
}

/// The columns that the declarations describe, in order, or the first reason to refuse them.
pub open spec fn fields_of(decls: Seq<FieldDecl>) -> Result<Seq<Field>, SchemaError>
    decreases decls.len(),
{
    if decls.len() == 0 {
        Ok(Seq::empty())
    } else {
        let i = decls.len() - 1;
        match fields_of(decls.drop_last()) {
            Err(e) => Err(e),
            Ok(fs) => if repeats_name(decls, i) {
                Err(SchemaError::DuplicateField(i as usize))
            } else {
                match field_of_decl(decls[i]) {
                    Err(e) => Err(SchemaError::Field(i as usize, e)),
                    Ok(f) => Ok(fs.push(f)),
                }
            },
        }
    }
}

pub open spec fn names_distinct(fields: Seq<Field>) -> bool {
    forall|a: int, b: int| 0 <= a < b < fields.len() ==> #[trigger] fields[a].name@ != #[trigger] fields[b].name@
}

proof fn lemma_fields_stay_refused(decls: Seq<FieldDecl>, i: int)
    requires
        0 <= i <= decls.len(),
        fields_of(decls.subrange(0, i)) is Err,
    ensures
        fields_of(decls) == fields_of(decls.subrange(0, i)),
    decreases decls.len() - i,
{
    if i < decls.len() {
        assert(decls.subrange(0, i + 1).drop_last() =~= decls.subrange(0, i));
        lemma_fields_stay_refused(decls, i + 1);
    } else {
        assert(decls.subrange(0, i) =~= decls);
    }
}

impl Schema {
    /// A schema has at least one field, and no two fields share a name.
    pub open spec fn wf(&self) -> bool {
        &&& self.fields@.len() >= 1
        &&& names_distinct(self.fields@)
    }

    /// Builds the schema of an entity from its field declarations; the table takes the entity's name.
    pub fn validate(entity_name: String, decls: &Vec<FieldDecl>) -> (r: Result<Schema, SchemaError>)
        ensures
            decls@.len() == 0 ==> r == Err::<Schema, SchemaError>(SchemaError::NoFields),
            decls@.len() > 0 ==> match fields_of(decls@) {
                Ok(fs) => r matches Ok(s) && s.fields@ == fs && s.entity_name == entity_name
                    && s.table_name == entity_name,
                Err(e) => r == Err::<Schema, SchemaError>(e),
            },
            r matches Ok(s) ==> s.wf(),
    {
        if decls.len() == 0 {
            return Err(SchemaError::NoFields);
        }
        let mut fields: Vec<Field> = Vec::new();
        let mut i: usize = 0;
        while i < decls.len()
            invariant
                i <= decls.len(),
                fields_of(decls@.subrange(0, i as int)) == Ok::<Seq<Field>, SchemaError>(fields@),
                fields@.len() == i,
                forall|k: int| 0 <= k < i ==> (#[trigger] fields@[k]).name@ == decls@[k].name@,
                names_distinct(fields@),
            decreases decls.len() - i,
        {
            let ghost pre = decls@.subrange(0, i + 1);
            assert(pre.drop_last() =~= decls@.subrange(0, i as int));
            let mut j: usize = 0;
            while j < i
                invariant
                    j <= i < decls.len(),
                    pre == decls@.subrange(0, i + 1),
                    pre.drop_last() == decls@.subrange(0, i as int),
                    fields_of(decls@.subrange(0, i as int)) == Ok::<Seq<Field>, SchemaError>(fields@),
                    forall|k: int| 0 <= k < j ==> (#[trigger] decls@[k]).name@ != decls@[i as int].name@,
                decreases i - j,
            {
                if decls[j].name == decls[i].name {
                    assert(pre[j as int] == decls@[j as int]);
                    assert(repeats_name(pre, i as int));
                    assert(fields_of(pre) == Err::<Seq<Field>, SchemaError>(SchemaError::DuplicateField(i)));
                    proof { lemma_fields_stay_refused(decls@, i + 1); }
                    assert(decls@.subrange(0, decls@.len() as int) =~= decls@);
                    return Err(SchemaError::DuplicateField(i));
                }
                j = j + 1;
            }
            assert(!repeats_name(pre, i as int)) by {
                assert forall|k: int| 0 <= k < i implies (#[trigger] pre[k]).name@ != pre[i as int].name@ by {
                    assert(pre[k] == decls@[k]);
                }
            }
            match Field::from_field(&decls[i]) {
                Err(e) => {
                    proof { lemma_fields_stay_refused(decls@, i + 1); }
                    assert(decls@.subrange(0, decls@.len() as int) =~= decls@);
                    return Err(SchemaError::Field(i, e));
                },
                Ok(f) => {
                    fields.push(f);
                },
            }
            i = i + 1;
        }
        assert(decls@.subrange(0, i as int) =~= decls@);
        let table_name = entity_name.clone();
        Ok(Schema { entity_name, table_name, fields })
    }

    /// The name of the table that holds the entity.
    pub fn get_table_name(&self) -> (r: String)
        ensures
            r@ == self.table_name@,
    {
        self.table_name.clone()
    }

    /// The columns of the schema, in declared order.
    pub fn fields(&self) -> (r: &Vec<Field>)
        ensures
            r@ == self.fields@,
    {
        &self.fields
    }
}

} // verus!

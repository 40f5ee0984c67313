use vstd::prelude::*;

use crate::parse_utils::{Lit, bool_of_lit, integer_of_lit, parse_bool_lit, parse_integer_lit};
use crate::sql_type::{LogicalType, SqlType, TypeError, is_word, map_type};

verus! {

/// One argument inside an attribute group.
#[derive(Clone, Debug)]
pub enum AttrArg {
    /// `key = value`.
    KeyValue(String, Lit),
    /// Any other form, such as a bare name.
    Bare(String),
}

/// One attribute group on a field, such as `varchar(size = 30, unique = true)`.
#[derive(Clone, Debug)]
pub struct AttrGroup {
    pub kind: String,
    pub args: Vec<AttrArg>,
}

/// A field as its entity declares it.
#[derive(Clone, Debug)]
pub struct FieldDecl {
    pub name: String,
    pub logical_type: LogicalType,
    pub attrs: Vec<AttrGroup>,
}

/// Why a field declaration was refused.
#[derive(Clone, Copy, PartialEq, Eq, Structural, Debug)]
pub enum FieldError {
    /// An argument key other than `null`, `size`, `unique` and `primary`.
    UnknownAttribute,
    /// An argument that is not of the form `key = value`.
    MalformedAttribute,
    /// A literal that cannot be read as a boolean.
    InvalidBool,
    /// A literal that cannot be read as an unsigned integer.
    InvalidInteger,
    /// The attribute, logical type and size do not fit together.
    Type(TypeError),
}

/// The options that the attribute groups of a field set, as read so far.
#[derive(Clone, Debug)]
pub struct FieldOptions {
    pub attribute: Option<String>,
    pub nullable: Option<bool>,
    pub primary_key: bool,
    pub unique: bool,
    pub size: Option<u64>,
}

/// One column of a schema.
#[derive(Clone, Debug)]
pub struct Field {
    pub name: String,
    pub logical_type: LogicalType,
    pub sql_type: SqlType,
    pub attribute: String,
    pub nullable: Option<bool>,
    pub primary_key: bool,
    pub unique: bool,
    pub size: Option<u64>,
}

/// The case folding of a string, as `str::to_lowercase` computes it.
pub uninterp spec fn lower_of(s: Seq<char>) -> Seq<char>;

/// Relies on `str::to_lowercase`: the result depends on the characters alone.
#[verifier::external_body]
fn lowercase(s: &str) -> (r: String)
    ensures
        r@ == lower_of(s@),
{
    s.to_lowercase()
}

pub open spec fn no_options() -> FieldOptions {
    FieldOptions { attribute: None, nullable: None, primary_key: false, unique: false, size: None }
}

/// The options after one argument, or why it is refused.
pub open spec fn apply_arg(o: FieldOptions, a: AttrArg) -> Result<FieldOptions, FieldError> {
    match a {
        AttrArg::Bare(_) => Err(FieldError::MalformedAttribute),
        AttrArg::KeyValue(k, lit) => {
            let key = lower_of(k@);
            if key == "null"@ {
                match bool_of_lit(lit) {
                    Some(b) => Ok(FieldOptions { nullable: Some(b), ..o }),
                    None => Err(FieldError::InvalidBool),
                }
            } else if key == "size"@ {
                match integer_of_lit(lit) {
                    Some(n) => Ok(FieldOptions { size: Some(n), ..o }),
                    None => Err(FieldError::InvalidInteger),
                }
            } else if key == "unique"@ {
                match bool_of_lit(lit) {
                    Some(b) => Ok(FieldOptions { unique: b, ..o }),
                    None => Err(FieldError::InvalidBool),
                }
            } else if key == "primary"@ {
                match bool_of_lit(lit) {
                    Some(b) => Ok(FieldOptions { primary_key: b, ..o }),
                    None => Err(FieldError::InvalidBool),
                }
            } else {
                Err(FieldError::UnknownAttribute)
            }
        },
    }
}

/// The options after the arguments, in order; the first refusal stops.
pub open spec fn apply_args(o: FieldOptions, args: Seq<AttrArg>) -> Result<FieldOptions, FieldError>
    decreases args.len(),
{
    if args.len() == 0 {
        Ok(o)
    } else {
        match apply_args(o, args.drop_last()) {
            Ok(p) => apply_arg(p, args.last()),
            Err(e) => Err(e),
        }
    }
}

/// The options after the attribute groups, in order; each group's kind becomes the attribute.
pub open spec fn apply_groups(o: FieldOptions, groups: Seq<AttrGroup>) -> Result<FieldOptions, FieldError>
    decreases groups.len(),
{
    if groups.len() == 0 {
        Ok(o)
    } else {
        match apply_groups(o, groups.drop_last()) {
            Ok(p) => match apply_args(p, groups.last().args@) {
                Ok(q) => Ok(FieldOptions { attribute: Some(groups.last().kind), ..q }),
                Err(e) => Err(e),
            },
            Err(e) => Err(e),
        }
    }
}

pub open spec fn attribute_text(o: FieldOptions) -> Seq<char> {
    match o.attribute {
        Some(s) => s@,
        None => Seq::empty(),
    }
}

/// The column that a declaration describes, or why it is refused.
pub open spec fn field_of_decl(d: FieldDecl) -> Result<Field, FieldError> {
    match apply_groups(no_options(), d.attrs@) {
        Err(e) => Err(e),
        Ok(o) => match map_type(d.logical_type, attribute_text(o), o.size) {
            Err(t) => Err(FieldError::Type(t)),
            Ok(st) => Ok(Field {
                name: d.name,
                logical_type: d.logical_type,
                sql_type: st,
                attribute: o.attribute->Some_0,
                nullable: o.nullable,
                primary_key: o.primary_key,
                unique: o.unique,
                size: o.size,
            }),
        },
    }
}

fn apply_arg_exec(o: FieldOptions, a: &AttrArg) -> (r: Result<FieldOptions, FieldError>)
    ensures
        r == apply_arg(o, *a),
{
    match a {
        AttrArg::Bare(_) => Err(FieldError::MalformedAttribute),
        AttrArg::KeyValue(k, lit) => {
            let key = lowercase(k.as_str());
            if is_word(&key, "null") {
                match parse_bool_lit(lit) {
                    Some(b) => Ok(FieldOptions { nullable: Some(b), ..o }),
                    None => Err(FieldError::InvalidBool),
                }
            } else if is_word(&key, "size") {
                match parse_integer_lit(lit) {
                    Some(n) => Ok(FieldOptions { size: Some(n), ..o }),
                    None => Err(FieldError::InvalidInteger),
                }
            } else if is_word(&key, "unique") {
                match parse_bool_lit(lit) {
                    Some(b) => Ok(FieldOptions { unique: b, ..o }),
                    None => Err(FieldError::InvalidBool),
                }
            } else if is_word(&key, "primary") {
                match parse_bool_lit(lit) {
                    Some(b) => Ok(FieldOptions { primary_key: b, ..o }),
                    None => Err(FieldError::InvalidBool),
                }
            } else {
                Err(FieldError::UnknownAttribute)
            }
        },
    }
}

fn apply_args_exec(o: FieldOptions, args: &Vec<AttrArg>) -> (r: Result<FieldOptions, FieldError>)
    ensures
        r == apply_args(o, args@),
{
    let mut cur = o;
    let mut i: usize = 0;
    while i < args.len()
        invariant
            i <= args.len(),
            apply_args(o, args@.subrange(0, i as int)) == Ok::<FieldOptions, FieldError>(cur),
        decreases args.len() - i,
    {
        assert(args@.subrange(0, i + 1).drop_last() =~= args@.subrange(0, i as int));
        match apply_arg_exec(cur, &args[i]) {
            Ok(p) => {
                cur = p;
            },
            Err(e) => {
                proof { lemma_args_stay_refused(o, args@, i + 1); }
                assert(args@.subrange(0, args@.len() as int) =~= args@);
                return Err(e);
            },
        }
        i = i + 1;
    }
    assert(args@.subrange(0, i as int) =~= args@);
    Ok(cur)
}

proof fn lemma_args_stay_refused(o: FieldOptions, args: Seq<AttrArg>, i: int)
    requires
        0 <= i <= args.len(),
        apply_args(o, args.subrange(0, i)) is Err,
    ensures
        apply_args(o, args) == apply_args(o, args.subrange(0, i)),
    decreases args.len() - i,
{
    if i < args.len() {
        assert(args.subrange(0, i + 1).drop_last() =~= args.subrange(0, i));
        lemma_args_stay_refused(o, args, i + 1);
    } else {
        assert(args.subrange(0, i) =~= args);
    }
}

proof fn lemma_groups_stay_refused(o: FieldOptions, groups: Seq<AttrGroup>, i: int)
    requires
        0 <= i <= groups.len(),
        apply_groups(o, groups.subrange(0, i)) is Err,
    ensures
        apply_groups(o, groups) == apply_groups(o, groups.subrange(0, i)),
    decreases groups.len() - i,
{
    if i < groups.len() {
        assert(groups.subrange(0, i + 1).drop_last() =~= groups.subrange(0, i));
        lemma_groups_stay_refused(o, groups, i + 1);
    } else {
        assert(groups.subrange(0, i) =~= groups);
    }
}

impl Field {
    /// Reads a field declaration: its attribute groups in order, then its column type.
    pub fn from_field(decl: &FieldDecl) -> (r: Result<Field, FieldError>)
        ensures
            r == field_of_decl(*decl),
    {
        let groups = &decl.attrs;
        let mut cur = FieldOptions { attribute: None, nullable: None, primary_key: false, unique: false, size: None };
        let mut i: usize = 0;
        while i < groups.len()
            invariant
                i <= groups.len(),
                groups == decl.attrs,
                apply_groups(no_options(), groups@.subrange(0, i as int)) == Ok::<FieldOptions, FieldError>(cur),
            decreases groups.len() - i,
        {
            assert(groups@.subrange(0, i + 1).drop_last() =~= groups@.subrange(0, i as int));
            match apply_args_exec(cur, &groups[i].args) {
                Ok(q) => {
                    cur = FieldOptions { attribute: Some(groups[i].kind.clone()), ..q };
                },
                Err(e) => {
                    proof { lemma_groups_stay_refused(no_options(), groups@, i + 1); }
                    assert(groups@.subrange(0, groups@.len() as int) =~= groups@);
                    return Err(e);
                },
            }
            i = i + 1;
        }
        assert(groups@.subrange(0, i as int) =~= groups@);
        let ghost o = cur;
        assert(apply_groups(no_options(), decl.attrs@) == Ok::<FieldOptions, FieldError>(o));
        let attribute = match cur.attribute {
            Some(s) => s,
            None => {
                proof {
                    reveal_strlit("varchar");
                    reveal_strlit("text");
                    reveal_strlit("integer");
                }
                String::new()
            },
        };
        assert(attribute@ == attribute_text(o));
        match SqlType::from_type(decl.logical_type, &attribute, cur.size) {
            Err(t) => Err(FieldError::Type(t)),
            Ok(st) => Ok(Field {
                name: decl.name.clone(),
                logical_type: decl.logical_type,
                sql_type: st,
                attribute,
                nullable: cur.nullable,
                primary_key: cur.primary_key,
                unique: cur.unique,
                size: cur.size,
            }),
        }
    }
}

} // verus!

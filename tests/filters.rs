use worm::{AttrArg, AttrGroup, FieldDecl, Filter, FilterError, Lit, LogicalType, Op, Schema, Select, SelectOne, SelectOneBuilder, Value};

fn decl(name: &str, logical_type: LogicalType, kind: &str, args: Vec<AttrArg>) -> FieldDecl {
	FieldDecl { name: name.to_string(), logical_type, attrs: vec![AttrGroup { kind: kind.to_string(), args }] }
}

fn people() -> Schema {
	let decls = vec![
		decl("id", LogicalType::U32, "integer", vec![AttrArg::KeyValue("primary".to_string(), Lit::Bool(true))]),
		decl("name", LogicalType::Str, "text", vec![AttrArg::KeyValue("null".to_string(), Lit::Bool(true))]),
		decl("age", LogicalType::I64, "integer", vec![]),
	];
	Schema::validate("Person".to_string(), &decls).unwrap()
}

#[test]
fn operators_render_their_symbols() {
	let s = people();
	let cases = [
		(Op::GreaterThan, "age > 27"),
		(Op::GreaterEqualThan, "age >= 27"),
		(Op::Equal, "age = 27"),
		(Op::LowerEqualThan, "age <= 27"),
		(Op::LowerThan, "age < 27"),
	];
	for (op, text) in cases {
		let f = Filter::leaf(&s, 2, op, Value::I64(27)).unwrap();
		assert_eq!(f.to_condition(&s), text);
	}
}

#[test]
fn text_values_are_quoted_integers_are_not() {
	let s = people();
	let f = Filter::leaf(&s, 1, Op::Equal, Value::Str("Jim".to_string())).unwrap();
	assert_eq!(f.to_condition(&s), "name = 'Jim'");
	let f = Filter::leaf(&s, 2, Op::Equal, Value::I64(-9223372036854775808)).unwrap();
	assert_eq!(f.to_condition(&s), "age = -9223372036854775808");
	let f = Filter::leaf(&s, 0, Op::Equal, Value::U32(4294967295)).unwrap();
	assert_eq!(f.to_condition(&s), "id = 4294967295");
}

#[test]
fn quotes_inside_values_are_not_escaped() {
	let s = people();
	let f = Filter::leaf(&s, 1, Op::Equal, Value::Str("O'Brien".to_string())).unwrap();
	assert_eq!(f.to_condition(&s), "name = 'O'Brien'");
}

#[test]
fn integer_field_declared_as_text_is_quoted() {
	let decls = vec![decl("code", LogicalType::I32, "text", vec![])];
	let s = Schema::validate("C".to_string(), &decls).unwrap();
	let f = Filter::leaf(&s, 0, Op::Equal, Value::I32(-5)).unwrap();
	assert_eq!(f.to_condition(&s), "code = '-5'");
}

#[test]
fn and_or_wrap_operands() {
	let s = people();
	let a = Filter::leaf(&s, 1, Op::Equal, Value::Str("Jim".to_string())).unwrap();
	let b = Filter::leaf(&s, 2, Op::Equal, Value::I64(27)).unwrap();
	let a_text = a.to_condition(&s);
	let b_text = b.to_condition(&s);
	let and = Filter::and(a.cloned(), b.cloned());
	assert_eq!(and.to_condition(&s), format!("({} AND {})", a_text, b_text));
	assert_eq!(and.to_condition(&s), "(name = 'Jim' AND age = 27)");
	let or = Filter::or(a, b);
	assert_eq!(or.to_condition(&s), format!("({} OR  {})", a_text, b_text));
	assert_eq!(or.to_condition(&s), "(name = 'Jim' OR  age = 27)");
	let nested = Filter::or(and, Filter::leaf(&s, 0, Op::GreaterThan, Value::U32(2)).unwrap());
	assert_eq!(nested.to_condition(&s), "((name = 'Jim' AND age = 27) OR  id > 2)");
}

#[test]
fn leaf_refuses_unknown_field_and_wrong_type() {
	let s = people();
	assert!(matches!(Filter::leaf(&s, 3, Op::Equal, Value::U32(1)), Err(FilterError::NoSuchField)));
	assert!(matches!(Filter::leaf(&s, 0, Op::Equal, Value::I64(1)), Err(FilterError::ValueTypeMismatch)));
	assert!(matches!(Filter::leaf(&s, 1, Op::Equal, Value::U32(1)), Err(FilterError::ValueTypeMismatch)));
	assert!(!s.accepts(&Filter::Leaf(7, Op::Equal, Value::U32(1))));
	assert!(s.accepts(&Filter::Leaf(0, Op::Equal, Value::U32(1))));
}

fn leaves(f: &Filter) -> usize {
	match f {
		Filter::And(a, b) | Filter::Or(a, b) => leaves(a) + leaves(b),
		Filter::Leaf(..) => 1,
	}
}

#[test]
fn entity_filter_is_left_nested_equality() {
	let s = people();
	let row = vec![Value::U32(2), Value::Str("Jim".to_string()), Value::I64(27)];
	assert!(s.fits_row(&row));
	let f = s.entity_filter(&row);
	assert_eq!(leaves(&f), 3);
	match &f {
		Filter::And(_, right) => assert!(matches!(**right, Filter::Leaf(2, Op::Equal, Value::I64(27)))),
		_ => panic!("the outermost node is not an AND"),
	}
	assert_eq!(f.to_condition(&s), "((id = 2 AND name = 'Jim') AND age = 27)");
	assert_eq!(s.delete(f.into()), "DELETE FROM Person WHERE ((id = 2 AND name = 'Jim') AND age = 27)");
}

#[test]
fn entity_filter_of_single_field() {
	let decls = vec![decl("only", LogicalType::U64, "integer", vec![])];
	let s = Schema::validate("One".to_string(), &decls).unwrap();
	let row = vec![Value::U64(18446744073709551615)];
	let f = s.entity_filter(&row);
	assert_eq!(f.to_condition(&s), "only = 18446744073709551615");
}

#[test]
fn rows_of_wrong_shape_do_not_fit() {
	let s = people();
	assert!(!s.fits_row(&vec![Value::U32(2), Value::Str("Jim".to_string())]));
	assert!(!s.fits_row(&vec![Value::U32(2), Value::I64(3), Value::I64(27)]));
}

#[test]
fn select_one_forces_limit_one() {
	let s = people();
	let f = Filter::leaf(&s, 1, Op::Equal, Value::Str("Jim".to_string())).unwrap();
	let one: SelectOne = SelectOneBuilder::default().set_filter(f).build();
	let q: Select = one.into();
	assert_eq!(q.limit, Some(1));
	assert_eq!(q.offset, None);
	assert_eq!(s.select(q), "SELECT id, name, age FROM Person WHERE name = 'Jim' LIMIT 1");
	let q: Select = SelectOne { filter: None }.into();
	assert_eq!(q.limit, Some(1));
	assert_eq!(q.offset, None);
	assert!(q.filter.is_none());
}

use worm::{AttrArg, AttrGroup, Count, Delete, FieldDecl, Filter, Lit, LogicalType, Op, Schema, Select, Value};

fn group(kind: &str, args: Vec<AttrArg>) -> AttrGroup {
	AttrGroup { kind: kind.to_string(), args }
}

fn kv(key: &str, lit: Lit) -> AttrArg {
	AttrArg::KeyValue(key.to_string(), lit)
}

fn int_lit(digits: &str) -> Lit {
	Lit::Int(digits.to_string())
}

fn decl(name: &str, logical_type: LogicalType, attrs: Vec<AttrGroup>) -> FieldDecl {
	FieldDecl { name: name.to_string(), logical_type, attrs }
}

fn users() -> Schema {
	let decls = vec![
		decl("user_id", LogicalType::U32, vec![group("integer", vec![kv("primary", Lit::Bool(true))])]),
		decl(
			"user_name",
			LogicalType::Str,
			vec![group(
				"varchar",
				vec![kv("size", int_lit("120")), kv("unique", Lit::Bool(true)), kv("null", Lit::Bool(false))],
			)],
		),
		decl("first_name", LogicalType::Str, vec![group("varchar", vec![kv("size", int_lit("30"))])]),
		decl("last_name", LogicalType::Str, vec![group("varchar", vec![kv("size", int_lit("30"))])]),
		decl("note", LogicalType::Str, vec![group("text", vec![])]),
		decl("birthday", LogicalType::U32, vec![group("integer", vec![kv("null", Lit::Bool(true))])]),
	];
	Schema::validate("Users".to_string(), &decls).unwrap()
}

#[test]
fn statements_main() {
	let users = users();
	assert_eq!(users.create_table(), "CREATE TABLE IF NOT EXISTS Users ( user_id INTEGER NOT NULL PRIMARY KEY, user_name VARCHAR(120) NOT NULL UNIQUE, first_name VARCHAR(30), last_name VARCHAR(30), note TEXT, birthday INTEGER NULL )");
	assert_eq!(users.delete_table(), "DROP TABLE Users");

	assert_eq!(users.insert(), "INSERT INTO Users (user_id, user_name, first_name, last_name, note, birthday) VALUES (?1, ?2, ?3, ?4, ?5, ?6)");
	assert_eq!(users.update_by_id(), "UPDATE Users SET user_id = ?2, user_name = ?3, first_name = ?4, last_name = ?5, note = ?6, birthday = ?7 WHERE user_id = ?1");

	let filter = Filter::leaf(&users, 0, Op::Equal, Value::U32(1)).unwrap();
	assert_eq!(users.select(filter.cloned().into()), "SELECT user_id, user_name, first_name, last_name, note, birthday FROM Users WHERE user_id = 1");
	assert_eq!(
		users.delete(filter.cloned().into()),
		"DELETE FROM Users WHERE user_id = 1"
	);

	let filter = Filter::And(
		Box::new(Filter::leaf(&users, 0, Op::Equal, Value::U32(1)).unwrap()),
		Box::new(Filter::leaf(&users, 3, Op::Equal, Value::Str(String::from("Dane"))).unwrap()),
	);
	assert_eq!(users.select(filter.cloned().into()), "SELECT user_id, user_name, first_name, last_name, note, birthday FROM Users WHERE (user_id = 1 AND last_name = 'Dane')");
	assert_eq!(
		users.delete(filter.cloned().into()),
		"DELETE FROM Users WHERE (user_id = 1 AND last_name = 'Dane')"
	);

	assert_eq!(
		users.select_all(),
		"SELECT user_id, user_name, first_name, last_name, note, birthday FROM Users"
	);
	assert_eq!(users.delete_all(), "DELETE FROM Users");
}

#[test]
fn update_to_binds_whole_rows() {
	let users = users();
	assert_eq!(
		users.update_to(),
		"UPDATE Users SET user_id = ?7, user_name = ?8, first_name = ?9, last_name = ?10, note = ?11, birthday = ?12 WHERE user_id = ?1 AND user_name = ?2 AND first_name = ?3 AND last_name = ?4 AND note = ?5 AND birthday = ?6"
	);
}

#[test]
fn update_by_id_numbers_primary_keys_from_one() {
	let decls = vec![
		decl("a", LogicalType::I64, vec![group("integer", vec![])]),
		decl("b", LogicalType::I64, vec![group("integer", vec![kv("primary", Lit::Bool(true))])]),
		decl("c", LogicalType::Str, vec![group("text", vec![kv("primary", Lit::Str("true".to_string()))])]),
	];
	let s = Schema::validate("T".to_string(), &decls).unwrap();
	assert_eq!(s.primary_key_indices(), vec![1, 2]);
	assert_eq!(s.update_by_id(), "UPDATE T SET a = ?3, b = ?4, c = ?5 WHERE b = ?1 AND c = ?2");
	assert_eq!(s.create_table(), "CREATE TABLE IF NOT EXISTS T ( a INTEGER, b INTEGER NOT NULL PRIMARY KEY, c TEXT NOT NULL PRIMARY KEY )");
}

#[test]
fn select_with_limit_and_offset() {
	let users = users();
	let filter = Filter::leaf(&users, 5, Op::GreaterThan, Value::U32(1990)).unwrap();
	let q = worm::SelectBuilder::default().set_filter(filter).set_limit(10).set_offset(20).build();
	assert_eq!(
		users.select(q),
		"SELECT user_id, user_name, first_name, last_name, note, birthday FROM Users WHERE birthday > 1990 LIMIT 10 ORDER BY ( SELECT NULL ) OFFSET 20"
	);
	let q = worm::SelectBuilder::default().set_offset(0).build();
	assert_eq!(
		users.select(q),
		"SELECT user_id, user_name, first_name, last_name, note, birthday FROM Users ORDER BY ( SELECT NULL ) OFFSET 0"
	);
}

#[test]
fn unfiltered_select_equals_select_all() {
	let users = users();
	let q = Select { filter: None, limit: None, offset: None };
	assert_eq!(users.select(q), users.select_all());
}

#[test]
fn count_statements() {
	let users = users();
	assert_eq!(users.count_all_statement(), "SELECT COUNT( user_id ) FROM Users");
	let filter = Filter::leaf(&users, 1, Op::LowerEqualThan, Value::Str("m".to_string())).unwrap();
	assert_eq!(
		users.count_statement(Count::from(filter)),
		"SELECT COUNT( user_id ) FROM Users WHERE user_name <= 'm'"
	);
	assert_eq!(users.count_statement(worm::CountBuilder::default().build()), users.count_all_statement());
	assert_eq!(users.delete(worm::DeleteBuilder::default().build()), users.delete_all());
	let d: Delete = Filter::leaf(&users, 0, Op::LowerThan, Value::U32(3)).unwrap().into();
	assert_eq!(users.delete(d), "DELETE FROM Users WHERE user_id < 3");
}

#[test]
fn create_table_one_definition_per_field() {
	let users = users();
	let text = users.create_table();
	let body = text
		.strip_prefix("CREATE TABLE IF NOT EXISTS Users ( ")
		.unwrap()
		.strip_suffix(" )")
		.unwrap();
	let defs: Vec<&str> = body.split(", ").collect();
	assert_eq!(defs.len(), users.fields().len());
	for (def, field) in defs.iter().zip(users.fields().iter()) {
		assert!(def.starts_with(&format!("{} ", field.name)));
	}
}

#[test]
fn constraint_tokens_in_fixed_order() {
	let decls = vec![
		decl(
			"k",
			LogicalType::Str,
			vec![group(
				"varchar",
				vec![kv("null", Lit::Bool(true)), kv("unique", int_lit("1")), kv("primary", int_lit("1")), kv("size", Lit::Str("+8".to_string()))],
			)],
		),
		decl("n", LogicalType::I32, vec![group("text", vec![kv("unique", Lit::Bool(true)), kv("null", Lit::Str("false".to_string()))])]),
	];
	let s = Schema::validate("K".to_string(), &decls).unwrap();
	assert_eq!(
		s.create_table(),
		"CREATE TABLE IF NOT EXISTS K ( k VARCHAR(8) NOT NULL PRIMARY KEY UNIQUE, n TEXT NOT NULL UNIQUE )"
	);
}

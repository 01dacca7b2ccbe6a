use sqlc_generate_typescript_plugin::error::{ParseNameError, SerializeError};
use sqlc_generate_typescript_plugin::generate::{generate, target_name, render_preamble};
use sqlc_generate_typescript_plugin::model::{Column, Parameter, Query};
use sqlc_generate_typescript_plugin::serialize::serialize;

fn query(name: &str, filename: &str) -> Query {
    Query {
        text: format!("SELECT * FROM {}", name),
        name: name.to_string(),
        cmd: ":many".to_string(),
        columns: vec![Column {
            name: "id".to_string(),
            declared_type: Some("int".to_string()),
            not_null: true,
            comment: String::new(),
        }],
        params: vec![],
        filename: filename.to_string(),
    }
}

fn block(q: &Query) -> String {
    let mut text = serialize(q.clone()).unwrap();
    text.push('\n');
    text
}

const PREAMBLE: &str = "import type { BoundQuery, Query } from \"./types\"\n\n";

#[test]
fn preamble_names_the_configured_module() {
    assert_eq!(render_preamble("./types"), PREAMBLE);
    assert_eq!(
        render_preamble("@scope/pkg"),
        "import type { BoundQuery, Query } from \"@scope/pkg\"\n\n"
    );
    assert_eq!(render_preamble(""), "import type { BoundQuery, Query } from \"\"\n\n");
}

#[test]
fn target_name_replaces_the_source_extension() {
    assert_eq!(target_name("users.sql"), "users.ts");
    assert_eq!(target_name("db/queries/users.sql"), "db/queries/users.ts");
    assert_eq!(target_name(".sql"), ".ts");
    assert_eq!(target_name("a.sql.sql"), "a.sql.ts");
}

#[test]
fn target_name_of_another_name_gets_the_extension_added() {
    assert_eq!(target_name("users"), "users.ts");
    assert_eq!(target_name("users.SQL"), "users.SQL.ts");
    assert_eq!(target_name("users.sql.bak"), "users.sql.bak.ts");
    assert_eq!(target_name("sql"), "sql.ts");
    assert_eq!(target_name(""), ".ts");
}

#[test]
fn clone_of_a_query_holds_the_same_values() {
    let mut q = query("GetUsers", "users.sql");
    q.params = vec![
        Parameter { number: 1, column: None },
        Parameter { number: 2, column: Some(q.columns[0].clone()) },
    ];
    q.columns.push(Column {
        name: "note".to_string(),
        declared_type: None,
        not_null: false,
        comment: "free text".to_string(),
    });
    assert_eq!(format!("{:?}", q.clone()), format!("{:?}", q));
}

#[test]
fn empty_batch_gives_no_unit() {
    assert!(generate(vec![], "./types").unwrap().is_empty());
}

#[test]
fn one_query_gives_one_unit() {
    let q = query("GetUsers", "users.sql");
    let units = generate(vec![q.clone()], "./types").unwrap();
    assert_eq!(units.len(), 1);
    assert_eq!(units[0].name, "users.ts");
    assert_eq!(units[0].contents, format!("{}{}", PREAMBLE, block(&q)));
}

#[test]
fn units_come_in_the_order_in_which_their_files_first_occur() {
    let a1 = query("GetAlpha", "b.sql");
    let b1 = query("GetBeta", "a.sql");
    let a2 = query("InsertAlpha", "b.sql");
    let c1 = query("DeleteGamma", "c.sql");
    let b2 = query("UpdateBeta", "a.sql");
    let batch = vec![a1.clone(), b1.clone(), a2.clone(), c1.clone(), b2.clone()];
    let units = generate(batch, "./types").unwrap();
    assert_eq!(units.len(), 3);
    assert_eq!(units[0].name, "b.ts");
    assert_eq!(units[0].contents, format!("{}{}{}", PREAMBLE, block(&a1), block(&a2)));
    assert_eq!(units[1].name, "a.ts");
    assert_eq!(units[1].contents, format!("{}{}{}", PREAMBLE, block(&b1), block(&b2)));
    assert_eq!(units[2].name, "c.ts");
    assert_eq!(units[2].contents, format!("{}{}", PREAMBLE, block(&c1)));
}

#[test]
fn files_are_told_apart_by_their_source_names() {
    let with = query("GetWith", "a.sql");
    let without = query("GetWithout", "a");
    let units = generate(vec![with.clone(), without.clone()], "./types").unwrap();
    assert_eq!(units.len(), 2);
    assert_eq!(units[0].name, "a.ts");
    assert_eq!(units[0].contents, format!("{}{}", PREAMBLE, block(&with)));
    assert_eq!(units[1].name, "a.ts");
    assert_eq!(units[1].contents, format!("{}{}", PREAMBLE, block(&without)));
}

#[test]
fn unbound_parameter_aborts_the_whole_batch() {
    let good = query("GetUsers", "users.sql");
    let mut bad = query("GetOrders", "orders.sql");
    bad.params = vec![Parameter { number: 1, column: None }];
    let later = query("GetItems", "items.sql");
    let r = generate(vec![good, bad, later], "./types");
    assert!(matches!(
        r,
        Err(SerializeError::ParameterNameUnknown { index: 1, query: ref q }) if q == "GetOrders"
    ));
}

#[test]
fn first_failing_query_decides_the_error() {
    let good = query("GetUsers", "users.sql");
    let malformed = query("foo", "users.sql");
    let mut unknown_command = query("GetItems", "items.sql");
    unknown_command.cmd = ":batch".to_string();
    let r = generate(vec![good.clone(), malformed.clone(), unknown_command.clone()], "./types");
    assert!(matches!(
        r,
        Err(SerializeError::UnexpectedName(ParseNameError::Malformed(ref n))) if n == "foo"
    ));
    let r = generate(vec![unknown_command, good, malformed], "./types");
    assert!(matches!(r, Err(SerializeError::UnexpectedCommand(ref tag)) if tag == ":batch"));
}

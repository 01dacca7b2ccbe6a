use sqlc_generate_typescript_plugin::error::{ParseNameError, SerializeError};
use sqlc_generate_typescript_plugin::model::{Column, Parameter, Query};
use sqlc_generate_typescript_plugin::parameter::ParameterSerializeError;
use sqlc_generate_typescript_plugin::serialize::serialize;

const CONFIGURATION: &str =
    ", configuration?: { rowMode?: \"object\" | \"tuple\", integerMode?: \"number\" | \"bigint\" }\n";

const SUFFIXES: [&str; 4] = [
    "RecordRowModeObjectIntegerModeNumber",
    "RecordRowModeObjectIntegerModeBigInt",
    "RecordRowModeTupleIntegerModeNumber",
    "RecordRowModeTupleIntegerModeBigInt",
];

fn col(name: &str, declared: &str, not_null: bool) -> Column {
    Column {
        name: name.to_string(),
        declared_type: Some(declared.to_string()),
        not_null,
        comment: String::new(),
    }
}

fn bound(number: i32, column: Column) -> Parameter {
    Parameter { number, column: Some(column) }
}

fn unbound(number: i32) -> Parameter {
    Parameter { number, column: None }
}

fn query(name: &str, cmd: &str, params: Vec<Parameter>, columns: Vec<Column>) -> Query {
    Query {
        text: format!("SELECT 1 /* {} */", name),
        name: name.to_string(),
        cmd: cmd.to_string(),
        columns,
        params,
        filename: "queries.sql".to_string(),
    }
}

fn get_user_by_email() -> Query {
    Query {
        text: "SELECT id, name FROM users\nWHERE email = ?".to_string(),
        name: "GetUserByEmail".to_string(),
        cmd: ":one".to_string(),
        columns: vec![col("id", "integer", true), col("name", "text", false)],
        params: vec![bound(1, col("email", "text", true))],
        filename: "users.sql".to_string(),
    }
}

fn never_declarations(name: &str) -> String {
    let mut text = String::new();
    for suffix in SUFFIXES {
        text.push_str(&format!("type {}{} = never;\n", name, suffix));
    }
    text
}

fn return_type(name: &str, cardinality: &str, connection: &str) -> String {
    let mut lines = Vec::new();
    for suffix in SUFFIXES {
        lines.push(format!(
            "\t\t\t| BoundQuery<\"{}\", \"{}\", {}{}>",
            cardinality, connection, name, suffix
        ));
    }
    lines.join("\n")
}

fn text_of(q: Query) -> String {
    match serialize(q) {
        Ok(text) => text,
        Err(e) => panic!("not serialized: {:?}", e),
    }
}

#[test]
fn get_user_by_email_in_full() {
    let expected = [
        "type GetUserByEmailParametersNamed = {\n",
        "\t\"email\": string;\n",
        "};\n",
        "type GetUserByEmailParametersAnonymous = [\n",
        "\temail: string,\n",
        "];\n",
        "type GetUserByEmailRecordRowModeObjectIntegerModeNumber = {\n",
        "\t\"id\": number;\n",
        "\t\"name\": string | null;\n",
        "};\n",
        "type GetUserByEmailRecordRowModeObjectIntegerModeBigInt = {\n",
        "\t\"id\": bigint;\n",
        "\t\"name\": string | null;\n",
        "};\n",
        "type GetUserByEmailRecordRowModeTupleIntegerModeNumber = [\n",
        "\tid: number,\n",
        "\tname: string | null,\n",
        "];\n",
        "type GetUserByEmailRecordRowModeTupleIntegerModeBigInt = [\n",
        "\tid: bigint,\n",
        "\tname: string | null,\n",
        "];\n",
        "\n",
        "export const getUserByEmail: Query<\n",
        "\t\"one\",\n",
        "\t\"r\",\n",
        "\tGetUserByEmailParametersNamed,\n",
        "\tGetUserByEmailParametersAnonymous,\n",
        "\tGetUserByEmailRecordRowModeObjectIntegerModeNumber,\n",
        "\tGetUserByEmailRecordRowModeObjectIntegerModeBigInt,\n",
        "\tGetUserByEmailRecordRowModeTupleIntegerModeNumber,\n",
        "\tGetUserByEmailRecordRowModeTupleIntegerModeBigInt\n",
        "> = {\n",
        "\tname: \"GetUserByEmail\",\n",
        "\tquery: `-- name: GetUserByEmail :one\n",
        "SELECT id, name FROM users\nWHERE email = ?`,\n",
        "\tbind: {\n",
        "\t\tnamed: (\n",
        "\t\t\tparameters: GetUserByEmailParametersNamed, configuration?: { rowMode?: \"object\" | \"tuple\", integerMode?: \"number\" | \"bigint\" }\n",
        "\t\t):\n",
        "\t\t\t| BoundQuery<\"one\", \"r\", GetUserByEmailRecordRowModeObjectIntegerModeNumber>\n",
        "\t\t\t| BoundQuery<\"one\", \"r\", GetUserByEmailRecordRowModeObjectIntegerModeBigInt>\n",
        "\t\t\t| BoundQuery<\"one\", \"r\", GetUserByEmailRecordRowModeTupleIntegerModeNumber>\n",
        "\t\t\t| BoundQuery<\"one\", \"r\", GetUserByEmailRecordRowModeTupleIntegerModeBigInt> => {\n",
        "\t\t\treturn {\n",
        "\t\t\t\tname: getUserByEmail.name,\n",
        "\t\t\t\tquery: getUserByEmail.query,\n",
        "\t\t\t\tparameters: [\n",
        "\t\t\t\t\tparameters[\"email\"],\n",
        "\t\t\t\t],\n",
        "\t\t\t\trowMode: configuration?.rowMode ?? \"object\",\n",
        "\t\t\t\tintegerMode: configuration?.integerMode ?? \"number\",\n",
        "\t\t\t\tresultMode: \"one\",\n",
        "\t\t\t\tconnectionMode: \"r\",\n",
        "\t\t\t};\n",
        "\t\t},\n",
        "\t\tanonymous: (\n",
        "\t\t\tparameters: GetUserByEmailParametersAnonymous, configuration?: { rowMode?: \"object\" | \"tuple\", integerMode?: \"number\" | \"bigint\" }\n",
        "\t\t):\n",
        "\t\t\t| BoundQuery<\"one\", \"r\", GetUserByEmailRecordRowModeObjectIntegerModeNumber>\n",
        "\t\t\t| BoundQuery<\"one\", \"r\", GetUserByEmailRecordRowModeObjectIntegerModeBigInt>\n",
        "\t\t\t| BoundQuery<\"one\", \"r\", GetUserByEmailRecordRowModeTupleIntegerModeNumber>\n",
        "\t\t\t| BoundQuery<\"one\", \"r\", GetUserByEmailRecordRowModeTupleIntegerModeBigInt> => {\n",
        "\t\t\treturn {\n",
        "\t\t\t\tname: getUserByEmail.name,\n",
        "\t\t\t\tquery: getUserByEmail.query,\n",
        "\t\t\t\tparameters,\n",
        "\t\t\t\trowMode: configuration?.rowMode ?? \"object\",\n",
        "\t\t\t\tintegerMode: configuration?.integerMode ?? \"number\",\n",
        "\t\t\t\tresultMode: \"one\",\n",
        "\t\t\t\tconnectionMode: \"r\",\n",
        "\t\t\t};\n",
        "\t\t},\n",
        "\t}\n",
        "} as const;\n",
    ]
    .concat();
    assert_eq!(text_of(get_user_by_email()), expected);
}

#[test]
fn get_user_by_email_has_the_members_and_literals_it_should() {
    let text = text_of(get_user_by_email());
    assert!(text.contains("type GetUserByEmailParametersNamed = {\n\t\"email\": string;\n};\n"));
    assert!(text.contains("type GetUserByEmailParametersAnonymous = [\n\temail: string,\n];\n"));
    assert!(text.contains(
        "type GetUserByEmailRecordRowModeObjectIntegerModeNumber = {\n\t\"id\": number;\n\t\"name\": string | null;\n};\n"
    ));
    assert!(text.contains("export const getUserByEmail: Query<\n\t\"one\",\n\t\"r\",\n"));
    assert!(text.contains("\t\t\t\tresultMode: \"one\",\n\t\t\t\tconnectionMode: \"r\",\n"));
}

#[test]
fn exec_query_without_parameters_in_full() {
    let q = Query {
        text: "DELETE FROM sessions".to_string(),
        name: "DeleteSessions".to_string(),
        cmd: ":exec".to_string(),
        columns: vec![],
        params: vec![],
        filename: "sessions.sql".to_string(),
    };
    let union = return_type("DeleteSessions", "none", "w");
    let tail = [
        "\t\t\t\trowMode: configuration?.rowMode ?? \"object\",\n",
        "\t\t\t\tintegerMode: configuration?.integerMode ?? \"number\",\n",
        "\t\t\t\tresultMode: \"none\",\n",
        "\t\t\t\tconnectionMode: \"w\",\n",
        "\t\t\t};\n",
        "\t\t},\n",
    ]
    .concat();
    let expected = [
        "type DeleteSessionsParametersNamed = Record<string, never>;\n",
        "type DeleteSessionsParametersAnonymous = [];\n",
        never_declarations("DeleteSessions").as_str(),
        "\n",
        "export const deleteSessions: Query<\n",
        "\t\"none\",\n",
        "\t\"w\",\n",
        "\tDeleteSessionsParametersNamed,\n",
        "\tDeleteSessionsParametersAnonymous,\n",
        "\tDeleteSessionsRecordRowModeObjectIntegerModeNumber,\n",
        "\tDeleteSessionsRecordRowModeObjectIntegerModeBigInt,\n",
        "\tDeleteSessionsRecordRowModeTupleIntegerModeNumber,\n",
        "\tDeleteSessionsRecordRowModeTupleIntegerModeBigInt\n",
        "> = {\n",
        "\tname: \"DeleteSessions\",\n",
        "\tquery: `-- name: DeleteSessions :exec\nDELETE FROM sessions`,\n",
        "\tbind: {\n",
        "\t\tnamed: (\n",
        "\t\t\tparameters: DeleteSessionsParametersNamed",
        CONFIGURATION,
        "\t\t):\n",
        union.as_str(),
        " => {\n",
        "\t\t\treturn {\n",
        "\t\t\t\tname: deleteSessions.name,\n",
        "\t\t\t\tquery: deleteSessions.query,\n",
        "\t\t\t\tparameters: [\n",
        "\t\t\t\t],\n",
        tail.as_str(),
        "\t\tanonymous: (\n",
        "\t\t\tparameters: DeleteSessionsParametersAnonymous",
        CONFIGURATION,
        "\t\t):\n",
        union.as_str(),
        " => {\n",
        "\t\t\treturn {\n",
        "\t\t\t\tname: deleteSessions.name,\n",
        "\t\t\t\tquery: deleteSessions.query,\n",
        "\t\t\t\tparameters,\n",
        tail.as_str(),
        "\t}\n",
        "} as const;\n",
    ]
    .concat();
    assert_eq!(text_of(q), expected);
}

#[test]
fn anonymous_tuple_has_one_member_per_parameter_in_order() {
    let params = vec![
        bound(1, col("first", "text", true)),
        bound(2, col("second", "int", true)),
        bound(3, col("third", "blob", false)),
        bound(4, col("fourth", "json", true)),
    ];
    let text = text_of(query("GetThings", ":many", params, vec![col("id", "int", true)]));
    let tuple = [
        "type GetThingsParametersAnonymous = [\n",
        "\tfirst: string,\n",
        "\tsecond: number | bigint,\n",
        "\tthird: NodeJS.ArrayBufferView | null,\n",
        "\tfourth: any,\n",
        "];\n",
    ]
    .concat();
    assert!(text.contains(&tuple));
    let record = [
        "type GetThingsParametersNamed = {\n",
        "\t\"first\": string;\n",
        "\t\"second\": number | bigint;\n",
        "\t\"third\": NodeJS.ArrayBufferView | null;\n",
        "\t\"fourth\": any;\n",
        "};\n",
    ]
    .concat();
    assert!(text.starts_with(&record));
    let lookups = [
        "\t\t\t\tparameters: [\n",
        "\t\t\t\t\tparameters[\"first\"],\n",
        "\t\t\t\t\tparameters[\"second\"],\n",
        "\t\t\t\t\tparameters[\"third\"],\n",
        "\t\t\t\t\tparameters[\"fourth\"],\n",
        "\t\t\t\t],\n",
    ]
    .concat();
    assert!(text.contains(&lookups));
}

#[test]
fn parameters_keep_the_order_of_the_sequence_not_of_their_numbers() {
    let params = vec![bound(2, col("b", "text", true)), bound(1, col("a", "text", true))];
    let text = text_of(query("GetPair", ":one", params, vec![]));
    assert!(text.contains("type GetPairParametersAnonymous = [\n\tb: string,\n\ta: string,\n];\n"));
}

#[test]
fn query_without_columns_has_uninhabited_rows_for_every_command() {
    for (cmd, action) in [(":one", "Get"), (":many", "Get"), (":exec", "Insert")] {
        let name = format!("{}Nothing", action);
        let text = text_of(query(&name, cmd, vec![], vec![]));
        let expected = format!(
            "type {0}ParametersNamed = Record<string, never>;\ntype {0}ParametersAnonymous = [];\n{1}\nexport const ",
            name,
            never_declarations(&name)
        );
        assert!(text.starts_with(&expected), "{}", cmd);
    }
}

#[test]
fn exec_query_has_uninhabited_rows_even_with_columns() {
    let columns = vec![col("id", "int", true), col("name", "text", false)];
    let text = text_of(query("UpdateUser", ":exec", vec![], columns));
    let expected = format!(
        "type UpdateUserParametersNamed = Record<string, never>;\ntype UpdateUserParametersAnonymous = [];\n{}\nexport const updateUser: Query<\n\t\"none\",\n\t\"w\",\n",
        never_declarations("UpdateUser")
    );
    assert!(text.starts_with(&expected));
    assert!(!text.contains("\"id\""));
}

#[test]
fn many_query_with_columns_has_row_types() {
    let text = text_of(query("GetUsers", ":many", vec![], vec![col("id", "bigint", false)]));
    let expected = [
        "type GetUsersParametersNamed = Record<string, never>;\n",
        "type GetUsersParametersAnonymous = [];\n",
        "type GetUsersRecordRowModeObjectIntegerModeNumber = {\n\t\"id\": number | null;\n};\n",
        "type GetUsersRecordRowModeObjectIntegerModeBigInt = {\n\t\"id\": bigint | null;\n};\n",
        "type GetUsersRecordRowModeTupleIntegerModeNumber = [\n\tid: number | null,\n];\n",
        "type GetUsersRecordRowModeTupleIntegerModeBigInt = [\n\tid: bigint | null,\n];\n",
        "\nexport const getUsers: Query<\n\t\"many\",\n\t\"r\",\n",
    ]
    .concat();
    assert!(text.starts_with(&expected));
    assert!(text.contains("BoundQuery<\"many\", \"r\", GetUsersRecordRowModeTupleIntegerModeBigInt> => {\n"));
}

#[test]
fn write_actions_bind_to_a_write_connection() {
    for name in ["InsertUser", "UpdateUser", "UpsertUser", "DeleteUser"] {
        let text = text_of(query(name, ":one", vec![], vec![col("id", "int", true)]));
        assert!(text.contains(": Query<\n\t\"one\",\n\t\"w\",\n"), "{}", name);
        assert!(text.contains("\t\t\t\tconnectionMode: \"w\",\n"), "{}", name);
        assert!(!text.contains("\"r\""), "{}", name);
    }
}

#[test]
fn comments_are_attached_to_record_members() {
    let mut id = col("id", "int", true);
    id.comment = "row id".to_string();
    let mut email = col("email", "text", true);
    email.comment = "address to look up".to_string();
    let text = text_of(query("GetUser", ":one", vec![bound(1, email)], vec![id]));
    assert!(text.contains(
        "type GetUserParametersNamed = {\n\t/** address to look up */\n\t\"email\": string;\n};\n"
    ));
    assert!(text.contains("type GetUserParametersAnonymous = [\n\temail: string,\n];\n"));
    assert!(text.contains(
        "type GetUserRecordRowModeObjectIntegerModeBigInt = {\n\t/** row id */\n\t\"id\": bigint;\n};\n"
    ));
    assert!(text.contains("type GetUserRecordRowModeTupleIntegerModeNumber = [\n\tid: number,\n];\n"));
}

#[test]
fn sql_text_is_embedded_as_it_is() {
    let mut q = query("GetRaw", ":one", vec![], vec![]);
    q.text = "SELECT `a`, '${b}' \\ \"c\"\n\tFROM t -- done".to_string();
    let text = text_of(q);
    assert!(text.contains(
        "\tquery: `-- name: GetRaw :one\nSELECT `a`, '${b}' \\ \"c\"\n\tFROM t -- done`,\n"
    ));
}

#[test]
fn malformed_name_stops_the_query() {
    let r = serialize(query("foo", ":one", vec![], vec![]));
    assert!(matches!(
        r,
        Err(SerializeError::UnexpectedName(ParseNameError::Malformed(ref n))) if n == "foo"
    ));
}

#[test]
fn unknown_action_stops_the_query() {
    let r = serialize(query("FetchUser", ":one", vec![], vec![]));
    assert!(matches!(
        r,
        Err(SerializeError::UnexpectedName(ParseNameError::UnexpectedActionPrefix {
            name: ref n,
            prefix: ref p,
        })) if n == "FetchUser" && p == "Fetch"
    ));
}

#[test]
fn unknown_command_stops_the_query() {
    let r = serialize(query("GetUser", ":execrows", vec![], vec![]));
    assert!(matches!(r, Err(SerializeError::UnexpectedCommand(ref tag)) if tag == ":execrows"));
}

#[test]
fn unbound_parameter_stops_the_query() {
    let params = vec![bound(1, col("a", "int", true)), unbound(2), bound(3, col("c", "int", true))];
    let r = serialize(query("GetUser", ":one", params, vec![col("id", "int", true)]));
    assert!(matches!(
        r,
        Err(SerializeError::ParameterNameUnknown { index: 2, query: ref q }) if q == "GetUser"
    ));
}

#[test]
fn first_unbound_parameter_is_the_one_reported() {
    let params = vec![unbound(7), unbound(2), bound(3, col("c", "int", true))];
    let r = serialize(query("InsertUser", ":exec", params, vec![]));
    assert!(matches!(
        r,
        Err(SerializeError::ParameterNameUnknown { index: 7, query: ref q }) if q == "InsertUser"
    ));
}

#[test]
fn position_of_an_unbound_parameter_is_its_number_as_an_unsigned_integer() {
    let r = serialize(query("GetUser", ":one", vec![unbound(0)], vec![]));
    assert!(matches!(r, Err(SerializeError::ParameterNameUnknown { index: 0, .. })));
    let r = serialize(query("GetUser", ":one", vec![unbound(i32::MAX)], vec![]));
    assert!(matches!(r, Err(SerializeError::ParameterNameUnknown { index: 2147483647, .. })));
    let r = serialize(query("GetUser", ":one", vec![unbound(-1)], vec![]));
    assert!(matches!(
        r,
        Err(SerializeError::ParameterNameUnknown { index, .. }) if index == usize::MAX
    ));
}

#[test]
fn name_is_checked_before_command_and_command_before_parameters() {
    let r = serialize(query("foo", ":nope", vec![unbound(1)], vec![]));
    assert!(matches!(r, Err(SerializeError::UnexpectedName(ParseNameError::Malformed(_)))));
    let r = serialize(query("GetFoo", ":nope", vec![unbound(1)], vec![]));
    assert!(matches!(r, Err(SerializeError::UnexpectedCommand(ref tag)) if tag == ":nope"));
}

#[test]
fn contextualize_adds_the_query_name() {
    let q = query("GetUser", ":one", vec![], vec![]);
    let e = ParameterSerializeError::UnknownName { index: 4 }.contextualize(&q);
    assert!(matches!(
        e,
        SerializeError::ParameterNameUnknown { index: 4, query: ref name } if name == "GetUser"
    ));
}

#[test]
fn name_error_converts_into_serialize_error() {
    let e = SerializeError::from(ParseNameError::Malformed("foo".to_string()));
    assert!(matches!(
        e,
        SerializeError::UnexpectedName(ParseNameError::Malformed(ref n)) if n == "foo"
    ));
}

use kql_language_tools::{schema_to_json, Column, Function, Parameter, Schema, Table};

#[test]
fn test_schema_builder() {
    let schema = Schema::with_database("SecurityDB")
        .table(
            Table::new("SecurityEvent")
                .with_column("TimeGenerated", "datetime")
                .with_column("Account", "string")
                .with_column("EventID", "long")
                .with_column("Computer", "string"),
        )
        .table(
            Table::new("SigninLogs")
                .with_column("TimeGenerated", "datetime")
                .with_column("UserPrincipalName", "string")
                .with_column("IPAddress", "string")
                .with_column("ResultType", "string"),
        );

    assert_eq!(schema.database, Some("SecurityDB".to_string()));
    assert_eq!(schema.tables.len(), 2);
    assert_eq!(schema.tables[0].columns.len(), 4);
}

#[test]
fn test_schema_serialization() {
    let schema = Schema::new().table(
        Table::new("Test").with_column("Id", "long").with_column("Name", "string"),
    );

    let json = schema_to_json(&schema);
    let parsed: serde_json::Value = serde_json::from_str(&json).unwrap();

    let tables = parsed.get("tables").unwrap().as_array().unwrap();
    assert_eq!(tables.len(), 1);
    assert_eq!(tables[0].get("name").unwrap().as_str().unwrap(), "Test");
    assert_eq!(tables[0].get("columns").unwrap().as_array().unwrap().len(), 2);
}

#[test]
fn test_schema_json_exact_text() {
    let schema = Schema::new()
        .table(Table::new("T").with_column("A", "string"));
    assert_eq!(
        schema_to_json(&schema),
        "{\"tables\":[{\"name\":\"T\",\"columns\":[{\"name\":\"A\",\"data_type\":\"string\"}]}],\"functions\":[]}"
    );
}

#[test]
fn test_schema_json_database_and_function() {
    let schema = Schema::with_database("DB").function(
        Function::new("f", "long").param("x", "long").body("x + 1"),
    );
    assert_eq!(
        schema_to_json(&schema),
        "{\"database\":\"DB\",\"tables\":[],\"functions\":[{\"name\":\"f\",\"parameters\":[{\"name\":\"x\",\"data_type\":\"long\"}],\"return_type\":\"long\",\"body\":\"x + 1\"}]}"
    );
}

#[test]
fn test_schema_json_escapes_strings() {
    let schema = Schema::new().table(Table::new("a\"b\\c\nd\te\u{0001}f"));
    let json = schema_to_json(&schema);
    assert!(json.contains("a\\\"b\\\\c\\nd\\te\\u0001f"));
    // The escaped text must parse back to the original name.
    let parsed: serde_json::Value = serde_json::from_str(&json).unwrap();
    assert_eq!(
        parsed.get("tables").unwrap().as_array().unwrap()[0]
            .get("name")
            .unwrap()
            .as_str()
            .unwrap(),
        "a\"b\\c\nd\te\u{0001}f"
    );
}

#[test]
fn test_get_table_ignores_ascii_case() {
    let schema = Schema::new()
        .table(Table::new("SecurityEvent").with_column("TimeGenerated", "datetime"))
        .table(Table::new("Heartbeat"));
    assert!(schema.get_table("securityevent").is_some());
    assert_eq!(schema.get_table("HEARTBEAT").unwrap().name, "Heartbeat");
    assert!(schema.get_table("Missing").is_none());
}

#[test]
fn test_get_column_and_function() {
    let table = Table::new("T")
        .column(Column::string("Name"))
        .column(Column::long("Count"))
        .column(Column::datetime("When"));
    assert_eq!(table.get_column("name").unwrap().data_type, "string");
    assert_eq!(table.get_column("COUNT").unwrap().data_type, "long");
    assert!(table.get_column("Other").is_none());

    let schema = Schema::new().function(Function::new("myFunc", "string"));
    assert!(schema.get_function("MYFUNC").is_some());
    assert!(schema.get_function("other").is_none());
}

#[test]
fn test_column_constructors() {
    assert_eq!(Column::string("a").data_type, "string");
    assert_eq!(Column::long("a").data_type, "long");
    assert_eq!(Column::real_number("a").data_type, "real");
    assert_eq!(Column::bool("a").data_type, "bool");
    assert_eq!(Column::datetime("a").data_type, "datetime");
    assert_eq!(Column::timespan("a").data_type, "timespan");
    assert_eq!(Column::guid("a").data_type, "guid");
    assert_eq!(Column::dynamic("a").data_type, "dynamic");
}

#[test]
fn test_builders_and_mutators() {
    let mut schema = Schema::new();
    assert!(schema.is_empty());
    schema.add_table(Table::new("T"));
    schema.add_function(Function::new("f", "long"));
    assert!(!schema.is_empty());
    assert_eq!(schema.tables.len(), 1);
    assert_eq!(schema.functions.len(), 1);

    let mut table = Table::new("T");
    table.add_column(Column::new("c", "string").description("a column"));
    assert_eq!(table.columns.len(), 1);
    assert_eq!(table.columns[0].description.as_deref(), Some("a column"));

    let mut f = Function::new("f", "long").description("doc");
    f.add_parameter(Parameter::new("p", "string").default("'x'"));
    assert_eq!(f.parameters.len(), 1);
    assert_eq!(f.parameters[0].default_value.as_deref(), Some("'x'"));
    assert_eq!(f.description.as_deref(), Some("doc"));

    let t = Table::new("T").description("a table");
    assert_eq!(t.description.as_deref(), Some("a table"));
}

#[test]
fn test_lookup_returns_first_among_duplicates() {
    // Two tables whose names differ only in ASCII case: insertion order
    // decides which one a lookup returns.
    let schema = Schema::new()
        .table(Table::new("events").with_column("A", "string"))
        .table(Table::new("EVENTS").with_column("B", "long"));
    let t = schema.get_table("Events").unwrap();
    assert_eq!(t.name, "events");
    assert_eq!(t.columns[0].name, "A");

    let table = Table::new("T")
        .column(Column::string("dup"))
        .column(Column::long("DUP"));
    assert_eq!(table.get_column("Dup").unwrap().data_type, "string");

    let schema = Schema::new()
        .function(Function::new("f", "string"))
        .function(Function::new("F", "long"));
    assert_eq!(schema.get_function("f").unwrap().return_type, "string");
}

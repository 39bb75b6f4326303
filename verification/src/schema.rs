//! Schema types for semantic validation.
//!
//! These types describe the database schema a query is validated against:
//! tables with their columns, and user-defined functions with their
//! parameters. The schema crosses the native boundary as JSON text.

use vstd::prelude::*;

verus! {

use crate::strutil::eq_ignore_ascii_case;
use crate::strutil::spec_eq_ignore_ascii_case;
use crate::strutil::spec_utf8_bytes;
use vstd::string::StringExecFns;

/// Column definition.
#[derive(Clone, Debug)]
pub struct Column {
    /// Column name.
    pub name: String,
    /// KQL data type (string, long, datetime, dynamic, etc.).
    pub data_type: String,
    /// Optional column description.
    pub description: Option<String>,
}

/// Function parameter definition.
#[derive(Clone, Debug)]
pub struct Parameter {
    /// Parameter name.
    pub name: String,
    /// Parameter data type.
    pub data_type: String,
    /// Optional default value.
    pub default_value: Option<String>,
}

/// Table definition.
#[derive(Clone, Debug)]
pub struct Table {
    /// Table name.
    pub name: String,
    /// Table columns.
    pub columns: Vec<Column>,
    /// Optional table description.
    pub description: Option<String>,
}

/// User-defined function definition.
#[derive(Clone, Debug)]
pub struct Function {
    /// Function name.
    pub name: String,
    /// Parameter definitions.
    pub parameters: Vec<Parameter>,
    /// Return type.
    pub return_type: String,
    /// Optional function body (KQL expression).
    pub body: Option<String>,
    /// Optional description.
    pub description: Option<String>,
}

/// Database schema for semantic validation.
#[derive(Clone, Debug)]
pub struct Schema {
    /// Database name (optional).
    pub database: Option<String>,
    /// Tables in the schema.
    pub tables: Vec<Table>,
    /// User-defined functions.
    pub functions: Vec<Function>,
}

impl Schema {
    /// Create a new empty schema.
    pub fn new() -> (r: Schema)
        ensures
            r.database is None,
            r.tables@ =~= Seq::<Table>::empty(),
            r.functions@ =~= Seq::<Function>::empty(),
    {
        Schema { database: None, tables: Vec::new(), functions: Vec::new() }
    }

    /// Create a schema with a database name.
    pub fn with_database(database: &str) -> (r: Schema)
        ensures
            r.database matches Some(d) && d@ == database@,
            r.tables@ =~= Seq::<Table>::empty(),
            r.functions@ =~= Seq::<Function>::empty(),
    {
        Schema { database: Some(database.to_owned()), tables: Vec::new(), functions: Vec::new() }
    }

    /// Add a table to the schema.
    pub fn add_table(&mut self, table: Table)
        ensures
            final(self).tables@ == old(self).tables@.push(table),
            final(self).database == old(self).database,
            final(self).functions == old(self).functions,
    {
        self.tables.push(table);
    }

    /// Add a function to the schema.
    pub fn add_function(&mut self, function: Function)
        ensures
            final(self).functions@ == old(self).functions@.push(function),
            final(self).database == old(self).database,
            final(self).tables == old(self).tables,
    {
        self.functions.push(function);
    }

    /// Builder method to add a table.
    pub fn table(self, table: Table) -> (r: Schema)
        ensures
            r.tables@ == self.tables@.push(table),
            r.database == self.database,
            r.functions == self.functions,
    {
        let mut s = self;
        s.tables.push(table);
        s
    }

    /// Builder method to add a function.
    pub fn function(self, function: Function) -> (r: Schema)
        ensures
            r.functions@ == self.functions@.push(function),
            r.database == self.database,
            r.tables == self.tables,
    {
        let mut s = self;
        s.functions.push(function);
        s
    }

    /// Check if the schema is empty.
    pub fn is_empty(&self) -> (r: bool)
        ensures
            r == (self.tables@.len() == 0 && self.functions@.len() == 0),
    {
        self.tables.len() == 0 && self.functions.len() == 0
    }

    /// Get the first table whose name matches, ignoring ASCII case.
    pub fn get_table(&self, name: &str) -> (r: Option<&Table>)
        ensures
            r matches Some(t) ==> exists|i: int|
                0 <= i < self.tables@.len() && *t == self.tables@[i] && spec_eq_ignore_ascii_case(
                    spec_utf8_bytes((#[trigger] self.tables@[i]).name@),
                    spec_utf8_bytes(name@),
                ) && (forall|j: int|
                    0 <= j < i ==> !spec_eq_ignore_ascii_case(
                        spec_utf8_bytes((#[trigger] self.tables@[j]).name@),
                        spec_utf8_bytes(name@),
                    )),
            r is None ==> forall|i: int|
                0 <= i < self.tables@.len() ==> !spec_eq_ignore_ascii_case(
                    spec_utf8_bytes((#[trigger] self.tables@[i]).name@),
                    spec_utf8_bytes(name@),
                ),
    {
        let n = self.tables.len();
        let mut i: usize = 0;
        while i < n
            invariant
                n == self.tables@.len(),
                0 <= i <= n,
                forall|j: int|
                    0 <= j < i ==> !spec_eq_ignore_ascii_case(
                        spec_utf8_bytes((#[trigger] self.tables@[j]).name@),
                        spec_utf8_bytes(name@),
                    ),
            decreases n - i,
        {
            if eq_ignore_ascii_case(self.tables[i].name.as_str(), name) {
                return Some(&self.tables[i]);
            }
            i = i + 1;
        }
        None
    }

    /// Get the first function whose name matches, ignoring ASCII case.
    pub fn get_function(&self, name: &str) -> (r: Option<&Function>)
        ensures
            r matches Some(f) ==> exists|i: int|
                0 <= i < self.functions@.len() && *f == self.functions@[i]
                    && spec_eq_ignore_ascii_case(
                    spec_utf8_bytes((#[trigger] self.functions@[i]).name@),
                    spec_utf8_bytes(name@),
                ) && (forall|j: int|
                    0 <= j < i ==> !spec_eq_ignore_ascii_case(
                        spec_utf8_bytes((#[trigger] self.functions@[j]).name@),
                        spec_utf8_bytes(name@),
                    )),
            r is None ==> forall|i: int|
                0 <= i < self.functions@.len() ==> !spec_eq_ignore_ascii_case(
                    spec_utf8_bytes((#[trigger] self.functions@[i]).name@),
                    spec_utf8_bytes(name@),
                ),
    {
        let n = self.functions.len();
        let mut i: usize = 0;
        while i < n
            invariant
                n == self.functions@.len(),
                0 <= i <= n,
                forall|j: int|
                    0 <= j < i ==> !spec_eq_ignore_ascii_case(
                        spec_utf8_bytes((#[trigger] self.functions@[j]).name@),
                        spec_utf8_bytes(name@),
                    ),
            decreases n - i,
        {
            if eq_ignore_ascii_case(self.functions[i].name.as_str(), name) {
                return Some(&self.functions[i]);
            }
            i = i + 1;
        }
        None
    }
}

impl Table {
    /// Create a new table with the given name.
    pub fn new(name: &str) -> (r: Table)
        ensures
            r.name@ == name@,
            r.columns@ =~= Seq::<Column>::empty(),
            r.description is None,
    {
        Table { name: name.to_owned(), columns: Vec::new(), description: None }
    }

    /// Add a column to the table.
    pub fn add_column(&mut self, column: Column)
        ensures
            final(self).columns@ == old(self).columns@.push(column),
            final(self).name == old(self).name,
            final(self).description == old(self).description,
    {
        self.columns.push(column);
    }

    /// Builder method to add a column.
    pub fn column(self, column: Column) -> (r: Table)
        ensures
            r.columns@ == self.columns@.push(column),
            r.name == self.name,
            r.description == self.description,
    {
        let mut t = self;
        t.columns.push(column);
        t
    }

    /// Builder method to add a column with name and type.
    pub fn with_column(self, name: &str, data_type: &str) -> (r: Table)
        ensures
            r.columns@.len() == self.columns@.len() + 1,
            r.columns@.subrange(0, self.columns@.len() as int) == self.columns@,
            r.columns@.last().name@ == name@,
            r.columns@.last().data_type@ == data_type@,
            r.columns@.last().description is None,
            r.name == self.name,
            r.description == self.description,
    {
        let mut t = self;
        t.columns.push(Column::new(name, data_type));
        proof {
            assert(t.columns@.subrange(0, t.columns@.len() - 1) =~= self.columns@);
        }
        t
    }

    /// Set the description.
    pub fn description(self, desc: &str) -> (r: Table)
        ensures
            r.description matches Some(d) && d@ == desc@,
            r.name == self.name,
            r.columns == self.columns,
    {
        let mut t = self;
        t.description = Some(desc.to_owned());
        t
    }

    /// Get the first column whose name matches, ignoring ASCII case.
    pub fn get_column(&self, name: &str) -> (r: Option<&Column>)
        ensures
            r matches Some(c) ==> exists|i: int|
                0 <= i < self.columns@.len() && *c == self.columns@[i] && spec_eq_ignore_ascii_case(
                    spec_utf8_bytes((#[trigger] self.columns@[i]).name@),
                    spec_utf8_bytes(name@),
                ) && (forall|j: int|
                    0 <= j < i ==> !spec_eq_ignore_ascii_case(
                        spec_utf8_bytes((#[trigger] self.columns@[j]).name@),
                        spec_utf8_bytes(name@),
                    )),
            r is None ==> forall|i: int|
                0 <= i < self.columns@.len() ==> !spec_eq_ignore_ascii_case(
                    spec_utf8_bytes((#[trigger] self.columns@[i]).name@),
                    spec_utf8_bytes(name@),
                ),
    {
        let n = self.columns.len();
        let mut i: usize = 0;
        while i < n
            invariant
                n == self.columns@.len(),
                0 <= i <= n,
                forall|j: int|
                    0 <= j < i ==> !spec_eq_ignore_ascii_case(
                        spec_utf8_bytes((#[trigger] self.columns@[j]).name@),
                        spec_utf8_bytes(name@),
                    ),
            decreases n - i,
        {
            if eq_ignore_ascii_case(self.columns[i].name.as_str(), name) {
                return Some(&self.columns[i]);
            }
            i = i + 1;
        }
        None
    }
}

impl Column {
    /// Create a new column.
    pub fn new(name: &str, data_type: &str) -> (r: Column)
        ensures
            r.name@ == name@,
            r.data_type@ == data_type@,
            r.description is None,
    {
        Column { name: name.to_owned(), data_type: data_type.to_owned(), description: None }
    }

    /// Set the description.
    pub fn description(self, desc: &str) -> (r: Column)
        ensures
            r.description matches Some(d) && d@ == desc@,
            r.name == self.name,
            r.data_type == self.data_type,
    {
        let mut c = self;
        c.description = Some(desc.to_owned());
        c
    }

    /// Create a string column.
    pub fn string(name: &str) -> (r: Column)
        ensures
            r.name@ == name@ && r.data_type@ == "string"@ && r.description is None,
    {
        Column::new(name, "string")
    }

    /// Create a long column.
    pub fn long(name: &str) -> (r: Column)
        ensures
            r.name@ == name@ && r.data_type@ == "long"@ && r.description is None,
    {
        Column::new(name, "long")
    }

    /// Create a real column.
    pub fn real_number(name: &str) -> (r: Column)
        ensures
            r.name@ == name@ && r.data_type@ == "real"@ && r.description is None,
    {
        Column::new(name, "real")
    }

    /// Create a bool column.
    pub fn bool(name: &str) -> (r: Column)
        ensures
            r.name@ == name@ && r.data_type@ == "bool"@ && r.description is None,
    {
        Column::new(name, "bool")
    }

    /// Create a datetime column.
    pub fn datetime(name: &str) -> (r: Column)
        ensures
            r.name@ == name@ && r.data_type@ == "datetime"@ && r.description is None,
    {
        Column::new(name, "datetime")
    }

    /// Create a timespan column.
    pub fn timespan(name: &str) -> (r: Column)
        ensures
            r.name@ == name@ && r.data_type@ == "timespan"@ && r.description is None,
    {
        Column::new(name, "timespan")
    }

    /// Create a guid column.
    pub fn guid(name: &str) -> (r: Column)
        ensures
            r.name@ == name@ && r.data_type@ == "guid"@ && r.description is None,
    {
        Column::new(name, "guid")
    }

    /// Create a dynamic column.
    pub fn dynamic(name: &str) -> (r: Column)
        ensures
            r.name@ == name@ && r.data_type@ == "dynamic"@ && r.description is None,
    {
        Column::new(name, "dynamic")
    }
}

impl Function {
    /// Create a new function.
    pub fn new(name: &str, return_type: &str) -> (r: Function)
        ensures
            r.name@ == name@,
            r.parameters@ =~= Seq::<Parameter>::empty(),
            r.return_type@ == return_type@,
            r.body is None,
            r.description is None,
    {
        Function {
            name: name.to_owned(),
            parameters: Vec::new(),
            return_type: return_type.to_owned(),
            body: None,
            description: None,
        }
    }

    /// Add a parameter.
    pub fn add_parameter(&mut self, param: Parameter)
        ensures
            final(self).parameters@ == old(self).parameters@.push(param),
            final(self).name == old(self).name,
            final(self).return_type == old(self).return_type,
            final(self).body == old(self).body,
            final(self).description == old(self).description,
    {
        self.parameters.push(param);
    }

    /// Builder method to add a parameter.
    pub fn param(self, name: &str, data_type: &str) -> (r: Function)
        ensures
            r.parameters@.len() == self.parameters@.len() + 1,
            r.parameters@.subrange(0, self.parameters@.len() as int) == self.parameters@,
            r.parameters@.last().name@ == name@,
            r.parameters@.last().data_type@ == data_type@,
            r.parameters@.last().default_value is None,
            r.name == self.name,
            r.return_type == self.return_type,
            r.body == self.body,
            r.description == self.description,
    {
        let mut f = self;
        f.parameters.push(Parameter::new(name, data_type));
        proof {
            assert(f.parameters@.subrange(0, f.parameters@.len() - 1) =~= self.parameters@);
        }
        f
    }

    /// Set the function body.
    pub fn body(self, body: &str) -> (r: Function)
        ensures
            r.body matches Some(b) && b@ == body@,
            r.name == self.name,
            r.parameters == self.parameters,
            r.return_type == self.return_type,
            r.description == self.description,
    {
        let mut f = self;
        f.body = Some(body.to_owned());
        f
    }

    /// Set the description.
    pub fn description(self, desc: &str) -> (r: Function)
        ensures
            r.description matches Some(d) && d@ == desc@,
            r.name == self.name,
            r.parameters == self.parameters,
            r.return_type == self.return_type,
            r.body == self.body,
    {
        let mut f = self;
        f.description = Some(desc.to_owned());
        f
    }
}

impl Parameter {
    /// Create a new parameter.
    pub fn new(name: &str, data_type: &str) -> (r: Parameter)
        ensures
            r.name@ == name@,
            r.data_type@ == data_type@,
            r.default_value is None,
    {
        Parameter { name: name.to_owned(), data_type: data_type.to_owned(), default_value: None }
    }

    /// Set a default value.
    pub fn default(self, value: &str) -> (r: Parameter)
        ensures
            r.default_value matches Some(v) && v@ == value@,
            r.name == self.name,
            r.data_type == self.data_type,
    {
        let mut p = self;
        p.default_value = Some(value.to_owned());
        p
    }
}

} // verus!

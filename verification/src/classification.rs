//! Classification spans for syntax highlighting.
//!
//! The native engine names each span's kind with a fixed wire name; the
//! kinds themselves are defined by the engine and only carried here.

use vstd::prelude::*;

verus! {

use crate::strutil::str_eq;

/// Classification kind for syntax highlighting.
#[derive(Clone, Copy, Debug, PartialEq, Eq, Structural)]
pub enum ClassificationKind {
    /// Plain text (no special highlighting).
    PlainText,
    /// A comment.
    Comment,
    /// Punctuation characters.
    Punctuation,
    /// A directive.
    Directive,
    /// A non-string literal (number, boolean, etc.).
    Literal,
    /// A string literal.
    StringLiteral,
    /// A type name.
    Type,
    /// An identifier.
    Identifier,
    /// A column name.
    Column,
    /// A table name.
    Table,
    /// A database name.
    Database,
    /// A scalar function.
    ScalarFunction,
    /// An aggregate function.
    AggregateFunction,
    /// A keyword.
    Keyword,
    /// An operator.
    Operator,
    /// A variable.
    Variable,
    /// A parameter.
    Parameter,
    /// A command keyword.
    CommandKeyword,
    /// A query operator (pipe operators).
    QueryOperator,
    /// A scalar operator (mathematical/logical operators).
    ScalarOperator,
    /// A materializable expression.
    MaterializedViewFunction,
    /// Plugin name.
    Plugin,
    /// Option name.
    Option,
    /// Client directive.
    ClientDirective,
    /// Query parameter.
    QueryParameter,
    /// Cluster name.
    Cluster,
}

/// The classification kind a wire name denotes, if it is one of the fixed
/// names.
pub open spec fn spec_classification_strict(s: Seq<char>) -> Option<ClassificationKind> {
    if s == "PlainText"@ {
        Some(ClassificationKind::PlainText)
    } else if s == "Comment"@ {
        Some(ClassificationKind::Comment)
    } else if s == "Punctuation"@ {
        Some(ClassificationKind::Punctuation)
    } else if s == "Directive"@ {
        Some(ClassificationKind::Directive)
    } else if s == "Literal"@ {
        Some(ClassificationKind::Literal)
    } else if s == "StringLiteral"@ {
        Some(ClassificationKind::StringLiteral)
    } else if s == "Type"@ {
        Some(ClassificationKind::Type)
    } else if s == "Identifier"@ {
        Some(ClassificationKind::Identifier)
    } else if s == "Column"@ {
        Some(ClassificationKind::Column)
    } else if s == "Table"@ {
        Some(ClassificationKind::Table)
    } else if s == "Database"@ {
        Some(ClassificationKind::Database)
    } else if s == "ScalarFunction"@ {
        Some(ClassificationKind::ScalarFunction)
    } else if s == "AggregateFunction"@ {
        Some(ClassificationKind::AggregateFunction)
    } else if s == "Keyword"@ {
        Some(ClassificationKind::Keyword)
    } else if s == "Operator"@ {
        Some(ClassificationKind::Operator)
    } else if s == "Variable"@ {
        Some(ClassificationKind::Variable)
    } else if s == "Parameter"@ {
        Some(ClassificationKind::Parameter)
    } else if s == "CommandKeyword"@ {
        Some(ClassificationKind::CommandKeyword)
    } else if s == "QueryOperator"@ {
        Some(ClassificationKind::QueryOperator)
    } else if s == "ScalarOperator"@ {
        Some(ClassificationKind::ScalarOperator)
    } else if s == "MaterializedViewFunction"@ {
        Some(ClassificationKind::MaterializedViewFunction)
    } else if s == "Plugin"@ {
        Some(ClassificationKind::Plugin)
    } else if s == "Option"@ {
        Some(ClassificationKind::Option)
    } else if s == "ClientDirective"@ {
        Some(ClassificationKind::ClientDirective)
    } else if s == "QueryParameter"@ {
        Some(ClassificationKind::QueryParameter)
    } else if s == "Cluster"@ {
        Some(ClassificationKind::Cluster)
    } else {
        None
    }
}

/// The kind a name parses to: its wire meaning where it has one, plain text
/// for everything else.
pub open spec fn spec_classification_parsed(s: Seq<char>) -> ClassificationKind {
    match spec_classification_strict(s) {
        Some(k) => k,
        None => ClassificationKind::PlainText,
    }
}

impl ClassificationKind {
    /// Map one of the fixed wire names to its kind; any other name is
    /// rejected, as the payload decoder demands.
    pub fn from_wire_name(s: &str) -> (r: Option<ClassificationKind>)
        ensures
            r == spec_classification_strict(s@),
    {
        if str_eq(s, "PlainText") {
            Some(ClassificationKind::PlainText)
        } else if str_eq(s, "Comment") {
            Some(ClassificationKind::Comment)
        } else if str_eq(s, "Punctuation") {
            Some(ClassificationKind::Punctuation)
        } else if str_eq(s, "Directive") {
            Some(ClassificationKind::Directive)
        } else if str_eq(s, "Literal") {
            Some(ClassificationKind::Literal)
        } else if str_eq(s, "StringLiteral") {
            Some(ClassificationKind::StringLiteral)
        } else if str_eq(s, "Type") {
            Some(ClassificationKind::Type)
        } else if str_eq(s, "Identifier") {
            Some(ClassificationKind::Identifier)
        } else if str_eq(s, "Column") {
            Some(ClassificationKind::Column)
        } else if str_eq(s, "Table") {
            Some(ClassificationKind::Table)
        } else if str_eq(s, "Database") {
            Some(ClassificationKind::Database)
        } else if str_eq(s, "ScalarFunction") {
            Some(ClassificationKind::ScalarFunction)
        } else if str_eq(s, "AggregateFunction") {
            Some(ClassificationKind::AggregateFunction)
        } else if str_eq(s, "Keyword") {
            Some(ClassificationKind::Keyword)
        } else if str_eq(s, "Operator") {
            Some(ClassificationKind::Operator)
        } else if str_eq(s, "Variable") {
            Some(ClassificationKind::Variable)
        } else if str_eq(s, "Parameter") {
            Some(ClassificationKind::Parameter)
        } else if str_eq(s, "CommandKeyword") {
            Some(ClassificationKind::CommandKeyword)
        } else if str_eq(s, "QueryOperator") {
            Some(ClassificationKind::QueryOperator)
        } else if str_eq(s, "ScalarOperator") {
            Some(ClassificationKind::ScalarOperator)
        } else if str_eq(s, "MaterializedViewFunction") {
            Some(ClassificationKind::MaterializedViewFunction)
        } else if str_eq(s, "Plugin") {
            Some(ClassificationKind::Plugin)
        } else if str_eq(s, "Option") {
            Some(ClassificationKind::Option)
        } else if str_eq(s, "ClientDirective") {
            Some(ClassificationKind::ClientDirective)
        } else if str_eq(s, "QueryParameter") {
            Some(ClassificationKind::QueryParameter)
        } else if str_eq(s, "Cluster") {
            Some(ClassificationKind::Cluster)
        } else {
            None
        }
    }

    /// Parse from a string; names outside the fixed set fall back to plain
    /// text.
    pub fn parse(s: &str) -> (r: ClassificationKind)
        ensures
            r == spec_classification_parsed(s@),
    {
        match ClassificationKind::from_wire_name(s) {
            Some(k) => k,
            None => ClassificationKind::PlainText,
        }
    }
}

/// A classified span for syntax highlighting.
#[derive(Clone, Copy, Debug, PartialEq, Eq, Structural)]
pub struct ClassifiedSpan {
    /// Start offset (0-based).
    pub start: usize,
    /// Length of the span.
    pub length: usize,
    /// Classification kind.
    pub kind: ClassificationKind,
}

/// Result of syntax classification.
#[derive(Clone, Debug)]
pub struct ClassificationResult {
    /// Classified spans.
    pub spans: Vec<ClassifiedSpan>,
}

impl ClassificationResult {
    /// The empty classification, carrying no spans.
    pub fn empty() -> (r: ClassificationResult)
        ensures
            r.spans@ =~= Seq::<ClassifiedSpan>::empty(),
    {
        ClassificationResult { spans: Vec::new() }
    }
}

} // verus!

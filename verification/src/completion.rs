//! Completion items returned for a cursor position.
//!
//! The native engine names each item's kind with a fixed wire name; the
//! kinds themselves are defined by the engine and only carried here.

use vstd::prelude::*;

verus! {

use crate::strutil::str_eq;

/// Kind of completion item.
#[derive(Clone, Copy, Debug, PartialEq, Eq, Structural)]
pub enum CompletionKind {
    /// A keyword.
    Keyword,
    /// A function.
    Function,
    /// An aggregate function.
    AggregateFunction,
    /// A table.
    Table,
    /// A column.
    Column,
    /// A variable.
    Variable,
    /// An operator.
    Operator,
    /// A parameter.
    Parameter,
    /// A database.
    Database,
    /// A cluster.
    Cluster,
    /// A type.
    Type,
    /// Punctuation (brackets, commas, etc.).
    Punctuation,
    /// Other/unknown.
    Other,
}

/// The completion kind a wire name denotes, if it is one of the fixed
/// names.
pub open spec fn spec_completion_kind_strict(s: Seq<char>) -> Option<CompletionKind> {
    if s == "Keyword"@ {
        Some(CompletionKind::Keyword)
    } else if s == "Function"@ {
        Some(CompletionKind::Function)
    } else if s == "AggregateFunction"@ {
        Some(CompletionKind::AggregateFunction)
    } else if s == "Table"@ {
        Some(CompletionKind::Table)
    } else if s == "Column"@ {
        Some(CompletionKind::Column)
    } else if s == "Variable"@ {
        Some(CompletionKind::Variable)
    } else if s == "Operator"@ {
        Some(CompletionKind::Operator)
    } else if s == "Parameter"@ {
        Some(CompletionKind::Parameter)
    } else if s == "Database"@ {
        Some(CompletionKind::Database)
    } else if s == "Cluster"@ {
        Some(CompletionKind::Cluster)
    } else if s == "Type"@ {
        Some(CompletionKind::Type)
    } else if s == "Punctuation"@ {
        Some(CompletionKind::Punctuation)
    } else if s == "Other"@ {
        Some(CompletionKind::Other)
    } else {
        None
    }
}

impl CompletionKind {
    /// Map one of the fixed wire names to its kind; any other name is
    /// rejected, as the payload decoder demands.
    pub fn from_wire_name(s: &str) -> (r: Option<CompletionKind>)
        ensures
            r == spec_completion_kind_strict(s@),
    {
        if str_eq(s, "Keyword") {
            Some(CompletionKind::Keyword)
        } else if str_eq(s, "Function") {
            Some(CompletionKind::Function)
        } else if str_eq(s, "AggregateFunction") {
            Some(CompletionKind::AggregateFunction)
        } else if str_eq(s, "Table") {
            Some(CompletionKind::Table)
        } else if str_eq(s, "Column") {
            Some(CompletionKind::Column)
        } else if str_eq(s, "Variable") {
            Some(CompletionKind::Variable)
        } else if str_eq(s, "Operator") {
            Some(CompletionKind::Operator)
        } else if str_eq(s, "Parameter") {
            Some(CompletionKind::Parameter)
        } else if str_eq(s, "Database") {
            Some(CompletionKind::Database)
        } else if str_eq(s, "Cluster") {
            Some(CompletionKind::Cluster)
        } else if str_eq(s, "Type") {
            Some(CompletionKind::Type)
        } else if str_eq(s, "Punctuation") {
            Some(CompletionKind::Punctuation)
        } else if str_eq(s, "Other") {
            Some(CompletionKind::Other)
        } else {
            None
        }
    }
}

/// A completion item.
#[derive(Debug)]
pub struct CompletionItem {
    /// Display label.
    pub label: String,
    /// Kind of completion.
    pub kind: CompletionKind,
    /// Optional detail text.
    pub detail: Option<String>,
    /// Text to insert, if different from the label.
    pub insert_text: Option<String>,
    /// Sort order (lower means higher priority).
    pub sort_order: i32,
    /// Character position where replacement should start.
    pub edit_start: usize,
}

impl Clone for CompletionItem {
    fn clone(&self) -> (r: Self)
        ensures
            r == self,
    {
        CompletionItem {
            label: self.label.clone(),
            kind: self.kind,
            detail: match &self.detail {
                Some(d) => Some(d.clone()),
                None => None,
            },
            insert_text: match &self.insert_text {
                Some(t) => Some(t.clone()),
                None => None,
            },
            sort_order: self.sort_order,
            edit_start: self.edit_start,
        }
    }
}

/// Result of a completion request.
#[derive(Clone, Debug)]
pub struct CompletionResult {
    /// Completion items.
    pub items: Vec<CompletionItem>,
}

impl CompletionResult {
    /// The empty completion result, carrying no items.
    pub fn empty() -> (r: CompletionResult)
        ensures
            r.items@ =~= Seq::<CompletionItem>::empty(),
    {
        CompletionResult { items: Vec::new() }
    }
}

} // verus!

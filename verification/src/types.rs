//! Validation results and diagnostics returned by the native engine.

use vstd::prelude::*;

verus! {

use crate::strutil::eq_ignore_ascii_case;
use crate::strutil::spec_eq_ignore_ascii_case;
use crate::strutil::str_eq;
use vstd::string::StringSliceAdditionalSpecFns;

/// Severity level of a diagnostic.
#[derive(Clone, Copy, Debug, PartialEq, Eq, Structural)]
pub enum DiagnosticSeverity {
    /// An error that prevents the query from being valid.
    Error,
    /// A warning about potential issues.
    Warning,
    /// Informational message.
    Information,
    /// A hint or suggestion.
    Hint,
}

/// The severity a free-form name maps to, compared ignoring ASCII case;
/// unrecognised names map to the error severity.
pub open spec fn spec_severity_parsed(b: Seq<u8>) -> DiagnosticSeverity {
    if spec_eq_ignore_ascii_case(b, "warning".spec_bytes()) {
        DiagnosticSeverity::Warning
    } else if spec_eq_ignore_ascii_case(b, "information".spec_bytes()) || spec_eq_ignore_ascii_case(
        b,
        "info".spec_bytes(),
    ) {
        DiagnosticSeverity::Information
    } else if spec_eq_ignore_ascii_case(b, "hint".spec_bytes()) || spec_eq_ignore_ascii_case(
        b,
        "suggestion".spec_bytes(),
    ) {
        DiagnosticSeverity::Hint
    } else {
        DiagnosticSeverity::Error
    }
}

/// The severity named by one of the four exact wire names, if any.
pub open spec fn spec_severity_strict(s: Seq<char>) -> Option<DiagnosticSeverity> {
    if s == "Error"@ {
        Some(DiagnosticSeverity::Error)
    } else if s == "Warning"@ {
        Some(DiagnosticSeverity::Warning)
    } else if s == "Information"@ {
        Some(DiagnosticSeverity::Information)
    } else if s == "Hint"@ {
        Some(DiagnosticSeverity::Hint)
    } else {
        None
    }
}

impl DiagnosticSeverity {
    /// Parse from a string, ignoring ASCII case; unknown values fall back
    /// to the error severity.
    pub fn parse(s: &str) -> (r: DiagnosticSeverity)
        ensures
            r == spec_severity_parsed(s.spec_bytes()),
    {
        if eq_ignore_ascii_case(s, "warning") {
            DiagnosticSeverity::Warning
        } else if eq_ignore_ascii_case(s, "information") || eq_ignore_ascii_case(s, "info") {
            DiagnosticSeverity::Information
        } else if eq_ignore_ascii_case(s, "hint") || eq_ignore_ascii_case(s, "suggestion") {
            DiagnosticSeverity::Hint
        } else {
            DiagnosticSeverity::Error
        }
    }

    /// The severity's display name.
    pub fn name(&self) -> (r: &'static str)
        ensures
            self is Error ==> r@ == "Error"@,
            self is Warning ==> r@ == "Warning"@,
            self is Information ==> r@ == "Information"@,
            self is Hint ==> r@ == "Hint"@,
    {
        match self {
            DiagnosticSeverity::Error => "Error",
            DiagnosticSeverity::Warning => "Warning",
            DiagnosticSeverity::Information => "Information",
            DiagnosticSeverity::Hint => "Hint",
        }
    }

    /// Map one of the four exact wire names to its severity; any other name
    /// is rejected, as the payload decoder demands.
    pub fn from_wire_name(s: &str) -> (r: Option<DiagnosticSeverity>)
        ensures
            r == spec_severity_strict(s@),
    {
        if str_eq(s, "Error") {
            Some(DiagnosticSeverity::Error)
        } else if str_eq(s, "Warning") {
            Some(DiagnosticSeverity::Warning)
        } else if str_eq(s, "Information") {
            Some(DiagnosticSeverity::Information)
        } else if str_eq(s, "Hint") {
            Some(DiagnosticSeverity::Hint)
        } else {
            None
        }
    }
}

/// A diagnostic message from validation.
#[derive(Debug)]
pub struct Diagnostic {
    /// The diagnostic message.
    pub message: String,
    /// Severity level.
    pub severity: DiagnosticSeverity,
    /// Start offset in the query (0-based, character position).
    pub start: usize,
    /// End offset in the query (0-based, character position).
    pub end: usize,
    /// Line number (1-based).
    pub line: usize,
    /// Column number (1-based).
    pub column: usize,
    /// Error/warning code, if available.
    pub code: Option<String>,
}

impl Clone for Diagnostic {
    fn clone(&self) -> (r: Self)
        ensures
            r == self,
    {
        Diagnostic {
            message: self.message.clone(),
            severity: self.severity,
            start: self.start,
            end: self.end,
            line: self.line,
            column: self.column,
            code: match &self.code {
                Some(c) => Some(c.clone()),
                None => None,
            },
        }
    }
}

impl Diagnostic {
    /// Get the length of the diagnostic span, zero when the ends cross.
    pub fn length(&self) -> (r: usize)
        ensures
            r == if self.end >= self.start {
                self.end - self.start
            } else {
                0
            },
    {
        if self.end >= self.start {
            self.end - self.start
        } else {
            0
        }
    }

    /// Check if this is an error.
    pub fn is_error(&self) -> (r: bool)
        ensures
            r == (self.severity is Error),
    {
        self.severity == DiagnosticSeverity::Error
    }

    /// Check if this is a warning.
    pub fn is_warning(&self) -> (r: bool)
        ensures
            r == (self.severity is Warning),
    {
        self.severity == DiagnosticSeverity::Warning
    }
}

/// Whether any diagnostic in the sequence has the error severity.
pub open spec fn spec_has_errors(diags: Seq<Diagnostic>) -> bool {
    exists|i: int| 0 <= i < diags.len() && (#[trigger] diags[i].severity) is Error
}

/// Whether any diagnostic in the sequence has the warning severity.
pub open spec fn spec_has_warnings(diags: Seq<Diagnostic>) -> bool {
    exists|i: int| 0 <= i < diags.len() && (#[trigger] diags[i].severity) is Warning
}

/// Result of validating a query.
#[derive(Clone, Debug)]
pub struct ValidationResult {
    /// Whether the engine judged the query valid (no errors).
    pub valid: bool,
    /// Diagnostics (errors and warnings).
    pub diagnostics: Vec<Diagnostic>,
}

impl ValidationResult {
    /// Create a valid result with no diagnostics.
    pub fn valid() -> (r: ValidationResult)
        ensures
            r.valid == true,
            r.diagnostics@ =~= Seq::<Diagnostic>::empty(),
    {
        ValidationResult { valid: true, diagnostics: Vec::new() }
    }

    /// Create an invalid result with the given diagnostics.
    pub fn invalid(diagnostics: Vec<Diagnostic>) -> (r: ValidationResult)
        ensures
            r.valid == false,
            r.diagnostics@ == diagnostics@,
    {
        ValidationResult { valid: false, diagnostics }
    }

    /// Check if the validation passed: the engine's verdict was positive and
    /// no diagnostic carries the error severity.
    pub fn is_valid(&self) -> (r: bool)
        ensures
            r == (self.valid && !spec_has_errors(self.diagnostics@)),
    {
        self.valid && !self.has_errors()
    }

    /// Check if there are any errors.
    pub fn has_errors(&self) -> (r: bool)
        ensures
            r == spec_has_errors(self.diagnostics@),
    {
        let n = self.diagnostics.len();
        let mut i: usize = 0;
        while i < n
            invariant
                n == self.diagnostics@.len(),
                0 <= i <= n,
                forall|j: int| 0 <= j < i ==> !((#[trigger] self.diagnostics@[j].severity)
                    is Error),
            decreases n - i,
        {
            if self.diagnostics[i].is_error() {
                return true;
            }
            i = i + 1;
        }
        false
    }

    /// Check if there are any warnings.
    pub fn has_warnings(&self) -> (r: bool)
        ensures
            r == spec_has_warnings(self.diagnostics@),
    {
        let n = self.diagnostics.len();
        let mut i: usize = 0;
        while i < n
            invariant
                n == self.diagnostics@.len(),
                0 <= i <= n,
                forall|j: int| 0 <= j < i ==> !((#[trigger] self.diagnostics@[j].severity)
                    is Warning),
            decreases n - i,
        {
            if self.diagnostics[i].is_warning() {
                return true;
            }
            i = i + 1;
        }
        false
    }

    /// Get all diagnostics.
    pub fn diagnostics(&self) -> (r: &[Diagnostic])
        ensures
            r@ == self.diagnostics@,
    {
        self.diagnostics.as_slice()
    }

    /// Get only the diagnostics with the error severity, in order.
    pub fn errors(&self) -> (r: Vec<Diagnostic>)
        ensures
            r@ == self.diagnostics@.filter(|d: Diagnostic| d.severity is Error),
    {
        let r = filter_by_severity(&self.diagnostics, DiagnosticSeverity::Error);
        proof {
            lemma_filter_agree(
                self.diagnostics@,
                |d: Diagnostic| d.severity == DiagnosticSeverity::Error,
                |d: Diagnostic| d.severity is Error,
            );
        }
        r
    }

    /// Get only the diagnostics with the warning severity, in order.
    pub fn warnings(&self) -> (r: Vec<Diagnostic>)
        ensures
            r@ == self.diagnostics@.filter(|d: Diagnostic| d.severity is Warning),
    {
        let r = filter_by_severity(&self.diagnostics, DiagnosticSeverity::Warning);
        proof {
            lemma_filter_agree(
                self.diagnostics@,
                |d: Diagnostic| d.severity == DiagnosticSeverity::Warning,
                |d: Diagnostic| d.severity is Warning,
            );
        }
        r
    }
}

proof fn lemma_filter_agree(
    s: Seq<Diagnostic>,
    p1: spec_fn(Diagnostic) -> bool,
    p2: spec_fn(Diagnostic) -> bool,
)
    requires
        forall|d: Diagnostic| #[trigger] p1(d) == p2(d),
    ensures
        s.filter(p1) =~= s.filter(p2),
    decreases s.len(),
{
    reveal(Seq::filter);
    if s.len() > 0 {
        lemma_filter_agree(s.drop_last(), p1, p2);
    }
}

fn filter_by_severity(diags: &Vec<Diagnostic>, sev: DiagnosticSeverity) -> (r: Vec<Diagnostic>)
    ensures
        r@ == diags@.filter(|d: Diagnostic| d.severity == sev),
{
    let ghost pred = |d: Diagnostic| d.severity == sev;
    let n = diags.len();
    let mut out: Vec<Diagnostic> = Vec::new();
    let mut i: usize = 0;
    proof {
        reveal(Seq::filter);
        assert(diags@.take(0int).filter(pred) =~= Seq::<Diagnostic>::empty());
    }
    while i < n
        invariant
            n == diags@.len(),
            0 <= i <= n,
            out@ == diags@.take(i as int).filter(pred),
            pred == (|d: Diagnostic| d.severity == sev),
        decreases n - i,
    {
        proof {
            reveal(Seq::filter);
            assert(diags@.take(i + 1int).drop_last() =~= diags@.take(i as int));
            assert(diags@.take(i + 1int).last() == diags@[i as int]);
        }
        if diags[i].severity == sev {
            out.push(diags[i].clone());
        }
        i = i + 1;
    }
    proof {
        assert(diags@.take(n as int) =~= diags@);
    }
    out
}

} // verus!

//! Binding the native library: the load sequence and the entry-point
//! table.
//!
//! A fixed set of entry points is required (initialize, cleanup,
//! validate-syntax, get-last-error); a missing one is a hard load failure
//! naming the symbol. A second fixed set is optional (validate-with-schema,
//! get-completions, get-classifications); a missing one is recorded as an
//! unsupported capability, permanently for the life of the handle.
//!
//! The opening of the library, the symbol lookups and the raw initialize
//! call are supplied by the caller as function values over an opaque
//! handle type; the sequencing and every decision are fixed here.

use vstd::prelude::*;

verus! {

use crate::decode::utf8_to_string_lossy;
use vstd::utf8::decode_utf8;
use vstd::utf8::valid_utf8;
use crate::error::Error;
use crate::numfmt::dec_of_i32;
use crate::numfmt::spec_dec_signed;
use crate::resolver::ResolveContext;
use crate::resolver::find_library_path;
use crate::resolver::searched_paths;
use crate::resolver::spec_searched;
use vstd::string::StringExecFns;

/// Name of the required native initialize entry point.
pub fn symbol_init() -> (r: &'static str)
    ensures
        r@ == "kql_init"@,
{
    "kql_init"
}

/// Name of the required native cleanup entry point.
pub fn symbol_cleanup() -> (r: &'static str)
    ensures
        r@ == "kql_cleanup"@,
{
    "kql_cleanup"
}

/// Name of the required syntax-validation entry point.
pub fn symbol_validate_syntax() -> (r: &'static str)
    ensures
        r@ == "kql_validate_syntax"@,
{
    "kql_validate_syntax"
}

/// Name of the required last-error entry point.
pub fn symbol_get_last_error() -> (r: &'static str)
    ensures
        r@ == "kql_get_last_error"@,
{
    "kql_get_last_error"
}

/// Name of the optional schema-validation entry point.
pub fn symbol_validate_with_schema() -> (r: &'static str)
    ensures
        r@ == "kql_validate_with_schema"@,
{
    "kql_validate_with_schema"
}

/// Name of the optional completion entry point.
pub fn symbol_get_completions() -> (r: &'static str)
    ensures
        r@ == "kql_get_completions"@,
{
    "kql_get_completions"
}

/// Name of the optional classification entry point.
pub fn symbol_get_classifications() -> (r: &'static str)
    ensures
        r@ == "kql_get_classifications"@,
{
    "kql_get_classifications"
}

/// Which entry points a symbol lookup found in the opened library.
#[derive(Clone, Copy, Debug, PartialEq, Eq, Structural)]
pub struct SymbolProbe {
    /// The initialize entry point is present.
    pub has_init: bool,
    /// The cleanup entry point is present.
    pub has_cleanup: bool,
    /// The syntax-validation entry point is present.
    pub has_validate_syntax: bool,
    /// The last-error entry point is present.
    pub has_get_last_error: bool,
    /// The schema-validation entry point is present.
    pub has_validate_with_schema: bool,
    /// The completion entry point is present.
    pub has_get_completions: bool,
    /// The classification entry point is present.
    pub has_get_classifications: bool,
}

impl SymbolProbe {
    /// Every required entry point is present.
    pub open spec fn spec_required_present(self) -> bool {
        self.has_init && self.has_cleanup && self.has_validate_syntax && self.has_get_last_error
    }
}

/// Which optional operations the loaded library supports. Fixed when the
/// library is bound; absence is permanent for the life of the handle.
#[derive(Clone, Copy, Debug, PartialEq, Eq, Structural)]
pub struct Capabilities {
    /// The schema-validation entry point was bound.
    pub schema_validation: bool,
    /// The completion entry point was bound.
    pub completion: bool,
    /// The classification entry point was bound.
    pub classification: bool,
}

impl Capabilities {
    /// Check if schema validation is supported.
    pub fn supports_schema_validation(&self) -> (r: bool)
        ensures
            r == self.schema_validation,
    {
        self.schema_validation
    }

    /// Check if completion is supported.
    pub fn supports_completion(&self) -> (r: bool)
        ensures
            r == self.completion,
    {
        self.completion
    }

    /// Check if classification is supported.
    pub fn supports_classification(&self) -> (r: bool)
        ensures
            r == self.classification,
    {
        self.classification
    }
}

/// Judge a symbol lookup: the first missing required entry point, in the
/// fixed binding order, is a load failure naming that symbol; with all
/// four present, the optional entry points become the capability flags.
pub fn bind_symbols(probe: &SymbolProbe) -> (r: Result<Capabilities, Error>)
    ensures
        !probe.has_init ==> (r matches Err(e) && e matches Error::SymbolNotFound { symbol }
            && symbol@ == "kql_init"@),
        probe.has_init && !probe.has_cleanup ==> (r matches Err(e) && e matches
            Error::SymbolNotFound { symbol } && symbol@ == "kql_cleanup"@),
        probe.has_init && probe.has_cleanup && !probe.has_validate_syntax ==> (r matches Err(e)
            && e matches Error::SymbolNotFound { symbol } && symbol@ == "kql_validate_syntax"@),
        probe.has_init && probe.has_cleanup && probe.has_validate_syntax
            && !probe.has_get_last_error ==> (r matches Err(e) && e matches Error::SymbolNotFound {
            symbol,
        } && symbol@ == "kql_get_last_error"@),
        probe.spec_required_present() ==> (r matches Ok(c) && c.schema_validation
            == probe.has_validate_with_schema && c.completion == probe.has_get_completions
            && c.classification == probe.has_get_classifications),
{
    if !probe.has_init {
        return Err(Error::SymbolNotFound { symbol: symbol_init().to_owned() });
    }
    if !probe.has_cleanup {
        return Err(Error::SymbolNotFound { symbol: symbol_cleanup().to_owned() });
    }
    if !probe.has_validate_syntax {
        return Err(Error::SymbolNotFound { symbol: symbol_validate_syntax().to_owned() });
    }
    if !probe.has_get_last_error {
        return Err(Error::SymbolNotFound { symbol: symbol_get_last_error().to_owned() });
    }
    Ok(
        Capabilities {
            schema_validation: probe.has_validate_with_schema,
            completion: probe.has_get_completions,
            classification: probe.has_get_classifications,
        },
    )
}

/// The fallback message when initialization fails and no native message
/// could be fetched.
pub open spec fn spec_init_fallback_message(code: int) -> Seq<char> {
    "Initialization returned error code: "@ + spec_dec_signed(code)
}

/// Judge the native initialize call: zero is success; anything else is an
/// initialization failure carrying the message fetched through the
/// last-error entry point (exact on a valid UTF-8 reply), or a fallback
/// naming the code when no reply came back.
pub fn init_outcome<G: Fn(Vec<u8>) -> (Vec<u8>, i32)>(code: i32, fetch: &G) -> (r: Result<
    (),
    Error,
>)
    requires
        forall|b: Vec<u8>| #[trigger] fetch.requires((b,)),
    ensures
        code == 0 ==> r is Ok,
        code != 0 ==> (r matches Err(e) && e matches Error::InitializationFailed { message }
            && exists|b: Vec<u8>, out: (Vec<u8>, i32)|
            #[trigger] fetch.ensures((b,), out) && if 0 < out.1 && out.1 <= out.0@.len() {
                valid_utf8(out.0@.take(out.1 as int)) ==> message@ == decode_utf8(
                    out.0@.take(out.1 as int),
                )
            } else {
                message@ == spec_init_fallback_message(code as int)
            }),
        (code != 0 && forall|b: Vec<u8>, out: (Vec<u8>, i32)| #[trigger] fetch.ensures((b,), out)
            ==> out.1 <= 0) ==> (r matches Err(e) && e matches Error::InitializationFailed {
            message,
        } && message@ == spec_init_fallback_message(code as int)),
{
    if code == 0 {
        return Ok(());
    }
    let buffer = zeroed_small();
    let ghost fetch_in = buffer;
    let (buffer, error_len) = fetch(buffer);
    let ghost fetch_out = (buffer, error_len);
    proof {
        assert(fetch.ensures((fetch_in,), fetch_out));
    }
    let message: String = if error_len > 0 && (error_len as usize) <= buffer.len() {
        let prefix = vstd::slice::slice_subrange(buffer.as_slice(), 0, error_len as usize);
        proof {
            assert(prefix@ =~= fetch_out.0@.take(fetch_out.1 as int));
        }
        utf8_to_string_lossy(prefix)
    } else {
        let mut m = String::new();
        m.append("Initialization returned error code: ");
        let digits = dec_of_i32(code);
        m.append(digits.as_str());
        proof {
            assert(m@ =~= spec_init_fallback_message(code as int));
        }
        m
    };
    Err(Error::InitializationFailed { message })
}

fn zeroed_small() -> (r: Vec<u8>)
    ensures
        r@.len() == 1024,
{
    let mut out: Vec<u8> = Vec::new();
    let mut i: usize = 0;
    while i < 1024
        invariant
            0 <= i <= 1024,
            out@.len() == i,
        decreases 1024 - i,
    {
        out.push(0u8);
        i = i + 1;
    }
    out
}

/// Run the load sequence once: resolve the library's path, open it, bind
/// its entry points, and run native initialize. The opening, the lookup
/// and the raw calls work on an opaque handle supplied by the caller's
/// function values; every decision between them is made here.
///
/// Absence of the library is a terminal discovery failure carrying the
/// full searched-path list; an open failure carries the path and the
/// loader's message; a missing required symbol names itself; a non-zero
/// initialize reports the fetched native message.
pub fn load_sequence<
    L,
    O: Fn(String) -> Result<L, String>,
    B: Fn(&L) -> SymbolProbe,
    I: Fn(&L) -> i32,
    G: Fn(&L, Vec<u8>) -> (Vec<u8>, i32),
>(ctx: &ResolveContext, open: &O, bind: &B, init: &I, fetch: &G) -> (r: Result<
    (L, Capabilities),
    Error,
>)
    requires
        forall|p: String| #[trigger] open.requires((p,)),
        forall|l: &L| #[trigger] bind.requires((l,)),
        forall|l: &L| #[trigger] init.requires((l,)),
        forall|l: &L, b: Vec<u8>| #[trigger] fetch.requires((l, b)),
    ensures
        r matches Err(e) ==> (e matches Error::LibraryNotFound { searched_paths } && searched_paths@.map_values(
            |p: String| p@,
        ) == spec_searched(*ctx) || e is LibraryLoadFailed || e is SymbolNotFound
            || e is InitializationFailed),
        r matches Ok(t) ==> exists|p: SymbolProbe|
            #[trigger] p.spec_required_present() && t.1.schema_validation
                == p.has_validate_with_schema && t.1.completion == p.has_get_completions
                && t.1.classification == p.has_get_classifications,
        r matches Err(e) ==> (e matches Error::LibraryLoadFailed { path, message } ==> exists|
            q: String,
            out: Result<L, String>,
        |
            #[trigger] open.ensures((q,), out) && (out matches Err(m) && q@ == path@ && m@
                == message@)),
        (forall|q: String, out: Result<L, String>| #[trigger] open.ensures((q,), out) ==> out
            is Err) ==> (r matches Err(e) && (e is LibraryNotFound || e is LibraryLoadFailed)),
{
    let path = match find_library_path(ctx) {
        Some(p) => p,
        None => {
            return Err(Error::LibraryNotFound { searched_paths: searched_paths(ctx) });
        },
    };
    let ghost open_arg = path;
    let opened = open(path.clone());
    let ghost open_out = opened;
    proof {
        assert(open.ensures((open_arg,), open_out));
    }
    let lib: L = match opened {
        Ok(l) => l,
        Err(message) => {
            return Err(Error::library_load_failed(path, message));
        },
    };
    let probe = bind(&lib);
    let ghost found = probe;
    let caps = match bind_symbols(&probe) {
        Ok(c) => c,
        Err(e) => {
            return Err(e);
        },
    };
    proof {
        assert(found.spec_required_present());
    }
    let code = init(&lib);
    let fetch_last = |b: Vec<u8>| -> (r: (Vec<u8>, i32)) { fetch(&lib, b) };
    match init_outcome(code, &fetch_last) {
        Ok(()) => Ok((lib, caps)),
        Err(e) => Err(e),
    }
}

} // verus!

//! The error taxonomy of the marshalling boundary.
//!
//! Every failure is returned to the caller as a value of [`Error`]; nothing
//! is logged and swallowed. Each variant carries the data its source makes
//! available: the searched paths for a discovery failure, the symbol name
//! for a missing entry point, the native code and translated message for a
//! failing call.

use vstd::prelude::*;

verus! {

use crate::numfmt::dec_of_i32;
use crate::numfmt::dec_of_usize;
use crate::numfmt::spec_dec;
use crate::numfmt::spec_dec_signed;
use vstd::string::StringExecFns;

/// Errors that can occur while locating, loading or calling the native
/// library.
#[derive(Debug, Clone)]
pub enum Error {
    /// No candidate location held the native library; carries every path
    /// that was searched, in order.
    LibraryNotFound { searched_paths: Vec<String> },
    /// A located file could not be opened as a dynamic library.
    LibraryLoadFailed { path: String, message: String },
    /// A required entry point was absent from the loaded library.
    SymbolNotFound { symbol: String },
    /// The native initialization routine reported failure.
    InitializationFailed { message: String },
    /// A native call returned an error code other than the retry sentinel.
    NativeError { code: i32, message: String },
    /// The growth-and-retry budget was exhausted.
    BufferTooSmall { needed: usize, available: usize },
    /// A returned payload was not the JSON document the contract promises.
    Json { message: String },
    /// A returned payload was not valid UTF-8.
    Utf8 { valid_up_to: usize },
    /// The library has not been initialized.
    NotInitialized,
    /// An internal precondition of the boundary failed.
    Internal { message: String },
}

/// The fixed human-readable reason for a native result code.
pub open spec fn spec_native_reason(code: int) -> Seq<char> {
    if code == -1 {
        "Buffer too small"@
    } else if code == -2 {
        "Parse error in input"@
    } else if code == -3 {
        "Internal error"@
    } else {
        "Unknown error code: "@ + spec_dec_signed(code)
    }
}

/// The message a native-call failure carries: the fetched context followed
/// by the fixed reason for the code.
pub open spec fn spec_native_message(code: int, context: Seq<char>) -> Seq<char> {
    context + ": "@ + spec_native_reason(code)
}

/// A list of paths, each in double quotes, separated by commas.
pub open spec fn spec_quoted_paths(paths: Seq<Seq<char>>) -> Seq<char>
    decreases paths.len(),
{
    if paths.len() == 0 {
        Seq::empty()
    } else if paths.len() == 1 {
        seq!['"'] + paths[0] + seq!['"']
    } else {
        spec_quoted_paths(paths.drop_last()) + ", "@ + seq!['"'] + paths.last() + seq!['"']
    }
}

/// The human-readable description of an error.
pub open spec fn spec_describe(e: Error) -> Seq<char> {
    match e {
        Error::LibraryNotFound { searched_paths } => "Native library not found. Searched paths: ["@
            + spec_quoted_paths(searched_paths@.map_values(|p: String| p@))
            + "]. Set KQL_LANGUAGE_TOOLS_PATH to specify location."@,
        Error::LibraryLoadFailed { path, message } => "Failed to load native library from "@
            + path@ + ": "@ + message@,
        Error::SymbolNotFound { symbol } => "Symbol '"@ + symbol@
            + "' not found in native library"@,
        Error::InitializationFailed { message } => "Library initialization failed: "@ + message@,
        Error::NativeError { code, message } => "Native call failed with code "@ + spec_dec_signed(
            code as int,
        ) + ": "@ + message@,
        Error::BufferTooSmall { needed, available } => "Output buffer too small (needed "@
            + spec_dec(needed as nat) + " bytes, had "@ + spec_dec(available as nat) + ")"@,
        Error::Json { message } => "JSON error: "@ + message@,
        Error::Utf8 { valid_up_to } => "UTF-8 conversion error: invalid sequence from index "@
            + spec_dec(valid_up_to as nat),
        Error::NotInitialized => "Library not initialized. Call KqlValidator::new() first."@,
        Error::Internal { message } => "Internal error: "@ + message@,
    }
}

impl Error {
    /// The error's human-readable description.
    pub fn describe(&self) -> (r: String)
        ensures
            r@ == spec_describe(*self),
    {
        let mut out = String::new();
        match self {
            Error::LibraryNotFound { searched_paths } => {
                out.append("Native library not found. Searched paths: [");
                let ghost view_of = |p: String| p@;
                let n = searched_paths.len();
                let mut i: usize = 0;
                let ghost head = out@;
                proof {
                    assert(searched_paths@.take(0int).map_values(view_of)
                        =~= Seq::<Seq<char>>::empty());
                }
                while i < n
                    invariant
                        n == searched_paths@.len(),
                        0 <= i <= n,
                        view_of == (|p: String| p@),
                        out@ == head + spec_quoted_paths(
                            searched_paths@.take(i as int).map_values(view_of),
                        ),
                    decreases n - i,
                {
                    if i > 0 {
                        out.append(", ");
                    }
                    out.append("\"");
                    out.append(searched_paths[i].as_str());
                    out.append("\"");
                    proof {
                        reveal_strlit(", ");
                        reveal_strlit("\"");
                        let prev = searched_paths@.take(i as int).map_values(view_of);
                        let cur = searched_paths@.take(i + 1int).map_values(view_of);
                        assert(cur.drop_last() =~= prev);
                        assert(cur.last() == searched_paths@[i as int]@);
                        if i == 0 {
                            assert(spec_quoted_paths(cur) =~= seq!['"'] + cur[0] + seq!['"']);
                            assert(out@ =~= head + spec_quoted_paths(cur));
                        } else {
                            assert(out@ =~= head + spec_quoted_paths(cur));
                        }
                    }
                    i = i + 1;
                }
                out.append("]. Set KQL_LANGUAGE_TOOLS_PATH to specify location.");
                proof {
                    assert(searched_paths@.take(n as int) =~= searched_paths@);
                    assert(out@ =~= spec_describe(*self));
                }
            },
            Error::LibraryLoadFailed { path, message } => {
                out.append("Failed to load native library from ");
                out.append(path.as_str());
                out.append(": ");
                out.append(message.as_str());
                proof {
                    assert(out@ =~= spec_describe(*self));
                }
            },
            Error::SymbolNotFound { symbol } => {
                out.append("Symbol '");
                out.append(symbol.as_str());
                out.append("' not found in native library");
                proof {
                    assert(out@ =~= spec_describe(*self));
                }
            },
            Error::InitializationFailed { message } => {
                out.append("Library initialization failed: ");
                out.append(message.as_str());
                proof {
                    assert(out@ =~= spec_describe(*self));
                }
            },
            Error::NativeError { code, message } => {
                out.append("Native call failed with code ");
                let digits = dec_of_i32(*code);
                out.append(digits.as_str());
                out.append(": ");
                out.append(message.as_str());
                proof {
                    assert(out@ =~= spec_describe(*self));
                }
            },
            Error::BufferTooSmall { needed, available } => {
                out.append("Output buffer too small (needed ");
                let digits = dec_of_usize(*needed);
                out.append(digits.as_str());
                out.append(" bytes, had ");
                let digits = dec_of_usize(*available);
                out.append(digits.as_str());
                out.append(")");
                proof {
                    assert(out@ =~= spec_describe(*self));
                }
            },
            Error::Json { message } => {
                out.append("JSON error: ");
                out.append(message.as_str());
                proof {
                    assert(out@ =~= spec_describe(*self));
                }
            },
            Error::Utf8 { valid_up_to } => {
                out.append("UTF-8 conversion error: invalid sequence from index ");
                let digits = dec_of_usize(*valid_up_to);
                out.append(digits.as_str());
                proof {
                    assert(out@ =~= spec_describe(*self));
                }
            },
            Error::NotInitialized => {
                out.append("Library not initialized. Call KqlValidator::new() first.");
                proof {
                    assert(out@ =~= spec_describe(*self));
                }
            },
            Error::Internal { message } => {
                out.append("Internal error: ");
                out.append(message.as_str());
                proof {
                    assert(out@ =~= spec_describe(*self));
                }
            },
        }
        out
    }

    /// Create a library load failure error.
    pub fn library_load_failed(path: String, message: String) -> (r: Error)
        ensures
            r matches Error::LibraryLoadFailed { path: p, message: m } && p@ == path@ && m@
                == message@,
    {
        Error::LibraryLoadFailed { path, message }
    }

    /// Create a native error from a return code, translating the known
    /// sentinel codes into their fixed reasons.
    pub fn from_native_code(code: i32, context: &str) -> (r: Error)
        ensures
            r matches Error::NativeError { code: c, message: m } && c == code && m@
                == spec_native_message(code as int, context@),
    {
        let mut message = context.to_owned();
        message.append(": ");
        if code == -1 {
            message.append("Buffer too small");
        } else if code == -2 {
            message.append("Parse error in input");
        } else if code == -3 {
            message.append("Internal error");
        } else {
            message.append("Unknown error code: ");
            let digits = dec_of_i32(code);
            message.append(digits.as_str());
        }
        Error::NativeError { code, message }
    }
}

} // verus!

//! Rendering a schema as the JSON text the native library expects.
//!
//! The boundary hands the schema across as UTF-8 JSON. The exact text is
//! specified here character by character: object keys in declaration
//! order, optional fields left out when absent, and string contents
//! escaped (quote, backslash, and control characters).

use vstd::prelude::*;

verus! {

use crate::schema::Column;
use crate::schema::Function;
use crate::schema::Parameter;
use crate::schema::Schema;
use crate::schema::Table;
use vstd::string::StrSliceExecFns;
use vstd::string::StringExecFns;

/// The character of one hexadecimal digit.
pub open spec fn spec_hex_digit(d: nat) -> char {
    if d == 0 {
        '0'
    } else if d == 1 {
        '1'
    } else if d == 2 {
        '2'
    } else if d == 3 {
        '3'
    } else if d == 4 {
        '4'
    } else if d == 5 {
        '5'
    } else if d == 6 {
        '6'
    } else if d == 7 {
        '7'
    } else if d == 8 {
        '8'
    } else if d == 9 {
        '9'
    } else if d == 10 {
        'a'
    } else if d == 11 {
        'b'
    } else if d == 12 {
        'c'
    } else if d == 13 {
        'd'
    } else if d == 14 {
        'e'
    } else {
        'f'
    }
}

/// The JSON escape of one character: quote and backslash get a backslash,
/// the named control characters their short escapes, every other control
/// character a four-digit unicode escape, and everything else stands as it
/// is.
pub open spec fn spec_escape_char(c: char) -> Seq<char> {
    if c == '"' {
        seq!['\\', '"']
    } else if c == '\\' {
        seq!['\\', '\\']
    } else if c == '\n' {
        seq!['\\', 'n']
    } else if c == '\r' {
        seq!['\\', 'r']
    } else if c == '\t' {
        seq!['\\', 't']
    } else if c == '\u{0008}' {
        seq!['\\', 'b']
    } else if c == '\u{000C}' {
        seq!['\\', 'f']
    } else if (c as u32) < 32 {
        seq!['\\', 'u', '0', '0', spec_hex_digit((c as u32 / 16) as nat), spec_hex_digit(
            (c as u32 % 16) as nat,
        )]
    } else {
        seq![c]
    }
}

/// The escaped content of a JSON string.
pub open spec fn spec_escaped(s: Seq<char>) -> Seq<char>
    decreases s.len(),
{
    if s.len() == 0 {
        Seq::empty()
    } else {
        spec_escaped(s.drop_last()) + spec_escape_char(s.last())
    }
}

/// A JSON string: the escaped content between double quotes.
pub open spec fn spec_json_string(s: Seq<char>) -> Seq<char> {
    seq!['"'] + spec_escaped(s) + seq!['"']
}

/// Sequence elements joined with commas.
pub open spec fn spec_join_comma(elems: Seq<Seq<char>>) -> Seq<char>
    decreases elems.len(),
{
    if elems.len() == 0 {
        Seq::empty()
    } else if elems.len() == 1 {
        elems[0]
    } else {
        spec_join_comma(elems.drop_last()) + ","@ + elems.last()
    }
}

/// The JSON text of a column.
pub open spec fn spec_column_json(c: Column) -> Seq<char> {
    "{\"name\":"@ + spec_json_string(c.name@) + ",\"data_type\":"@ + spec_json_string(c.data_type@)
        + (match c.description {
        Some(d) => ",\"description\":"@ + spec_json_string(d@),
        None => Seq::empty(),
    }) + "}"@
}

/// The JSON text of a parameter.
pub open spec fn spec_parameter_json(p: Parameter) -> Seq<char> {
    "{\"name\":"@ + spec_json_string(p.name@) + ",\"data_type\":"@ + spec_json_string(p.data_type@)
        + (match p.default_value {
        Some(v) => ",\"default_value\":"@ + spec_json_string(v@),
        None => Seq::empty(),
    }) + "}"@
}

/// The JSON text of a table.
pub open spec fn spec_table_json(t: Table) -> Seq<char> {
    "{\"name\":"@ + spec_json_string(t.name@) + ",\"columns\":["@ + spec_join_comma(
        t.columns@.map_values(|c: Column| spec_column_json(c)),
    ) + "]"@ + (match t.description {
        Some(d) => ",\"description\":"@ + spec_json_string(d@),
        None => Seq::empty(),
    }) + "}"@
}

/// The JSON text of a function.
pub open spec fn spec_function_json(f: Function) -> Seq<char> {
    "{\"name\":"@ + spec_json_string(f.name@) + ",\"parameters\":["@ + spec_join_comma(
        f.parameters@.map_values(|p: Parameter| spec_parameter_json(p)),
    ) + "]"@ + ",\"return_type\":"@ + spec_json_string(f.return_type@) + (match f.body {
        Some(b) => ",\"body\":"@ + spec_json_string(b@),
        None => Seq::empty(),
    }) + (match f.description {
        Some(d) => ",\"description\":"@ + spec_json_string(d@),
        None => Seq::empty(),
    }) + "}"@
}

/// The JSON text of a schema: the optional database name, then the tables,
/// then the functions.
pub open spec fn spec_schema_json(s: Schema) -> Seq<char> {
    "{"@ + (match s.database {
        Some(d) => "\"database\":"@ + spec_json_string(d@) + ","@,
        None => Seq::empty(),
    }) + "\"tables\":["@ + spec_join_comma(s.tables@.map_values(|t: Table| spec_table_json(t)))
        + "],\"functions\":["@ + spec_join_comma(
        s.functions@.map_values(|f: Function| spec_function_json(f)),
    ) + "]}"@
}

fn hex_digit_str(d: u32) -> (r: &'static str)
    requires
        d < 16,
    ensures
        r@ =~= seq![spec_hex_digit(d as nat)],
{
    let r: &'static str = if d == 0 {
        "0"
    } else if d == 1 {
        "1"
    } else if d == 2 {
        "2"
    } else if d == 3 {
        "3"
    } else if d == 4 {
        "4"
    } else if d == 5 {
        "5"
    } else if d == 6 {
        "6"
    } else if d == 7 {
        "7"
    } else if d == 8 {
        "8"
    } else if d == 9 {
        "9"
    } else if d == 10 {
        "a"
    } else if d == 11 {
        "b"
    } else if d == 12 {
        "c"
    } else if d == 13 {
        "d"
    } else if d == 14 {
        "e"
    } else {
        "f"
    };
    proof {
        reveal_strlit("0");
        reveal_strlit("1");
        reveal_strlit("2");
        reveal_strlit("3");
        reveal_strlit("4");
        reveal_strlit("5");
        reveal_strlit("6");
        reveal_strlit("7");
        reveal_strlit("8");
        reveal_strlit("9");
        reveal_strlit("a");
        reveal_strlit("b");
        reveal_strlit("c");
        reveal_strlit("d");
        reveal_strlit("e");
        reveal_strlit("f");
    }
    r
}

fn push_escaped_char(out: &mut String, s: &str, i: usize)
    requires
        i < s@.len(),
        s@.len() <= usize::MAX,
    ensures
        final(out)@ == old(out)@ + spec_escape_char(s@[i as int]),
{
    let c = s.get_char(i);
    if c == '"' {
        out.append("\\\"");
        proof {
            reveal_strlit("\\\"");
            assert(final(out)@ =~= old(out)@ + spec_escape_char(c));
        }
    } else if c == '\\' {
        out.append("\\\\");
        proof {
            reveal_strlit("\\\\");
            assert(final(out)@ =~= old(out)@ + spec_escape_char(c));
        }
    } else if c == '\n' {
        out.append("\\n");
        proof {
            reveal_strlit("\\n");
            assert(final(out)@ =~= old(out)@ + spec_escape_char(c));
        }
    } else if c == '\r' {
        out.append("\\r");
        proof {
            reveal_strlit("\\r");
            assert(final(out)@ =~= old(out)@ + spec_escape_char(c));
        }
    } else if c == '\t' {
        out.append("\\t");
        proof {
            reveal_strlit("\\t");
            assert(final(out)@ =~= old(out)@ + spec_escape_char(c));
        }
    } else if c == '\u{0008}' {
        out.append("\\b");
        proof {
            reveal_strlit("\\b");
            assert(final(out)@ =~= old(out)@ + spec_escape_char(c));
        }
    } else if c == '\u{000C}' {
        out.append("\\f");
        proof {
            reveal_strlit("\\f");
            assert(final(out)@ =~= old(out)@ + spec_escape_char(c));
        }
    } else if (c as u32) < 32 {
        let code = c as u32;
        out.append("\\u00");
        out.append(hex_digit_str(code / 16));
        out.append(hex_digit_str(code % 16));
        proof {
            reveal_strlit("\\u00");
            assert(final(out)@ =~= old(out)@ + spec_escape_char(c));
        }
    } else {
        let one = s.substring_char(i, i + 1);
        out.append(one);
        proof {
            assert(s@.subrange(i as int, i + 1int) =~= seq![c]);
            assert(final(out)@ =~= old(out)@ + spec_escape_char(c));
        }
    }
}

fn push_json_string(out: &mut String, s: &str)
    ensures
        final(out)@ == old(out)@ + spec_json_string(s@),
{
    out.append("\"");
    proof {
        reveal_strlit("\"");
    }
    let n = s.unicode_len();
    let mut i: usize = 0;
    while i < n
        invariant
            n == s@.len(),
            0 <= i <= n,
            out@ == old(out)@ + seq!['"'] + spec_escaped(s@.take(i as int)),
        decreases n - i,
    {
        push_escaped_char(out, s, i);
        proof {
            assert(s@.take(i + 1int).drop_last() =~= s@.take(i as int));
            assert(s@.take(i + 1int).last() == s@[i as int]);
        }
        i = i + 1;
    }
    out.append("\"");
    proof {
        assert(s@.take(n as int) =~= s@);
        assert(final(out)@ =~= old(out)@ + spec_json_string(s@));
    }
}

fn push_column(out: &mut String, c: &Column)
    ensures
        final(out)@ == old(out)@ + spec_column_json(*c),
{
    out.append("{\"name\":");
    push_json_string(out, c.name.as_str());
    out.append(",\"data_type\":");
    push_json_string(out, c.data_type.as_str());
    match &c.description {
        Some(d) => {
            out.append(",\"description\":");
            push_json_string(out, d.as_str());
        },
        None => {},
    }
    out.append("}");
    proof {
        reveal_strlit("{\"name\":");
        reveal_strlit(",\"data_type\":");
        reveal_strlit(",\"description\":");
        reveal_strlit("}");
        assert(final(out)@ =~= old(out)@ + spec_column_json(*c));
    }
}

fn push_parameter(out: &mut String, p: &Parameter)
    ensures
        final(out)@ == old(out)@ + spec_parameter_json(*p),
{
    out.append("{\"name\":");
    push_json_string(out, p.name.as_str());
    out.append(",\"data_type\":");
    push_json_string(out, p.data_type.as_str());
    match &p.default_value {
        Some(v) => {
            out.append(",\"default_value\":");
            push_json_string(out, v.as_str());
        },
        None => {},
    }
    out.append("}");
    proof {
        reveal_strlit("{\"name\":");
        reveal_strlit(",\"data_type\":");
        reveal_strlit(",\"default_value\":");
        reveal_strlit("}");
        assert(final(out)@ =~= old(out)@ + spec_parameter_json(*p));
    }
}

fn push_table(out: &mut String, t: &Table)
    ensures
        final(out)@ == old(out)@ + spec_table_json(*t),
{
    let ghost f = |c: Column| spec_column_json(c);
    out.append("{\"name\":");
    push_json_string(out, t.name.as_str());
    out.append(",\"columns\":[");
    let n = t.columns.len();
    let mut i: usize = 0;
    proof {
        reveal_strlit("{\"name\":");
        reveal_strlit(",\"columns\":[");
        assert(t.columns@.take(0int).map_values(f) =~= Seq::<Seq<char>>::empty());
    }
    while i < n
        invariant
            n == t.columns@.len(),
            0 <= i <= n,
            f == (|c: Column| spec_column_json(c)),
            out@ == old(out)@ + "{\"name\":"@ + spec_json_string(t.name@) + ",\"columns\":["@
                + spec_join_comma(t.columns@.take(i as int).map_values(f)),
        decreases n - i,
    {
        if i > 0 {
            out.append(",");
            proof {
                reveal_strlit(",");
            }
        }
        push_column(out, &t.columns[i]);
        proof {
            let prev = t.columns@.take(i as int).map_values(f);
            let cur = t.columns@.take(i + 1int).map_values(f);
            assert(cur.drop_last() =~= prev);
            assert(cur.last() == f(t.columns@[i as int]));
            if i == 0 {
                assert(spec_join_comma(cur) =~= cur[0]);
            }
        }
        i = i + 1;
    }
    out.append("]");
    match &t.description {
        Some(d) => {
            out.append(",\"description\":");
            push_json_string(out, d.as_str());
        },
        None => {},
    }
    out.append("}");
    proof {
        reveal_strlit("]");
        reveal_strlit(",\"description\":");
        reveal_strlit("}");
        assert(t.columns@.take(n as int) =~= t.columns@);
        assert(final(out)@ =~= old(out)@ + spec_table_json(*t));
    }
}

fn push_function(out: &mut String, func: &Function)
    ensures
        final(out)@ == old(out)@ + spec_function_json(*func),
{
    let ghost f = |p: Parameter| spec_parameter_json(p);
    out.append("{\"name\":");
    push_json_string(out, func.name.as_str());
    out.append(",\"parameters\":[");
    let n = func.parameters.len();
    let mut i: usize = 0;
    proof {
        reveal_strlit("{\"name\":");
        reveal_strlit(",\"parameters\":[");
        assert(func.parameters@.take(0int).map_values(f) =~= Seq::<Seq<char>>::empty());
    }
    while i < n
        invariant
            n == func.parameters@.len(),
            0 <= i <= n,
            f == (|p: Parameter| spec_parameter_json(p)),
            out@ == old(out)@ + "{\"name\":"@ + spec_json_string(func.name@) + ",\"parameters\":["@
                + spec_join_comma(func.parameters@.take(i as int).map_values(f)),
        decreases n - i,
    {
        if i > 0 {
            out.append(",");
            proof {
                reveal_strlit(",");
            }
        }
        push_parameter(out, &func.parameters[i]);
        proof {
            let prev = func.parameters@.take(i as int).map_values(f);
            let cur = func.parameters@.take(i + 1int).map_values(f);
            assert(cur.drop_last() =~= prev);
            assert(cur.last() == f(func.parameters@[i as int]));
            if i == 0 {
                assert(spec_join_comma(cur) =~= cur[0]);
            }
        }
        i = i + 1;
    }
    out.append("]");
    out.append(",\"return_type\":");
    push_json_string(out, func.return_type.as_str());
    match &func.body {
        Some(b) => {
            out.append(",\"body\":");
            push_json_string(out, b.as_str());
        },
        None => {},
    }
    match &func.description {
        Some(d) => {
            out.append(",\"description\":");
            push_json_string(out, d.as_str());
        },
        None => {},
    }
    out.append("}");
    proof {
        reveal_strlit("]");
        reveal_strlit(",\"return_type\":");
        reveal_strlit(",\"body\":");
        reveal_strlit(",\"description\":");
        reveal_strlit("}");
        assert(func.parameters@.take(n as int) =~= func.parameters@);
        assert(final(out)@ =~= old(out)@ + spec_function_json(*func));
    }
}

/// Render a schema as the JSON text that crosses the native boundary.
pub fn schema_to_json(s: &Schema) -> (r: String)
    ensures
        r@ == spec_schema_json(*s),
{
    let ghost ft = |t: Table| spec_table_json(t);
    let ghost ff = |f: Function| spec_function_json(f);
    let mut out = String::new();
    out.append("{");
    match &s.database {
        Some(d) => {
            out.append("\"database\":");
            push_json_string(&mut out, d.as_str());
            out.append(",");
        },
        None => {},
    }
    out.append("\"tables\":[");
    let ghost head = out@;
    let n = s.tables.len();
    let mut i: usize = 0;
    proof {
        assert(s.tables@.take(0int).map_values(ft) =~= Seq::<Seq<char>>::empty());
    }
    while i < n
        invariant
            n == s.tables@.len(),
            0 <= i <= n,
            ft == (|t: Table| spec_table_json(t)),
            out@ == head + spec_join_comma(s.tables@.take(i as int).map_values(ft)),
        decreases n - i,
    {
        if i > 0 {
            out.append(",");
            proof {
                reveal_strlit(",");
            }
        }
        push_table(&mut out, &s.tables[i]);
        proof {
            let prev = s.tables@.take(i as int).map_values(ft);
            let cur = s.tables@.take(i + 1int).map_values(ft);
            assert(cur.drop_last() =~= prev);
            assert(cur.last() == ft(s.tables@[i as int]));
            if i == 0 {
                assert(spec_join_comma(cur) =~= cur[0]);
            }
        }
        i = i + 1;
    }
    out.append("],\"functions\":[");
    let ghost mid = out@;
    let m = s.functions.len();
    let mut j: usize = 0;
    proof {
        assert(s.functions@.take(0int).map_values(ff) =~= Seq::<Seq<char>>::empty());
    }
    while j < m
        invariant
            m == s.functions@.len(),
            0 <= j <= m,
            ff == (|f: Function| spec_function_json(f)),
            out@ == mid + spec_join_comma(s.functions@.take(j as int).map_values(ff)),
        decreases m - j,
    {
        if j > 0 {
            out.append(",");
            proof {
                reveal_strlit(",");
            }
        }
        push_function(&mut out, &s.functions[j]);
        proof {
            let prev = s.functions@.take(j as int).map_values(ff);
            let cur = s.functions@.take(j + 1int).map_values(ff);
            assert(cur.drop_last() =~= prev);
            assert(cur.last() == ff(s.functions@[j as int]));
            if j == 0 {
                assert(spec_join_comma(cur) =~= cur[0]);
            }
        }
        j = j + 1;
    }
    out.append("]}");
    proof {
        reveal_strlit("{");
        reveal_strlit("\"database\":");
        reveal_strlit(",");
        reveal_strlit("\"tables\":[");
        reveal_strlit("],\"functions\":[");
        reveal_strlit("]}");
        assert(s.tables@.take(n as int) =~= s.tables@);
        assert(s.functions@.take(m as int) =~= s.functions@);
        assert(out@ =~= spec_schema_json(*s));
    }
    out
}

} // verus!

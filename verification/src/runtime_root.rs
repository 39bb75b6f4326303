//! Locating the managed-runtime root the native library needs at load
//! time.
//!
//! The loaded library depends on a managed runtime that does not
//! self-locate on every platform. Before loading, a best-effort probe
//! derives the runtime's installation root: first from the textual output
//! of the runtime-discovery command (its "Base Path:" line), walking that
//! path's ancestors; then from a fixed list of well-known installation
//! directories. Nothing here raises an error; an empty answer simply
//! leaves the environment as it is, and a missing runtime surfaces later
//! as a load failure.

use vstd::prelude::*;

verus! {

use crate::fsprobe::path_exists;
use crate::strutil::join_path;
use crate::strutil::str_eq;
use crate::strutil::spec_utf8_bytes;
use vstd::string::StrSliceExecFns;
use vstd::string::StringExecFns;
use vstd::string::StringSliceAdditionalSpecFns;

/// ASCII whitespace, as trimming treats it.
pub open spec fn spec_is_ws(c: char) -> bool {
    c == ' ' || c == '\t' || c == '\r' || c == '\n'
}

/// The first index at or after `from` holding `ch`, or the length when
/// there is none.
pub open spec fn spec_find_char(s: Seq<char>, from: int, ch: char) -> int
    decreases s.len() - from,
{
    if from < 0 || from >= s.len() {
        s.len() as int
    } else if s[from] == ch {
        from
    } else {
        spec_find_char(s, from + 1, ch)
    }
}

/// The last index holding `ch`, or minus one when there is none.
pub open spec fn spec_rfind_char(s: Seq<char>, ch: char) -> int
    decreases s.len(),
{
    if s.len() == 0 {
        -1
    } else if s.last() == ch {
        s.len() - 1
    } else {
        spec_rfind_char(s.drop_last(), ch)
    }
}

/// The first index that is not whitespace, or the length on all-whitespace
/// text.
pub open spec fn spec_skip_ws(s: Seq<char>, from: int) -> int
    decreases s.len() - from,
{
    if from < 0 || from >= s.len() {
        s.len() as int
    } else if spec_is_ws(s[from]) {
        spec_skip_ws(s, from + 1)
    } else {
        from
    }
}

/// One past the last index that is not whitespace, at most `upto`.
pub open spec fn spec_rskip_ws(s: Seq<char>, upto: int) -> int
    decreases upto,
{
    if upto <= 0 {
        0
    } else if 0 <= upto - 1 < s.len() && spec_is_ws(s[upto - 1]) {
        spec_rskip_ws(s, upto - 1)
    } else {
        upto
    }
}

/// The text with ASCII whitespace removed from both ends.
pub open spec fn spec_trim(s: Seq<char>) -> Seq<char> {
    let a = spec_skip_ws(s, 0);
    let b = spec_rskip_ws(s, s.len() as int);
    if a <= b {
        s.subrange(a, b)
    } else {
        Seq::empty()
    }
}

/// The text split at newlines: one entry per line, the separators removed.
pub open spec fn spec_lines_from(s: Seq<char>, start: int, i: int) -> Seq<Seq<char>>
    decreases s.len() - i,
{
    if i < start || i >= s.len() {
        seq![s.subrange(start, s.len() as int)]
    } else if s[i] == '\n' {
        seq![s.subrange(start, i)] + spec_lines_from(s, i + 1, i + 1)
    } else {
        spec_lines_from(s, start, i + 1)
    }
}

/// A line of the discovery command's output names the base path when,
/// trimmed, it opens with the fixed field name.
pub open spec fn spec_names_base_path(line: Seq<char>) -> bool {
    spec_trim(line).len() >= "Base Path:"@.len() && spec_trim(line).subrange(
        0,
        "Base Path:"@.len() as int,
    ) == "Base Path:"@
}

/// What a base-path line yields: the text between the first colon and the
/// following colon or line end, trimmed.
pub open spec fn spec_base_path_of_line(line: Seq<char>) -> Seq<char> {
    let c1 = spec_find_char(line, 0, ':');
    let c2 = spec_find_char(line, c1 + 1, ':');
    if c1 < line.len() {
        spec_trim(line.subrange(c1 + 1, c2))
    } else {
        Seq::empty()
    }
}

/// The base path named by the first matching line, if any line matches.
pub open spec fn spec_base_path_of_lines(lines: Seq<Seq<char>>) -> Option<Seq<char>>
    decreases lines.len(),
{
    if lines.len() == 0 {
        None
    } else if spec_names_base_path(lines[0]) {
        Some(spec_base_path_of_line(lines[0]))
    } else {
        spec_base_path_of_lines(lines.drop_first())
    }
}

fn find_char_from(s: &str, n: usize, from: usize, ch: char) -> (r: usize)
    requires
        n == s@.len(),
        from <= n,
    ensures
        r == spec_find_char(s@, from as int, ch),
        from <= r <= n,
    decreases n - from,
{
    if from == n {
        n
    } else if s.get_char(from) == ch {
        from
    } else {
        find_char_from(s, n, from + 1, ch)
    }
}

fn is_ws(c: char) -> (r: bool)
    ensures
        r == spec_is_ws(c),
{
    c == ' ' || c == '\t' || c == '\r' || c == '\n'
}

fn skip_ws(s: &str, n: usize, from: usize) -> (r: usize)
    requires
        n == s@.len(),
        from <= n,
    ensures
        r == spec_skip_ws(s@, from as int),
        from <= r <= n,
    decreases n - from,
{
    if from == n {
        n
    } else if is_ws(s.get_char(from)) {
        skip_ws(s, n, from + 1)
    } else {
        from
    }
}

fn rskip_ws(s: &str, n: usize, upto: usize) -> (r: usize)
    requires
        n == s@.len(),
        upto <= n,
    ensures
        r == spec_rskip_ws(s@, upto as int),
        r <= upto,
    decreases upto,
{
    if upto == 0 {
        0
    } else if is_ws(s.get_char(upto - 1)) {
        rskip_ws(s, n, upto - 1)
    } else {
        upto
    }
}

/// The text with ASCII whitespace removed from both ends.
pub fn trim(s: &str) -> (r: String)
    ensures
        r@ == spec_trim(s@),
{
    let n = s.unicode_len();
    let a = skip_ws(s, n, 0);
    let b = rskip_ws(s, n, n);
    if a <= b {
        let piece = s.substring_char(a, b);
        piece.to_owned()
    } else {
        proof {
            assert(spec_trim(s@) =~= Seq::<char>::empty());
        }
        String::new()
    }
}

/// Parse the discovery command's output: the first line that, trimmed,
/// opens with the base-path field name yields the text between its first
/// colon and the next, trimmed.
pub fn parse_base_path(info: &str) -> (r: Option<String>)
    ensures
        match r {
            Some(p) => spec_base_path_of_lines(spec_lines_from(info@, 0, 0)) == Some(p@),
            None => spec_base_path_of_lines(spec_lines_from(info@, 0, 0)) is None,
        },
{
    let n = info.unicode_len();
    let mut start: usize = 0;
    let mut i: usize = 0;
    while i < n
        invariant
            n == info@.len(),
            0 <= start <= i <= n,
            spec_base_path_of_lines(spec_lines_from(info@, 0, 0)) == spec_base_path_of_lines(
                spec_lines_from(info@, start as int, i as int),
            ),
        decreases n - i,
    {
        if info.get_char(i) == '\n' {
            let line = info.substring_char(start, i);
            let ghost rest = spec_lines_from(info@, i + 1int, i + 1int);
            proof {
                assert(spec_lines_from(info@, start as int, i as int) =~= seq![line@] + rest);
                assert((seq![line@] + rest)[0] == line@);
                assert((seq![line@] + rest).drop_first() =~= rest);
            }
            match base_path_of_line(line) {
                Some(p) => {
                    proof {
                        assert(spec_base_path_of_lines(seq![line@] + rest) == Some(p@));
                    }
                    return Some(p);
                },
                None => {
                    proof {
                        assert(spec_base_path_of_lines(seq![line@] + rest)
                            == spec_base_path_of_lines(rest));
                    }
                },
            }
            start = i + 1;
        } else {
            proof {
                assert(spec_lines_from(info@, start as int, i as int) == spec_lines_from(
                    info@,
                    start as int,
                    i + 1int,
                ));
            }
        }
        i = i + 1;
    }
    let line = info.substring_char(start, n);
    proof {
        assert(spec_lines_from(info@, start as int, n as int) =~= seq![line@]);
    }
    let r = base_path_of_line(line);
    proof {
        let ls: Seq<Seq<char>> = seq![line@];
        assert(ls[0] == line@);
        assert(ls.drop_first() =~= Seq::<Seq<char>>::empty());
        assert(spec_base_path_of_lines(Seq::<Seq<char>>::empty()) is None);
        if r is Some {
            assert(spec_base_path_of_lines(ls) == Some(r->0@));
        } else {
            assert(spec_base_path_of_lines(ls) is None);
        }
    }
    r
}

fn base_path_of_line(line: &str) -> (r: Option<String>)
    ensures
        match r {
            Some(p) => spec_names_base_path(line@) && p@ == spec_base_path_of_line(line@),
            None => !spec_names_base_path(line@),
        },
{
    let trimmed = trim(line);
    let marker = "Base Path:";
    let tn = trimmed.as_str().unicode_len();
    let mn = marker.unicode_len();
    if tn < mn {
        return None;
    }
    let head = trimmed.as_str().substring_char(0, mn);
    if !str_eq(head, marker) {
        return None;
    }
    let n = line.unicode_len();
    let c1 = find_char_from(line, n, 0, ':');
    if c1 >= n {
        proof {
            // A line whose trimmed text opens with the field name holds a
            // colon, since trimming only removes characters.
            reveal_strlit("Base Path:");
            let t = spec_trim(line@);
            let a = spec_skip_ws(line@, 0);
            let b = spec_rskip_ws(line@, line@.len() as int);
            lemma_skip_ws_bounds(line@, 0);
            lemma_rskip_ws_bounds(line@, line@.len() as int);
            assert(t.len() >= 10);
            assert(a <= b);
            assert(t =~= line@.subrange(a, b));
            assert(t.subrange(0, 10)[9] == t[9]);
            assert(t[9] == ':');
            assert(t[9] == line@[a + 9]);
            lemma_find_char_none(line@, 0, ':');
            assert(line@[a + 9] != ':');
            assert(false);
        }
        return None;
    }
    let c2 = find_char_from(line, n, c1 + 1, ':');
    let segment = line.substring_char(c1 + 1, c2);
    Some(trim(segment))
}

proof fn lemma_skip_ws_bounds(s: Seq<char>, from: int)
    requires
        0 <= from <= s.len(),
    ensures
        from <= spec_skip_ws(s, from) <= s.len(),
    decreases s.len() - from,
{
    if from < s.len() && spec_is_ws(s[from]) {
        lemma_skip_ws_bounds(s, from + 1);
    }
}

proof fn lemma_rskip_ws_bounds(s: Seq<char>, upto: int)
    requires
        0 <= upto <= s.len(),
    ensures
        0 <= spec_rskip_ws(s, upto) <= upto,
    decreases upto,
{
    if upto > 0 && spec_is_ws(s[upto - 1]) {
        lemma_rskip_ws_bounds(s, upto - 1);
    }
}

proof fn lemma_find_char_none(s: Seq<char>, from: int, ch: char)
    requires
        0 <= from <= s.len(),
        spec_find_char(s, from, ch) >= s.len(),
    ensures
        forall|k: int| from <= k < s.len() ==> s[k] != ch,
    decreases s.len() - from,
{
    if from < s.len() {
        if s[from] != ch {
            lemma_find_char_none(s, from + 1, ch);
        }
    }
}

/// The parents of a path, longest first, the path itself included: each
/// step removes the last slash-separated component.
pub open spec fn spec_ancestors(s: Seq<char>) -> Seq<Seq<char>>
    decreases s.len(),
{
    let cut = spec_rfind_char(s, '/');
    if s.len() == 0 {
        seq![s]
    } else if cut < 0 || cut >= s.len() {
        seq![s]
    } else {
        seq![s] + spec_ancestors(s.subrange(0, cut))
    }
}

/// The last slash-separated component of a path.
pub open spec fn spec_last_component(s: Seq<char>) -> Seq<char> {
    let cut = spec_rfind_char(s, '/');
    s.subrange(cut + 1, s.len() as int)
}

/// The longest ancestor whose last component is `name`, walking from the
/// path itself toward the root; nothing when no ancestor matches.
pub open spec fn spec_first_ancestor_with(s: Seq<char>, name: Seq<char>) -> Option<Seq<char>>
    decreases s.len(),
{
    if s.len() == 0 {
        None
    } else if spec_last_component(s) == name {
        Some(s)
    } else {
        let cut = spec_rfind_char(s, '/');
        if cut < 0 || cut >= s.len() {
            None
        } else {
            spec_first_ancestor_with(s.subrange(0, cut), name)
        }
    }
}

fn rfind_char(s: &str, ch: char) -> (r: Option<usize>)
    ensures
        match r {
            Some(i) => i == spec_rfind_char(s@, ch) && i < s@.len() && s@[i as int] == ch,
            None => spec_rfind_char(s@, ch) == -1,
        },
{
    let n = s.unicode_len();
    let mut upto: usize = n;
    proof {
        assert(s@.subrange(0, n as int) =~= s@);
    }
    while upto > 0
        invariant
            n == s@.len(),
            0 <= upto <= n,
            spec_rfind_char(s@, ch) == spec_rfind_char(s@.subrange(0, upto as int), ch),
        decreases upto,
    {
        proof {
            lemma_rfind_prefix(s@, upto as int, ch);
        }
        if s.get_char(upto - 1) == ch {
            return Some(upto - 1);
        }
        upto = upto - 1;
    }
    None
}

proof fn lemma_rfind_prefix(s: Seq<char>, upto: int, ch: char)
    requires
        0 < upto <= s.len(),
    ensures
        s[upto - 1] == ch ==> spec_rfind_char(s.subrange(0, upto), ch) == upto - 1,
        s[upto - 1] != ch ==> spec_rfind_char(s.subrange(0, upto), ch) == spec_rfind_char(
            s.subrange(0, upto - 1),
            ch,
        ),
{
    let p = s.subrange(0, upto);
    assert(p.last() == s[upto - 1]);
    if s[upto - 1] != ch {
        assert(p.drop_last() =~= s.subrange(0, upto - 1));
    }
}

/// Walk a path's ancestors, longest first, for one whose last component is
/// `name`; the first (longest) hit is returned, nothing when no ancestor
/// matches.
pub fn ancestor_ending_with(path: &str, name: &str) -> (r: Option<String>)
    ensures
        match r {
            Some(p) => spec_first_ancestor_with(path@, name@) == Some(p@) && spec_ancestors(
                path@,
            ).contains(p@) && spec_last_component(p@) == name@,
            None => spec_first_ancestor_with(path@, name@) is None,
        },
    decreases path@.len(),
{
    let n = path.unicode_len();
    if n == 0 {
        return None;
    }
    let cut = rfind_char(path, '/');
    let last = match cut {
        Some(i) => path.substring_char(i + 1, n),
        None => path.substring_char(0, n),
    };
    proof {
        assert(last@ == spec_last_component(path@));
    }
    if str_eq(last, name) {
        proof {
            assert(spec_ancestors(path@)[0] == path@);
            assert(spec_last_component(path@) == name@);
            assert(spec_first_ancestor_with(path@, name@) == Some(path@));
        }
        return Some(path.to_owned());
    }
    match cut {
        Some(i) => {
            let parent = path.substring_char(0, i);
            let r = ancestor_ending_with(parent, name);
            proof {
                assert(spec_first_ancestor_with(path@, name@) == spec_first_ancestor_with(
                    parent@,
                    name@,
                ));
                if r is Some {
                    let p = r->0;
                    assert(spec_ancestors(parent@).contains(p@));
                    let k = choose|k: int|
                        0 <= k < spec_ancestors(parent@).len() && spec_ancestors(parent@)[k] == p@;
                    assert(spec_ancestors(path@)[k + 1] == p@);
                }
            }
            r
        },
        None => None,
    }
}

/// Walk a path's ancestors for one that holds a runtime installation: a
/// directory with a `dotnet` entry or a `shared` entry inside it.
pub fn ancestor_holding_runtime(path: &str) -> (r: Option<String>)
    ensures
        r matches Some(p) ==> spec_ancestors(path@).contains(p@),
    decreases path@.len(),
{
    let n = path.unicode_len();
    if n == 0 {
        return None;
    }
    let dotnet = join_path(path, "dotnet");
    let shared = join_path(path, "shared");
    if path_exists(dotnet.as_str()) || path_exists(shared.as_str()) {
        proof {
            assert(spec_ancestors(path@)[0] == path@);
        }
        return Some(path.to_owned());
    }
    match rfind_char(path, '/') {
        Some(i) => {
            let parent = path.substring_char(0, i);
            let r = ancestor_holding_runtime(parent);
            proof {
                if r is Some {
                    let p = r->0;
                    let k = choose|k: int|
                        0 <= k < spec_ancestors(parent@).len() && spec_ancestors(parent@)[k] == p@;
                    assert(spec_ancestors(path@)[k + 1] == p@);
                }
            }
            r
        },
        None => None,
    }
}

/// Derive the runtime root from the discovery command's output: the base
/// path's ancestor named like the runtime's private root, or failing that
/// an ancestor that holds a runtime installation on disk.
pub fn runtime_root_from_info(info: &str) -> (r: Option<String>)
    ensures
        spec_base_path_of_lines(spec_lines_from(info@, 0, 0)) is None ==> r is None,
        spec_base_path_of_lines(spec_lines_from(info@, 0, 0)) matches Some(b) ==> (
        spec_first_ancestor_with(b, "libexec"@) matches Some(a) ==> (r matches Some(p) && p@
            == a)),
        r matches Some(p) ==> (spec_base_path_of_lines(spec_lines_from(info@, 0, 0)) matches Some(
            b,
        ) && spec_ancestors(b).contains(p@)),
{
    let base = match parse_base_path(info) {
        Some(b) => b,
        None => {
            return None;
        },
    };
    match ancestor_ending_with(base.as_str(), "libexec") {
        Some(p) => Some(p),
        None => ancestor_holding_runtime(base.as_str()),
    }
}

/// The well-known installation directories probed when discovery yields
/// nothing: package-manager cellars first, then system-wide locations.
pub fn runtime_root_candidates() -> (r: Vec<String>)
    ensures
        r@.len() == 5,
        r@[0]@ == "/opt/homebrew/Cellar/dotnet"@,
        r@[1]@ == "/usr/local/Cellar/dotnet"@,
        r@[2]@ == "/usr/share/dotnet"@,
        r@[3]@ == "/usr/local/share/dotnet"@,
        r@[4]@ == "C:\\Program Files\\dotnet"@,
{
    let mut out: Vec<String> = Vec::new();
    out.push("/opt/homebrew/Cellar/dotnet".to_owned());
    out.push("/usr/local/Cellar/dotnet".to_owned());
    out.push("/usr/share/dotnet".to_owned());
    out.push("/usr/local/share/dotnet".to_owned());
    out.push("C:\\Program Files\\dotnet".to_owned());
    out
}

/// Lexicographic order on the bytes of two texts.
pub open spec fn spec_bytes_lt(a: Seq<u8>, b: Seq<u8>) -> bool
    decreases a.len() + b.len(),
{
    if b.len() == 0 {
        false
    } else if a.len() == 0 {
        true
    } else if a[0] < b[0] {
        true
    } else if a[0] > b[0] {
        false
    } else {
        spec_bytes_lt(a.drop_first(), b.drop_first())
    }
}

/// Compare two texts byte-wise.
pub fn bytes_lt(a: &str, b: &str) -> (r: bool)
    ensures
        r == spec_bytes_lt(spec_utf8_bytes(a@), spec_utf8_bytes(b@)),
{
    let ab = a.as_bytes();
    let bb = b.as_bytes();
    let na = ab.len();
    let nb = bb.len();
    let mut i: usize = 0;
    proof {
        assert(ab@.skip(0) =~= ab@);
        assert(bb@.skip(0) =~= bb@);
    }
    loop
        invariant
            ab@ == a.spec_bytes(),
            bb@ == b.spec_bytes(),
            na == ab@.len(),
            nb == bb@.len(),
            0 <= i <= na,
            i <= nb,
            spec_bytes_lt(a.spec_bytes(), b.spec_bytes()) == spec_bytes_lt(
                ab@.skip(i as int),
                bb@.skip(i as int),
            ),
        decreases na - i,
    {
        if i == nb {
            return false;
        }
        if i == na {
            return true;
        }
        if ab[i] < bb[i] {
            return true;
        }
        if ab[i] > bb[i] {
            return false;
        }
        proof {
            let ra = ab@.skip(i as int);
            let rb = bb@.skip(i as int);
            assert(ra[0] == ab@[i as int] && rb[0] == bb@[i as int]);
            assert(ra.drop_first() =~= ab@.skip(i + 1int));
            assert(rb.drop_first() =~= bb@.skip(i + 1int));
        }
        i = i + 1;
    }
}

/// Pick the version directory a package-manager cellar layout descends
/// into: the lexicographically greatest entry, with the runtime's private
/// root inside it; nothing when the cellar is empty or that root is
/// absent.
pub fn pick_version_root(entries: &Vec<String>) -> (r: Option<String>)
    ensures
        entries@.len() == 0 ==> r is None,
        r matches Some(p) ==> exists|i: int|
            0 <= i < entries@.len() && p@ == #[trigger] entries@[i]@ + "/"@ + "libexec"@ && forall|
                j: int,
            |
                0 <= j < entries@.len() ==> !spec_bytes_lt(
                    spec_utf8_bytes(entries@[i]@),
                    spec_utf8_bytes(#[trigger] entries@[j]@),
                ),
{
    if entries.len() == 0 {
        return None;
    }
    let n = entries.len();
    let mut best: usize = 0;
    let mut k: usize = 1;
    proof {
        lemma_bytes_lt_irrefl(spec_utf8_bytes(entries@[0]@));
    }
    while k < n
        invariant
            n == entries@.len(),
            0 <= best < k <= n,
            forall|j: int|
                0 <= j < k ==> !spec_bytes_lt(
                    spec_utf8_bytes(entries@[best as int]@),
                    spec_utf8_bytes(#[trigger] entries@[j]@),
                ),
        decreases n - k,
    {
        if bytes_lt(entries[best].as_str(), entries[k].as_str()) {
            proof {
                lemma_bytes_lt_connected(
                    spec_utf8_bytes(entries@[best as int]@),
                    spec_utf8_bytes(entries@[k as int]@),
                );
                lemma_bytes_lt_transitive_all(entries@, best as int, k as int);
            }
            best = k;
        }
        k = k + 1;
    }
    let libexec = join_path(entries[best].as_str(), "libexec");
    if path_exists(libexec.as_str()) {
        Some(libexec)
    } else {
        None
    }
}

proof fn lemma_bytes_lt_connected(a: Seq<u8>, b: Seq<u8>)
    requires
        spec_bytes_lt(a, b),
    ensures
        !spec_bytes_lt(b, a),
    decreases a.len() + b.len(),
{
    if b.len() > 0 && a.len() > 0 && a[0] == b[0] {
        lemma_bytes_lt_connected(a.drop_first(), b.drop_first());
    }
}

proof fn lemma_bytes_lt_trans(a: Seq<u8>, b: Seq<u8>, c: Seq<u8>)
    requires
        !spec_bytes_lt(b, a),
        !spec_bytes_lt(c, b),
    ensures
        !spec_bytes_lt(c, a),
    decreases a.len() + b.len() + c.len(),
{
    if a.len() > 0 && b.len() > 0 && c.len() > 0 && a[0] == b[0] && b[0] == c[0] {
        lemma_bytes_lt_trans(a.drop_first(), b.drop_first(), c.drop_first());
    }
}

proof fn lemma_bytes_lt_transitive_all(entries: Seq<String>, best: int, k: int)
    requires
        0 <= best < k < entries.len(),
        forall|j: int|
            0 <= j < k ==> !spec_bytes_lt(
                spec_utf8_bytes(entries[best]@),
                spec_utf8_bytes(#[trigger] entries[j]@),
            ),
        !spec_bytes_lt(spec_utf8_bytes(entries[k]@), spec_utf8_bytes(entries[best]@)),
    ensures
        forall|j: int|
            0 <= j <= k ==> !spec_bytes_lt(
                spec_utf8_bytes(entries[k]@),
                spec_utf8_bytes(#[trigger] entries[j]@),
            ),
{
    assert forall|j: int| 0 <= j <= k implies !spec_bytes_lt(
        spec_utf8_bytes(entries[k]@),
        spec_utf8_bytes(entries[j]@),
    ) by {
        if j < k {
            lemma_bytes_lt_trans(
                spec_utf8_bytes(entries[j]@),
                spec_utf8_bytes(entries[best]@),
                spec_utf8_bytes(entries[k]@),
            );
        } else {
            lemma_bytes_lt_irrefl(spec_utf8_bytes(entries[k]@));
        }
    }
}

proof fn lemma_bytes_lt_irrefl(a: Seq<u8>)
    ensures
        !spec_bytes_lt(a, a),
    decreases a.len(),
{
    if a.len() > 0 {
        lemma_bytes_lt_irrefl(a.drop_first());
    }
}

/// A system-wide installation directory is the runtime root when it holds
/// a `shared` entry.
pub fn shared_root(dir: &str) -> (r: Option<String>)
    ensures
        r matches Some(p) ==> p@ == dir@,
{
    let shared = join_path(dir, "shared");
    if path_exists(shared.as_str()) {
        Some(dir.to_owned())
    } else {
        None
    }
}

} // verus!

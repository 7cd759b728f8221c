//! Verified text utilities: splitting, joining, trimming, searching and
//! decimal formatting over `Seq<char>` views.
use vstd::prelude::*;
use vstd::seq_lib::*;
use vstd::string::*;

verus! {

// ---------------------------------------------------------------------------
// Character classes
// ---------------------------------------------------------------------------
/// The Unicode `White_Space` code points, as documented for `char::is_whitespace`.
pub open spec fn spec_is_space(c: char) -> bool {
    ||| c == ' '
    ||| c == '\t'
    ||| c == '\n'
    ||| c == '\r'
    ||| c == '\u{b}'
    ||| c == '\u{c}'
    ||| c == '\u{85}'
    ||| c == '\u{a0}'
    ||| c == '\u{1680}'
    ||| ('\u{2000}' <= c && c <= '\u{200a}')
    ||| c == '\u{2028}'
    ||| c == '\u{2029}'
    ||| c == '\u{202f}'
    ||| c == '\u{205f}'
    ||| c == '\u{3000}'
}

pub fn is_space(c: char) -> (r: bool)
    ensures
        r == spec_is_space(c),
{
    c == ' ' || c == '\t' || c == '\n' || c == '\r' || c == '\u{b}' || c == '\u{c}' || c
        == '\u{85}' || c == '\u{a0}' || c == '\u{1680}' || ('\u{2000}' <= c && c <= '\u{200a}') || c
        == '\u{2028}' || c == '\u{2029}' || c == '\u{202f}' || c == '\u{205f}' || c == '\u{3000}'
}

/// ASCII lower-casing of a single character; anything that is not an ASCII
/// capital letter is unchanged.
pub open spec fn spec_lower_char(c: char) -> char {
    if c == 'A' {
        'a'
    } else if c == 'B' {
        'b'
    } else if c == 'C' {
        'c'
    } else if c == 'D' {
        'd'
    } else if c == 'E' {
        'e'
    } else if c == 'F' {
        'f'
    } else if c == 'G' {
        'g'
    } else if c == 'H' {
        'h'
    } else if c == 'I' {
        'i'
    } else if c == 'J' {
        'j'
    } else if c == 'K' {
        'k'
    } else if c == 'L' {
        'l'
    } else if c == 'M' {
        'm'
    } else if c == 'N' {
        'n'
    } else if c == 'O' {
        'o'
    } else if c == 'P' {
        'p'
    } else if c == 'Q' {
        'q'
    } else if c == 'R' {
        'r'
    } else if c == 'S' {
        's'
    } else if c == 'T' {
        't'
    } else if c == 'U' {
        'u'
    } else if c == 'V' {
        'v'
    } else if c == 'W' {
        'w'
    } else if c == 'X' {
        'x'
    } else if c == 'Y' {
        'y'
    } else if c == 'Z' {
        'z'
    } else {
        c
    }
}

pub fn lower_char(c: char) -> (r: char)
    ensures
        r == spec_lower_char(c),
{
    if c == 'A' {
        'a'
    } else if c == 'B' {
        'b'
    } else if c == 'C' {
        'c'
    } else if c == 'D' {
        'd'
    } else if c == 'E' {
        'e'
    } else if c == 'F' {
        'f'
    } else if c == 'G' {
        'g'
    } else if c == 'H' {
        'h'
    } else if c == 'I' {
        'i'
    } else if c == 'J' {
        'j'
    } else if c == 'K' {
        'k'
    } else if c == 'L' {
        'l'
    } else if c == 'M' {
        'm'
    } else if c == 'N' {
        'n'
    } else if c == 'O' {
        'o'
    } else if c == 'P' {
        'p'
    } else if c == 'Q' {
        'q'
    } else if c == 'R' {
        'r'
    } else if c == 'S' {
        's'
    } else if c == 'T' {
        't'
    } else if c == 'U' {
        'u'
    } else if c == 'V' {
        'v'
    } else if c == 'W' {
        'w'
    } else if c == 'X' {
        'x'
    } else if c == 'Y' {
        'y'
    } else if c == 'Z' {
        'z'
    } else {
        c
    }
}

/// ASCII lower-casing of a whole character sequence.
pub open spec fn spec_lower(s: Seq<char>) -> Seq<char> {
    s.map_values(|c: char| spec_lower_char(c))
}

// ---------------------------------------------------------------------------
// Equality and case-insensitive equality
// ---------------------------------------------------------------------------
pub fn eq_str(a: &str, b: &str) -> (r: bool)
    ensures
        r == (a@ == b@),
{
    let an = a.unicode_len();
    let bn = b.unicode_len();
    if an != bn {
        assert(a@ != b@);
        return false;
    }
    let mut i: usize = 0;
    while i < an
        invariant
            an == a@.len(),
            an == b@.len(),
            i <= an,
            forall|j: int| 0 <= j < i ==> a@[j] == b@[j],
        decreases an - i,
    {
        if a.get_char(i) != b.get_char(i) {
            return false;
        }
        i = i + 1;
    }
    proof {
        assert(a@ =~= b@);
    }
    true
}

pub open spec fn spec_eq_ignore_case(a: Seq<char>, b: Seq<char>) -> bool {
    spec_lower(a) == spec_lower(b)
}

pub fn eq_ignore_case(a: &str, b: &str) -> (r: bool)
    ensures
        r == spec_eq_ignore_case(a@, b@),
{
    let an = a.unicode_len();
    let bn = b.unicode_len();
    if an != bn {
        assert(spec_lower(a@).len() != spec_lower(b@).len());
        return false;
    }
    let mut i: usize = 0;
    while i < an
        invariant
            an == a@.len(),
            an == b@.len(),
            i <= an,
            forall|j: int| 0 <= j < i ==> spec_lower_char(a@[j]) == spec_lower_char(b@[j]),
        decreases an - i,
    {
        if lower_char(a.get_char(i)) != lower_char(b.get_char(i)) {
            assert(spec_lower(a@)[i as int] != spec_lower(b@)[i as int]);
            return false;
        }
        i = i + 1;
    }
    proof {
        assert(spec_lower(a@) =~= spec_lower(b@));
    }
    true
}

// ---------------------------------------------------------------------------
// Splitting and joining
// ---------------------------------------------------------------------------
/// Splitting a sequence at every occurrence of `sep`; the empty sequence
/// splits into one empty piece.
pub open spec fn spec_split(s: Seq<char>, sep: char) -> Seq<Seq<char>>
    decreases s.len(),
{
    if s.len() == 0 {
        seq![Seq::<char>::empty()]
    } else {
        let r = spec_split(s.drop_last(), sep);
        if s.last() == sep {
            r.push(Seq::<char>::empty())
        } else {
            r.update(r.len() - 1, r.last().push(s.last()))
        }
    }
}

pub proof fn lemma_split_len(s: Seq<char>, sep: char)
    ensures
        spec_split(s, sep).len() >= 1,
    decreases s.len(),
{
    if s.len() > 0 {
        lemma_split_len(s.drop_last(), sep);
    }
}

pub fn split_on(s: &str, sep: char) -> (r: Vec<String>)
    ensures
        r.deep_view() == spec_split(s@, sep),
        r.len() >= 1,
{
    let n = s.unicode_len();
    let mut pieces: Vec<String> = Vec::new();
    let mut cur: String = String::new();
    let mut i: usize = 0;
    while i < n
        invariant
            n == s@.len(),
            i <= n,
            pieces.deep_view().push(cur@) =~= spec_split(s@.take(i as int), sep),
        decreases n - i,
    {
        proof {
            assert(s@.take(i + 1).drop_last() =~= s@.take(i as int));
            assert(s@.take(i + 1).last() == s@[i as int]);
        }
        let c = s.get_char(i);
        if c == sep {
            pieces.push(cur);
            cur = String::new();
            proof {
                assert(pieces.deep_view().push(cur@) =~= spec_split(s@.take(i + 1), sep));
            }
        } else {
            let piece = s.substring_char(i, i + 1);
            proof {
                assert(piece@ =~= seq![s@[i as int]]);
            }
            cur.append(piece);
            proof {
                let prev = spec_split(s@.take(i as int), sep);
                lemma_split_len(s@.take(i as int), sep);
                assert(pieces.deep_view().push(cur@) =~~= prev.update(
                    prev.len() - 1,
                    prev.last().push(s@[i as int]),
                ));
            }
        }
        i = i + 1;
    }
    proof {
        assert(s@.take(n as int) =~= s@);
    }
    pieces.push(cur);
    proof {
        lemma_split_len(s@, sep);
    }
    pieces
}

/// Joining pieces with a separator; inverse of `spec_split` for non-empty
/// piece lists whose pieces avoid the separator.
pub open spec fn spec_join(ps: Seq<Seq<char>>, sep: char) -> Seq<char>
    decreases ps.len(),
{
    if ps.len() == 0 {
        Seq::<char>::empty()
    } else if ps.len() == 1 {
        ps[0]
    } else {
        spec_join(ps.drop_last(), sep) + seq![sep] + ps.last()
    }
}

pub proof fn lemma_join_of_split(s: Seq<char>, sep: char)
    ensures
        spec_join(spec_split(s, sep), sep) == s,
    decreases s.len(),
{
    if s.len() == 0 {
        assert(spec_join(spec_split(s, sep), sep) =~= s);
    } else {
        lemma_join_of_split(s.drop_last(), sep);
        lemma_split_len(s.drop_last(), sep);
        let r = spec_split(s.drop_last(), sep);
        if s.last() == sep {
            let rp = r.push(Seq::<char>::empty());
            assert(rp.drop_last() =~~= r);
            assert(rp.last() =~= Seq::<char>::empty());
            assert(rp.len() >= 2);
            assert(spec_join(rp, sep) == spec_join(r, sep) + seq![sep] + Seq::<char>::empty());
            assert(spec_join(rp, sep) =~= s);
        } else {
            let r2 = r.update(r.len() - 1, r.last().push(s.last()));
            if r.len() == 1 {
                assert(r2.len() == 1);
                assert(spec_join(r2, sep) == r2[0]);
                assert(r2[0] == r.last().push(s.last()));
                assert(r[0] == r.last());
                assert(spec_join(r, sep) == r[0]);
                assert(s.drop_last().push(s.last()) =~= s);
                assert(spec_join(r2, sep) =~= s);
            } else {
                assert(r2.drop_last() =~~= r.drop_last());
                assert(r2.last() == r.last().push(s.last()));
                assert(r2.len() >= 2);
                assert(spec_join(r2, sep) == spec_join(r.drop_last(), sep) + seq![sep]
                    + r.last().push(s.last()));
                assert(spec_join(r, sep) == spec_join(r.drop_last(), sep) + seq![sep] + r.last());
                assert(spec_join(r2, sep) =~= spec_join(r, sep).push(s.last()));
                assert(spec_join(r, sep).push(s.last()) =~= s);
            }
        }
    }
}

/// Appending a separator and a separator-free piece extends the split by
/// exactly that piece.
proof fn lemma_split_append_piece(a: Seq<char>, b: Seq<char>, sep: char)
    requires
        !b.contains(sep),
    ensures
        spec_split(a + seq![sep] + b, sep) == spec_split(a, sep).push(b),
    decreases b.len(),
{
    let s = a + seq![sep] + b;
    if b.len() == 0 {
        assert(s.len() > 0 && s.last() == sep);
        assert(s.drop_last() =~= a);
        assert(b =~= Seq::<char>::empty());
        assert(spec_split(s, sep) == spec_split(a, sep).push(Seq::<char>::empty()));
    } else {
        assert(!b.drop_last().contains(sep)) by {
            assert forall|i: int| 0 <= i < b.drop_last().len() implies b.drop_last()[i] != sep by {
                assert(b[i] != sep);
            }
        }
        lemma_split_append_piece(a, b.drop_last(), sep);
        assert(b.last() != sep) by {
            assert(b[b.len() - 1] == b.last());
        }
        assert(s.len() > 0 && s.last() == b.last());
        assert(s.drop_last() =~= a + seq![sep] + b.drop_last());
        let r = spec_split(a + seq![sep] + b.drop_last(), sep);
        lemma_split_len(a + seq![sep] + b.drop_last(), sep);
        assert(spec_split(s, sep) == r.update(r.len() - 1, r.last().push(b.last())));
        assert(r == spec_split(a, sep).push(b.drop_last()));
        assert(r.last() == b.drop_last());
        assert(b.drop_last().push(b.last()) =~= b);
        assert(spec_split(s, sep) =~~= spec_split(a, sep).push(b));
    }
}

pub proof fn lemma_split_of_join(ps: Seq<Seq<char>>, sep: char)
    requires
        ps.len() >= 1,
        forall|i: int| 0 <= i < ps.len() ==> !ps[i].contains(sep),
    ensures
        spec_split(spec_join(ps, sep), sep) == ps,
    decreases ps.len(),
{
    if ps.len() == 1 {
        lemma_split_no_sep(ps[0], sep);
        assert(spec_join(ps, sep) == ps[0]);
        assert(spec_split(ps[0], sep) == seq![ps[0]]);
        assert(spec_split(spec_join(ps, sep), sep) =~~= ps);
    } else {
        lemma_split_of_join(ps.drop_last(), sep);
        lemma_split_append_piece(spec_join(ps.drop_last(), sep), ps.last(), sep);
        assert(spec_split(spec_join(ps, sep), sep) == ps.drop_last().push(ps.last()));
        assert(ps.drop_last().push(ps.last()) =~~= ps);
    }
}

/// A sequence without the separator splits into exactly itself.
pub proof fn lemma_split_no_sep(s: Seq<char>, sep: char)
    requires
        !s.contains(sep),
    ensures
        spec_split(s, sep) == seq![s],
    decreases s.len(),
{
    if s.len() == 0 {
        assert(s =~= Seq::<char>::empty());
        assert(spec_split(s, sep) =~~= seq![s]);
    } else {
        assert(!s.drop_last().contains(sep)) by {
            assert forall|i: int| 0 <= i < s.drop_last().len() implies s.drop_last()[i] != sep by {
                assert(s[i] != sep);
            }
        }
        lemma_split_no_sep(s.drop_last(), sep);
        assert(s.last() != sep) by {
            assert(s[s.len() - 1] == s.last());
        }
        let r = seq![s.drop_last()];
        assert(spec_split(s, sep) == r.update(0, r.last().push(s.last())));
        assert(r.last().push(s.last()) =~= s);
        assert(spec_split(s, sep) =~~= seq![s]);
    }
}

pub fn join_newline(v: &Vec<String>) -> (r: String)
    requires
        v.len() >= 1,
    ensures
        r@ == spec_join(v.deep_view(), '\n'),
{
    let mut out: String = String::new();
    let ghost all = v.deep_view();
    out.append(v[0].as_str());
    let mut i: usize = 1;
    while i < v.len()
        invariant
            1 <= i <= v.len(),
            all == v.deep_view(),
            out@ == spec_join(all.take(i as int), '\n'),
        decreases v.len() - i,
    {
        out.append("\n");
        out.append(v[i].as_str());
        proof {
            reveal_strlit("\n");
            assert(all.take(i + 1).drop_last() =~= all.take(i as int));
            assert(all.take(i + 1).last() == all[i as int]);
            assert(all.take(i + 1).len() >= 2);
        }
        i = i + 1;
    }
    proof {
        assert(all.take(v.len() as int) =~= all);
    }
    out
}

// ---------------------------------------------------------------------------
// First occurrence of a character; splitting a line into key and value
// ---------------------------------------------------------------------------
/// Index of the first occurrence of `sep` in `s`, if any.
pub open spec fn spec_find(s: Seq<char>, sep: char) -> Option<int>
    decreases s.len(),
{
    if s.len() == 0 {
        None
    } else if s[0] == sep {
        Some(0int)
    } else {
        match spec_find(s.skip(1), sep) {
            None => None,
            Some(j) => Some(j + 1),
        }
    }
}

pub proof fn lemma_find_some(s: Seq<char>, sep: char, i: int)
    requires
        0 <= i < s.len(),
        s[i] == sep,
        forall|j: int| 0 <= j < i ==> s[j] != sep,
    ensures
        spec_find(s, sep) == Some(i),
    decreases i,
{
    if i == 0 {
    } else {
        assert(s.skip(1)[i - 1] == sep) by {
            assert(s.skip(1)[i - 1] == s[i]);
        }
        assert(forall|j: int| 0 <= j < i - 1 ==> s.skip(1)[j] == s[j + 1] && s[j + 1] != sep);
        lemma_find_some(s.skip(1), sep, i - 1);
    }
}

pub proof fn lemma_find_none(s: Seq<char>, sep: char)
    requires
        forall|j: int| 0 <= j < s.len() ==> s[j] != sep,
    ensures
        spec_find(s, sep) is None,
    decreases s.len(),
{
    if s.len() > 0 {
        assert(forall|j: int| 0 <= j < s.skip(1).len() ==> s.skip(1)[j] == s[j + 1] && s[j + 1] != sep);
        lemma_find_none(s.skip(1), sep);
    }
}

/// The converse of the two lemmas above: what `spec_find` returns is the
/// first occurrence.
pub proof fn lemma_find_props(s: Seq<char>, sep: char)
    ensures
        spec_find(s, sep) matches Some(i) ==> 0 <= i < s.len() && s[i] == sep && (forall|j: int|
            0 <= j < i ==> s[j] != sep),
        spec_find(s, sep) is None ==> forall|j: int| 0 <= j < s.len() ==> s[j] != sep,
    decreases s.len(),
{
    if s.len() > 0 && s[0] != sep {
        lemma_find_props(s.skip(1), sep);
        assert(forall|j: int| 0 <= j < s.skip(1).len() ==> s.skip(1)[j] == s[j + 1]);
        match spec_find(s.skip(1), sep) {
            Some(j) => {
                assert(s[j + 1] == sep) by {
                    assert(s.skip(1)[j] == sep);
                }
                assert forall|k: int| 0 <= k < j + 1 implies s[k] != sep by {
                    if k >= 1 {
                        assert(s.skip(1)[k - 1] != sep);
                    }
                }
            },
            None => {
                assert forall|k: int| 0 <= k < s.len() implies s[k] != sep by {
                    if k >= 1 {
                        assert(s.skip(1)[k - 1] != sep);
                    }
                }
            },
        }
    }
}

/// Splits at the first occurrence of `sep`: the part before and the part
/// after, with the separator itself dropped.
pub fn split_once_at(s: &str, sep: char) -> (r: Option<(String, String)>)
    ensures
        r is Some <==> spec_find(s@, sep) is Some,
        r matches Some(kv) ==> spec_find(s@, sep) matches Some(i) && kv.0@ == s@.take(i)
            && kv.1@ == s@.skip(i + 1),
{
    let n = s.unicode_len();
    let mut i: usize = 0;
    while i < n
        invariant
            n == s@.len(),
            i <= n,
            forall|j: int| 0 <= j < i ==> s@[j] != sep,
        decreases n - i,
    {
        if s.get_char(i) == sep {
            proof {
                lemma_find_some(s@, sep, i as int);
            }
            let k = s.substring_char(0, i);
            let v = s.substring_char(i + 1, n);
            proof {
                assert(k@ =~= s@.take(i as int));
                assert(v@ =~= s@.skip(i + 1));
            }
            return Some((String::from_str(k), String::from_str(v)));
        }
        i = i + 1;
    }
    proof {
        lemma_find_none(s@, sep);
    }
    None
}

// ---------------------------------------------------------------------------
// Trimming
// ---------------------------------------------------------------------------
pub open spec fn spec_trim_start(s: Seq<char>) -> Seq<char>
    decreases s.len(),
{
    if s.len() > 0 && spec_is_space(s[0]) {
        spec_trim_start(s.skip(1))
    } else {
        s
    }
}

pub open spec fn spec_trim_end(s: Seq<char>) -> Seq<char>
    decreases s.len(),
{
    if s.len() > 0 && spec_is_space(s.last()) {
        spec_trim_end(s.drop_last())
    } else {
        s
    }
}

/// Whitespace removed from both ends, as `str::trim` does.
pub open spec fn spec_trim(s: Seq<char>) -> Seq<char> {
    spec_trim_end(spec_trim_start(s))
}

pub fn trim_start_str(s: &str) -> (r: String)
    ensures
        r@ == spec_trim_start(s@),
    decreases s@.len(),
{
    let n = s.unicode_len();
    if n > 0 && is_space(s.get_char(0)) {
        let rest = s.substring_char(1, n);
        proof {
            assert(rest@ =~= s@.skip(1));
        }
        trim_start_str(rest)
    } else {
        String::from_str(s)
    }
}

fn trim_end_str(s: &str) -> (r: String)
    ensures
        r@ == spec_trim_end(s@),
    decreases s@.len(),
{
    let n = s.unicode_len();
    if n > 0 && is_space(s.get_char(n - 1)) {
        proof {
            assert(s@[n - 1] == s@.last());
        }
        let rest = s.substring_char(0, n - 1);
        proof {
            assert(rest@ =~= s@.drop_last());
        }
        trim_end_str(rest)
    } else {
        String::from_str(s)
    }
}

/// A character absent from both parts is absent from their concatenation.
pub proof fn lemma_concat_no_char(a: Seq<char>, b: Seq<char>, ch: char)
    requires
        !a.contains(ch),
        !b.contains(ch),
    ensures
        !(a + b).contains(ch),
{
    if (a + b).contains(ch) {
        let i = choose|i: int| 0 <= i < (a + b).len() && (a + b)[i] == ch;
        if i < a.len() {
            assert(a[i] == ch);
            assert(a.contains(ch));
        } else {
            assert(b[i - a.len()] == ch);
            assert(b.contains(ch));
        }
    }
}

/// A sequence that neither starts nor ends with whitespace trims to
/// itself.
pub proof fn lemma_trim_identity(s: Seq<char>)
    requires
        s.len() > 0 ==> !spec_is_space(s[0]) && !spec_is_space(s.last()),
    ensures
        spec_trim(s) == s,
{
    if s.len() > 0 {
        assert(spec_trim_start(s) == s);
        assert(spec_trim_end(s) == s);
    } else {
        assert(spec_trim_start(s) == s);
        assert(spec_trim_end(s) == s);
    }
}

/// Trimming keeps a non-whitespace head character in place.
pub proof fn lemma_trim_keeps_head(s: Seq<char>)
    requires
        s.len() > 0,
        !spec_is_space(s[0]),
    ensures
        spec_trim(s).len() > 0,
        spec_trim(s)[0] == s[0],
{
    assert(spec_trim_start(s) == s);
    lemma_trim_end_keeps_head(s);
}

proof fn lemma_trim_end_keeps_head(s: Seq<char>)
    requires
        s.len() > 0,
        !spec_is_space(s[0]),
    ensures
        spec_trim_end(s).len() > 0,
        spec_trim_end(s)[0] == s[0],
    decreases s.len(),
{
    if spec_is_space(s.last()) {
        assert(s.len() >= 2) by {
            assert(s[s.len() - 1] == s.last());
        }
        assert(s.drop_last()[0] == s[0]);
        lemma_trim_end_keeps_head(s.drop_last());
    }
}

/// Removing a substring from a value that starts with it and holds no
/// further occurrence peels exactly that prefix.
pub proof fn lemma_remove_sub_prefix(sub: Seq<char>, rest: Seq<char>)
    requires
        sub.len() > 0,
        !spec_contains_sub(rest, sub),
    ensures
        spec_remove_sub(sub + rest, sub) == rest,
{
    let s = sub + rest;
    assert(spec_match_at(s, sub, 0)) by {
        assert(s.subrange(0, sub.len() as int) =~= sub);
    }
    lemma_find_sub_some(s, sub, 0);
    assert(s.skip(sub.len() as int) =~= rest);
    assert(forall|j: int| !spec_match_at(rest, sub, j)) by {
        assert(!spec_contains_sub(rest, sub));
        assert forall|j: int| !spec_match_at(rest, sub, j) by {
            if spec_match_at(rest, sub, j) {
                assert(spec_contains_sub(rest, sub));
            }
        }
    }
    lemma_find_sub_none(rest, sub);
    assert(s.take(0int) =~= Seq::<char>::empty());
    assert(Seq::<char>::empty() + rest =~= rest);
    assert(spec_remove_sub(rest, sub) == rest);
    assert(spec_remove_sub(s, sub) =~= rest);
}

pub fn trim_str(s: &str) -> (r: String)
    ensures
        r@ == spec_trim(s@),
{
    let t = trim_start_str(s);
    trim_end_str(t.as_str())
}

// ---------------------------------------------------------------------------
// Prefix, suffix, substring search
// ---------------------------------------------------------------------------
pub open spec fn spec_starts_with(s: Seq<char>, prefix: Seq<char>) -> bool {
    s.len() >= prefix.len() && s.take(prefix.len() as int) == prefix
}

pub open spec fn spec_ends_with(s: Seq<char>, suffix: Seq<char>) -> bool {
    s.len() >= suffix.len() && s.skip(s.len() - suffix.len()) == suffix
}

pub fn starts_with_str(s: &str, prefix: &str) -> (r: bool)
    ensures
        r == spec_starts_with(s@, prefix@),
{
    let n = s.unicode_len();
    let pn = prefix.unicode_len();
    if n < pn {
        return false;
    }
    let head = s.substring_char(0, pn);
    proof {
        assert(head@ =~= s@.take(pn as int));
    }
    eq_str(head, prefix)
}

pub fn ends_with_str(s: &str, suffix: &str) -> (r: bool)
    ensures
        r == spec_ends_with(s@, suffix@),
{
    let n = s.unicode_len();
    let sn = suffix.unicode_len();
    if n < sn {
        return false;
    }
    let tail = s.substring_char(n - sn, n);
    proof {
        assert(tail@ =~= s@.skip(s@.len() - suffix@.len()));
    }
    eq_str(tail, suffix)
}

/// `needle` occurs in `hay` starting at position `i`.
pub open spec fn spec_match_at(hay: Seq<char>, needle: Seq<char>, i: int) -> bool {
    0 <= i && i + needle.len() <= hay.len() && hay.subrange(i, i + needle.len()) == needle
}

pub open spec fn spec_contains_sub(hay: Seq<char>, needle: Seq<char>) -> bool {
    exists|i: int| spec_match_at(hay, needle, i)
}

fn match_at(s: &str, i: usize, needle: &str) -> (r: bool)
    requires
        i + needle@.len() <= s@.len(),
    ensures
        r == spec_match_at(s@, needle@, i as int),
{
    let _sn: usize = s.unicode_len();
    let nn = needle.unicode_len();
    let part = s.substring_char(i, i + nn);
    proof {
        assert(part@ =~= s@.subrange(i as int, i + needle@.len()));
    }
    eq_str(part, needle)
}

/// Index of the first occurrence of `needle` in `hay`, if any.
pub open spec fn spec_find_sub(hay: Seq<char>, needle: Seq<char>) -> Option<int>
    decreases hay.len(),
{
    if hay.len() < needle.len() {
        None
    } else if hay.take(needle.len() as int) == needle {
        Some(0int)
    } else if hay.len() == 0 {
        None
    } else {
        match spec_find_sub(hay.skip(1), needle) {
            None => None,
            Some(j) => Some(j + 1),
        }
    }
}

/// A match one step into `hay` is a match in `hay` shifted by one.
proof fn lemma_match_at_skip(hay: Seq<char>, needle: Seq<char>, i: int)
    requires
        i >= 0,
        hay.len() >= 1,
    ensures
        spec_match_at(hay.skip(1), needle, i) <==> spec_match_at(hay, needle, i + 1),
{
    let h1 = hay.skip(1);
    if i + needle.len() <= h1.len() {
        assert forall|k: int|
            0 <= k < needle.len() implies #[trigger] h1.subrange(i, i + needle.len() as int)[k]
            == hay.subrange(i + 1, i + 1 + needle.len() as int)[k] by {
            assert(h1[i + k] == hay[i + 1 + k]);
        }
        assert(h1.subrange(i, i + needle.len() as int) =~= hay.subrange(
            i + 1,
            i + 1 + needle.len() as int,
        ));
    }
}

proof fn lemma_match_at_zero(hay: Seq<char>, needle: Seq<char>)
    requires
        hay.len() >= needle.len(),
    ensures
        spec_match_at(hay, needle, 0) <==> hay.take(needle.len() as int) == needle,
{
    assert(hay.subrange(0, needle.len() as int) =~= hay.take(needle.len() as int));
}

pub proof fn lemma_find_sub_some(hay: Seq<char>, needle: Seq<char>, i: int)
    requires
        spec_match_at(hay, needle, i),
        forall|j: int| 0 <= j < i ==> !spec_match_at(hay, needle, j),
    ensures
        spec_find_sub(hay, needle) == Some(i),
    decreases i,
{
    lemma_match_at_zero(hay, needle);
    if i == 0 {
    } else {
        assert(!spec_match_at(hay, needle, 0));
        assert(hay.len() >= 1);
        let h1 = hay.skip(1);
        lemma_match_at_skip(hay, needle, i - 1);
        assert(spec_match_at(h1, needle, i - 1));
        assert forall|j: int| 0 <= j < i - 1 implies !spec_match_at(h1, needle, j) by {
            lemma_match_at_skip(hay, needle, j);
            assert(!spec_match_at(hay, needle, j + 1));
        }
        lemma_find_sub_some(h1, needle, i - 1);
    }
}

pub proof fn lemma_find_sub_none(hay: Seq<char>, needle: Seq<char>)
    requires
        forall|j: int| !spec_match_at(hay, needle, j),
    ensures
        spec_find_sub(hay, needle) is None,
    decreases hay.len(),
{
    if hay.len() >= needle.len() {
        lemma_match_at_zero(hay, needle);
        assert(!spec_match_at(hay, needle, 0));
        if hay.len() > 0 {
            let h1 = hay.skip(1);
            assert forall|j: int| !spec_match_at(h1, needle, j) by {
                if j >= 0 {
                    lemma_match_at_skip(hay, needle, j);
                    assert(!spec_match_at(hay, needle, j + 1));
                }
            }
            lemma_find_sub_none(h1, needle);
        }
    }
}

pub fn find_sub(hay: &str, needle: &str) -> (r: Option<usize>)
    ensures
        r matches Some(i) ==> spec_find_sub(hay@, needle@) == Some(i as int) && spec_match_at(
            hay@,
            needle@,
            i as int,
        ) && forall|j: int| 0 <= j < i ==> !spec_match_at(hay@, needle@, j),
        r is None ==> !spec_contains_sub(hay@, needle@) && spec_find_sub(hay@, needle@) is None,
{
    let n = hay.unicode_len();
    let nn = needle.unicode_len();
    if nn > n {
        proof {
            assert forall|j: int| !spec_match_at(hay@, needle@, j) by {}
        }
        return None;
    }
    if nn == 0 {
        proof {
            assert(hay@.subrange(0, 0) =~= needle@);
            assert(hay@.take(0int) =~= needle@);
        }
        return Some(0);
    }
    let mut i: usize = 0;
    while i <= n - nn
        invariant
            n == hay@.len(),
            nn == needle@.len(),
            1 <= nn <= n,
            i <= n - nn + 1,
            forall|j: int| 0 <= j < i ==> !spec_match_at(hay@, needle@, j),
        decreases n - i,
    {
        if match_at(hay, i, needle) {
            proof {
                lemma_find_sub_some(hay@, needle@, i as int);
            }
            return Some(i);
        }
        i = i + 1;
    }
    proof {
        assert forall|j: int| !spec_match_at(hay@, needle@, j) by {
            if 0 <= j && j + needle@.len() <= hay@.len() {
                assert(j < i);
            }
        }
        lemma_find_sub_none(hay@, needle@);
    }
    None
}

pub fn contains_sub(hay: &str, needle: &str) -> (r: bool)
    ensures
        r == spec_contains_sub(hay@, needle@),
{
    match find_sub(hay, needle) {
        Some(_) => true,
        None => false,
    }
}

// ---------------------------------------------------------------------------
// Lexicographic order on character sequences
// ---------------------------------------------------------------------------
/// `a` is at or before `b` in lexicographic order (by code point).
pub open spec fn spec_seq_le(a: Seq<char>, b: Seq<char>) -> bool
    decreases a.len(),
{
    if a.len() == 0 {
        true
    } else if b.len() == 0 {
        false
    } else if a[0] != b[0] {
        a[0] < b[0]
    } else {
        spec_seq_le(a.skip(1), b.skip(1))
    }
}

/// The order is total.
pub proof fn lemma_seq_le_total(a: Seq<char>, b: Seq<char>)
    ensures
        spec_seq_le(a, b) || spec_seq_le(b, a),
    decreases a.len(),
{
    if a.len() > 0 && b.len() > 0 && a[0] == b[0] {
        lemma_seq_le_total(a.skip(1), b.skip(1));
    }
}

/// The order is antisymmetric.
pub proof fn lemma_seq_le_antisymmetric(a: Seq<char>, b: Seq<char>)
    requires
        spec_seq_le(a, b),
        spec_seq_le(b, a),
    ensures
        a == b,
    decreases a.len(),
{
    if a.len() == 0 {
        assert(b.len() == 0);
        assert(a =~= b);
    } else {
        assert(b.len() > 0);
        assert(a[0] == b[0]);
        lemma_seq_le_antisymmetric(a.skip(1), b.skip(1));
        assert(a =~= seq![a[0]] + a.skip(1));
        assert(b =~= seq![b[0]] + b.skip(1));
    }
}

/// The order is transitive.
pub proof fn lemma_seq_le_trans(a: Seq<char>, b: Seq<char>, c: Seq<char>)
    requires
        spec_seq_le(a, b),
        spec_seq_le(b, c),
    ensures
        spec_seq_le(a, c),
    decreases a.len(),
{
    if a.len() > 0 {
        assert(b.len() > 0);
        assert(c.len() > 0);
        if a[0] == b[0] && b[0] == c[0] {
            lemma_seq_le_trans(a.skip(1), b.skip(1), c.skip(1));
        }
    }
}

pub fn str_le(a: &str, b: &str) -> (r: bool)
    ensures
        r == spec_seq_le(a@, b@),
    decreases a@.len(),
{
    let an = a.unicode_len();
    let bn = b.unicode_len();
    if an == 0 {
        true
    } else if bn == 0 {
        false
    } else {
        let ca = a.get_char(0);
        let cb = b.get_char(0);
        if ca != cb {
            ca < cb
        } else {
            let ra = a.substring_char(1, an);
            let rb = b.substring_char(1, bn);
            proof {
                assert(ra@ =~= a@.skip(1));
                assert(rb@ =~= b@.skip(1));
            }
            str_le(ra, rb)
        }
    }
}

// ---------------------------------------------------------------------------
// Removing every occurrence of a substring
// ---------------------------------------------------------------------------
/// `s` with every occurrence of `sub` removed, scanning from the left; an
/// empty `sub` removes nothing.
pub open spec fn spec_remove_sub(s: Seq<char>, sub: Seq<char>) -> Seq<char>
    decreases s.len(),
{
    if sub.len() == 0 {
        s
    } else {
        match spec_find_sub(s, sub) {
            None => s,
            Some(i) => if 0 <= i && i + sub.len() <= s.len() {
                s.take(i) + spec_remove_sub(s.skip(i + sub.len()), sub)
            } else {
                s
            },
        }
    }
}

pub fn remove_occurrences(s: &str, sub: &str) -> (r: String)
    ensures
        r@ == spec_remove_sub(s@, sub@),
    decreases s@.len(),
{
    let n = s.unicode_len();
    let sn = sub.unicode_len();
    if sn == 0 {
        return String::from_str(s);
    }
    match find_sub(s, sub) {
        None => String::from_str(s),
        Some(i) => {
            let head = s.substring_char(0, i);
            let tail = s.substring_char(i + sn, n);
            proof {
                assert(head@ =~= s@.take(i as int));
                assert(tail@ =~= s@.skip(i + sub@.len()));
            }
            let rest = remove_occurrences(tail, sub);
            let mut out = String::from_str(head);
            out.append(rest.as_str());
            out
        },
    }
}

// ---------------------------------------------------------------------------
// Last occurrence of a character
// ---------------------------------------------------------------------------
/// Index of the last occurrence of `sep` in `s`, if any.
pub open spec fn spec_rfind(s: Seq<char>, sep: char) -> Option<int>
    decreases s.len(),
{
    if s.len() == 0 {
        None
    } else if s.last() == sep {
        Some(s.len() - 1)
    } else {
        spec_rfind(s.drop_last(), sep)
    }
}

proof fn lemma_rfind_some(s: Seq<char>, sep: char, i: int)
    requires
        0 <= i < s.len(),
        s[i] == sep,
        forall|j: int| i < j < s.len() ==> s[j] != sep,
    ensures
        spec_rfind(s, sep) == Some(i),
    decreases s.len(),
{
    if i == s.len() - 1 {
    } else {
        assert(s.last() != sep);
        assert(s.drop_last()[i] == sep);
        assert(forall|j: int| i < j < s.drop_last().len() ==> s.drop_last()[j] == s[j]);
        lemma_rfind_some(s.drop_last(), sep, i);
    }
}

proof fn lemma_rfind_none(s: Seq<char>, sep: char)
    requires
        forall|j: int| 0 <= j < s.len() ==> s[j] != sep,
    ensures
        spec_rfind(s, sep) is None,
    decreases s.len(),
{
    if s.len() > 0 {
        assert(s.last() != sep) by {
            assert(s[s.len() - 1] == s.last());
        }
        assert(forall|j: int| 0 <= j < s.drop_last().len() ==> s.drop_last()[j] == s[j]);
        lemma_rfind_none(s.drop_last(), sep);
    }
}

pub fn rfind_char(s: &str, sep: char) -> (r: Option<usize>)
    ensures
        r is Some <==> spec_rfind(s@, sep) is Some,
        r matches Some(i) ==> spec_rfind(s@, sep) == Some(i as int) && i < s@.len() && s@[i as int]
            == sep,
{
    let n = s.unicode_len();
    let mut i: usize = n;
    while i > 0
        invariant
            n == s@.len(),
            i <= n,
            forall|j: int| i <= j < n ==> s@[j] != sep,
        decreases i,
    {
        i = i - 1;
        if s.get_char(i) == sep {
            proof {
                lemma_rfind_some(s@, sep, i as int);
            }
            return Some(i);
        }
    }
    proof {
        lemma_rfind_none(s@, sep);
    }
    None
}

// ---------------------------------------------------------------------------
// Concatenation
// ---------------------------------------------------------------------------
pub fn concat2(a: &str, b: &str) -> (r: String)
    ensures
        r@ == a@ + b@,
{
    let mut s = String::from_str(a);
    s.append(b);
    s
}

pub fn concat3(a: &str, b: &str, c: &str) -> (r: String)
    ensures
        r@ == a@ + b@ + c@,
{
    let mut s = String::from_str(a);
    s.append(b);
    s.append(c);
    s
}

// ---------------------------------------------------------------------------
// First whitespace, first word
// ---------------------------------------------------------------------------
/// Index of the first whitespace character in `s`, if any.
pub open spec fn spec_find_space(s: Seq<char>) -> Option<int>
    decreases s.len(),
{
    if s.len() == 0 {
        None
    } else if spec_is_space(s[0]) {
        Some(0int)
    } else {
        match spec_find_space(s.skip(1)) {
            None => None,
            Some(j) => Some(j + 1),
        }
    }
}

proof fn lemma_find_space_some(s: Seq<char>, i: int)
    requires
        0 <= i < s.len(),
        spec_is_space(s[i]),
        forall|j: int| 0 <= j < i ==> !spec_is_space(s[j]),
    ensures
        spec_find_space(s) == Some(i),
    decreases i,
{
    if i > 0 {
        assert(spec_is_space(s.skip(1)[i - 1])) by {
            assert(s.skip(1)[i - 1] == s[i]);
        }
        assert(forall|j: int|
            0 <= j < i - 1 ==> s.skip(1)[j] == s[j + 1] && !spec_is_space(s[j + 1]));
        lemma_find_space_some(s.skip(1), i - 1);
    }
}

proof fn lemma_find_space_none(s: Seq<char>)
    requires
        forall|j: int| 0 <= j < s.len() ==> !spec_is_space(s[j]),
    ensures
        spec_find_space(s) is None,
    decreases s.len(),
{
    if s.len() > 0 {
        assert(forall|j: int|
            0 <= j < s.skip(1).len() ==> s.skip(1)[j] == s[j + 1] && !spec_is_space(s[j + 1]));
        lemma_find_space_none(s.skip(1));
    }
}

/// The first run of non-whitespace characters of `s` (all of `s` when it
/// holds no whitespace).
pub open spec fn spec_first_word(s: Seq<char>) -> Seq<char> {
    match spec_find_space(s) {
        None => s,
        Some(i) => s.take(i),
    }
}

pub fn first_word(s: &str) -> (r: String)
    ensures
        r@ == spec_first_word(s@),
{
    let n = s.unicode_len();
    let mut i: usize = 0;
    while i < n
        invariant
            n == s@.len(),
            i <= n,
            forall|j: int| 0 <= j < i ==> !spec_is_space(s@[j]),
        decreases n - i,
    {
        if is_space(s.get_char(i)) {
            proof {
                lemma_find_space_some(s@, i as int);
            }
            let w = s.substring_char(0, i);
            proof {
                assert(w@ =~= s@.take(i as int));
            }
            return String::from_str(w);
        }
        i = i + 1;
    }
    proof {
        lemma_find_space_none(s@);
    }
    String::from_str(s)
}

// ---------------------------------------------------------------------------
// Whitespace-separated words
// ---------------------------------------------------------------------------
/// The maximal whitespace-free runs of `s`, in order.
pub open spec fn spec_words(s: Seq<char>) -> Seq<Seq<char>>
    decreases s.len(),
{
    if s.len() == 0 {
        Seq::<Seq<char>>::empty()
    } else {
        let rest = spec_words(s.drop_last());
        let c = s.last();
        if spec_is_space(c) {
            rest
        } else if s.len() >= 2 && !spec_is_space(s[s.len() - 2]) {
            rest.update(rest.len() - 1, rest.last().push(c))
        } else {
            rest.push(seq![c])
        }
    }
}

/// A sequence ending in a word has at least one word.
proof fn lemma_words_nonempty(s: Seq<char>)
    requires
        s.len() > 0,
        !spec_is_space(s.last()),
    ensures
        spec_words(s).len() >= 1,
    decreases s.len(),
{
    if s.len() >= 2 && !spec_is_space(s[s.len() - 2]) {
        assert(s.drop_last().last() == s[s.len() - 2]);
        lemma_words_nonempty(s.drop_last());
    }
}

pub fn split_words(s: &str) -> (r: Vec<String>)
    ensures
        r.deep_view() == spec_words(s@),
{
    let n = s.unicode_len();
    let mut out: Vec<String> = Vec::new();
    let mut cur: String = String::new();
    let mut i: usize = 0;
    while i < n
        invariant
            n == s@.len(),
            i <= n,
            cur@.len() > 0 ==> i > 0 && !spec_is_space(s@[i - 1]) && out.deep_view().push(cur@)
                =~~= spec_words(s@.take(i as int)),
            cur@.len() == 0 ==> (i == 0 || spec_is_space(s@[i - 1])) && out.deep_view()
                =~~= spec_words(s@.take(i as int)),
        decreases n - i,
    {
        proof {
            assert(s@.take(i + 1).drop_last() =~= s@.take(i as int));
            assert(s@.take(i + 1).last() == s@[i as int]);
            if i > 0 {
                assert(s@.take(i + 1)[i - 1] == s@[i - 1]);
            }
        }
        let c = s.get_char(i);
        if is_space(c) {
            if cur.as_str().unicode_len() > 0 {
                out.push(cur);
                cur = String::new();
            }
        } else {
            let piece = s.substring_char(i, i + 1);
            proof {
                assert(piece@ =~= seq![s@[i as int]]);
                if cur@.len() > 0 {
                    let prev = spec_words(s@.take(i as int));
                    lemma_words_nonempty(s@.take(i as int));
                }
            }
            cur.append(piece);
            proof {
                if out.deep_view().push(cur@).len() > 0 {
                }
                assert(out.deep_view().push(cur@) =~~= spec_words(s@.take(i + 1)));
            }
        }
        i = i + 1;
    }
    proof {
        assert(s@.take(n as int) =~= s@);
    }
    if cur.as_str().unicode_len() > 0 {
        out.push(cur);
    }
    out
}

// ---------------------------------------------------------------------------
// Decimal formatting and parsing
// ---------------------------------------------------------------------------
pub open spec fn spec_digit_char(d: nat) -> char {
    if d == 0 {
        '0'
    } else if d == 1 {
        '1'
    } else if d == 2 {
        '2'
    } else if d == 3 {
        '3'
    } else if d == 4 {
        '4'
    } else if d == 5 {
        '5'
    } else if d == 6 {
        '6'
    } else if d == 7 {
        '7'
    } else if d == 8 {
        '8'
    } else {
        '9'
    }
}

/// Decimal representation of `n`, with no leading zeros (a single `'0'` for 0).
pub open spec fn spec_dec(n: nat) -> Seq<char>
    decreases n,
{
    if n < 10 {
        seq![spec_digit_char(n)]
    } else {
        spec_dec(n / 10) + seq![spec_digit_char(n % 10)]
    }
}

fn digit_str(d: u64) -> (r: &'static str)
    requires
        d < 10,
    ensures
        r@ == seq![spec_digit_char(d as nat)],
{
    proof {
        reveal_strlit("0");
        reveal_strlit("1");
        reveal_strlit("2");
        reveal_strlit("3");
        reveal_strlit("4");
        reveal_strlit("5");
        reveal_strlit("6");
        reveal_strlit("7");
        reveal_strlit("8");
        reveal_strlit("9");
    }
    let r = if d == 0 {
        "0"
    } else if d == 1 {
        "1"
    } else if d == 2 {
        "2"
    } else if d == 3 {
        "3"
    } else if d == 4 {
        "4"
    } else if d == 5 {
        "5"
    } else if d == 6 {
        "6"
    } else if d == 7 {
        "7"
    } else if d == 8 {
        "8"
    } else {
        "9"
    };
    proof {
        assert(r@ =~= seq![spec_digit_char(d as nat)]);
    }
    r
}

pub fn u64_to_string(n: u64) -> (r: String)
    ensures
        r@ == spec_dec(n as nat),
    decreases n,
{
    if n < 10 {
        String::from_str(digit_str(n))
    } else {
        let mut s = u64_to_string(n / 10);
        s.append(digit_str(n % 10));
        s
    }
}

/// Value of a pure-digit sequence read in base 10.
pub open spec fn spec_dec_val(s: Seq<char>) -> nat
    decreases s.len(),
{
    if s.len() == 0 {
        0
    } else {
        spec_dec_val(s.drop_last()) * 10 + spec_digit_val(s.last())
    }
}

pub open spec fn spec_digit_val(c: char) -> nat {
    if c == '0' {
        0
    } else if c == '1' {
        1
    } else if c == '2' {
        2
    } else if c == '3' {
        3
    } else if c == '4' {
        4
    } else if c == '5' {
        5
    } else if c == '6' {
        6
    } else if c == '7' {
        7
    } else if c == '8' {
        8
    } else {
        9
    }
}

pub open spec fn spec_all_digits(s: Seq<char>) -> bool {
    s.len() >= 1 && forall|i: int| 0 <= i < s.len() ==> '0' <= s[i] && s[i] <= '9'
}

fn digit_val(c: char) -> (r: u64)
    requires
        '0' <= c && c <= '9',
    ensures
        r == spec_digit_val(c),
        r < 10,
{
    if c == '0' {
        0
    } else if c == '1' {
        1
    } else if c == '2' {
        2
    } else if c == '3' {
        3
    } else if c == '4' {
        4
    } else if c == '5' {
        5
    } else if c == '6' {
        6
    } else if c == '7' {
        7
    } else if c == '8' {
        8
    } else {
        9
    }
}

/// Parses a sequence of decimal digits, rejecting anything else and any
/// value above `max`.
pub fn parse_dec_capped(s: &str, max: u64) -> (r: Option<u64>)
    ensures
        r matches Some(v) ==> spec_all_digits(s@) && v == spec_dec_val(s@) && v <= max,
        r is None ==> !spec_all_digits(s@) || spec_dec_val(s@) > max,
{
    let n = s.unicode_len();
    if n == 0 {
        return None;
    }
    let mut acc: u64 = 0;
    let mut i: usize = 0;
    while i < n
        invariant
            n == s@.len(),
            i <= n,
            forall|j: int| 0 <= j < i ==> '0' <= s@[j] && s@[j] <= '9',
            acc == spec_dec_val(s@.take(i as int)),
            acc <= max,
        decreases n - i,
    {
        let c = s.get_char(i);
        if !('0' <= c && c <= '9') {
            return None;
        }
        let d = digit_val(c);
        proof {
            assert(s@.take(i + 1).drop_last() =~= s@.take(i as int));
            assert(s@.take(i + 1).last() == s@[i as int]);
        }
        if acc > max / 10 || (acc == max / 10 && d > max % 10) {
            proof {
                assert(spec_dec_val(s@.take(i + 1)) > max) by {
                    assert(max == max / 10 * 10 + max % 10);
                }
                lemma_dec_val_monotone(s@.take(i + 1), s@);
            }
            return None;
        }
        proof {
            assert(acc * 10 + d <= max) by {
                assert(max == max / 10 * 10 + max % 10);
            }
        }
        acc = acc * 10 + d;
        i = i + 1;
    }
    proof {
        assert(s@.take(n as int) =~= s@);
    }
    Some(acc)
}

/// Extending a digit sequence never lowers its value.
proof fn lemma_dec_val_monotone(p: Seq<char>, s: Seq<char>)
    requires
        p.len() <= s.len(),
        p =~= s.take(p.len() as int),
    ensures
        spec_dec_val(p) <= spec_dec_val(s),
    decreases s.len() - p.len(),
{
    if p.len() < s.len() {
        let q = s.take(p.len() as int + 1);
        assert(q.len() == p.len() + 1);
        assert(q.drop_last() =~= p);
        assert(q =~= s.take(q.len() as int));
        assert(spec_dec_val(q) == spec_dec_val(p) * 10 + spec_digit_val(q.last()));
        assert(spec_dec_val(p) <= spec_dec_val(p) * 10);
        lemma_dec_val_monotone(q, s);
    } else {
        assert(p =~= s.take(s.len() as int));
        assert(s.take(s.len() as int) =~= s);
    }
}

/// Round trip: parsing the decimal rendering gives the number back.
pub proof fn lemma_dec_round_trip(n: nat)
    ensures
        spec_dec_val(spec_dec(n)) == n,
        spec_all_digits(spec_dec(n)),
    decreases n,
{
    if n < 10 {
        let s = spec_dec(n);
        assert(s == seq![spec_digit_char(n)]);
        assert(s.len() == 1);
        assert(s.last() == spec_digit_char(n));
        assert(s.drop_last() =~= Seq::<char>::empty());
        assert(spec_dec_val(s.drop_last()) == 0);
        assert(spec_dec_val(s) == spec_digit_val(spec_digit_char(n)));
    } else {
        lemma_dec_round_trip(n / 10);
        let s = spec_dec(n);
        let p = spec_dec(n / 10);
        assert(s == p + seq![spec_digit_char(n % 10)]);
        assert(s.drop_last() =~= p);
        assert(s.last() == spec_digit_char(n % 10));
        assert(spec_dec_val(s) == spec_dec_val(p) * 10 + spec_digit_val(spec_digit_char(n % 10)));
        assert(spec_digit_val(spec_digit_char(n % 10)) == n % 10);
        assert(n == n / 10 * 10 + n % 10);
        assert(spec_all_digits(s)) by {
            assert(forall|i: int| 0 <= i < p.len() ==> s[i] == p[i]);
            assert(s[s.len() - 1] == spec_digit_char(n % 10));
        }
    }
}

} // verus!

//! Verified string utilities: equality, prefix/suffix tests, scope joining,
//! and splitting/joining on a separator. All contracts are stated over the
//! `Seq<char>` views of the strings involved.
use vstd::prelude::*;
use vstd::string::StrSliceExecFns;
use vstd::string::StringExecFns;

verus! {

/// Joining a name segment onto a scope prefix: the segment alone when the
/// prefix is empty, otherwise the prefix, the separator, and the segment.
pub open spec fn spec_join(prefix: Seq<char>, segment: Seq<char>, sep: Seq<char>) -> Seq<char> {
    if prefix.len() == 0 {
        segment
    } else {
        prefix + sep + segment
    }
}

/// Splitting a character sequence on a separator character. The result always
/// has at least one element; a separator at the edge contributes an empty
/// part, as does an empty input.
pub open spec fn spec_split(s: Seq<char>, c: char) -> Seq<Seq<char>>
    decreases s.len(),
{
    if s.len() == 0 {
        seq![Seq::<char>::empty()]
    } else if s[0] == c {
        seq![Seq::<char>::empty()] + spec_split(s.drop_first(), c)
    } else {
        let rest = spec_split(s.drop_first(), c);
        seq![seq![s[0]] + rest[0]] + rest.drop_first()
    }
}

pub proof fn lemma_spec_split_len(s: Seq<char>, c: char)
    ensures
        spec_split(s, c).len() >= 1,
    decreases s.len(),
{
    if s.len() == 0 {
    } else if s[0] == c {
    } else {
        lemma_spec_split_len(s.drop_first(), c);
    }
}

/// Joining a sequence of parts with a separator between consecutive parts.
pub open spec fn spec_join_parts(parts: Seq<Seq<char>>, sep: Seq<char>) -> Seq<char>
    decreases parts.len(),
{
    if parts.len() == 0 {
        Seq::empty()
    } else if parts.len() == 1 {
        parts[0]
    } else {
        parts[0] + sep + spec_join_parts(parts.drop_first(), sep)
    }
}

pub proof fn lemma_join_parts_push(parts: Seq<Seq<char>>, x: Seq<char>, sep: Seq<char>)
    ensures
        spec_join_parts(parts.push(x), sep) == if parts.len() == 0 {
            x
        } else {
            spec_join_parts(parts, sep) + sep + x
        },
    decreases parts.len(),
{
    if parts.len() == 0 {
        assert(parts.push(x) =~= seq![x]);
        assert(spec_join_parts(seq![x], sep) == x);
    } else {
        lemma_join_parts_push(parts.drop_first(), x, sep);
        assert(parts.push(x).drop_first() =~= parts.drop_first().push(x));
        assert(parts.push(x)[0] == parts[0]);
        assert(parts.push(x).len() >= 2);
        if parts.len() == 1 {
            assert(parts.drop_first().len() == 0);
            assert(spec_join_parts(parts, sep) == parts[0]);
        } else {
            assert((parts[0] + sep + (spec_join_parts(parts.drop_first(), sep) + sep + x)) =~= (
            parts[0] + sep + spec_join_parts(parts.drop_first(), sep)) + sep + x);
        }
    }
}

/// Character-sequence equality of two string slices.
pub fn str_eq(a: &str, b: &str) -> (r: bool)
    ensures
        r == (a@ == b@),
{
    let na = a.unicode_len();
    let nb = b.unicode_len();
    if na != nb {
        assert(a@ != b@);
        return false;
    }
    let mut i: usize = 0;
    while i < na
        invariant
            i <= na,
            na == a@.len(),
            na == b@.len(),
            forall|j: int| 0 <= j < i ==> a@[j] == b@[j],
        decreases na - i,
    {
        if a.get_char(i) != b.get_char(i) {
            return false;
        }
        i += 1;
    }
    assert(a@ =~= b@);
    true
}

/// Whether `p` is a prefix of `s`.
pub fn starts_with_str(s: &str, p: &str) -> (r: bool)
    ensures
        r == p@.is_prefix_of(s@),
{
    let ns = s.unicode_len();
    let np = p.unicode_len();
    if np > ns {
        return false;
    }
    let mut i: usize = 0;
    while i < np
        invariant
            i <= np,
            np <= ns,
            ns == s@.len(),
            np == p@.len(),
            forall|j: int| 0 <= j < i ==> s@[j] == p@[j],
        decreases np - i,
    {
        if s.get_char(i) != p.get_char(i) {
            return false;
        }
        i += 1;
    }
    assert(p@ =~= s@.subrange(0, p@.len() as int));
    true
}

/// Whether `p` is a suffix of `s`.
pub fn ends_with_str(s: &str, p: &str) -> (r: bool)
    ensures
        r == p@.is_suffix_of(s@),
{
    let ns = s.unicode_len();
    let np = p.unicode_len();
    if np > ns {
        return false;
    }
    let off = ns - np;
    let mut i: usize = 0;
    while i < np
        invariant
            i <= np,
            off == ns - np,
            np <= ns,
            ns == s@.len(),
            np == p@.len(),
            forall|j: int| 0 <= j < i ==> s@[off + j] == p@[j],
        decreases np - i,
    {
        if s.get_char(off + i) != p.get_char(i) {
            return false;
        }
        i += 1;
    }
    assert(p@ =~= s@.subrange(s@.len() - p@.len(), s@.len() as int));
    true
}

/// The concatenation of two string slices, as a fresh `String`.
pub fn concat2(a: &str, b: &str) -> (r: String)
    ensures
        r@ == a@ + b@,
{
    let mut r = a.to_owned();
    r.append(b);
    r
}

/// The concatenation of three string slices, as a fresh `String`.
pub fn concat3(a: &str, b: &str, c: &str) -> (r: String)
    ensures
        r@ == a@ + b@ + c@,
{
    let mut r = a.to_owned();
    r.append(b);
    r.append(c);
    r
}

/// Joins a name segment onto a scope prefix with the given separator.
pub fn join_scope(prefix: &str, segment: &str, sep: &str) -> (r: String)
    ensures
        r@ == spec_join(prefix@, segment@, sep@),
{
    if prefix.unicode_len() == 0 {
        segment.to_owned()
    } else {
        concat3(prefix, sep, segment)
    }
}

/// `s` without its suffix `p`, when `p` is one.
pub fn strip_suffix_str(s: &str, p: &str) -> (r: Option<String>)
    ensures
        match r {
            Some(t) => p@.is_suffix_of(s@) && t@ == s@.subrange(0, s@.len() - p@.len()),
            None => !p@.is_suffix_of(s@),
        },
{
    if ends_with_str(s, p) {
        let ns = s.unicode_len();
        let np = p.unicode_len();
        let t = s.substring_char(0, ns - np);
        Some(t.to_owned())
    } else {
        None
    }
}

/// Splits a string on a separator character, into the parts of `spec_split`.
pub fn split_on(s: &str, c: char) -> (r: Vec<String>)
    ensures
        r.deep_view() == spec_split(s@, c),
{
    let n = s.unicode_len();
    let mut parts: Vec<String> = Vec::new();
    let mut cur: String = String::new();
    let mut i: usize = 0;
    proof {
        lemma_spec_split_len(s@, c);
        assert(s@.skip(0) =~= s@);
        let sfx0 = spec_split(s@, c);
        assert(cur@ + sfx0[0] =~= sfx0[0]);
        assert(spec_split(s@, c) =~= parts.deep_view() + seq![cur@ + sfx0[0]]
            + sfx0.drop_first());
    }
    while i < n
        invariant
            i <= n,
            n == s@.len(),
            spec_split(s@.skip(i as int), c).len() >= 1,
            spec_split(s@, c) =~= parts.deep_view() + seq![
                cur@ + spec_split(s@.skip(i as int), c)[0],
            ] + spec_split(s@.skip(i as int), c).drop_first(),
        decreases n - i,
    {
        let ghost sfx_i = spec_split(s@.skip(i as int), c);
        let ghost sfx_n = spec_split(s@.skip(i as int + 1), c);
        proof {
            lemma_spec_split_len(s@.skip(i as int + 1), c);
            assert(s@.skip(i as int).len() > 0);
            assert(s@.skip(i as int)[0] == s@[i as int]);
            assert(s@.skip(i as int).drop_first() =~= s@.skip(i as int + 1));
        }
        let ch = s.get_char(i);
        if ch == c {
            proof {
                assert(sfx_i =~= seq![Seq::<char>::empty()] + sfx_n);
                assert(sfx_i[0] =~= Seq::<char>::empty());
                assert(cur@ + sfx_i[0] =~= cur@);
                assert(sfx_i.drop_first() =~= sfx_n);
                assert(cur@ + sfx_i[0] =~= cur@);
                assert(sfx_n =~= seq![sfx_n[0]] + sfx_n.drop_first());
            }
            parts.push(cur);
            cur = String::new();
            proof {
                assert(cur@ + sfx_n[0] =~= sfx_n[0]);
                assert(spec_split(s@, c) =~= parts.deep_view() + seq![cur@ + sfx_n[0]]
                    + sfx_n.drop_first());
            }
        } else {
            proof {
                assert(sfx_i =~= seq![seq![s@[i as int]] + sfx_n[0]] + sfx_n.drop_first());
                assert(sfx_i[0] =~= seq![s@[i as int]] + sfx_n[0]);
                assert(sfx_i.drop_first() =~= sfx_n.drop_first());
            }
            let piece = s.substring_char(i, i + 1);
            let ghost old_cur = cur@;
            proof {
                assert(piece@ =~= seq![s@[i as int]]);
            }
            cur.append(piece);
            proof {
                assert(cur@ =~= old_cur + seq![s@[i as int]]);
                assert(cur@ + sfx_n[0] =~= old_cur + sfx_i[0]);
                assert(spec_split(s@, c) =~= parts.deep_view() + seq![cur@ + sfx_n[0]]
                    + sfx_n.drop_first());
            }
        }
        i += 1;
    }
    proof {
        assert(s@.skip(n as int) =~= Seq::<char>::empty());
        assert(spec_split(s@.skip(n as int), c) =~= seq![Seq::<char>::empty()]);
        assert(cur@ + Seq::<char>::empty() =~= cur@);
        assert(spec_split(s@, c) =~= parts.deep_view().push(cur@));
    }
    parts.push(cur);
    proof {
        assert(spec_split(s@, c) =~= parts.deep_view());
    }
    parts
}

/// Joins parts with a separator, the inverse of `split_on` for inputs whose
/// parts do not contain the separator.
pub fn join_parts(parts: &Vec<String>, sep: &str) -> (r: String)
    ensures
        r@ == spec_join_parts(parts.deep_view(), sep@),
{
    let mut r = String::new();
    let mut i: usize = 0;
    while i < parts.len()
        invariant
            i <= parts.len(),
            r@ == spec_join_parts(parts.deep_view().take(i as int), sep@),
        decreases parts.len() - i,
    {
        proof {
            lemma_join_parts_push(parts.deep_view().take(i as int), parts.deep_view()[i as int],
                sep@);
            assert(parts.deep_view().take(i as int).push(parts.deep_view()[i as int])
                =~= parts.deep_view().take(i as int + 1));
        }
        if i > 0 {
            r.append(sep);
        }
        r.append(parts[i].as_str());
        i += 1;
    }
    proof {
        assert(parts.deep_view().take(parts.len() as int) =~= parts.deep_view());
    }
    r
}

} // verus!

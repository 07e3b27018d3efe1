//! Reading a parameter out of the query part of a page address
//! (`?backend=...&theme=...`).

use vstd::prelude::*;
use vstd::string::StrSliceExecFns;
use crate::text::chars_of;

verus! {

/// The position of the first `c` in `s`, or the length of `s` when there is none.
pub open spec fn sep_pos(s: Seq<char>, c: char) -> nat
    decreases s.len(),
{
    if s.len() == 0 {
        0
    } else if s[0] == c {
        0
    } else {
        1 + sep_pos(s.drop_first(), c)
    }
}

/// What comes before the first `c` in `s` (all of `s` when there is none).
pub open spec fn before(s: Seq<char>, c: char) -> Seq<char> {
    s.take(sep_pos(s, c) as int)
}

/// The value of parameter `name` in a query text without its leading `?`:
/// the `&`-separated pairs are read in order, and the first pair whose key
/// (the text before its first `=`) is `name` decides: its value is the text
/// between its first and second `=`, and a pair without `=` gives no value.
pub open spec fn param_in(s: Seq<char>, name: Seq<char>) -> Option<Seq<char>>
    decreases s.len(),
{
    let pair = before(s, '&');
    let key = before(pair, '=');
    if key == name {
        if key.len() < pair.len() {
            Some(before(pair.skip(key.len() + 1int), '='))
        } else {
            None
        }
    } else if pair.len() < s.len() {
        param_in(s.skip(pair.len() + 1int), name)
    } else {
        None
    }
}

/// The value of parameter `name` in the query text `search` as the browser
/// reports it (with its leading `?`), before any percent-decoding.
pub open spec fn url_param(search: Seq<char>, name: Seq<char>) -> Option<Seq<char>> {
    if search.len() == 0 {
        None
    } else {
        param_in(search.drop_first(), name)
    }
}

proof fn lemma_sep_pos(s: Seq<char>, c: char)
    ensures
        sep_pos(s, c) <= s.len(),
        forall|j: int| 0 <= j < sep_pos(s, c) ==> s[j] != c,
        sep_pos(s, c) < s.len() ==> s[sep_pos(s, c) as int] == c,
    decreases s.len(),
{
    if s.len() > 0 && s[0] != c {
        lemma_sep_pos(s.drop_first(), c);
        assert forall|j: int| 0 <= j < sep_pos(s, c) implies s[j] != c by {
            if j > 0 {
                assert(s[j] == s.drop_first()[j - 1]);
            }
        }
        if sep_pos(s, c) < s.len() {
            assert(s[sep_pos(s, c) as int] == s.drop_first()[sep_pos(s.drop_first(), c) as int]);
        }
    }
}

/// `s` holds no `c`.
pub open spec fn free_of(s: Seq<char>, c: char) -> bool {
    forall|j: int| 0 <= j < s.len() ==> s[j] != c
}

proof fn lemma_sep_at(a: Seq<char>, b: Seq<char>, c: char)
    requires
        free_of(a, c),
        b.len() > 0 ==> b[0] == c,
    ensures
        sep_pos(a + b, c) == a.len(),
{
    let s = a + b;
    lemma_sep_pos(s, c);
    if sep_pos(s, c) < a.len() {
        assert(s[sep_pos(s, c) as int] == a[sep_pos(s, c) as int]);
    } else if sep_pos(s, c) > a.len() {
        assert(s[a.len() as int] == b[0]);
    }
}

/// A parameter written into a query text as `?name=value`, alone or followed
/// by further `&`-separated pairs, is read back as `value`.
pub proof fn law_param_read_back(name: Seq<char>, value: Seq<char>, rest: Seq<char>)
    requires
        free_of(name, '&'),
        free_of(name, '='),
        free_of(value, '&'),
        free_of(value, '='),
        rest.len() > 0 ==> rest[0] == '&',
    ensures
        url_param(seq!['?'] + name + seq!['='] + value + rest, name) == Some(value),
{
    let search = seq!['?'] + name + seq!['='] + value + rest;
    let s = search.drop_first();
    let pair = name + seq!['='] + value;
    assert(s =~= pair + rest);
    assert(free_of(pair, '&')) by {
        assert forall|j: int| 0 <= j < pair.len() implies pair[j] != '&' by {
            if j < name.len() {
                assert(pair[j] == name[j]);
            } else if j > name.len() {
                assert(pair[j] == value[j - name.len() - 1]);
            }
        }
    }
    lemma_sep_at(pair, rest, '&');
    assert(before(s, '&') =~= pair);
    lemma_sep_at(name, seq!['='] + value, '=');
    assert(pair =~= name + (seq!['='] + value));
    assert(before(pair, '=') =~= name);
    assert(pair.skip(name.len() + 1int) =~= value);
    lemma_sep_at(value, Seq::<char>::empty(), '=');
    assert(value + Seq::<char>::empty() =~= value);
    assert(before(value, '=') =~= value);
}

/// Position `i` of the query text `s` (without its `?`) starts an
/// `&`-separated pair whose key is exactly `name`, followed by `=` and the
/// value `v`, which runs to the end of the pair or to a further `=`. Neither
/// the key nor the value holds `&` or `=`.
pub open spec fn pair_at(s: Seq<char>, i: int, name: Seq<char>, v: Seq<char>) -> bool {
    let k = i + name.len() + 1;
    &&& 0 <= i
    &&& (i == 0 || s[i - 1] == '&')
    &&& k + v.len() <= s.len()
    &&& s.subrange(i, i + name.len()) == name
    &&& s[i + name.len()] == '='
    &&& s.subrange(k, k + v.len()) == v
    &&& (k + v.len() == s.len() || s[k + v.len()] == '&' || s[k + v.len()] == '=')
    &&& free_of(name, '&') && free_of(name, '=')
    &&& free_of(v, '&') && free_of(v, '=')
}

proof fn lemma_param_in_found(s: Seq<char>, name: Seq<char>, v: Seq<char>)
    requires
        param_in(s, name) == Some(v),
    ensures
        exists|i: int| pair_at(s, i, name, v),
    decreases s.len(),
{
    let pair = before(s, '&');
    let key = before(pair, '=');
    lemma_sep_pos(s, '&');
    lemma_sep_pos(pair, '=');
    let p: int = pair.len() as int;
    assert(pair =~= s.subrange(0, p));
    assert(forall|j: int| 0 <= j < p ==> pair[j] != '&');
    if key == name {
        let n: int = name.len() as int;
        assert(n < p);
        let rest = pair.skip(n + 1int);
        lemma_sep_pos(rest, '=');
        let m: int = v.len() as int;
        assert(v == before(rest, '='));
        assert(m == sep_pos(rest, '='));
        assert(s.subrange(0, n) =~= name);
        assert(s[n] == pair[n]);
        assert(s.subrange(n + 1, n + 1 + m) =~= v) by {
            assert forall|j: int| 0 <= j < m implies s.subrange(n + 1, n + 1 + m)[j] == v[j] by {
                assert(v[j] == rest[j]);
                assert(rest[j] == pair[n + 1 + j]);
            }
        }
        if m < rest.len() {
            assert(s[n + 1 + m] == rest[m]);
        }
        assert(free_of(name, '&') && free_of(name, '=')) by {
            assert forall|j: int| 0 <= j < n implies name[j] != '&' && name[j] != '=' by {
                assert(name[j] == pair[j]);
            }
        }
        assert(free_of(v, '&') && free_of(v, '=')) by {
            assert forall|j: int| 0 <= j < m implies v[j] != '&' && v[j] != '=' by {
                assert(v[j] == rest[j]);
                assert(rest[j] == pair[n + 1 + j]);
            }
        }
        assert(pair_at(s, 0, name, v));
    } else {
        assert(p < s.len());
        let t = s.skip(p + 1);
        lemma_param_in_found(t, name, v);
        let i2 = choose|i: int| pair_at(t, i, name, v);
        let i = i2 + p + 1;
        let n: int = name.len() as int;
        let k2 = i2 + n + 1;
        assert(s.subrange(i, i + n) =~= t.subrange(i2, i2 + n));
        assert(s.subrange(i + n + 1, i + n + 1 + v.len()) =~= t.subrange(k2, k2 + v.len()));
        assert(s[i + n] == t[i2 + n]);
        if k2 + v.len() < t.len() {
            assert(s[i + n + 1 + v.len()] == t[k2 + v.len()]);
        }
        if i2 > 0 {
            assert(s[i - 1] == t[i2 - 1]);
        }
        assert(pair_at(s, i, name, v));
    }
}

/// A value is only ever read from a pair whose key is exactly the name
/// asked for (a key that merely begins or ends with it does not count):
/// when the query text `search` gives `v` for `name`, some pair of it reads
/// `name=v`.
pub proof fn law_value_comes_from_matching_key(search: Seq<char>, name: Seq<char>, v: Seq<char>)
    requires
        url_param(search, name) == Some(v),
    ensures
        search.len() > 0,
        exists|i: int| pair_at(search.drop_first(), i, name, v),
{
    lemma_param_in_found(search.drop_first(), name, v);
}

/// The first position at or after `from` (and before `to`) that holds `c`,
/// or `to` when none does.
fn find_from(v: &Vec<char>, from: usize, to: usize, c: char) -> (p: usize)
    requires
        from <= to <= v@.len(),
    ensures
        p == from + sep_pos(v@.subrange(from as int, to as int), c),
{
    let mut i = from;
    while i < to && v[i] != c
        invariant
            from <= i <= to <= v@.len(),
            forall|j: int| from <= j < i ==> v@[j] != c,
        decreases to - i,
    {
        i = i + 1;
    }
    proof {
        let t = v@.subrange(from as int, to as int);
        lemma_sep_pos(t, c);
        let k = (i - from) as int;
        if sep_pos(t, c) < k {
            assert(t[sep_pos(t, c) as int] == v@[from + sep_pos(t, c)]);
        }
        if sep_pos(t, c) > k {
            assert(t[k] == v@[i as int]);
        }
    }
    i
}

/// Whether the characters of `v` from `from` to `to` spell `name`.
fn spells(v: &Vec<char>, from: usize, to: usize, name: &Vec<char>) -> (b: bool)
    requires
        from <= to <= v@.len(),
    ensures
        b == (v@.subrange(from as int, to as int) == name@),
{
    if to - from != name.len() {
        return false;
    }
    let mut i: usize = 0;
    while i < name.len()
        invariant
            from <= to <= v@.len(),
            to - from == name@.len(),
            i <= name@.len(),
            forall|j: int| 0 <= j < i ==> v@[from + j] == name@[j],
        decreases name@.len() - i,
    {
        if v[from + i] != name[i] {
            assert(v@.subrange(from as int, to as int)[i as int] != name@[i as int]);
            return false;
        }
        i = i + 1;
    }
    assert(v@.subrange(from as int, to as int) =~= name@);
    true
}

/// The value of parameter `name` in the query text `search` (as in
/// `?backend=https%3A...&theme=dark`), before percent-decoding.
pub fn lookup_url_param(search: &str, name: &str) -> (r: Option<String>)
    requires
        // the leading `?` is cut off by byte offset, so a first character
        // must take one byte
        search@.len() > 0 ==> (search@[0] as u32) < 128,
    ensures
        match r {
            Some(v) => url_param(search@, name@) == Some(v@),
            None => url_param(search@, name@) is None,
        },
{
    let v = chars_of(search);
    let nm = chars_of(name);
    let n = v.len();
    if n == 0 {
        return None;
    }
    let ghost whole = v@.drop_first();
    assert(v@.subrange(1, n as int) == whole);
    let mut start: usize = 1;
    while start <= n
        invariant
            1 <= start <= n,
            v@ == search@,
            nm@ == name@,
            n == v@.len(),
            whole == v@.drop_first(),
            start <= n ==> param_in(whole, name@) == param_in(v@.subrange(start as int, n as int), name@),
        decreases n + 1 - start,
    {
        let ghost s = v@.subrange(start as int, n as int);
        let pair_end = find_from(&v, start, n, '&');
        proof {
            lemma_sep_pos(s, '&');
            assert(before(s, '&') == v@.subrange(start as int, pair_end as int));
        }
        let key_end = find_from(&v, start, pair_end, '=');
        let ghost pair = v@.subrange(start as int, pair_end as int);
        proof {
            lemma_sep_pos(pair, '=');
            assert(before(pair, '=') == v@.subrange(start as int, key_end as int));
        }
        if spells(&v, start, key_end, &nm) {
            if key_end < pair_end {
                let value_end = find_from(&v, key_end + 1, pair_end, '=');
                proof {
                    let rest = pair.skip(before(pair, '=').len() + 1int);
                    assert(rest == v@.subrange(key_end + 1, pair_end as int));
                    lemma_sep_pos(rest, '=');
                    assert(before(rest, '=') == v@.subrange(key_end + 1, value_end as int));
                }
                let value = search.substring_char(key_end + 1, value_end);
                return Some(value.to_owned());
            } else {
                return None;
            }
        }
        if pair_end < n {
            proof {
                assert(s.skip(pair.len() + 1int) == v@.subrange(pair_end + 1, n as int));
            }
        } else {
            return None;
        }
        start = pair_end + 1;
    }
    None
}

} // verus!

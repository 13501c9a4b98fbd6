//! An ordered list of HTTP headers with case-insensitive names.
//!
//! Header names compare ASCII case-insensitively, as HTTP asks; values
//! compare exactly. `get` returns the first value under a name, `remove`
//! drops every entry under it, and `insert` replaces all of them with a
//! single entry at the end of the list.
use vstd::prelude::*;

verus! {

/// The code point of `c` with an ASCII upper-case letter folded to lower case.
pub open spec fn lower_code(c: char) -> int {
    if 65 <= c as u32 && c as u32 <= 90 {
        c as u32 + 32
    } else {
        c as u32 as int
    }
}

/// Two header names are the same when they agree up to ASCII case.
pub open spec fn key_eq(a: Seq<char>, b: Seq<char>) -> bool {
    a.len() == b.len() && forall|i: int| 0 <= i < a.len() ==> lower_code(a[i]) == lower_code(b[i])
}

pub proof fn key_eq_refl(a: Seq<char>)
    ensures
        key_eq(a, a),
{
}

pub proof fn key_eq_sym(a: Seq<char>, b: Seq<char>)
    requires
        key_eq(a, b),
    ensures
        key_eq(b, a),
{
}

pub proof fn key_eq_trans(a: Seq<char>, b: Seq<char>, c: Seq<char>)
    requires
        key_eq(a, b),
        key_eq(b, c),
    ensures
        key_eq(a, c),
{
}

/// The view of a header list: name and value of each entry, in order.
pub open spec fn pairs_view(v: Seq<(String, String)>) -> Seq<(Seq<char>, Seq<char>)> {
    Seq::new(v.len(), |i: int| (v[i].0@, v[i].1@))
}

/// The first value stored under a name, if any.
pub open spec fn sl_lookup(s: Seq<(Seq<char>, Seq<char>)>, k: Seq<char>) -> Option<Seq<char>>
    decreases s.len(),
{
    if s.len() == 0 {
        None
    } else if key_eq(s[0].0, k) {
        Some(s[0].1)
    } else {
        sl_lookup(s.drop_first(), k)
    }
}

/// The list with every entry under a name removed, order kept.
pub open spec fn sl_strip(s: Seq<(Seq<char>, Seq<char>)>, k: Seq<char>) -> Seq<
    (Seq<char>, Seq<char>),
>
    decreases s.len(),
{
    if s.len() == 0 {
        Seq::empty()
    } else if key_eq(s[0].0, k) {
        sl_strip(s.drop_first(), k)
    } else {
        seq![s[0]] + sl_strip(s.drop_first(), k)
    }
}

/// How many entries a name has.
pub open spec fn sl_count(s: Seq<(Seq<char>, Seq<char>)>, k: Seq<char>) -> nat
    decreases s.len(),
{
    if s.len() == 0 {
        0
    } else {
        (if key_eq(s[0].0, k) {
            1nat
        } else {
            0nat
        }) + sl_count(s.drop_first(), k)
    }
}

pub proof fn lemma_lookup_push(s: Seq<(Seq<char>, Seq<char>)>, e: (Seq<char>, Seq<char>), k: Seq<char>)
    ensures
        sl_lookup(s.push(e), k) == (if sl_lookup(s, k) is Some {
            sl_lookup(s, k)
        } else if key_eq(e.0, k) {
            Some(e.1)
        } else {
            None::<Seq<char>>
        }),
    decreases s.len(),
{
    reveal_with_fuel(sl_lookup, 3);
    reveal_with_fuel(sl_strip, 3);
    reveal_with_fuel(sl_count, 3);
    if s.len() == 0 {
        assert(s.push(e)[0] == e);
        assert(s.push(e).drop_first() =~= Seq::<(Seq<char>, Seq<char>)>::empty());
    } else {
        assert(s.push(e)[0] == s[0]);
        assert(s.push(e).drop_first() =~= s.drop_first().push(e));
        lemma_lookup_push(s.drop_first(), e, k);
    }
}

pub proof fn lemma_strip_push(s: Seq<(Seq<char>, Seq<char>)>, e: (Seq<char>, Seq<char>), k: Seq<char>)
    ensures
        sl_strip(s.push(e), k) == (if key_eq(e.0, k) {
            sl_strip(s, k)
        } else {
            sl_strip(s, k).push(e)
        }),
    decreases s.len(),
{
    reveal_with_fuel(sl_lookup, 3);
    reveal_with_fuel(sl_strip, 3);
    reveal_with_fuel(sl_count, 3);
    if s.len() == 0 {
        assert(s.push(e)[0] == e);
        assert(s.push(e).drop_first() =~= Seq::<(Seq<char>, Seq<char>)>::empty());
        if !key_eq(e.0, k) {
            assert(sl_strip(s.push(e), k) == seq![e] + sl_strip(
                Seq::<(Seq<char>, Seq<char>)>::empty(),
                k,
            ));
            assert(seq![e] + Seq::<(Seq<char>, Seq<char>)>::empty() =~= sl_strip(s, k).push(e));
        }
    } else {
        assert(s.push(e)[0] == s[0]);
        assert(s.push(e).drop_first() =~= s.drop_first().push(e));
        lemma_strip_push(s.drop_first(), e, k);
        if key_eq(s[0].0, k) {
            assert(sl_strip(s.push(e), k) == sl_strip(s.drop_first().push(e), k));
            assert(sl_strip(s, k) == sl_strip(s.drop_first(), k));
        } else {
            assert(sl_strip(s.push(e), k) == seq![s[0]] + sl_strip(s.drop_first().push(e), k));
            if key_eq(e.0, k) {
                assert(sl_strip(s.push(e), k) == seq![s[0]] + sl_strip(s.drop_first(), k));
            } else {
                assert(sl_strip(s.push(e), k) == seq![s[0]] + sl_strip(s.drop_first(), k).push(
                    e,
                ));
                assert(seq![s[0]] + sl_strip(s.drop_first(), k).push(e) =~= (seq![s[0]]
                    + sl_strip(s.drop_first(), k)).push(e));
            }
        }
    }
}

pub proof fn lemma_count_push(s: Seq<(Seq<char>, Seq<char>)>, e: (Seq<char>, Seq<char>), k: Seq<char>)
    ensures
        sl_count(s.push(e), k) == sl_count(s, k) + (if key_eq(e.0, k) {
            1nat
        } else {
            0nat
        }),
    decreases s.len(),
{
    reveal_with_fuel(sl_lookup, 3);
    reveal_with_fuel(sl_strip, 3);
    reveal_with_fuel(sl_count, 3);
    if s.len() == 0 {
        assert(s.push(e)[0] == e);
        assert(s.push(e).drop_first() =~= Seq::<(Seq<char>, Seq<char>)>::empty());
    } else {
        assert(s.push(e)[0] == s[0]);
        assert(s.push(e).drop_first() =~= s.drop_first().push(e));
        lemma_count_push(s.drop_first(), e, k);
    }
}

/// Skipping a prefix without a match leaves the lookup unchanged.
pub proof fn lemma_lookup_skip(s: Seq<(Seq<char>, Seq<char>)>, k: Seq<char>, m: int)
    requires
        0 <= m <= s.len(),
        forall|j: int| 0 <= j < m ==> !key_eq(s[j].0, k),
    ensures
        sl_lookup(s, k) == sl_lookup(s.skip(m), k),
    decreases m,
{
    if m > 0 {
        assert(!key_eq(s[0].0, k));
        assert(forall|j: int|
            0 <= j < m - 1 ==> s.drop_first()[j] == s[j + 1] && !key_eq(s.drop_first()[j].0, k));
        lemma_lookup_skip(s.drop_first(), k, m - 1);
        assert(s.drop_first().skip(m - 1) =~= s.skip(m));
    } else {
        assert(s.skip(0) =~= s);
    }
}

/// Stripping one name leaves lookups under an unrelated name alone, and
/// empties those under a related one.
pub proof fn lemma_lookup_strip(s: Seq<(Seq<char>, Seq<char>)>, k: Seq<char>, k2: Seq<char>)
    ensures
        sl_lookup(sl_strip(s, k), k2) == (if key_eq(k, k2) {
            None::<Seq<char>>
        } else {
            sl_lookup(s, k2)
        }),
    decreases s.len(),
{
    if s.len() > 0 {
        lemma_lookup_strip(s.drop_first(), k, k2);
        if key_eq(s[0].0, k) {
            if key_eq(s[0].0, k2) {
                key_eq_sym(s[0].0, k);
                key_eq_trans(k, s[0].0, k2);
            }
        } else {
            let rest = sl_strip(s.drop_first(), k);
            assert((seq![s[0]] + rest)[0] == s[0]);
            assert((seq![s[0]] + rest).drop_first() =~= rest);
        }
    }
}

pub proof fn lemma_count_strip(s: Seq<(Seq<char>, Seq<char>)>, k: Seq<char>, k2: Seq<char>)
    ensures
        sl_count(sl_strip(s, k), k2) == (if key_eq(k, k2) {
            0nat
        } else {
            sl_count(s, k2)
        }),
    decreases s.len(),
{
    if s.len() > 0 {
        lemma_count_strip(s.drop_first(), k, k2);
        if key_eq(s[0].0, k) {
            if key_eq(s[0].0, k2) {
                key_eq_sym(s[0].0, k);
                key_eq_trans(k, s[0].0, k2);
            }
        } else {
            let rest = sl_strip(s.drop_first(), k);
            assert((seq![s[0]] + rest)[0] == s[0]);
            assert((seq![s[0]] + rest).drop_first() =~= rest);
        }
    }
}

/// A lookup over a concatenation tries the left part first.
pub proof fn lemma_lookup_concat(s1: Seq<(Seq<char>, Seq<char>)>, s2: Seq<(Seq<char>, Seq<char>)>, k: Seq<char>)
    ensures
        sl_lookup(s1 + s2, k) == (if sl_lookup(s1, k) is Some {
            sl_lookup(s1, k)
        } else {
            sl_lookup(s2, k)
        }),
    decreases s1.len(),
{
    if s1.len() == 0 {
        assert(s1 + s2 =~= s2);
    } else {
        assert((s1 + s2)[0] == s1[0]);
        assert((s1 + s2).drop_first() =~= s1.drop_first() + s2);
        lemma_lookup_concat(s1.drop_first(), s2, k);
    }
}

/// The characters of a string, as an indexable vector.
pub fn chars_of(s: &str) -> (v: Vec<char>)
    ensures
        v@ == s@,
{
    broadcast use vstd::string::axiom_spec_iter;

    let mut v: Vec<char> = Vec::new();
    for c in it: s.chars()
        invariant
            it.seq() == s@,
            v@ == s@.take(it.index()),
    {
        assert(s@.take(it.index() + 1) =~= s@.take(it.index()).push(c));
        v.push(c);
    }
    proof {
        assert(v@ =~= s@);
    }
    v
}

/// Whether two strings are equal characterwise.
pub fn str_eq(a: &str, b: &str) -> (r: bool)
    ensures
        r == (a@ == b@),
{
    let va = chars_of(a);
    let vb = chars_of(b);
    if va.len() != vb.len() {
        return false;
    }
    let n = va.len();
    let mut i: usize = 0;
    while i < n
        invariant
            n == va.len() == vb.len(),
            i <= n,
            va@ == a@,
            vb@ == b@,
            forall|j: int| 0 <= j < i ==> a@[j] == b@[j],
        decreases n - i,
    {
        if va[i] != vb[i] {
            return false;
        }
        i = i + 1;
    }
    proof {
        assert(a@ =~= b@);
    }
    true
}

/// Whether two header names agree up to ASCII case.
pub fn eq_ignore_case(a: &str, b: &str) -> (r: bool)
    ensures
        r == key_eq(a@, b@),
{
    let va = chars_of(a);
    let vb = chars_of(b);
    if va.len() != vb.len() {
        return false;
    }
    let n = va.len();
    let mut i: usize = 0;
    while i < n
        invariant
            n == va.len() == vb.len(),
            i <= n,
            va@ == a@,
            vb@ == b@,
            forall|j: int| 0 <= j < i ==> lower_code(a@[j]) == lower_code(b@[j]),
        decreases n - i,
    {
        let ca = va[i] as u32;
        let cb = vb[i] as u32;
        let la: u32 = if 65 <= ca && ca <= 90 {
            ca + 32
        } else {
            ca
        };
        let lb: u32 = if 65 <= cb && cb <= 90 {
            cb + 32
        } else {
            cb
        };
        if la != lb {
            assert(lower_code(a@[i as int]) != lower_code(b@[i as int]));
            return false;
        }
        i = i + 1;
    }
    true
}

/// An ordered list of header entries; names match ASCII case-insensitively.
pub struct HeaderList {
    entries: Vec<(String, String)>,
}

impl View for HeaderList {
    type V = Seq<(Seq<char>, Seq<char>)>;

    closed spec fn view(&self) -> Seq<(Seq<char>, Seq<char>)> {
        pairs_view(self.entries@)
    }
}

impl HeaderList {
    pub fn new() -> (h: HeaderList)
        ensures
            h@ == Seq::<(Seq<char>, Seq<char>)>::empty(),
    {
        let h = HeaderList { entries: Vec::new() };
        proof {
            assert(h@ =~= Seq::<(Seq<char>, Seq<char>)>::empty());
        }
        h
    }

    pub fn len(&self) -> (n: usize)
        ensures
            n == self@.len(),
    {
        self.entries.len()
    }

    pub fn name_at(&self, i: usize) -> (r: &String)
        requires
            i < self@.len(),
        ensures
            r@ == self@[i as int].0,
    {
        &self.entries[i].0
    }

    pub fn value_at(&self, i: usize) -> (r: &String)
        requires
            i < self@.len(),
        ensures
            r@ == self@[i as int].1,
    {
        &self.entries[i].1
    }

    /// Adds an entry at the end, leaving existing entries alone.
    pub fn append(&mut self, name: &str, value: String)
        ensures
            final(self)@ == old(self)@.push((name@, value@)),
    {
        self.entries.push((name.to_owned(), value));
        proof {
            assert(final(self)@ =~= old(self)@.push((name@, value@)));
        }
    }

    /// The first value under `name`, matched case-insensitively.
    pub fn get(&self, name: &str) -> (r: Option<&String>)
        ensures
            match r {
                Some(v) => sl_lookup(self@, name@) == Some(v@),
                None => sl_lookup(self@, name@) is None,
            },
    {
        let n = self.entries.len();
        let mut i: usize = 0;
        while i < n
            invariant
                n == self.entries.len(),
                i <= n,
                forall|j: int| 0 <= j < i ==> !key_eq(self@[j].0, name@),
            decreases n - i,
        {
            if eq_ignore_case(self.entries[i].0.as_str(), name) {
                proof {
                    lemma_lookup_skip(self@, name@, i as int);
                    assert(self@.skip(i as int)[0] == self@[i as int]);
                }
                return Some(&self.entries[i].1);
            }
            i = i + 1;
        }
        proof {
            lemma_lookup_skip(self@, name@, n as int);
            assert(self@.skip(n as int) =~= Seq::<(Seq<char>, Seq<char>)>::empty());
        }
        None
    }

    /// Removes every entry under `name`; returns the first removed value.
    pub fn remove(&mut self, name: &str) -> (r: Option<String>)
        ensures
            final(self)@ == sl_strip(old(self)@, name@),
            match r {
                Some(v) => sl_lookup(old(self)@, name@) == Some(v@),
                None => sl_lookup(old(self)@, name@) is None,
            },
    {
        let ghost s = self@;
        let n = self.entries.len();
        let mut kept: Vec<(String, String)> = Vec::new();
        let mut found: Option<String> = None;
        let mut i: usize = 0;
        proof {
            assert(s.take(0) =~= Seq::<(Seq<char>, Seq<char>)>::empty());
        }
        while i < n
            invariant
                n == self.entries.len(),
                s == self@,
                i <= n,
                pairs_view(kept@) == sl_strip(s.take(i as int), name@),
                match found {
                    Some(v) => sl_lookup(s.take(i as int), name@) == Some(v@),
                    None => sl_lookup(s.take(i as int), name@) is None,
                },
            decreases n - i,
        {
            proof {
                assert(s.take(i + 1) =~= s.take(i as int).push(s[i as int]));
                lemma_strip_push(s.take(i as int), s[i as int], name@);
                lemma_lookup_push(s.take(i as int), s[i as int], name@);
            }
            if eq_ignore_case(self.entries[i].0.as_str(), name) {
                if found.is_none() {
                    found = Some(self.entries[i].1.clone());
                }
            } else {
                kept.push((self.entries[i].0.clone(), self.entries[i].1.clone()));
                proof {
                    assert(pairs_view(kept@) =~= sl_strip(s.take(i as int), name@).push(
                        s[i as int],
                    ));
                }
            }
            i = i + 1;
        }
        proof {
            assert(s.take(n as int) =~= s);
        }
        self.entries = kept;
        found
    }

    /// Replaces the value of entry `i`, leaving its name and the rest alone.
    pub fn replace_value_at(&mut self, i: usize, value: String)
        requires
            i < old(self)@.len(),
        ensures
            final(self)@ == old(self)@.update(i as int, (old(self)@[i as int].0, value@)),
    {
        let name = self.entries[i].0.clone();
        self.entries.remove(i);
        self.entries.insert(i, (name, value));
        proof {
            assert(final(self)@ =~= old(self)@.update(
                i as int,
                (old(self)@[i as int].0, value@),
            ));
        }
    }

    /// Replaces every entry under `name` with one entry at the end; returns
    /// the first value that was there before.
    pub fn insert(&mut self, name: &str, value: String) -> (r: Option<String>)
        ensures
            final(self)@ == sl_strip(old(self)@, name@).push((name@, value@)),
            match r {
                Some(v) => sl_lookup(old(self)@, name@) == Some(v@),
                None => sl_lookup(old(self)@, name@) is None,
            },
    {
        let r = self.remove(name);
        self.append(name, value);
        r
    }
}

} // verus!

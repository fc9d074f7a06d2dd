//! Text helpers over the characters of a string: splitting at a separator,
//! searching for a fragment, and replacing every occurrence of one.
use vstd::prelude::*;
use vstd::string::*;

verus! {

broadcast use vstd::string::group_string_axioms;

/// `r` is the part of `s` before the first `c`, or all of `s` when it holds no `c`.
pub open spec fn is_text_before(r: Seq<char>, s: Seq<char>, c: char) -> bool {
    &&& r.len() <= s.len()
    &&& r == s.take(r.len() as int)
    &&& !r.contains(c)
    &&& r.len() < s.len() ==> s[r.len() as int] == c
}

/// The position of the first `c` in `s`, or the length of `s` when it holds none.
pub open spec fn first_index_of(s: Seq<char>, c: char) -> int
    decreases s.len(),
{
    if s.len() == 0 {
        0
    } else if s[0] == c {
        0
    } else {
        1 + first_index_of(s.drop_first(), c)
    }
}

proof fn lemma_first_index_bounds(s: Seq<char>, c: char)
    ensures
        0 <= first_index_of(s, c) <= s.len(),
    decreases s.len(),
{
    if s.len() > 0 && s[0] != c {
        lemma_first_index_bounds(s.drop_first(), c);
    }
}

/// The part of `s` before the first `c`, or all of `s` when it holds no `c`.
pub open spec fn before_char(s: Seq<char>, c: char) -> Seq<char> {
    s.take(first_index_of(s, c))
}

/// The characterisation of `is_text_before` picks out `before_char`.
pub proof fn lemma_text_before_unique(r: Seq<char>, s: Seq<char>, c: char)
    requires
        is_text_before(r, s, c),
    ensures
        r == before_char(s, c),
    decreases s.len(),
{
    if s.len() == 0 {
    } else if r.len() == 0 {
    } else {
        assert(r[0] == s[0]);
        assert(s[0] != c) by {
            assert(r.contains(r[0]));
        }
        let r2 = r.drop_first();
        let s2 = s.drop_first();
        assert(r2 =~= s2.take(r2.len() as int));
        assert(!r2.contains(c)) by {
            if r2.contains(c) {
                let j = choose|j: int| 0 <= j < r2.len() && r2[j] == c;
                assert(r[j + 1] == c);
            }
        }
        lemma_text_before_unique(r2, s2, c);
        lemma_first_index_bounds(s2, c);
        assert(first_index_of(s, c) == 1 + first_index_of(s2, c));
        assert(r2.len() == s2.take(first_index_of(s2, c)).len());
        assert(r.len() == first_index_of(s, c));
    }
}

/// `r` is the part of `s` after the last `c`, or all of `s` when it holds no `c`.
pub open spec fn is_text_after_last(r: Seq<char>, s: Seq<char>, c: char) -> bool {
    &&& r.len() <= s.len()
    &&& r == s.skip(s.len() - r.len())
    &&& !r.contains(c)
    &&& r.len() < s.len() ==> s[s.len() - r.len() - 1] == c
}

/// `needle` occurs in `s` starting at position `i`.
pub open spec fn occurs_at(s: Seq<char>, needle: Seq<char>, i: int) -> bool {
    0 <= i && i + needle.len() <= s.len() && s.subrange(i, i + needle.len()) == needle
}

/// `needle` occurs somewhere in `s`.
pub open spec fn occurs_in(s: Seq<char>, needle: Seq<char>) -> bool {
    exists|i: int| occurs_at(s, needle, i)
}

/// `s` with `to` written before every character and at its end: what replacing
/// the empty pattern gives.
pub open spec fn interleaved(s: Seq<char>, to: Seq<char>) -> Seq<char>
    decreases s.len(),
{
    if s.len() == 0 {
        to
    } else {
        to + seq![s[0]] + interleaved(s.drop_first(), to)
    }
}

/// `s` with every occurrence of a non-empty `from`, found from left to right
/// without overlap, replaced by `to`.
pub open spec fn replaced_nonempty(s: Seq<char>, from: Seq<char>, to: Seq<char>) -> Seq<char>
    decreases s.len(),
{
    if from.len() == 0 || s.len() < from.len() {
        s
    } else if s.take(from.len() as int) == from {
        to + replaced_nonempty(s.skip(from.len() as int), from, to)
    } else {
        seq![s[0]] + replaced_nonempty(s.drop_first(), from, to)
    }
}

/// What `str::replace` gives: every occurrence of `from` replaced by `to`,
/// searching left to right without overlap; an empty `from` matches before each
/// character and at the end.
pub open spec fn replaced(s: Seq<char>, from: Seq<char>, to: Seq<char>) -> Seq<char> {
    if from.len() == 0 {
        interleaved(s, to)
    } else {
        replaced_nonempty(s, from, to)
    }
}

/// The characters of `s`, one by one.
pub fn chars_of(s: &str) -> (v: Vec<char>)
    ensures
        v@ == s@,
{
    let mut v: Vec<char> = Vec::new();
    for x in it: s.chars()
        invariant
            it.seq() == s@,
            v@ == s@.take(it.index() as int),
    {
        v.push(x);
    }
    v
}

/// The concatenation of `a` and `b`.
pub fn concat2(a: &str, b: &str) -> (r: String)
    ensures
        r@ == a@ + b@,
{
    let mut r = a.to_string();
    r.append(b);
    r
}

/// The concatenation of `a`, `b` and `c`.
pub fn concat3(a: &str, b: &str, c: &str) -> (r: String)
    ensures
        r@ == a@ + b@ + c@,
{
    let mut r = a.to_string();
    r.append(b);
    r.append(c);
    r
}

/// Whether `needle` occurs in `hay` at position `i`.
pub fn occurs_at_index(hay: &Vec<char>, needle: &Vec<char>, i: usize) -> (b: bool)
    ensures
        b == occurs_at(hay@, needle@, i as int),
{
    let n = hay.len();
    let m = needle.len();
    if i > n || m > n - i {
        return false;
    }
    let mut j: usize = 0;
    while j < m
        invariant
            n == hay@.len(),
            m == needle@.len(),
            i + m <= n,
            j <= m,
            forall|k: int| 0 <= k < j ==> hay@[i + k] == needle@[k],
        decreases m - j,
    {
        if hay[i + j] != needle[j] {
            assert(hay@.subrange(i as int, i + m)[j as int] != needle@[j as int]);
            return false;
        }
        j = j + 1;
    }
    assert(hay@.subrange(i as int, i + m) =~= needle@);
    true
}

/// The part of `s` before the first `c`: what `s.split(c).next()` gives.
pub fn text_before(s: &str, c: char) -> (r: String)
    ensures
        is_text_before(r@, s@, c),
        r@ == before_char(s@, c),
{
    let v = chars_of(s);
    let n = v.len();
    let mut k: usize = 0;
    while k < n && v[k] != c
        invariant
            n == v@.len(),
            v@ == s@,
            k <= n,
            forall|i: int| 0 <= i < k ==> v@[i] != c,
        decreases n - k,
    {
        k = k + 1;
    }
    let r = s.substring_char(0, k).to_string();
    assert(r@ == s@.take(k as int));
    assert forall|i: int| 0 <= i < r@.len() implies r@[i] != c by {
        assert(r@[i] == s@[i]);
    }
    proof {
        lemma_text_before_unique(r@, s@, c);
    }
    r
}

/// The part of `s` after the last `c`: what `s.split(c).last()` gives.
pub fn text_after_last(s: &str, c: char) -> (r: String)
    ensures
        is_text_after_last(r@, s@, c),
{
    let v = chars_of(s);
    let n = v.len();
    let mut k: usize = n;
    while k > 0 && v[k - 1] != c
        invariant
            n == v@.len(),
            v@ == s@,
            k <= n,
            forall|i: int| k <= i < n ==> v@[i] != c,
        decreases k,
    {
        k = k - 1;
    }
    let r = s.substring_char(k, n).to_string();
    assert(r@ == s@.subrange(k as int, n as int));
    assert(r@ =~= s@.skip(s@.len() - r@.len()));
    assert forall|i: int| 0 <= i < r@.len() implies r@[i] != c by {
        assert(r@[i] == s@[k + i]);
    }
    r
}

/// Whether `s` holds the character `c`.
pub fn contains_char(s: &str, c: char) -> (b: bool)
    ensures
        b == s@.contains(c),
{
    let v = chars_of(s);
    let n = v.len();
    let mut k: usize = 0;
    while k < n
        invariant
            n == v@.len(),
            v@ == s@,
            k <= n,
            forall|i: int| 0 <= i < k ==> v@[i] != c,
        decreases n - k,
    {
        if v[k] == c {
            return true;
        }
        k = k + 1;
    }
    false
}

/// Whether `s` begins with `prefix`.
pub fn starts_with(s: &str, prefix: &str) -> (b: bool)
    ensures
        b == (prefix@.len() <= s@.len() && s@.take(prefix@.len() as int) == prefix@),
{
    let hay = chars_of(s);
    let needle = chars_of(prefix);
    let b = occurs_at_index(&hay, &needle, 0);
    proof {
        if prefix@.len() <= s@.len() {
            assert(s@.take(prefix@.len() as int) =~= s@.subrange(0, prefix@.len() as int));
        }
    }
    b
}

/// Whether `needle` occurs somewhere in `s`.
pub fn contains_text(s: &str, needle: &str) -> (b: bool)
    ensures
        b == occurs_in(s@, needle@),
{
    let hay = chars_of(s);
    let pat = chars_of(needle);
    let n = hay.len();
    let mut i: usize = 0;
    while i < n
        invariant
            n == hay@.len(),
            hay@ == s@,
            pat@ == needle@,
            i <= n,
            forall|k: int| 0 <= k < i ==> !occurs_at(s@, needle@, k),
        decreases n - i,
    {
        if occurs_at_index(&hay, &pat, i) {
            return true;
        }
        i = i + 1;
    }
    if occurs_at_index(&hay, &pat, n) {
        return true;
    }
    assert forall|k: int| !occurs_at(s@, needle@, k) by {
        if 0 <= k && k < n {
            assert(k < i);
        }
    }
    false
}

proof fn lemma_interleaved_step(s: Seq<char>, i: int, to: Seq<char>)
    requires
        0 <= i < s.len(),
    ensures
        interleaved(s.skip(i), to) == to + seq![s[i]] + interleaved(s.skip(i + 1), to),
{
    assert(s.skip(i).drop_first() =~= s.skip(i + 1));
}

proof fn lemma_replaced_match(s: Seq<char>, i: int, from: Seq<char>, to: Seq<char>)
    requires
        from.len() > 0,
        occurs_at(s, from, i),
    ensures
        replaced_nonempty(s.skip(i), from, to) == to + replaced_nonempty(
            s.skip(i + from.len()),
            from,
            to,
        ),
{
    assert(s.skip(i).take(from.len() as int) =~= s.subrange(i, i + from.len()));
    assert(s.skip(i).skip(from.len() as int) =~= s.skip(i + from.len()));
}

proof fn lemma_replaced_no_match(s: Seq<char>, i: int, from: Seq<char>, to: Seq<char>)
    requires
        from.len() > 0,
        0 <= i,
        i + from.len() <= s.len(),
        !occurs_at(s, from, i),
    ensures
        replaced_nonempty(s.skip(i), from, to) == seq![s[i]] + replaced_nonempty(
            s.skip(i + 1),
            from,
            to,
        ),
{
    assert(s.skip(i).take(from.len() as int) =~= s.subrange(i, i + from.len()));
    assert(s.skip(i).drop_first() =~= s.skip(i + 1));
}

proof fn lemma_replaced_tail(s: Seq<char>, i: int, from: Seq<char>, to: Seq<char>)
    requires
        from.len() > 0,
        0 <= i <= s.len(),
        s.len() < i + from.len(),
    ensures
        replaced_nonempty(s.skip(i), from, to) == s.skip(i),
{
}

/// `s` with every occurrence of `from` replaced by `to`, as `str::replace` does it.
pub fn replace_all(s: &str, from: &str, to: &str) -> (r: String)
    ensures
        r@ == replaced(s@, from@, to@),
{
    let hay = chars_of(s);
    let pat = chars_of(from);
    let n = hay.len();
    let m = pat.len();
    let mut out = String::new();
    if m == 0 {
        let mut i: usize = 0;
        proof {
            assert(s@.skip(0) =~= s@);
        }
        while i < n
            invariant
                n == hay@.len(),
                hay@ == s@,
                i <= n,
                out@ + interleaved(s@.skip(i as int), to@) == interleaved(s@, to@),
            decreases n - i,
        {
            proof {
                lemma_interleaved_step(s@, i as int, to@);
            }
            out.append(to);
            out.append(s.substring_char(i, i + 1));
            proof {
                assert(s@.subrange(i as int, i + 1) =~= seq![s@[i as int]]);
                assert(out@ + interleaved(s@.skip(i + 1), to@) =~= interleaved(s@, to@));
            }
            i = i + 1;
        }
        out.append(to);
        proof {
            assert(s@.skip(n as int) =~= Seq::<char>::empty());
            assert(out@ =~= interleaved(s@, to@));
        }
        return out;
    }
    let mut i: usize = 0;
    let mut run: usize = 0;
    proof {
        assert(s@.skip(0) =~= s@);
        assert(s@.subrange(0, 0) =~= Seq::<char>::empty());
    }
    while i < n
        invariant
            n == hay@.len(),
            m == pat@.len(),
            m > 0,
            hay@ == s@,
            pat@ == from@,
            run <= i <= n,
            out@ + s@.subrange(run as int, i as int) + replaced_nonempty(
                s@.skip(i as int),
                from@,
                to@,
            ) == replaced_nonempty(s@, from@, to@),
        decreases n - i,
    {
        if m <= n - i && occurs_at_index(&hay, &pat, i) {
            proof {
                lemma_replaced_match(s@, i as int, from@, to@);
            }
            let ghost before = out@;
            out.append(s.substring_char(run, i));
            out.append(to);
            proof {
                assert(s@.subrange((i + m) as int, (i + m) as int) =~= Seq::<char>::empty());
                assert(out@ + s@.subrange((i + m) as int, (i + m) as int) + replaced_nonempty(
                    s@.skip(i + m),
                    from@,
                    to@,
                ) =~= before + s@.subrange(run as int, i as int) + replaced_nonempty(
                    s@.skip(i as int),
                    from@,
                    to@,
                ));
            }
            i = i + m;
            run = i;
        } else {
            if m <= n - i {
                proof {
                    lemma_replaced_no_match(s@, i as int, from@, to@);
                }
            } else {
                proof {
                    lemma_replaced_tail(s@, i as int, from@, to@);
                    lemma_replaced_tail(s@, i + 1, from@, to@);
                    assert(s@.skip(i as int) =~= seq![s@[i as int]] + s@.skip(i + 1));
                }
            }
            proof {
                assert(s@.subrange(run as int, i + 1) =~= s@.subrange(run as int, i as int)
                    + seq![s@[i as int]]);
            }
            i = i + 1;
        }
    }
    out.append(s.substring_char(run, n));
    proof {
        assert(s@.skip(n as int) =~= Seq::<char>::empty());
        assert(out@ =~= replaced_nonempty(s@, from@, to@));
    }
    out
}

} // verus!

verus! {

/// Replacing a non-empty fragment that does not occur leaves the text as it is.
pub proof fn law_replace_absent(s: Seq<char>, from: Seq<char>, to: Seq<char>)
    requires
        from.len() > 0,
        !occurs_in(s, from),
    ensures
        replaced(s, from, to) == s,
    decreases s.len(),
{
    if s.len() >= from.len() {
        assert(s.take(from.len() as int) != from) by {
            assert(s.subrange(0, from.len() as int) =~= s.take(from.len() as int));
            if s.take(from.len() as int) == from {
                assert(occurs_at(s, from, 0));
            }
        }
        let rest = s.drop_first();
        assert(!occurs_in(rest, from)) by {
            if occurs_in(rest, from) {
                let i = choose|i: int| occurs_at(rest, from, i);
                assert(s.subrange(i + 1, i + 1 + from.len()) =~= rest.subrange(i, i + from.len()));
                assert(occurs_at(s, from, i + 1));
            }
        }
        law_replace_absent(rest, from, to);
        assert(seq![s[0]] + rest =~= s);
    }
}

/// Replacing a fragment by itself leaves the text as it is.
pub proof fn law_replace_by_itself(s: Seq<char>, from: Seq<char>)
    requires
        from.len() > 0,
    ensures
        replaced(s, from, from) == s,
    decreases s.len(),
{
    if s.len() >= from.len() {
        if s.take(from.len() as int) == from {
            law_replace_by_itself(s.skip(from.len() as int), from);
            assert(from + s.skip(from.len() as int) =~= s);
        } else {
            law_replace_by_itself(s.drop_first(), from);
            assert(seq![s[0]] + s.drop_first() =~= s);
        }
    }
}

/// Replacing a non-empty fragment that occurs exactly once replaces just that
/// occurrence: when `s` is `prefix`, `from`, `suffix`, and `from` occurs in `s`
/// only there, the result is `prefix`, `to`, `suffix`.
pub proof fn law_replace_single(prefix: Seq<char>, from: Seq<char>, suffix: Seq<char>, to: Seq<char>)
    requires
        from.len() > 0,
        forall|j: int| occurs_at(prefix + from + suffix, from, j) ==> j == prefix.len(),
    ensures
        replaced(prefix + from + suffix, from, to) == prefix + to + suffix,
    decreases prefix.len(),
{
    let s = prefix + from + suffix;
    if prefix.len() == 0 {
        assert(s.take(from.len() as int) =~= from);
        assert(s.skip(from.len() as int) =~= suffix);
        assert(!occurs_in(suffix, from)) by {
            if occurs_in(suffix, from) {
                let i = choose|i: int| occurs_at(suffix, from, i);
                let k = i + from.len();
                assert(s.subrange(k, k + from.len()) =~= suffix.subrange(i, i + from.len()));
                assert(occurs_at(s, from, k));
            }
        }
        law_replace_absent(suffix, from, to);
        assert(prefix + to + suffix =~= to + suffix);
    } else {
        assert(s.take(from.len() as int) != from) by {
            assert(s.subrange(0, from.len() as int) =~= s.take(from.len() as int));
            if s.take(from.len() as int) == from {
                assert(occurs_at(s, from, 0));
            }
        }
        let rest = prefix.drop_first();
        assert(s.drop_first() =~= rest + from + suffix);
        assert forall|j: int| occurs_at(rest + from + suffix, from, j) implies j == rest.len() by {
            let t = rest + from + suffix;
            assert(s.subrange(j + 1, j + 1 + from.len()) =~= t.subrange(j, j + from.len()));
            assert(occurs_at(s, from, j + 1));
        }
        law_replace_single(rest, from, suffix, to);
        assert(seq![s[0]] + (rest + to + suffix) =~= prefix + to + suffix);
    }
}

} // verus!

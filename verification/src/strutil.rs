use vstd::prelude::*;

verus! {

/// True iff `p` occurs at the start of `s`.
pub open spec fn is_prefix_of(p: Seq<char>, s: Seq<char>) -> bool {
    p.len() <= s.len() && s.subrange(0, p.len() as int) == p
}

/// Character-by-character equality test for string slices.
pub fn str_eq(a: &str, b: &str) -> (r: bool)
    ensures
        r == (a@ == b@),
{
    let alen: usize = a.unicode_len();
    let blen: usize = b.unicode_len();
    if alen != blen {
        proof {
            assert(a@.len() != b@.len());
        }
        return false;
    }
    let mut i: usize = 0;
    while i < alen
        invariant
            i <= alen,
            alen == a@.len(),
            alen == b@.len(),
            forall|j: int| 0 <= j < i ==> a@[j] == b@[j],
        decreases alen - i,
    {
        if a.get_char(i) != b.get_char(i) {
            proof {
                assert(a@[i as int] != b@[i as int]);
            }
            return false;
        }
        i = i + 1;
    }
    proof {
        assert(a@ =~= b@);
    }
    true
}

/// True iff `s` starts with `prefix`.
pub fn str_starts_with(s: &str, prefix: &str) -> (r: bool)
    ensures
        r == is_prefix_of(prefix@, s@),
{
    let slen: usize = s.unicode_len();
    let plen: usize = prefix.unicode_len();
    if plen > slen {
        return false;
    }
    let mut i: usize = 0;
    while i < plen
        invariant
            i <= plen,
            plen == prefix@.len(),
            slen == s@.len(),
            plen <= slen,
            forall|j: int| 0 <= j < i ==> s@[j] == prefix@[j],
        decreases plen - i,
    {
        if s.get_char(i) != prefix.get_char(i) {
            proof {
                assert(s@[i as int] != prefix@[i as int]);
                assert(s@.subrange(0, plen as int) != prefix@) by {
                    if s@.subrange(0, plen as int) == prefix@ {
                        assert(s@.subrange(0, plen as int)[i as int] == s@[i as int]);
                    }
                }
            }
            return false;
        }
        i = i + 1;
    }
    proof {
        assert(s@.subrange(0, plen as int) =~= prefix@);
    }
    true
}

/// The characters of `s` before the first occurrence of `c`, or all of `s`
/// when `c` does not occur.
pub open spec fn spec_prefix_until(s: Seq<char>, c: char) -> Seq<char>
    decreases s.len(),
{
    if s.len() == 0 {
        s
    } else if s[0] == c {
        Seq::empty()
    } else {
        seq![s[0]] + spec_prefix_until(s.skip(1), c)
    }
}

/// A scan that stops at index `k` on the separator (or at the end) has seen
/// exactly the prefix before the first separator.
pub proof fn lemma_prefix_until_characterisation(s: Seq<char>, c: char, k: int)
    requires
        0 <= k <= s.len(),
        forall|j: int| 0 <= j < k ==> s[j] != c,
        k < s.len() ==> s[k] == c,
    ensures
        spec_prefix_until(s, c) == s.subrange(0, k),
    decreases s.len(),
{
    if s.len() == 0 {
        assert(spec_prefix_until(s, c) =~= s.subrange(0, k));
    } else if k == 0 {
        assert(s[0] == c);
        assert(spec_prefix_until(s, c) =~= s.subrange(0, 0));
    } else {
        assert(s[0] != c);
        lemma_prefix_until_characterisation(s.skip(1), c, k - 1);
        assert(seq![s[0]] + s.skip(1).subrange(0, k - 1) =~= s.subrange(0, k));
    }
}

/// The prefix before the first separator never outgrows the string.
pub proof fn lemma_prefix_until_len(s: Seq<char>, c: char)
    ensures
        spec_prefix_until(s, c).len() <= s.len(),
    decreases s.len(),
{
    if s.len() == 0 {
    } else if s[0] == c {
    } else {
        lemma_prefix_until_len(s.skip(1), c);
    }
}

/// `s` split at every occurrence of `sep`: the pieces between separators, in
/// order, with empty pieces kept.
pub open spec fn spec_split(s: Seq<char>, sep: char) -> Seq<Seq<char>>
    decreases s.len() via spec_split_decreases
{
    let p = spec_prefix_until(s, sep);
    if p.len() == s.len() {
        seq![p]
    } else {
        seq![p] + spec_split(s.skip(p.len() as int + 1), sep)
    }
}

#[via_fn]
proof fn spec_split_decreases(s: Seq<char>, sep: char) {
    lemma_prefix_until_len(s, sep);
}

/// Splits a string at every occurrence of `sep`.
pub fn split_char(s: &str, sep: char) -> (parts: Vec<String>)
    ensures
        parts.deep_view() == spec_split(s@, sep),
{
    let n: usize = s.unicode_len();
    let mut parts: Vec<String> = Vec::new();
    let ghost mut done: Seq<Seq<char>> = Seq::empty();
    let mut start: usize = 0;
    let mut i: usize = 0;
    proof {
        assert(s@.skip(0) =~= s@);
    }
    while i < n
        invariant
            start <= i <= n,
            n == s@.len(),
            parts.len() == done.len(),
            forall|j: int| 0 <= j < done.len() ==> #[trigger] parts@[j]@ == done[j],
            forall|j: int| start <= j < i ==> s@[j] != sep,
            done + spec_split(s@.skip(start as int), sep) == spec_split(s@, sep),
        decreases n - i,
    {
        if s.get_char(i) == sep {
            let piece = String::from_str(s.substring_char(start, i));
            proof {
                let rest = s@.skip(start as int);
                assert forall|j: int| 0 <= j < i - start implies rest[j] != sep by {
                    assert(rest[j] == s@[start + j]);
                }
                assert(rest[i - start] == s@[i as int]);
                lemma_prefix_until_characterisation(rest, sep, i - start);
                assert(rest.subrange(0, i - start) =~= s@.subrange(start as int, i as int));
                assert(piece@ == spec_prefix_until(rest, sep));
                assert(rest.skip(i - start + 1) =~= s@.skip(i + 1));
                assert(spec_split(rest, sep) == seq![piece@] + spec_split(s@.skip(i + 1), sep));
            }
            parts.push(piece);
            proof {
                done = done.push(s@.subrange(start as int, i as int));
                assert(done + spec_split(s@.skip(i + 1), sep) =~= spec_split(s@, sep));
            }
            start = i + 1;
        }
        i = i + 1;
    }
    let piece = String::from_str(s.substring_char(start, n));
    proof {
        let rest = s@.skip(start as int);
        assert forall|j: int| 0 <= j < n - start implies rest[j] != sep by {
            assert(rest[j] == s@[start + j]);
        }
        lemma_prefix_until_characterisation(rest, sep, n - start);
        assert(rest.subrange(0, n - start) =~= s@.subrange(start as int, n as int));
        assert(piece@ == spec_prefix_until(rest, sep));
        assert(spec_prefix_until(rest, sep).len() == rest.len());
        assert(spec_split(rest, sep) == seq![piece@]);
    }
    parts.push(piece);
    proof {
        done = done.push(s@.subrange(start as int, n as int));
        assert(done =~= spec_split(s@, sep));
        assert forall|j: int| 0 <= j < done.len() implies parts.deep_view()[j] == done[j] by {
            assert(parts@[j]@ == done[j]);
        }
        assert(parts.deep_view() =~= spec_split(s@, sep));
    }
    parts
}

/// Concatenation of two string slices.
pub fn str_concat(a: &str, b: &str) -> (r: String)
    ensures
        r@ == a@ + b@,
{
    let mut out = String::from_str(a);
    out.append(b);
    out
}

} // verus!

//! Character-level helpers. A line is modelled as its sequence of
//! characters; this module says where the `>>` separator of a line is and
//! what its comma-separated fields are, and finds both.

use vstd::prelude::*;
use vstd::std_specs::iter::IteratorSpec;

verus! {

/// The characters of `s`, in order, as a vector that can be indexed in
/// constant time.
pub fn chars_of(s: &str) -> (v: Vec<char>)
    ensures
        v@ == s@,
{
    let mut v: Vec<char> = Vec::new();
    let mut it = s.chars();
    proof {
        vstd::string::axiom_spec_iter(s);
    }
    loop
        invariant
            v@ + it.remaining() == s@,
            it.obeys_prophetic_iter_laws(),
            it.decrease() is Some,
        ensures
            v@ == s@,
        decreases it.decrease()->0,
    {
        let ghost before = it;
        let next = it.next();
        proof {
            vstd::string::next_postcondition(&before, &it, next);
        }
        match next {
            Some(c) => {
                assert(v@.push(c) + before.remaining().drop_first() =~= v@ + before.remaining());
                v.push(c);
            },
            None => {
                assert(v@ + before.remaining() =~= v@);
                break ;
            },
        }
    }
    v
}

/// Whether the two characters of `s` starting at `i` are `>>`.
pub open spec fn separator_at(s: Seq<char>, i: int) -> bool {
    0 <= i && i + 1 < s.len() && s[i] == '>' && s[i + 1] == '>'
}

/// Whether `>>` occurs anywhere in `s`.
pub open spec fn has_separator(s: Seq<char>) -> bool {
    exists|i: int| separator_at(s, i)
}

/// Whether the leftmost `>>` of `s` starts at `i`.
pub open spec fn is_first_separator(s: Seq<char>, i: int) -> bool {
    separator_at(s, i) && forall|j: int| 0 <= j < i ==> !separator_at(s, j)
}

/// Where the leftmost `>>` of `s` starts. Meaningful when `has_separator(s)`.
pub open spec fn first_separator(s: Seq<char>) -> int {
    choose|i: int| is_first_separator(s, i)
}

/// What stands before the leftmost `>>`.
pub open spec fn before_separator(s: Seq<char>) -> Seq<char> {
    s.take(first_separator(s))
}

/// What stands after the leftmost `>>`.
pub open spec fn after_separator(s: Seq<char>) -> Seq<char> {
    s.skip(first_separator(s) + 2)
}

/// The leftmost separator is unique: any position that qualifies is the one
/// `first_separator` names.
pub proof fn lemma_first_separator(s: Seq<char>, i: int)
    requires
        is_first_separator(s, i),
    ensures
        has_separator(s),
        first_separator(s) == i,
{
    let k = first_separator(s);
    assert(is_first_separator(s, k));
    if k < i {
        assert(!separator_at(s, k));
    }
    if i < k {
        assert(!separator_at(s, i));
    }
}

/// Whether `s` holds no comma.
pub open spec fn comma_free(s: Seq<char>) -> bool {
    forall|i: int| 0 <= i < s.len() ==> s[i] != ','
}

/// Whether the first field of `s` is exactly its first `n` characters: none
/// of them is a comma, and either `s` ends there or a comma follows.
pub open spec fn is_field_end(s: Seq<char>, n: int) -> bool {
    &&& 0 <= n <= s.len()
    &&& forall|i: int| 0 <= i < n ==> s[i] != ','
    &&& (n < s.len() ==> s[n] == ',')
}

/// Length of the first comma-separated field of `s`.
pub open spec fn field_end(s: Seq<char>) -> int {
    choose|n: int| is_field_end(s, n)
}

/// The first field's length is unique.
pub proof fn lemma_field_end(s: Seq<char>, n: int)
    requires
        is_field_end(s, n),
    ensures
        field_end(s) == n,
{
    let m = field_end(s);
    assert(is_field_end(s, m));
    if m < n {
        assert(s[m] == ',');
    }
    if n < m {
        assert(s[n] == ',');
    }
}

/// The first comma-separated field of `s`. It always exists: an empty `s`
/// has one empty field.
pub open spec fn first_field(s: Seq<char>) -> Seq<char> {
    s.take(field_end(s))
}

/// What follows the comma that closes the first field, if there is one.
pub open spec fn after_first_field(s: Seq<char>) -> Option<Seq<char>> {
    if field_end(s) < s.len() {
        Some(s.skip(field_end(s) + 1))
    } else {
        None
    }
}

/// The `k`-th comma-separated field of `s`, counting from zero, or `None`
/// where `s` has `k` fields or fewer.
pub open spec fn field(s: Seq<char>, k: nat) -> Option<Seq<char>>
    decreases k,
{
    if k == 0 {
        Some(first_field(s))
    } else {
        match after_first_field(s) {
            Some(rest) => field(rest, (k - 1) as nat),
            None => None,
        }
    }
}

/// Whether `s` holds no `>`.
pub open spec fn angle_free(s: Seq<char>) -> bool {
    forall|i: int| 0 <= i < s.len() ==> s[i] != '>'
}

/// A line put together from a name without `>`, the separator and any data
/// splits back into that name and that data.
pub proof fn lemma_split_joined(name: Seq<char>, data: Seq<char>)
    requires
        angle_free(name),
    ensures
        has_separator(name + ">>"@ + data),
        before_separator(name + ">>"@ + data) == name,
        after_separator(name + ">>"@ + data) == data,
{
    reveal_strlit(">>");
    let line = name + ">>"@ + data;
    let at = name.len() as int;
    assert(line[at] == ">>"@[0]);
    assert(line[at + 1] == ">>"@[1]);
    assert forall|j: int| 0 <= j < at implies !separator_at(line, j) by {
        assert(line[j] == name[j]);
    }
    lemma_first_separator(line, at);
    assert(line.take(at) =~= name);
    assert(line.skip(at + 2) =~= data);
}

/// A comma-free text followed by a comma and more is the first field of the
/// whole, and the rest is what follows.
pub proof fn lemma_field_then_more(head: Seq<char>, rest: Seq<char>)
    requires
        comma_free(head),
    ensures
        first_field(head + ","@ + rest) == head,
        after_first_field(head + ","@ + rest) == Some(rest),
{
    reveal_strlit(",");
    let s = head + ","@ + rest;
    let n = head.len() as int;
    assert(s[n] == ","@[0]);
    assert forall|i: int| 0 <= i < n implies s[i] != ',' by {
        assert(s[i] == head[i]);
    }
    lemma_field_end(s, n);
    assert(s.take(n) =~= head);
    assert(s.skip(n + 1) =~= rest);
}

/// A comma-free text is its own first field, and has no other.
pub proof fn lemma_single_field(s: Seq<char>)
    requires
        comma_free(s),
    ensures
        first_field(s) == s,
        after_first_field(s) is None,
{
    lemma_field_end(s, s.len() as int);
    assert(s.take(s.len() as int) =~= s);
}

/// Finds the leftmost `>>`.
pub fn find_separator(chars: &[char]) -> (r: Option<usize>)
    ensures
        r is Some <==> has_separator(chars@),
        r matches Some(i) ==> is_first_separator(chars@, i as int) && first_separator(chars@)
            == i,
{
    let n: usize = chars.len();
    let mut i: usize = 0;
    while i < n && n - i >= 2
        invariant
            n == chars@.len(),
            i <= n,
            forall|j: int| 0 <= j < i ==> !separator_at(chars@, j),
        decreases n - i,
    {
        if chars[i] == '>' && chars[i + 1] == '>' {
            proof {
                lemma_first_separator(chars@, i as int);
            }
            return Some(i);
        }
        i += 1;
    }
    assert forall|j: int| !separator_at(chars@, j) by {
        if 0 <= j < i {
            assert(!separator_at(chars@, j));
        }
    }
    None
}

/// Finds where the field that starts at `start` ends: at the next comma, or
/// at the end of `chars`.
pub fn find_field_end(chars: &[char], start: usize) -> (end: usize)
    requires
        start <= chars@.len(),
    ensures
        start <= end <= chars@.len(),
        end - start == field_end(chars@.skip(start as int)),
        first_field(chars@.skip(start as int)) == chars@.subrange(start as int, end as int),
        after_first_field(chars@.skip(start as int)) == if end < chars@.len() {
            Some(chars@.skip(end + 1))
        } else {
            None
        },
{
    let n: usize = chars.len();
    let mut end: usize = start;
    while end < n && chars[end] != ','
        invariant
            n == chars@.len(),
            start <= end <= n,
            forall|j: int| start <= j < end ==> chars@[j] != ',',
        decreases n - end,
    {
        end += 1;
    }
    proof {
        let rest = chars@.skip(start as int);
        assert(is_field_end(rest, end - start)) by {
            assert forall|i: int| 0 <= i < end - start implies rest[i] != ',' by {
                assert(rest[i] == chars@[start + i]);
            }
        }
        lemma_field_end(rest, end - start);
        assert(rest.take(end - start) =~= chars@.subrange(start as int, end as int));
        if end < n {
            assert(rest.skip(end - start + 1) =~= chars@.skip(end + 1));
        }
    }
    end
}

/// Whether the characters of `chars` from `from` up to `to` spell `pattern`.
pub fn range_equals(chars: &[char], from: usize, to: usize, pattern: &[char]) -> (r: bool)
    requires
        from <= to <= chars@.len(),
    ensures
        r == (chars@.subrange(from as int, to as int) == pattern@),
{
    let m: usize = pattern.len();
    if to - from != m {
        return false;
    }
    let ghost part = chars@.subrange(from as int, to as int);
    let mut k: usize = 0;
    while k < m
        invariant
            from <= to <= chars@.len(),
            m == pattern@.len(),
            to - from == m,
            k <= m,
            part == chars@.subrange(from as int, to as int),
            forall|j: int| 0 <= j < k ==> part[j] == pattern@[j],
        decreases m - k,
    {
        if chars[from + k] != pattern[k] {
            assert(part[k as int] != pattern@[k as int]);
            return false;
        }
        k += 1;
    }
    assert(part =~= pattern@);
    true
}

/// Whether the characters of `chars` from `from` up to `to` begin with
/// `pattern`.
pub fn range_starts_with(chars: &[char], from: usize, to: usize, pattern: &[char]) -> (r: bool)
    requires
        from <= to <= chars@.len(),
    ensures
        r == pattern@.is_prefix_of(chars@.subrange(from as int, to as int)),
{
    let m: usize = pattern.len();
    if to - from < m {
        return false;
    }
    let r = range_equals(chars, from, from + m, pattern);
    proof {
        let part = chars@.subrange(from as int, to as int);
        assert(part.subrange(0, m as int) =~= chars@.subrange(from as int, from + m));
    }
    r
}

} // verus!

//! Cutting a line of text into fields at white space.

use crate::text::{char_is_space, is_space, to_chars};
use vstd::prelude::*;
use vstd::string::*;

verus! {

/// A field starts at `i`: a character that is no white space, at the start of
/// the text or right after white space.
pub open spec fn is_field_start(s: Seq<char>, i: int) -> bool {
    &&& 0 <= i < s.len()
    &&& !is_space(s[i])
    &&& (i == 0 || is_space(s[i - 1]))
}

/// How many fields start before position `i`.
pub open spec fn fields_before(s: Seq<char>, i: int) -> nat
    decreases i,
{
    if i <= 0 {
        0
    } else {
        fields_before(s, i - 1) + if is_field_start(s, i - 1) {
            1nat
        } else {
            0nat
        }
    }
}

/// Field number `k` (counted from zero) starts at `a`.
pub open spec fn starts_field(s: Seq<char>, k: nat, a: int) -> bool {
    is_field_start(s, a) && fields_before(s, a) == k
}

/// Field number `k` (counted from zero) is `s[a..b]`.
pub open spec fn is_field(s: Seq<char>, k: nat, a: int, b: int) -> bool {
    &&& starts_field(s, k, a)
    &&& a < b <= s.len()
    &&& forall|j: int| a <= j < b ==> !is_space(#[trigger] s[j])
    &&& (b == s.len() || is_space(s[b]))
}

/// Field number `k` of `s`, if `s` has that many fields.
pub open spec fn field_text(s: Seq<char>, k: nat) -> Option<Seq<char>> {
    if exists|a: int, b: int| is_field(s, k, a, b) {
        let (a, b) = choose|a: int, b: int| is_field(s, k, a, b);
        Some(s.subrange(a, b))
    } else {
        None
    }
}

/// All of `s` from the start of field number `k`, if `s` has that many
/// fields: the field and whatever follows it, white space too.
pub open spec fn rest_from_field(s: Seq<char>, k: nat) -> Option<Seq<char>> {
    if exists|a: int| starts_field(s, k, a) {
        let a = choose|a: int| starts_field(s, k, a);
        Some(s.subrange(a, s.len() as int))
    } else {
        None
    }
}

/// The count of field starts never goes down.
pub proof fn lemma_fields_before_grows(s: Seq<char>, i: int, j: int)
    requires
        i <= j,
    ensures
        fields_before(s, i) <= fields_before(s, j),
    decreases j - i,
{
    if i < j {
        lemma_fields_before_grows(s, i, j - 1);
    }
}

/// A text has at most one start of a field of each number.
pub proof fn lemma_field_start_unique(s: Seq<char>, k: nat, a: int, c: int)
    requires
        starts_field(s, k, a),
        starts_field(s, k, c),
    ensures
        a == c,
{
    if a < c {
        lemma_fields_before_grows(s, a + 1, c);
    }
    if c < a {
        lemma_fields_before_grows(s, c + 1, a);
    }
}

/// A text has at most one field of each number.
pub proof fn lemma_field_unique(s: Seq<char>, k: nat, a: int, b: int, c: int, d: int)
    requires
        is_field(s, k, a, b),
        is_field(s, k, c, d),
    ensures
        a == c,
        b == d,
{
    lemma_field_start_unique(s, k, a, c);
    if b < d {
        assert(!is_space(s[b]));
    }
    if d < b {
        assert(!is_space(s[d]));
    }
}

/// Where field number `k` of `chars[from..to]` starts, as a position in
/// `chars`; `None` where that text has no more than `k` fields.
pub(crate) fn field_start_in(chars: &Vec<char>, from: usize, to: usize, k: usize) -> (found:
    Option<usize>)
    requires
        from <= to <= chars.len(),
    ensures
        match found {
            Some(p) => from <= p < to && starts_field(
                chars@.subrange(from as int, to as int),
                k as nat,
                p - from,
            ),
            None => forall|a: int|
                !starts_field(chars@.subrange(from as int, to as int), k as nat, a),
        },
{
    let ghost part = chars@.subrange(from as int, to as int);
    let mut i: usize = from;
    let mut seen: usize = 0;
    while i < to
        invariant
            from <= i <= to <= chars.len(),
            part == chars@.subrange(from as int, to as int),
            seen == fields_before(part, i - from),
            seen <= k,
            seen <= i - from,
            forall|a: int| 0 <= a < i - from ==> !starts_field(part, k as nat, a),
        decreases to - i,
    {
        let starts = !char_is_space(chars[i]) && (i == from || char_is_space(chars[i - 1]));
        proof {
            assert(part[i - from] == chars@[i as int]);
            if i > from {
                assert(part[i - from - 1] == chars@[i - 1]);
            }
            assert(starts == is_field_start(part, i - from));
        }
        if starts {
            if seen == k {
                return Some(i);
            }
            seen += 1;
        }
        i += 1;
    }
    None
}

/// Where the field of `chars[from..to]` that starts at `p` ends, as a
/// position in `chars`.
pub(crate) fn field_end_in(chars: &Vec<char>, from: usize, to: usize, p: usize) -> (q: usize)
    requires
        from <= p < to <= chars.len(),
        !is_space(chars@[p as int]),
    ensures
        p < q <= to,
        forall|j: int| p <= j < q ==> !is_space(#[trigger] chars@[j]),
        q == to || is_space(chars@[q as int]),
{
    let mut q: usize = p + 1;
    while q < to && !char_is_space(chars[q])
        invariant
            p < q <= to <= chars.len(),
            forall|j: int| p <= j < q ==> !is_space(#[trigger] chars@[j]),
        decreases to - q,
    {
        q += 1;
    }
    q
}

/// Field number `k` of `line`, counted from zero, the fields being what white
/// space separates. `None` where the line has no more than `k` fields.
pub fn field(line: &str, k: usize) -> (found: Option<String>)
    ensures
        match found {
            Some(text) => field_text(line@, k as nat) == Some(text@),
            None => field_text(line@, k as nat) is None,
        },
{
    let chars = to_chars(line);
    let n = chars.len();
    assert(chars@.subrange(0, n as int) =~= line@);
    match field_start_in(&chars, 0, n, k) {
        Some(p) => {
            let q = field_end_in(&chars, 0, n, p);
            let text = String::from_str(line.substring_char(p, q));
            proof {
                let s = line@;
                assert(is_field(s, k as nat, p as int, q as int));
                let (a, b) = choose|a: int, b: int| is_field(s, k as nat, a, b);
                lemma_field_unique(s, k as nat, p as int, q as int, a, b);
            }
            Some(text)
        },
        None => None,
    }
}

} // verus!

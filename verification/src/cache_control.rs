//! The `no-store` directive of `Cache-Control` header values.
//!
//! A value counts only where it reads as text (visible ASCII or tab); it is
//! then cut at each comma, each piece is trimmed of white space, and a piece
//! that equals `no-store` without regard to ASCII case forbids storing.

use vstd::prelude::*;

use crate::headers::is_visible_ascii;

verus! {

/// A header value that reads as text.
pub open spec fn is_text_value(v: Seq<u8>) -> bool {
    forall|i: int| 0 <= i < v.len() ==> #[trigger] is_visible_ascii(v[i])
}

/// The pieces of `v` between commas, in order: `n` commas give `n + 1`
/// pieces, empty ones included.
pub open spec fn split_commas(v: Seq<u8>) -> Seq<Seq<u8>>
    decreases v.len(),
{
    if v.len() == 0 {
        seq![Seq::empty()]
    } else {
        let parts = split_commas(v.drop_last());
        if v.last() == 44u8 {
            parts.push(Seq::empty())
        } else {
            parts.update(parts.len() - 1, parts.last().push(v.last()))
        }
    }
}

/// White space as `str::trim` removes it, among ASCII characters.
pub open spec fn is_white(b: u8) -> bool {
    b == 32 || (9 <= b && b <= 13)
}

pub open spec fn trim_start(s: Seq<u8>) -> Seq<u8>
    decreases s.len(),
{
    if s.len() > 0 && is_white(s[0]) {
        trim_start(s.drop_first())
    } else {
        s
    }
}

pub open spec fn trim_end(s: Seq<u8>) -> Seq<u8>
    decreases s.len(),
{
    if s.len() > 0 && is_white(s.last()) {
        trim_end(s.drop_last())
    } else {
        s
    }
}

/// `s` without white space at either end.
pub open spec fn trim(s: Seq<u8>) -> Seq<u8> {
    trim_end(trim_start(s))
}

pub open spec fn ascii_lower(b: u8) -> u8 {
    if 65 <= b && b <= 90 {
        (b + 32) as u8
    } else {
        b
    }
}

/// Equality of byte strings without regard to ASCII case.
pub open spec fn eq_ignore_ascii_case(a: Seq<u8>, b: Seq<u8>) -> bool {
    &&& a.len() == b.len()
    &&& forall|i: int| 0 <= i < a.len() ==> #[trigger] ascii_lower(a[i]) == ascii_lower(b[i])
}

/// The bytes of `no-store`.
pub open spec fn no_store() -> Seq<u8> {
    seq![110u8, 111u8, 45u8, 115u8, 116u8, 111u8, 114u8, 101u8]
}

/// A piece of a value that is the `no-store` directive.
pub open spec fn is_no_store(piece: Seq<u8>) -> bool {
    eq_ignore_ascii_case(trim(piece), no_store())
}

/// A `Cache-Control` value that forbids storing the response.
pub open spec fn forbids_storing(v: Seq<u8>) -> bool {
    &&& is_text_value(v)
    &&& exists|j: int| 0 <= j < split_commas(v).len() && #[trigger] is_no_store(split_commas(v)[j])
}

/// Whether any of the values forbids storing.
pub open spec fn any_forbids_storing(values: Seq<Seq<u8>>) -> bool {
    exists|i: int| 0 <= i < values.len() && #[trigger] forbids_storing(values[i])
}

fn is_white_byte(b: u8) -> (r: bool)
    ensures
        r == is_white(b),
{
    b == 32 || (9 <= b && b <= 13)
}

fn lower_byte(b: u8) -> (r: u8)
    ensures
        r == ascii_lower(b),
{
    if 65 <= b && b <= 90 {
        b + 32
    } else {
        b
    }
}

/// Whether the piece `v[start..end]` is the `no-store` directive.
fn piece_is_no_store(v: &Vec<u8>, start: usize, end: usize) -> (r: bool)
    requires
        start <= end <= v.len(),
    ensures
        r == is_no_store(v@.subrange(start as int, end as int)),
{
    let ghost piece = v@.subrange(start as int, end as int);
    let mut s: usize = start;
    while s < end && is_white_byte(v[s])
        invariant
            start <= s <= end <= v.len(),
            trim_start(piece) == trim_start(v@.subrange(s as int, end as int)),
        decreases end - s,
    {
        assert(v@.subrange(s as int, end as int).drop_first() =~= v@.subrange(s + 1, end as int));
        s = s + 1;
    }
    assert(trim_start(piece) == v@.subrange(s as int, end as int));
    let mut e: usize = end;
    while e > s && is_white_byte(v[e - 1])
        invariant
            start <= s <= e <= end <= v.len(),
            trim(piece) == trim_end(v@.subrange(s as int, e as int)),
        decreases e - s,
    {
        assert(v@.subrange(s as int, e as int).drop_last() =~= v@.subrange(s as int, e - 1));
        e = e - 1;
    }
    let ghost t = v@.subrange(s as int, e as int);
    assert(trim(piece) == t);
    if e - s != 8 {
        return false;
    }
    let word: [u8; 8] = [110u8, 111u8, 45u8, 115u8, 116u8, 111u8, 114u8, 101u8];
    assert(word@ =~= no_store());
    let mut k: usize = 0;
    while k < 8
        invariant
            0 <= k <= 8,
            e == s + 8,
            s + 8 <= v.len(),
            t == v@.subrange(s as int, e as int),
            trim(piece) == t,
            piece == v@.subrange(start as int, end as int),
            word@ == no_store(),
            forall|i: int| 0 <= i < k ==> #[trigger] ascii_lower(t[i]) == ascii_lower(no_store()[i]),
        decreases 8 - k,
    {
        assert(t[k as int] == v@[(s + k) as int]);
        assert(word@[k as int] == no_store()[k as int]);
        if lower_byte(v[s + k]) != lower_byte(word[k]) {
            assert(!(ascii_lower(t[k as int]) == ascii_lower(no_store()[k as int])));
            assert(!eq_ignore_ascii_case(t, no_store()));
            return false;
        }
        k = k + 1;
    }
    true
}

/// Whether every byte of the value reads as text.
fn is_text(v: &Vec<u8>) -> (r: bool)
    ensures
        r == is_text_value(v@),
{
    let mut i: usize = 0;
    while i < v.len()
        invariant
            i <= v.len(),
            forall|j: int| 0 <= j < i ==> #[trigger] is_visible_ascii(v@[j]),
        decreases v.len() - i,
    {
        let b: u8 = v[i];
        if !((32 <= b && b < 127) || b == 9) {
            assert(!is_visible_ascii(v@[i as int]));
            return false;
        }
        i = i + 1;
    }
    true
}

/// Whether a `Cache-Control` value forbids storing the response: it reads as
/// text and one of its comma-separated directives is `no-store`.
pub fn value_forbids_storing(v: &Vec<u8>) -> (r: bool)
    ensures
        r == forbids_storing(v@),
{
    if !is_text(v) {
        return false;
    }
    let mut found = false;
    let mut start: usize = 0;
    let mut i: usize = 0;
    proof {
        assert(v@.take(0) =~= Seq::<u8>::empty());
    }
    while i < v.len()
        invariant
            start <= i <= v.len(),
            split_commas(v@.take(i as int)).len() >= 1,
            split_commas(v@.take(i as int)).last() == v@.subrange(start as int, i as int),
            found <==> exists|j: int|
                0 <= j < split_commas(v@.take(i as int)).len() - 1
                    && #[trigger] is_no_store(split_commas(v@.take(i as int))[j]),
        decreases v.len() - i,
    {
        let ghost before = split_commas(v@.take(i as int));
        assert(v@.take(i + 1).drop_last() =~= v@.take(i as int));
        assert(v@.take(i + 1).last() == v@[i as int]);
        let ghost after = split_commas(v@.take(i + 1));
        if v[i] == 44u8 {
            let here = piece_is_no_store(v, start, i);
            assert(after == before.push(Seq::empty()));
            if here {
                assert(is_no_store(after[before.len() - 1]));
            }
            found = found || here;
            start = i + 1;
            assert(after.last() =~= v@.subrange(start as int, (i + 1) as int));
            assert(found <==> exists|j: int| 0 <= j < after.len() - 1 && #[trigger] is_no_store(after[j])) by {
                if found {
                    if here {
                        assert(is_no_store(after[before.len() - 1]));
                    } else {
                        let j = choose|j: int| 0 <= j < before.len() - 1 && #[trigger] is_no_store(before[j]);
                        assert(after[j] == before[j]);
                    }
                } else {
                    assert forall|j: int| 0 <= j < after.len() - 1 implies !#[trigger] is_no_store(after[j]) by {
                        if j < before.len() - 1 {
                            assert(after[j] == before[j]);
                        }
                    }
                }
            }
        } else {
            assert(after == before.update(before.len() - 1, before.last().push(v@[i as int])));
            assert(after.last() =~= v@.subrange(start as int, (i + 1) as int));
            assert(found <==> exists|j: int| 0 <= j < after.len() - 1 && #[trigger] is_no_store(after[j])) by {
                if found {
                    let j = choose|j: int| 0 <= j < before.len() - 1 && #[trigger] is_no_store(before[j]);
                    assert(after[j] == before[j]);
                } else {
                    assert forall|j: int| 0 <= j < after.len() - 1 implies !#[trigger] is_no_store(after[j]) by {
                        assert(after[j] == before[j]);
                    }
                }
            }
        }
        i = i + 1;
    }
    assert(v@.take(v.len() as int) =~= v@);
    let last = piece_is_no_store(v, start, v.len());
    let ghost parts = split_commas(v@);
    if found || last {
        assert(exists|j: int| 0 <= j < parts.len() && #[trigger] is_no_store(parts[j])) by {
            if last {
                assert(is_no_store(parts[parts.len() - 1]));
            } else {
                let j = choose|j: int| 0 <= j < parts.len() - 1 && #[trigger] is_no_store(parts[j]);
                assert(is_no_store(parts[j]));
            }
        }
        true
    } else {
        assert forall|j: int| 0 <= j < parts.len() implies !#[trigger] is_no_store(parts[j]) by {
            if j == parts.len() - 1 {
                assert(parts[j] == v@.subrange(start as int, v.len() as int));
            }
        }
        false
    }
}

proof fn lemma_split_nonempty(v: Seq<u8>)
    ensures
        split_commas(v).len() >= 1,
    decreases v.len(),
{
    if v.len() > 0 {
        lemma_split_nonempty(v.drop_last());
    }
}

/// Cutting at a comma: the pieces of `a , b` are those of `a` then those of `b`.
proof fn lemma_split_at_comma(a: Seq<u8>, b: Seq<u8>)
    ensures
        split_commas(a + seq![44u8] + b) == split_commas(a) + split_commas(b),
    decreases b.len(),
{
    let v = a + seq![44u8] + b;
    if b.len() == 0 {
        assert(v.drop_last() =~= a);
        assert(split_commas(a).push(Seq::empty()) =~= split_commas(a) + split_commas(b));
    } else {
        let b0 = b.drop_last();
        assert(v.drop_last() =~= a + seq![44u8] + b0);
        lemma_split_at_comma(a, b0);
        lemma_split_nonempty(b0);
        let left = split_commas(a);
        let right = split_commas(b0);
        if b.last() == 44u8 {
            assert((left + right).push(Seq::empty()) =~= left + right.push(Seq::empty()));
        } else {
            assert((left + right).update(
                (left + right).len() - 1,
                (left + right).last().push(b.last()),
            ) =~= left + right.update(right.len() - 1, right.last().push(b.last())));
        }
    }
}

/// A piece without commas is its own only piece.
proof fn lemma_split_without_comma(b: Seq<u8>)
    requires
        forall|i: int| 0 <= i < b.len() ==> b[i] != 44u8,
    ensures
        split_commas(b) == seq![b],
    decreases b.len(),
{
    if b.len() > 0 {
        let b0 = b.drop_last();
        lemma_split_without_comma(b0);
        assert(b[b.len() - 1] != 44u8);
        assert(b0.push(b.last()) =~= b);
        assert(split_commas(b) == seq![b0].update(0, b0.push(b.last())));
        assert(seq![b0].update(0, b0.push(b.last())) =~= seq![b]);
    } else {
        assert(b =~= Seq::<u8>::empty());
    }
}

/// Any value of visible ASCII bytes (or tabs), of any length, in which
/// `no-store` stands between commas or at either end forbids storing.
pub proof fn no_store_between_commas_forbids_storing(v: Seq<u8>, before: Seq<u8>, after: Seq<u8>)
    requires
        forall|i: int| 0 <= i < v.len() ==> (32 <= #[trigger] v[i] && v[i] < 127) || v[i] == 9,
        v == before + seq![110u8, 111u8, 45u8, 115u8, 116u8, 111u8, 114u8, 101u8] + after,
        before.len() == 0 || before.last() == 44u8,
        after.len() == 0 || after[0] == 44u8,
    ensures
        forbids_storing(v),
{
    let d = seq![110u8, 111u8, 45u8, 115u8, 116u8, 111u8, 114u8, 101u8];
    lemma_split_without_comma(d);
    let x = d + after;
    assert(split_commas(x)[0] == d) by {
        if after.len() == 0 {
            assert(x =~= d);
        } else {
            let rest = after.drop_first();
            assert(x =~= d + seq![44u8] + rest);
            lemma_split_at_comma(d, rest);
        }
    }
    lemma_split_nonempty(x);
    let j: int = if before.len() == 0 {
        assert(v =~= x);
        0
    } else {
        let b0 = before.drop_last();
        assert(v =~= b0 + seq![44u8] + x);
        lemma_split_at_comma(b0, x);
        split_commas(b0).len() as int
    };
    assert(split_commas(v)[j] == d);
    assert(trim_start(d) == d);
    assert(trim_end(d) == d);
    assert(d =~= no_store());
    assert(is_no_store(split_commas(v)[j]));
    assert(is_text_value(v));
}

} // verus!

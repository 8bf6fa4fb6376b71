//! Highlight reconstruction: turning a candidate's text plus the sparse list
//! of match-contributing character indices reported by the engine into
//! alternating highlighted/plain spans.
//!
//! All positions are character offsets, never byte offsets, so multi-byte
//! text is split only on character boundaries. Indices may arrive unordered,
//! duplicated, or even past the end of the text; out-of-range indices mark
//! nothing.

use vstd::prelude::*;

verus! {

/// The characters of a span list, concatenated in order.
pub open spec fn spans_text(spans: Seq<(String, bool)>) -> Seq<char>
    decreases spans.len(),
{
    if spans.len() == 0 {
        Seq::empty()
    } else {
        spans[0].0@ + spans_text(spans.drop_first())
    }
}

/// The per-character highlight flags of a span list: each span contributes
/// one flag per character it covers.
pub open spec fn spans_flags(spans: Seq<(String, bool)>) -> Seq<bool>
    decreases spans.len(),
{
    if spans.len() == 0 {
        Seq::empty()
    } else {
        Seq::new(spans[0].0@.len(), |i: int| spans[0].1) + spans_flags(spans.drop_first())
    }
}

/// Whether character position `p` occurs in the engine's index list.
pub open spec fn marked(indices: Seq<u32>, p: int) -> bool {
    exists|j: int| 0 <= j < indices.len() && indices[j] as int == p
}

/// The highlight flag of every character position of a text of `len`
/// characters: a position is highlighted exactly when the index list names
/// it. Indices at or past `len` influence no position.
pub open spec fn highlight_flags(indices: Seq<u32>, len: nat) -> Seq<bool> {
    Seq::new(len, |p: int| marked(indices, p))
}

/// Appending a span extends the concatenated text and flags at the end.
proof fn lemma_spans_push(spans: Seq<(String, bool)>, s: (String, bool))
    ensures
        spans_text(spans.push(s)) == spans_text(spans) + s.0@,
        spans_flags(spans.push(s)) == spans_flags(spans) + Seq::new(s.0@.len(), |i: int| s.1),
    decreases spans.len(),
{
    if spans.len() == 0 {
        assert(spans.push(s)[0] == s);
        assert(spans.push(s).drop_first() =~= Seq::<(String, bool)>::empty());
        assert(spans_text(spans.push(s).drop_first()) == Seq::<char>::empty());
        assert(spans_flags(spans.push(s).drop_first()) == Seq::<bool>::empty());
        assert(spans_text(spans.push(s)) =~= spans_text(spans) + s.0@);
        assert(spans_flags(spans.push(s)) =~= spans_flags(spans) + Seq::new(s.0@.len(), |i: int| s.1));
    } else {
        lemma_spans_push(spans.drop_first(), s);
        assert(spans.push(s).drop_first() =~= spans.drop_first().push(s));
        assert(spans.push(s)[0] == spans[0]);
        assert(spans_text(spans.push(s)) =~= spans_text(spans) + s.0@);
        assert(spans_flags(spans.push(s)) =~= spans_flags(spans) + Seq::new(s.0@.len(), |i: int| s.1));
    }
}

/// Law: the highlight flags depend only on which positions occur in the
/// index list, so replacing it by any reordering or deduplication — such as
/// the output of [`sort_dedup`] — changes no flag.
pub proof fn lemma_flags_ignore_order(raw: Seq<u32>, cleaned: Seq<u32>, len: nat)
    requires
        forall|x: u32| cleaned.contains(x) <==> raw.contains(x),
    ensures
        highlight_flags(cleaned, len) == highlight_flags(raw, len),
{
    assert forall|p: int| 0 <= p < len implies marked(cleaned, p) == marked(raw, p) by {
        if marked(cleaned, p) {
            let j = choose|j: int| 0 <= j < cleaned.len() && cleaned[j] as int == p;
            assert(raw.contains(cleaned[j]));
            let w = choose|w: int| 0 <= w < raw.len() && raw[w] == cleaned[j];
            assert(raw[w] as int == p);
        }
        if marked(raw, p) {
            let j = choose|j: int| 0 <= j < raw.len() && raw[j] as int == p;
            assert(cleaned.contains(raw[j]));
            let w = choose|w: int| 0 <= w < cleaned.len() && cleaned[w] == raw[j];
            assert(cleaned[w] as int == p);
        }
    }
    assert(highlight_flags(cleaned, len) =~= highlight_flags(raw, len));
}

/// Whether `s` is strictly increasing: sorted ascending with no duplicates.
pub open spec fn strictly_sorted(s: Seq<u32>) -> bool {
    forall|a: int, b: int| 0 <= a < b < s.len() ==> s[a] < s[b]
}

/// Sorts an index list ascending and drops duplicates: exactly the values of
/// the input survive, each once, in increasing order.
pub fn sort_dedup(v: &Vec<u32>) -> (r: Vec<u32>)
    ensures
        strictly_sorted(r@),
        forall|x: u32| r@.contains(x) <==> v@.contains(x),
{
    let mut r: Vec<u32> = Vec::new();
    let mut i: usize = 0;
    while i < v.len()
        invariant
            i <= v@.len(),
            strictly_sorted(r@),
            forall|x: u32| r@.contains(x) <==> v@.subrange(0, i as int).contains(x),
        decreases v@.len() - i,
    {
        let e = v[i];
        let mut k: usize = 0;
        while k < r.len() && r[k] < e
            invariant
                k <= r@.len(),
                strictly_sorted(r@),
                forall|x: u32| r@.contains(x) <==> v@.subrange(0, i as int).contains(x),
                forall|t: int| 0 <= t < k ==> r@[t] < e,
            decreases r@.len() - k,
        {
            k += 1;
        }
        let ghost prev = r@;
        let mut dup = false;
        if k < r.len() {
            if r[k] == e {
                dup = true;
            }
        }
        if !dup {
            r.insert(k, e);
            proof {
                prev.insert_ensures(k as int, e);
                assert forall|a: int, b: int| 0 <= a < b < r@.len() implies r@[a] < r@[b] by {
                    if b < k {
                    } else if b == k {
                        assert(r@[a] == prev[a]);
                    } else if a < k {
                        assert(r@[b] == prev[b - 1]);
                        assert(prev[b - 1] >= prev[k as int]);
                    } else if a == k {
                        assert(r@[b] == prev[b - 1]);
                        assert(prev[b - 1] >= prev[k as int]);
                    } else {
                        assert(r@[a] == prev[a - 1]);
                        assert(r@[b] == prev[b - 1]);
                    }
                }
                assert forall|x: u32| r@.contains(x) <==> (prev.contains(x) || x == e) by {
                    if r@.contains(x) {
                        let w = choose|w: int| 0 <= w < r@.len() && r@[w] == x;
                        if w < k {
                            assert(prev[w] == x);
                        } else if w > k {
                            assert(prev[w - 1] == x);
                        }
                    }
                    if prev.contains(x) {
                        let w = choose|w: int| 0 <= w < prev.len() && prev[w] == x;
                        if w < k {
                            assert(r@[w] == x);
                        } else {
                            assert(r@[w + 1] == x);
                        }
                    }
                    if x == e {
                        assert(r@[k as int] == x);
                    }
                }
            }
        } else {
            proof {
                assert(prev[k as int] == e);
                assert(prev.contains(e));
            }
        }
        proof {
            assert(v@.subrange(0, i + 1).drop_last() =~= v@.subrange(0, i as int));
            assert(v@.subrange(0, i + 1).last() == v@[i as int]);
            assert forall|x: u32| r@.contains(x) <==> v@.subrange(0, i + 1).contains(x) by {
                let sub = v@.subrange(0, i + 1);
                assert(prev.contains(x) == v@.subrange(0, i as int).contains(x));
                assert(r@.contains(x) <==> (prev.contains(x) || x == e));
                if sub.contains(x) {
                    let w = choose|w: int| 0 <= w < sub.len() && sub[w] == x;
                    if w < i {
                        assert(v@.subrange(0, i as int)[w] == x);
                    } else {
                        assert(x == e);
                    }
                }
                if v@.subrange(0, i as int).contains(x) {
                    let w = choose|w: int| 0 <= w < i && v@.subrange(0, i as int)[w] == x;
                    assert(sub[w] == x);
                }
                if x == e {
                    assert(sub[i as int] == x);
                }
            }
        }
        i += 1;
    }
    proof {
        assert(v@.subrange(0, v@.len() as int) =~= v@);
    }
    r
}

/// Splits `input` into maximal runs of equally-highlighted characters.
///
/// The spans concatenate back to exactly `input`; a character is inside a
/// highlighted span exactly when its position occurs in `indices`. Every
/// span is non-empty and adjacent spans carry opposite flags, so the runs
/// are maximal. Duplicate, unordered and out-of-range indices are all
/// tolerated: duplicates mark a position once and indices past the end of
/// the text are dropped.
pub fn split_highlights(input: &str, indices: &Vec<u32>) -> (r: Vec<(String, bool)>)
    ensures
        spans_text(r@) == input@,
        spans_flags(r@) == highlight_flags(indices@, input@.len()),
        forall|k: int| 0 <= k < r@.len() ==> r@[k].0@.len() > 0,
        forall|k: int| 0 <= k && k + 1 < r@.len() ==> (#[trigger] r@[k]).1 != r@[k + 1].1,
{
    let n = input.unicode_len();
    let mut flags: Vec<bool> = Vec::new();
    let mut p: usize = 0;
    while p < n
        invariant
            p <= n,
            flags@ =~= Seq::new(p as nat, |q: int| false),
        decreases n - p,
    {
        flags.push(false);
        p += 1;
    }

    let mut j: usize = 0;
    while j < indices.len()
        invariant
            j <= indices@.len(),
            flags@.len() == n,
            n == input@.len(),
            forall|q: int| 0 <= q < n ==> flags@[q] == marked(indices@.subrange(0, j as int), q),
        decreases indices@.len() - j,
    {
        let idx = indices[j];
        if (idx as usize) < n {
            flags[idx as usize] = true;
        }
        proof {
            assert(indices@.subrange(0, j + 1).drop_last() =~= indices@.subrange(0, j as int));
            assert(indices@.subrange(0, j + 1).last() == indices@[j as int]);
            assert forall|q: int| 0 <= q < n implies flags@[q] == marked(indices@.subrange(0, j + 1), q) by {
                let sub = indices@.subrange(0, j + 1);
                if flags@[q] {
                    if q == idx as int {
                        assert(sub[j as int] as int == q);
                    } else {
                        let w = choose|w: int|
                            0 <= w < j && indices@.subrange(0, j as int)[w] as int == q;
                        assert(sub[w] as int == q);
                    }
                } else {
                    if marked(sub, q) {
                        let w = choose|w: int| 0 <= w < sub.len() && sub[w] as int == q;
                        assert(w < j);
                        assert(indices@.subrange(0, j as int)[w] as int == q);
                    }
                }
            }
        }
        j += 1;
    }
    proof {
        assert(indices@.subrange(0, indices@.len() as int) =~= indices@);
        assert(flags@ =~= highlight_flags(indices@, input@.len()));
    }

    let mut r: Vec<(String, bool)> = Vec::new();
    if n == 0 {
        return r;
    }

    let mut run_start: usize = 0;
    let mut cur: bool = flags[0];
    let mut i: usize = 1;
    while i < n
        invariant
            1 <= i <= n,
            run_start < i,
            n == input@.len(),
            flags@.len() == n,
            flags@ == highlight_flags(indices@, input@.len()),
            cur == flags@[run_start as int],
            forall|q: int| run_start <= q < i ==> flags@[q] == cur,
            spans_text(r@) == input@.subrange(0, run_start as int),
            spans_flags(r@) == flags@.subrange(0, run_start as int),
            forall|k: int| 0 <= k < r@.len() ==> r@[k].0@.len() > 0,
            forall|k: int| 0 <= k && k + 1 < r@.len() ==> (#[trigger] r@[k]).1 != r@[k + 1].1,
            r@.len() > 0 ==> r@[r@.len() - 1].1 != cur,
        decreases n - i,
    {
        let f = flags[i];
        if f != cur {
            let piece = input.substring_char(run_start, i).to_owned();
            proof {
                lemma_spans_push(r@, (piece, cur));
                assert(input@.subrange(0, run_start as int) + piece@ =~= input@.subrange(0, i as int));
                assert(spans_flags(r@) + Seq::new(piece@.len(), |q: int| cur)
                    =~= flags@.subrange(0, i as int));
            }
            let ghost prev = r@;
            r.push((piece, cur));
            proof {
                assert forall|k: int| 0 <= k && k + 1 < r@.len() implies (#[trigger] r@[k]).1 != r@[k
                    + 1].1 by {
                    assert(r@ == prev.push((piece, cur)));
                    if k + 1 < prev.len() {
                        assert(prev.push((piece, cur))[k] == prev[k]);
                        assert(prev.push((piece, cur))[k + 1] == prev[k + 1]);
                    } else {
                        assert(prev.push((piece, cur))[k + 1] == (piece, cur));
                        assert(prev.push((piece, cur))[k] == prev[prev.len() - 1]);
                    }
                }
            }
            run_start = i;
            cur = f;
        }
        i += 1;
    }

    let piece = input.substring_char(run_start, n).to_owned();
    proof {
        lemma_spans_push(r@, (piece, cur));
        assert(input@.subrange(0, run_start as int) + piece@ =~= input@);
        assert(spans_flags(r@) + Seq::new(piece@.len(), |q: int| cur) =~= flags@);
    }
    let ghost prev = r@;
    r.push((piece, cur));
    proof {
        assert forall|k: int| 0 <= k && k + 1 < r@.len() implies (#[trigger] r@[k]).1 != r@[k + 1].1 by {
            assert(r@ == prev.push((piece, cur)));
            if k + 1 < prev.len() {
                assert(prev.push((piece, cur))[k] == prev[k]);
                assert(prev.push((piece, cur))[k + 1] == prev[k + 1]);
            } else {
                assert(prev.push((piece, cur))[k + 1] == (piece, cur));
                assert(prev.push((piece, cur))[k] == prev[prev.len() - 1]);
            }
        }
    }
    r
}

} // verus!

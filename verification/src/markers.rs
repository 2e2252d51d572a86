//! The markers around a transcript on its way to the model, and an answer without
//! them.

use vstd::prelude::*;

use crate::text::{chars, has_part, part_at, parts_of_parts, slice};

verus! {

/// Stands before the transcript.
pub const TRANSCRIPT_START: &'static str = "<<<TRANSCRIPT>>>";

/// Stands after the transcript.
pub const TRANSCRIPT_END: &'static str = "<<<END>>>";

/// Whether a marker stands somewhere in `s`.
pub open spec fn has_marker(s: Seq<char>) -> bool {
    has_part(s, TRANSCRIPT_START@) || has_part(s, TRANSCRIPT_END@)
}

/// The length of the marker that `s` ends in; 0 where it ends in none.
pub open spec fn marker_at_end(s: Seq<char>) -> nat {
    if TRANSCRIPT_START@.is_suffix_of(s) {
        TRANSCRIPT_START@.len()
    } else if TRANSCRIPT_END@.is_suffix_of(s) {
        TRANSCRIPT_END@.len()
    } else {
        0
    }
}

/// `s` without the marker that it ends in.
pub open spec fn settled(s: Seq<char>) -> Seq<char> {
    s.take(s.len() - marker_at_end(s))
}

/// What is kept after `s` was read, where `kept` was kept before: a marker is dropped
/// as soon as it is complete.
pub open spec fn read_on(kept: Seq<char>, s: Seq<char>) -> Seq<char>
    decreases s.len(),
{
    if s.len() == 0 {
        kept
    } else {
        settled(read_on(kept, s.drop_last()).push(s.last()))
    }
}

/// `s` without markers. Where dropping one brings the pieces of another together,
/// that is dropped too.
pub open spec fn without_markers(s: Seq<char>) -> Seq<char> {
    read_on(seq![], s)
}

fn ends_with(cs: &Vec<char>, tail: &Vec<char>) -> (r: bool)
    ensures
        r == tail@.is_suffix_of(cs@),
{
    if tail.len() > cs.len() {
        return false;
    }
    let from: usize = cs.len() - tail.len();
    let mut i: usize = 0;
    while i < tail.len()
        invariant
            i <= tail@.len(),
            from + tail@.len() == cs@.len() <= usize::MAX,
            forall|k: int| 0 <= k < i ==> tail@[k] == cs@[from + k],
        decreases tail@.len() - i,
    {
        if tail[i] != cs[from + i] {
            assert(cs@.subrange(from as int, cs@.len() as int)[i as int] != tail@[i as int]);
            return false;
        }
        i += 1;
    }
    assert(tail@ =~= cs@.subrange(from as int, cs@.len() as int));
    true
}

/// Drops the markers in `s`.
pub fn drop_markers(s: &str) -> (r: String)
    ensures
        r@ == without_markers(s@),
        !has_marker(r@),
        !has_marker(s@) ==> r@ == s@,
{
    let cs = chars(s);
    let start = chars(TRANSCRIPT_START);
    let end = chars(TRANSCRIPT_END);
    let mut out: Vec<char> = Vec::new();
    let mut i: usize = 0;
    while i < cs.len()
        invariant
            i <= cs@.len(),
            start@ == TRANSCRIPT_START@,
            end@ == TRANSCRIPT_END@,
            out@ == without_markers(cs@.take(i as int)),
        decreases cs@.len() - i,
    {
        assert(cs@.take(i + 1).drop_last() == cs@.take(i as int));
        out.push(cs[i]);
        let ghost grown = out@;
        if ends_with(&out, &start) {
            let keep: usize = out.len() - start.len();
            out.truncate(keep);
        } else if ends_with(&out, &end) {
            let keep: usize = out.len() - end.len();
            out.truncate(keep);
        }
        assert(out@ == settled(grown));
        i += 1;
    }
    assert(cs@.take(i as int) == cs@);
    proof {
        no_marker_is_left(s@);
        if !has_marker(s@) {
            texts_without_markers_are_kept(s@);
        }
    }
    let r = slice(&out, 0, out.len());
    assert(r@ == out@);
    r
}

/// The shape of both markers: the first character is `<`, and the only `>` are the
/// three at the end.
proof fn marker_shape(m: Seq<char>)
    requires
        m == TRANSCRIPT_START@ || m == TRANSCRIPT_END@,
    ensures
        m.len() > 3,
        m.first() == '<',
        forall|i: int| 0 <= i < m.len() - 3 ==> #[trigger] m[i] != '>',
        m[m.len() - 1] == '>' && m[m.len() - 2] == '>' && m[m.len() - 3] == '>',
{
    reveal_strlit("<<<TRANSCRIPT>>>");
    reveal_strlit("<<<END>>>");
}

/// A text that ends in a marker ends in three `>`.
proof fn marker_end_shape(s: Seq<char>)
    ensures
        marker_at_end(s) <= s.len(),
        marker_at_end(s) > 0 ==> s.len() > 3 && s[s.len() - 1] == '>' && s[s.len() - 2] == '>'
            && s[s.len() - 3] == '>',
{
    let m = if TRANSCRIPT_START@.is_suffix_of(s) {
        TRANSCRIPT_START@
    } else {
        TRANSCRIPT_END@
    };
    marker_shape(m);
    if marker_at_end(s) > 0 {
        let tail = s.subrange(s.len() - m.len(), s.len() as int);
        assert(tail[m.len() - 1] == s[s.len() - 1]);
        assert(tail[m.len() - 2] == s[s.len() - 2]);
        assert(tail[m.len() - 3] == s[s.len() - 3]);
    }
}

/// Reading two texts in a row is reading the first and going on with the second.
proof fn reading_in_parts(kept: Seq<char>, a: Seq<char>, b: Seq<char>)
    ensures
        read_on(kept, a + b) == read_on(read_on(kept, a), b),
    decreases b.len(),
{
    if b.len() == 0 {
        assert(a + b == a);
    } else {
        reading_in_parts(kept, a, b.drop_last());
        assert((a + b).drop_last() == a + b.drop_last());
        assert((a + b).last() == b.last());
    }
}

/// A marker that is not complete yet is kept.
proof fn reading_part_of_a_marker(kept: Seq<char>, m: Seq<char>, n: int)
    requires
        m == TRANSCRIPT_START@ || m == TRANSCRIPT_END@,
        0 <= n < m.len(),
    ensures
        read_on(kept, m.take(n)) == kept + m.take(n),
    decreases n,
{
    if n > 0 {
        reading_part_of_a_marker(kept, m, n - 1);
        marker_shape(m);
        let grown = kept + m.take(n);
        assert(m.take(n).drop_last() == m.take(n - 1));
        assert((kept + m.take(n - 1)).push(m[n - 1]) == grown);
        marker_end_shape(grown);
        assert(grown.last() == m[n - 1]);
        if n == m.len() - 2 {
            assert(grown[grown.len() - 2] == m[n - 2]);
        }
        if n == m.len() - 1 {
            assert(grown[grown.len() - 3] == m[n - 3]);
        }
        assert(marker_at_end(grown) == 0);
        assert(grown.take(grown.len() as int) == grown);
    } else {
        assert(kept + m.take(0) == kept);
    }
}

/// Reading a whole marker changes nothing.
proof fn reading_a_marker(kept: Seq<char>, m: Seq<char>)
    requires
        m == TRANSCRIPT_START@ || m == TRANSCRIPT_END@,
    ensures
        read_on(kept, m) == kept,
{
    marker_shape(m);
    reading_part_of_a_marker(kept, m, m.len() - 1);
    let grown = kept + m;
    assert(m.take(m.len() - 1) == m.drop_last());
    assert((kept + m.drop_last()).push(m.last()) == grown);
    assert(grown.subrange(grown.len() - m.len(), grown.len() as int) == m);
    assert(m.is_suffix_of(grown));
    if m == TRANSCRIPT_END@ {
        reveal_strlit("<<<TRANSCRIPT>>>");
        reveal_strlit("<<<END>>>");
        assert(!TRANSCRIPT_START@.is_suffix_of(grown)) by {
            if TRANSCRIPT_START@.is_suffix_of(grown) {
                let tail = grown.subrange(
                    grown.len() - TRANSCRIPT_START@.len(),
                    grown.len() as int,
                );
                assert(tail[12] == grown[grown.len() - 4]);
                assert(grown[grown.len() - 4] == m[5]);
            }
        }
    }
    assert(grown.take(kept.len() as int) == kept);
}

/// A marker counts for nothing, wherever it stands: without markers a text is the
/// same with it and without it.
pub proof fn markers_count_for_nothing(a: Seq<char>, b: Seq<char>)
    ensures
        without_markers(a + TRANSCRIPT_START@ + b) == without_markers(a + b),
        without_markers(a + TRANSCRIPT_END@ + b) == without_markers(a + b),
{
    let none = Seq::<char>::empty();
    reading_in_parts(none, a, b);
    reading_in_parts(none, a + TRANSCRIPT_START@, b);
    reading_in_parts(none, a, TRANSCRIPT_START@);
    reading_a_marker(read_on(none, a), TRANSCRIPT_START@);
    reading_in_parts(none, a + TRANSCRIPT_END@, b);
    reading_in_parts(none, a, TRANSCRIPT_END@);
    reading_a_marker(read_on(none, a), TRANSCRIPT_END@);
}

/// A part of a text holds no marker that the text does not hold.
pub proof fn parts_hold_no_new_marker(s: Seq<char>, from: int, to: int)
    requires
        0 <= from <= to <= s.len(),
        !has_marker(s),
    ensures
        !has_marker(s.subrange(from, to)),
{
    if has_part(s.subrange(from, to), TRANSCRIPT_START@) {
        parts_of_parts(s, from, to, TRANSCRIPT_START@);
    }
    if has_part(s.subrange(from, to), TRANSCRIPT_END@) {
        parts_of_parts(s, from, to, TRANSCRIPT_END@);
    }
}

/// What is left without its markers holds none.
pub proof fn no_marker_is_left(s: Seq<char>)
    ensures
        !has_marker(without_markers(s)),
    decreases s.len(),
{
    marker_shape(TRANSCRIPT_START@);
    marker_shape(TRANSCRIPT_END@);
    if s.len() > 0 {
        no_marker_is_left(s.drop_last());
        let before = without_markers(s.drop_last());
        let grown = before.push(s.last());
        let after = settled(grown);
        marker_end_shape(grown);
        if marker_at_end(grown) > 0 {
            let n = after.len() as int;
            assert(after == before.subrange(0, n));
            parts_hold_no_new_marker(before, 0, n);
        } else {
            assert(after == grown);
            no_marker_but_at_the_end(before, s.last(), TRANSCRIPT_START@);
            no_marker_but_at_the_end(before, s.last(), TRANSCRIPT_END@);
        }
    }
}

/// One more character can only complete a part that ends with it.
proof fn no_marker_but_at_the_end(before: Seq<char>, c: char, m: Seq<char>)
    requires
        !has_part(before, m),
        m.len() > 0,
        !m.is_suffix_of(before.push(c)),
    ensures
        !has_part(before.push(c), m),
{
    let grown = before.push(c);
    assert forall|i: int| !part_at(grown, m, i) by {
        if part_at(grown, m, i) {
            if i + m.len() == grown.len() {
                assert(m =~= grown.subrange(grown.len() - m.len(), grown.len() as int));
            } else {
                assert(before.subrange(i, i + m.len()) =~= m);
                assert(part_at(before, m, i));
            }
        }
    }
}

/// A text without markers is kept as it is.
pub proof fn texts_without_markers_are_kept(s: Seq<char>)
    requires
        !has_marker(s),
    ensures
        without_markers(s) == s,
    decreases s.len(),
{
    if s.len() > 0 {
        assert(s.drop_last() == s.subrange(0, s.len() - 1));
        parts_hold_no_new_marker(s, 0, s.len() - 1);
        texts_without_markers_are_kept(s.drop_last());
        assert(s.drop_last().push(s.last()) == s);
        assert(marker_at_end(s) == 0) by {
            if TRANSCRIPT_START@.is_suffix_of(s) {
                assert(part_at(s, TRANSCRIPT_START@, s.len() - TRANSCRIPT_START@.len()));
            }
            if TRANSCRIPT_END@.is_suffix_of(s) {
                assert(part_at(s, TRANSCRIPT_END@, s.len() - TRANSCRIPT_END@.len()));
            }
        }
        assert(s.take(s.len() as int) == s);
    }
}

/// A character in front that starts no marker does not take part in one.
proof fn settling_behind(c: char, s: Seq<char>)
    requires
        c != '<',
    ensures
        settled(seq![c] + s) == seq![c] + settled(s),
{
    let all = seq![c] + s;
    ends_behind(c, s, TRANSCRIPT_START@);
    ends_behind(c, s, TRANSCRIPT_END@);
    marker_end_shape(s);
    assert(all.take(all.len() - marker_at_end(s)) =~= seq![c] + s.take(
        s.len() - marker_at_end(s),
    ));
}

proof fn ends_behind(c: char, s: Seq<char>, m: Seq<char>)
    requires
        c != '<',
        m == TRANSCRIPT_START@ || m == TRANSCRIPT_END@,
    ensures
        m.is_suffix_of(seq![c] + s) <==> m.is_suffix_of(s),
{
    marker_shape(m);
    let all = seq![c] + s;
    if m.is_suffix_of(all) {
        let tail = all.subrange(all.len() - m.len(), all.len() as int);
        assert(tail[0] == m[0]);
        assert(m.len() <= s.len());
        assert(m =~= s.subrange(s.len() - m.len(), s.len() as int));
    }
    if m.is_suffix_of(s) {
        assert(m =~= all.subrange(all.len() - m.len(), all.len() as int));
    }
}

proof fn reading_behind(c: char, s: Seq<char>)
    requires
        c != '<',
    ensures
        read_on(seq![c], s) == seq![c] + without_markers(s),
    decreases s.len(),
{
    if s.len() > 0 {
        reading_behind(c, s.drop_last());
        let before = without_markers(s.drop_last());
        assert((seq![c] + before).push(s.last()) == seq![c] + before.push(s.last()));
        settling_behind(c, before.push(s.last()));
    }
}

/// Characters around a text that neither start nor end a marker stay where they are.
pub proof fn surroundings_are_kept(left: char, s: Seq<char>, right: char)
    requires
        left != '<',
        right != '>',
    ensures
        without_markers(seq![left] + s + seq![right]) == seq![left] + without_markers(s) + seq![
            right,
        ],
{
    let none = Seq::<char>::empty();
    let front = seq![left] + s;
    let all = front + seq![right];
    assert(seq![left].drop_last() == none);
    assert(none.push(left) == seq![left]);
    marker_end_shape(seq![left]);
    assert(settled(seq![left]) == seq![left]);
    assert(read_on(none, seq![left]) == seq![left]) by {
        assert(read_on(none, seq![left].drop_last()) == none);
    }
    reading_in_parts(none, seq![left], s);
    reading_behind(left, s);
    assert(all.drop_last() == front);
    let grown = without_markers(front).push(right);
    marker_end_shape(grown);
    assert(grown.last() == right);
    assert(settled(grown) == grown);
}

/// There are two markers.
pub proof fn there_are_two_markers(s: Seq<char>)
    ensures
        has_marker(s) <==> has_part(s, "<<<TRANSCRIPT>>>"@) || has_part(s, "<<<END>>>"@),
{
}

} // verus!

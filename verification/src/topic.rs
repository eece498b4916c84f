//! Topic-only logic: the relevance filter and the device-identifier
//! extractor.
//!
//! An uplink topic has the shape `application/{app}/device/{dev_eui}/event/up`:
//! the uplink-event marker `/event/up` must occur somewhere in the topic, and
//! the device identifier is the fourth `/`-separated segment.

use vstd::prelude::*;

verus! {

/// The uplink-event marker, `/event/up`.
pub open spec fn uplink_marker() -> Seq<char> {
    seq!['/', 'e', 'v', 'e', 'n', 't', '/', 'u', 'p']
}

/// Whether the uplink-event marker occurs somewhere in the topic.
pub open spec fn topic_is_uplink(t: Seq<char>) -> bool {
    exists|i: int| 0 <= i && i + 9 <= t.len() && #[trigger] t.subrange(i, i + 9) == uplink_marker()
}

/// How many `/` characters the topic holds; a topic with `s` slashes has
/// `s + 1` segments.
pub open spec fn slash_count(t: Seq<char>) -> nat
    decreases t.len(),
{
    if t.len() == 0 {
        0
    } else {
        slash_count(t.drop_last()) + if t.last() == '/' {
            1nat
        } else {
            0nat
        }
    }
}

/// The characters `[a, b)` are exactly segment number `k` (0-based) of `t`
/// when `t` is split on `/`.
pub open spec fn is_segment_span(t: Seq<char>, k: nat, a: int, b: int) -> bool {
    &&& 0 <= a <= b <= t.len()
    &&& slash_count(t.subrange(0, a)) == k
    &&& (a == 0 || t[a - 1] == '/')
    &&& (forall|j: int| a <= j < b ==> t[j] != '/')
    &&& (b == t.len() || t[b] == '/')
}

proof fn lemma_slash_count_step(t: Seq<char>, i: int)
    requires
        0 <= i < t.len(),
    ensures
        slash_count(t.subrange(0, i + 1)) == slash_count(t.subrange(0, i)) + if t[i] == '/' {
            1nat
        } else {
            0nat
        },
{
    let p = t.subrange(0, i + 1);
    assert(p.drop_last() =~= t.subrange(0, i));
    assert(p.last() == t[i]);
}

proof fn lemma_slash_count_prefix_le(t: Seq<char>, i: int)
    requires
        0 <= i <= t.len(),
    ensures
        slash_count(t.subrange(0, i)) <= slash_count(t),
    decreases t.len() - i,
{
    if i == t.len() {
        assert(t.subrange(0, i) =~= t);
    } else {
        lemma_slash_count_step(t, i);
        lemma_slash_count_prefix_le(t, i + 1);
    }
}

proof fn lemma_slash_count_append(s1: Seq<char>, s2: Seq<char>)
    ensures
        slash_count(s1 + s2) == slash_count(s1) + slash_count(s2),
    decreases s2.len(),
{
    if s2.len() == 0 {
        assert(s1 + s2 =~= s1);
    } else {
        assert((s1 + s2).drop_last() =~= s1 + s2.drop_last());
        assert((s1 + s2).last() == s2.last());
        lemma_slash_count_append(s1, s2.drop_last());
    }
}

/// A slash inside a stretch makes its slash count positive.
proof fn lemma_slash_inside(t: Seq<char>, a: int, b: int, j: int)
    requires
        0 <= a <= j < b <= t.len(),
        t[j] == '/',
    ensures
        slash_count(t.subrange(a, b)) > 0,
    decreases b - j,
{
    let s = t.subrange(a, b);
    if j == b - 1 {
        assert(s.last() == t[j]);
    } else {
        assert(s.drop_last() =~= t.subrange(a, b - 1));
        lemma_slash_inside(t, a, b - 1, j);
    }
}

/// Segment spans are unique: for one topic and one segment number there is
/// at most one span, so the segment a span describes is fully determined.
pub proof fn lemma_segment_span_unique(t: Seq<char>, k: nat, a1: int, b1: int, a2: int, b2: int)
    requires
        is_segment_span(t, k, a1, b1),
        is_segment_span(t, k, a2, b2),
    ensures
        a1 == a2,
        b1 == b2,
{
    if a1 < a2 {
        assert(t.subrange(0, a2) =~= t.subrange(0, a1) + t.subrange(a1, a2));
        lemma_slash_count_append(t.subrange(0, a1), t.subrange(a1, a2));
        lemma_slash_inside(t, a1, a2, a2 - 1);
    }
    if a2 < a1 {
        assert(t.subrange(0, a1) =~= t.subrange(0, a2) + t.subrange(a2, a1));
        lemma_slash_count_append(t.subrange(0, a2), t.subrange(a2, a1));
        lemma_slash_inside(t, a2, a1, a1 - 1);
    }
    assert(a1 == a2);
    assert(b1 == b2) by {
        if b1 < b2 {
            assert(t[b1] == '/');
        }
        if b2 < b1 {
            assert(t[b2] == '/');
        }
    }
}

/// Whether the marker stands at position `i` of the topic.
fn marker_at(topic: &str, i: usize) -> (r: bool)
    requires
        i + 9 <= topic@.len(),
        topic@.len() <= usize::MAX,
    ensures
        r == (topic@.subrange(i as int, i as int + 9) == uplink_marker()),
{
    let r = topic.get_char(i) == '/' && topic.get_char(i + 1) == 'e' && topic.get_char(i + 2)
        == 'v' && topic.get_char(i + 3) == 'e' && topic.get_char(i + 4) == 'n' && topic.get_char(
        i + 5,
    ) == 't' && topic.get_char(i + 6) == '/' && topic.get_char(i + 7) == 'u' && topic.get_char(
        i + 8,
    ) == 'p';
    proof {
        let s = topic@.subrange(i as int, i as int + 9);
        if r {
            assert(s =~= uplink_marker());
        } else {
            if s == uplink_marker() {
                assert(topic@[i as int] == s[0]);
                assert(topic@[i as int + 1] == s[1]);
                assert(topic@[i as int + 2] == s[2]);
                assert(topic@[i as int + 3] == s[3]);
                assert(topic@[i as int + 4] == s[4]);
                assert(topic@[i as int + 5] == s[5]);
                assert(topic@[i as int + 6] == s[6]);
                assert(topic@[i as int + 7] == s[7]);
                assert(topic@[i as int + 8] == s[8]);
            }
        }
    }
    r
}

/// The relevance filter: does the topic denote an uplink event?
pub fn topic_has_uplink_marker(topic: &str) -> (r: bool)
    ensures
        r == topic_is_uplink(topic@),
{
    let n = topic.unicode_len();
    if n < 9 {
        return false;
    }
    let mut i: usize = 0;
    while i <= n - 9
        invariant
            n == topic@.len(),
            9 <= n,
            i <= n,
            forall|j: int| 0 <= j < i ==> #[trigger] topic@.subrange(j, j + 9) != uplink_marker(),
        decreases n - i,
    {
        if marker_at(topic, i) {
            return true;
        }
        i = i + 1;
    }
    false
}

/// Position just after the `k`-th `/` of the topic, or `None` when the topic
/// has fewer than `k` slashes.
fn skip_slashes(topic: &str, k: usize) -> (r: Option<usize>)
    ensures
        r is Some <==> k <= slash_count(topic@),
        r matches Some(a) ==> a <= topic@.len() && slash_count(topic@.subrange(0, a as int)) == k
            && (a == 0 || topic@[a as int - 1] == '/'),
{
    let n = topic.unicode_len();
    if k == 0 {
        proof {
            assert(topic@.subrange(0, 0) =~= Seq::<char>::empty());
        }
        return Some(0);
    }
    let mut i: usize = 0;
    let mut seen: usize = 0;
    while i < n
        invariant
            n == topic@.len(),
            i <= n,
            seen <= i,
            seen < k,
            slash_count(topic@.subrange(0, i as int)) == seen,
        decreases n - i,
    {
        let c = topic.get_char(i);
        proof {
            lemma_slash_count_step(topic@, i as int);
        }
        if c == '/' {
            seen = seen + 1;
            i = i + 1;
            if seen == k {
                proof {
                    lemma_slash_count_prefix_le(topic@, i as int);
                }
                return Some(i);
            }
        } else {
            i = i + 1;
        }
    }
    proof {
        assert(topic@.subrange(0, n as int) =~= topic@);
    }
    None
}

/// First `/` at or after `start`, or the end of the topic.
fn find_slash_from(topic: &str, start: usize) -> (b: usize)
    requires
        start <= topic@.len(),
    ensures
        start <= b <= topic@.len(),
        forall|j: int| start <= j < b ==> topic@[j] != '/',
        b == topic@.len() || topic@[b as int] == '/',
{
    let n = topic.unicode_len();
    let mut b = start;
    while b < n
        invariant
            n == topic@.len(),
            start <= b <= n,
            forall|j: int| start <= j < b ==> topic@[j] != '/',
        decreases n - b,
    {
        if topic.get_char(b) == '/' {
            return b;
        }
        b = b + 1;
    }
    b
}

/// Segment number `k` (0-based) of the topic split on `/`.
///
/// A segment exists for every `k` up to the topic's slash count, so the
/// result is `None` exactly when the topic has fewer than `k + 1` segments.
pub fn nth_segment(topic: &str, k: usize) -> (r: Option<String>)
    ensures
        r is Some <==> k <= slash_count(topic@),
        r matches Some(s) ==> exists|a: int, b: int|
            is_segment_span(topic@, k as nat, a, b) && s@ == topic@.subrange(a, b),
{
    match skip_slashes(topic, k) {
        None => None,
        Some(a) => {
            let b = find_slash_from(topic, a);
            let s = topic.substring_char(a, b).to_owned();
            proof {
                assert(is_segment_span(topic@, k as nat, a as int, b as int));
            }
            Some(s)
        },
    }
}

} // verus!

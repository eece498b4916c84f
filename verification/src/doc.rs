//! The library's own JSON document tree.
//!
//! The untrusted payload is turned into this tree at the trusted boundary;
//! from there on every read of the document is ordinary verified code, and
//! the decode policy can be stated exactly over the tree.

use vstd::prelude::*;

verus! {

/// A JSON number: the document's decimal text together with its integer
/// readings, present exactly when the document holds an integer that fits.
pub struct JsonNumber {
    /// The number's decimal text, e.g. `"10.5"` or `"-50"`.
    pub text: String,
    /// The reading as an unsigned integer, when the document holds one.
    pub as_u64: Option<u64>,
    /// The reading as a signed integer, when the document holds an integer
    /// in signed range.
    pub as_i64: Option<i64>,
}

/// One JSON value. An object keeps its key/value pairs as a list; lookup
/// takes the first occurrence of a key.
pub enum Json {
    Null,
    Bool(bool),
    Number(JsonNumber),
    Text(String),
    Array(Vec<Json>),
    Object(Vec<(String, Json)>),
}

/// First value under `key`, scanning the members in order.
pub open spec fn doc_lookup(members: Seq<(String, Json)>, key: Seq<char>) -> Option<Json>
    decreases members.len(),
{
    if members.len() == 0 {
        None
    } else if members[0].0@ == key {
        Some(members[0].1)
    } else {
        doc_lookup(members.drop_first(), key)
    }
}

/// The member under `key`: `None` unless the value is an object holding it.
pub open spec fn doc_member_raw(d: Json, key: Seq<char>) -> Option<Json> {
    match d {
        Json::Object(members) => doc_lookup(members@, key),
        _ => None,
    }
}

/// The member under `key`, with an explicit JSON `null` treated as absent.
pub open spec fn doc_member(d: Json, key: Seq<char>) -> Option<Json> {
    match doc_member_raw(d, key) {
        Some(Json::Null) => None,
        other => other,
    }
}

/// Relies on str's PartialEq: equality of the two character sequences.
#[verifier::external_body]
pub(crate) fn str_eq(a: &str, b: &str) -> (r: bool)
    ensures
        r == (a@ == b@),
{
    a == b
}

/// The member under `key`, borrowed; an explicit `null` stays visible.
#[verifier::loop_isolation(false)]
pub fn member_raw<'a>(d: &'a Json, key: &str) -> (r: Option<&'a Json>)
    ensures
        match doc_member_raw(*d, key@) {
            Some(j) => (r matches Some(p) && *p == j),
            None => r is None,
        },
{
    match d {
        Json::Object(members) => {
            let n = members.len();
            proof {
                assert(members@.subrange(0, n as int) =~= members@);
            }
            let mut i: usize = 0;
            while i < n
                invariant
                    n == members@.len(),
                    i <= n,
                    doc_lookup(members@, key@) == doc_lookup(
                        members@.subrange(i as int, n as int),
                        key@,
                    ),
                decreases n - i,
            {
                proof {
                    assert(members@.subrange(i as int, n as int)[0] == members@[i as int]);
                    assert(members@.subrange(i as int, n as int).drop_first() =~= members@.subrange(
                        i as int + 1,
                        n as int,
                    ));
                }
                let pair = &members[i];
                if str_eq(pair.0.as_str(), key) {
                    proof {
                        assert(doc_lookup(members@.subrange(i as int, n as int), key@) == Some(
                            members@[i as int].1,
                        ));
                    }
                    return Some(&pair.1);
                }
                i = i + 1;
            }
            proof {
                assert(members@.subrange(n as int, n as int) =~= Seq::<(String, Json)>::empty());
            }
            None
        },
        _ => None,
    }
}

/// The member under `key`, borrowed, with an explicit `null` as absent.
pub fn member<'a>(d: &'a Json, key: &str) -> (r: Option<&'a Json>)
    ensures
        match doc_member(*d, key@) {
            Some(j) => (r matches Some(p) && *p == j),
            None => r is None,
        },
{
    match member_raw(d, key) {
        None => None,
        Some(p) => match p {
            Json::Null => None,
            _ => Some(p),
        },
    }
}

/// The member under `key` by value, consuming the document; an explicit
/// `null` counts as absent.
#[verifier::loop_isolation(false)]
pub fn take_member(d: Json, key: &str) -> (r: Option<Json>)
    ensures
        r == doc_member(d, key@),
{
    let ghost d0 = d;
    match d {
        Json::Object(mut members) => {
            let ghost orig = members@;
            proof {
                assert(doc_member_raw(d0, key@) == doc_lookup(orig, key@));
            }
            while members.len() > 0
                invariant
                    doc_member_raw(d0, key@) == doc_lookup(members@, key@),
                decreases members@.len(),
            {
                let ghost ms0 = members@;
                let pair = members.remove(0);
                proof {
                    assert(pair == ms0[0]);
                    assert(members@ =~= ms0.drop_first());
                }
                if str_eq(pair.0.as_str(), key) {
                    proof {
                        assert(doc_lookup(ms0, key@) == Some(ms0[0].1));
                    }
                    match pair.1 {
                        Json::Null => {
                            return None;
                        },
                        found => {
                            return Some(found);
                        },
                    }
                }
            }
            None
        },
        _ => None,
    }
}

} // verus!

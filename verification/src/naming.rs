//! Session naming.
//!
//! The session identifier is the fixed prefix followed by the leading label
//! of every host (the portion before the first `.`), dash-joined. An empty
//! host list leaves the prefix unchanged.

use vstd::prelude::*;

verus! {

/// The index of the first `.` in `h`, or `h.len()` if there is none.
pub open spec fn first_dot(h: Seq<char>) -> int
    decreases h.len(),
{
    if h.len() == 0 {
        0
    } else if h[0] == '.' {
        0
    } else {
        1 + first_dot(h.drop_first())
    }
}

/// The leading label of a host name: everything before the first `.`,
/// or the whole name if it has no `.`.
pub open spec fn label_of(h: Seq<char>) -> Seq<char> {
    h.subrange(0, first_dot(h))
}

/// The dash-joined leading labels of `hosts`, each preceded by a `-`.
pub open spec fn name_tail(hosts: Seq<Seq<char>>) -> Seq<char>
    decreases hosts.len(),
{
    if hosts.len() == 0 {
        Seq::empty()
    } else {
        name_tail(hosts.drop_last()) + seq!['-'] + label_of(hosts.last())
    }
}

/// The session name for `prefix` and `hosts`.
pub open spec fn session_name_spec(prefix: Seq<char>, hosts: Seq<Seq<char>>) -> Seq<char> {
    prefix + name_tail(hosts)
}

/// `first_dot` is the unique index with no `.` before it that either sits on
/// a `.` or ends the sequence.
pub proof fn lemma_first_dot_at(h: Seq<char>, i: int)
    requires
        0 <= i <= h.len(),
        forall|k: int| 0 <= k < i ==> h[k] != '.',
        i < h.len() ==> h[i] == '.',
    ensures
        first_dot(h) == i,
    decreases h.len(),
{
    if h.len() == 0 {
    } else if h[0] == '.' {
        assert(i == 0);
    } else {
        assert(i != 0);
        let t = h.drop_first();
        assert(forall|k: int| 0 <= k < i - 1 ==> t[k] == h[k + 1] && t[k] != '.');
        assert(i - 1 < t.len() ==> t[i - 1] == h[i]);
        lemma_first_dot_at(t, i - 1);
    }
}

/// Appending one host to the list appends `-` and its leading label to the
/// name tail.
pub proof fn lemma_name_tail_push(hosts: Seq<Seq<char>>, h: Seq<char>)
    ensures
        name_tail(hosts.push(h)) == name_tail(hosts) + seq!['-'] + label_of(h),
{
    assert(hosts.push(h).drop_last() =~= hosts);
    assert(hosts.push(h).last() == h);
}

/// For an empty host list the session name is the prefix unchanged.
pub proof fn lemma_session_name_empty(prefix: Seq<char>)
    ensures
        session_name_spec(prefix, Seq::empty()) == prefix,
{
    assert(session_name_spec(prefix, Seq::empty()) =~= prefix);
}

/// The session name is a pure function of its inputs: any two names derived
/// from the same prefix and hosts agree.
pub proof fn lemma_session_name_deterministic(
    prefix: Seq<char>,
    hosts: Seq<Seq<char>>,
    a: Seq<char>,
    b: Seq<char>,
)
    requires
        a == session_name_spec(prefix, hosts),
        b == session_name_spec(prefix, hosts),
    ensures
        a == b,
{
}

/// Extracts the leading label of a host name.
pub fn leading_label(host: &str) -> (r: &str)
    ensures
        r@ == label_of(host@),
{
    let len: usize = host.unicode_len();
    let mut i: usize = 0;
    while i < len && host.get_char(i) != '.'
        invariant
            i <= len,
            len == host@.len(),
            forall|k: int| 0 <= k < i ==> host@[k] != '.',
        decreases len - i,
    {
        i += 1;
    }
    proof {
        lemma_first_dot_at(host@, i as int);
    }
    host.substring_char(0, i)
}

} // verus!

use vstd::prelude::*;

verus! {

/// Whether a sequence occurs in another at position `i`.
pub open spec fn occurs_at(hay: Seq<char>, needle: Seq<char>, i: int) -> bool {
    0 <= i && i + needle.len() <= hay.len() && hay.subrange(i, i + needle.len()) == needle
}

/// Whether a sequence occurs anywhere in another.
pub open spec fn contains_seq(hay: Seq<char>, needle: Seq<char>) -> bool {
    exists|i: int| occurs_at(hay, needle, i)
}

/// The acknowledgment the exchange sends for a successful authentication.
pub open spec fn auth_ack_marker() -> Seq<char> {
    "{\"result\":null,\"id\":0}"@
}

/// Whether an inbound text frame acknowledges the authentication: it carries
/// the null-result answer to the request with id 0.  Only after this may the
/// session count as active.
pub fn is_auth_ack(message: &str) -> (r: bool)
    ensures
        r == contains_seq(message@, auth_ack_marker()),
{
    let marker = "{\"result\":null,\"id\":0}";
    proof {
        reveal_strlit("{\"result\":null,\"id\":0}");
    }
    let n = message.unicode_len();
    let m = marker.unicode_len();
    proof {
        assert(m >= 1);
    }
    if n < m {
        proof {
            assert forall|i: int| !occurs_at(message@, auth_ack_marker(), i) by {
                assert(auth_ack_marker().len() == m);
            }
        }
        return false;
    }
    let mut i: usize = 0;
    while i <= n - m
        invariant
            n == message@.len(),
            m == auth_ack_marker().len(),
            marker@ == auth_ack_marker(),
            m <= n,
            1 <= m,
            i <= n - m + 1,
            forall|k: int| 0 <= k < i ==> !occurs_at(message@, auth_ack_marker(), k),
        decreases n - i,
    {
        let mut j: usize = 0;
        let mut matched = true;
        while j < m
            invariant
                n == message@.len(),
                m == auth_ack_marker().len(),
                marker@ == auth_ack_marker(),
                i + m <= n,
                j <= m,
                matched ==> forall|k: int|
                    0 <= k < j ==> message@[i + k] == auth_ack_marker()[k],
                !matched ==> !occurs_at(message@, auth_ack_marker(), i as int),
            decreases m - j,
        {
            if message.get_char(i + j) != marker.get_char(j) {
                proof {
                    if occurs_at(message@, auth_ack_marker(), i as int) {
                        assert(message@.subrange(i as int, i + m as int)[j as int]
                            == auth_ack_marker()[j as int]);
                    }
                }
                matched = false;
            }
            j = j + 1;
        }
        if matched {
            proof {
                assert(message@.subrange(i as int, i + m as int) =~= auth_ack_marker());
                assert(occurs_at(message@, auth_ack_marker(), i as int));
            }
            return true;
        }
        i = i + 1;
    }
    proof {
        assert forall|k: int| !occurs_at(message@, auth_ack_marker(), k) by {
            if 0 <= k <= n - m {
                assert(!occurs_at(message@, auth_ack_marker(), k));
            }
        }
    }
    false
}

} // verus!

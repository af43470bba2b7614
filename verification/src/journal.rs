//! What a recovery reads of the journal: each session's events, or why the session could
//! not be read, taken oldest session first.

use vstd::prelude::*;

verus! {

/// One session of the journal as read: its identifier, and its events in order or why
/// they could not be read.
#[derive(Debug)]
pub struct SessionRead<E> {
    pub session: u64,
    pub events: Result<Vec<E>, String>,
}

/// `x` placed after every session of `sorted` no newer than it.
pub open spec fn insert_by_session<E>(sorted: Seq<SessionRead<E>>, x: SessionRead<E>) -> Seq<SessionRead<E>>
    decreases sorted.len(),
{
    if sorted.len() == 0 {
        seq![x]
    } else if sorted[0].session > x.session {
        seq![x] + sorted
    } else {
        seq![sorted[0]] + insert_by_session(sorted.drop_first(), x)
    }
}

/// The sessions oldest first; sessions with one identifier keep the order they were given.
pub open spec fn oldest_first<E>(sessions: Seq<SessionRead<E>>) -> Seq<SessionRead<E>>
    decreases sessions.len(),
{
    if sessions.len() == 0 {
        Seq::empty()
    } else {
        insert_by_session(oldest_first(sessions.drop_last()), sessions.last())
    }
}

/// Whether sessions are in order, oldest first.
pub open spec fn in_session_order<E>(s: Seq<SessionRead<E>>) -> bool {
    forall|a: int, b: int| 0 <= a < b < s.len() ==> s[a].session <= s[b].session
}

/// Whether `i` is the first session of `s` that could not be read.
pub open spec fn first_unreadable<E>(s: Seq<SessionRead<E>>, i: int) -> bool {
    &&& 0 <= i < s.len()
    &&& s[i].events is Err
    &&& forall|k: int| 0 <= k < i ==> s[k].events is Ok
}

/// The events of readable sessions, in order; an unreadable session contributes none.
pub open spec fn events_of<E>(s: Seq<SessionRead<E>>) -> Seq<E>
    decreases s.len(),
{
    if s.len() == 0 {
        Seq::empty()
    } else {
        events_of(s.drop_last()) + match s.last().events {
            Ok(events) => events@,
            Err(_) => Seq::empty(),
        }
    }
}

proof fn insert_is_insert_at<E>(sorted: Seq<SessionRead<E>>, x: SessionRead<E>, p: int)
    requires
        0 <= p <= sorted.len(),
        forall|k: int| 0 <= k < p ==> sorted[k].session <= x.session,
        p < sorted.len() ==> sorted[p].session > x.session,
    ensures
        insert_by_session(sorted, x) == sorted.insert(p, x),
    decreases sorted.len(),
{
    if sorted.len() == 0 {
        assert(sorted.insert(p, x) =~= seq![x]);
    } else if p == 0 {
        assert(sorted.insert(0, x) =~= seq![x] + sorted);
    } else {
        insert_is_insert_at(sorted.drop_first(), x, p - 1);
        assert(sorted.insert(p, x) =~= seq![sorted[0]] + sorted.drop_first().insert(p - 1, x));
    }
}

/// The sessions oldest first: each placed after every session no newer than it, so
/// sessions with one identifier keep the order they were given.
pub fn sessions_oldest_first<E>(sessions: Vec<SessionRead<E>>) -> (sorted: Vec<SessionRead<E>>)
    ensures
        sorted@ == oldest_first(sessions@),
{
    let ghost given = sessions@;
    let n = sessions.len();
    let mut rest = sessions;
    let mut sorted: Vec<SessionRead<E>> = Vec::new();
    let mut i: usize = 0;
    while rest.len() > 0
        invariant
            i <= given.len(),
            rest@ == given.skip(i as int),
            rest@.len() == given.len() - i,
            given.len() == n,
            sorted@ == oldest_first(given.take(i as int)),
        decreases rest@.len(),
    {
        let x = rest.remove(0);
        proof {
            assert(x == given[i as int]);
            assert(given.take(i + 1).drop_last() =~= given.take(i as int));
            assert(rest@ =~= given.skip(i + 1));
        }
        let mut p: usize = 0;
        while p < sorted.len() && sorted[p].session <= x.session
            invariant
                p <= sorted@.len(),
                forall|k: int| 0 <= k < p ==> sorted@[k].session <= x.session,
            decreases sorted@.len() - p,
        {
            p = p + 1;
        }
        proof {
            insert_is_insert_at(sorted@, x, p as int);
        }
        sorted.insert(p, x);
        i = i + 1;
    }
    proof {
        assert(given.take(i as int) =~= given);
    }
    sorted
}

proof fn insert_keeps_order<E>(sorted: Seq<SessionRead<E>>, x: SessionRead<E>)
    requires
        in_session_order(sorted),
    ensures
        in_session_order(insert_by_session(sorted, x)),
        insert_by_session(sorted, x).len() == sorted.len() + 1,
        forall|k: int| 0 <= k < insert_by_session(sorted, x).len() ==>
            #[trigger] insert_by_session(sorted, x)[k] == x || sorted.contains(insert_by_session(sorted, x)[k]),
    decreases sorted.len(),
{
    if sorted.len() > 0 && sorted[0].session <= x.session {
        let rest = sorted.drop_first();
        insert_keeps_order(rest, x);
        let ins = insert_by_session(rest, x);
        let all = seq![sorted[0]] + ins;
        assert forall|k: int| 0 <= k < ins.len() implies sorted[0].session <= #[trigger] ins[k].session by {
            if ins[k] != x {
                let j = choose|j: int| 0 <= j < rest.len() && rest[j] == ins[k];
                assert(rest[j] == sorted[j + 1]);
            }
        }
        assert forall|k: int| 0 <= k < all.len() implies #[trigger] all[k] == x || sorted.contains(all[k]) by {
            if k > 0 && all[k] != x {
                let j = choose|j: int| 0 <= j < rest.len() && rest[j] == all[k];
                assert(sorted[j + 1] == all[k]);
            } else if k == 0 {
                assert(sorted[0] == all[0]);
            }
        }
    } else if sorted.len() > 0 {
        let all = seq![x] + sorted;
        assert forall|k: int| 0 <= k < all.len() implies #[trigger] all[k] == x || sorted.contains(all[k]) by {
            if k > 0 {
                assert(sorted[k - 1] == all[k]);
            }
        }
    }
}

/// A recovery reads the journal oldest session first.
pub proof fn sessions_are_read_oldest_first<E>(sessions: Seq<SessionRead<E>>)
    ensures
        in_session_order(oldest_first(sessions)),
        oldest_first(sessions).len() == sessions.len(),
    decreases sessions.len(),
{
    if sessions.len() > 0 {
        sessions_are_read_oldest_first(sessions.drop_last());
        insert_keeps_order(oldest_first(sessions.drop_last()), sessions.last());
    }
}

} // verus!

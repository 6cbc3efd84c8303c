//! Properties of the session transition table, proved over [`transition`].

use vstd::prelude::*;
use crate::status::{Status, benign_code};
use crate::session::{
    Connection, Event, GrpcConnection, Log, Outcome, RequestStatus, ServerDetails, fits, transition,
};

verus! {

/// The connection token that a stage holds, if any.
pub open spec fn token_of<C, S>(s: GrpcConnection<C, S>) -> Option<Connection> {
    match s {
        GrpcConnection::NotConnected(_, _) => None,
        GrpcConnection::Connected(_, tok) => tok,
        GrpcConnection::FetchingDetails(_, t) => Some(t),
        GrpcConnection::Registered(_, t) => Some(t),
        GrpcConnection::Streaming(_, _, t) => Some(t),
        GrpcConnection::Error(_, _, tok) => tok,
    }
}

/// The moves that the transition table allows from one stage to the next.
pub open spec fn allowed_move<C, S>(from: GrpcConnection<C, S>, to: GrpcConnection<C, S>) -> bool {
    match from {
        GrpcConnection::NotConnected(_, _) => to is NotConnected || (to is Connected && token_of(to) is None),
        GrpcConnection::Connected(_, _) => to is FetchingDetails || to is Error || (to is Connected && token_of(to) is None),
        GrpcConnection::FetchingDetails(_, _) => to is Registered || to is Error,
        GrpcConnection::Registered(_, _) => to is Streaming || to is Error,
        GrpcConnection::Streaming(_, _, _) => to is Streaming || to is Error || to is Registered,
        GrpcConnection::Error(_, _, _) => to is Registered || to is Connected,
    }
}

/// The events published and the stage reached when the outcomes `os` are
/// handed to the session one after the other, starting at stage `s`.
pub open spec fn drive<C, S>(s: GrpcConnection<C, S>, os: Seq<Outcome<C, S>>) -> (Seq<Event>, GrpcConnection<C, S>)
    decreases os.len(),
{
    if os.len() == 0 {
        (seq![], s)
    } else {
        let (e, next) = transition(s, os[0]);
        let (es, last) = drive(next, os.drop_first());
        (seq![e] + es, last)
    }
}

/// The item that stands at position `i` of a stream that yields `logs` and
/// then `last`.
pub open spec fn item_at(logs: Seq<Log>, last: Option<Result<Log, Status>>, i: int) -> Option<Result<Log, Status>> {
    if i < logs.len() {
        Some(Ok(logs[i]))
    } else {
        last
    }
}

/// The outcomes of reading, one by one, the items after the first of a
/// stream that yields `logs` and then `last`.
pub open spec fn pulls<C, S>(logs: Seq<Log>, last: Option<Result<Log, Status>>) -> Seq<Outcome<C, S>> {
    Seq::new(logs.len(), |i: int| Outcome::<C, S>::Pulled(item_at(logs, last, i + 1)))
}

/// The append events for `logs`, in order.
pub open spec fn appends(logs: Seq<Log>) -> Seq<Event> {
    logs.map_values(|l: Log| Event::AppendLog(l))
}

/// Every stage asks for some work, and every outcome of that work leads to a
/// stage that the transition table allows, with the connection token carried
/// over unless the server handed out a new one or refused the old one.
pub proof fn lemma_step_total<C, S>(s: GrpcConnection<C, S>, o: Outcome<C, S>, st: Status)
    ensures
        fits(s, Outcome::<C, S>::Unreachable) || fits(s, Outcome::<C, S>::Failed(st))
            || fits(s, Outcome::<C, S>::Pulled(None)) || fits(s, Outcome::<C, S>::Idle),
        fits(s, o) ==> allowed_move(s, transition(s, o).1),
        fits(s, o) && !(o is Token) && !(o is Reply && o->Reply_0 == RequestStatus::Error)
            ==> token_of(transition(s, o).1) == token_of(s),
{
}

/// A benign status on a stage that still holds its token resumes the session
/// at the registered stage with that same token and client.
pub proof fn lemma_benign_error_resumes<C, S>(st: Status, c: C, t: Connection)
    requires
        benign_code(st.code),
    ensures
        transition(GrpcConnection::<C, S>::Error(st, c, Some(t)), Outcome::Idle)
            == (Event::NoOp, GrpcConnection::<C, S>::Registered(c, t)),
{
}

/// A failed registration of a new client leads to the error stage without a
/// token.
pub proof fn lemma_fresh_registration_failure<C, S>(st: Status, c: C)
    ensures
        transition(GrpcConnection::<C, S>::Connected(c, None), Outcome::Failed(st))
            == (Event::NoOp, GrpcConnection::<C, S>::Error(st, c, None)),
{
}

/// After a benign error resumes the session, a failure to open the stream
/// leads back to the error stage with the same token.
pub proof fn lemma_resumed_stream_failure_keeps_token<C, S>(st: Status, c: C, t: Connection, st2: Status)
    requires
        benign_code(st.code),
    ensures
        drive(GrpcConnection::<C, S>::Error(st, c, Some(t)), seq![Outcome::Idle, Outcome::Failed(st2)]).1
            == GrpcConnection::<C, S>::Error(st2, c, Some(t)),
{
    let os = seq![Outcome::<C, S>::Idle, Outcome::Failed(st2)];
    assert(os.drop_first() =~= seq![Outcome::<C, S>::Failed(st2)]);
    assert(os.drop_first().drop_first() =~= Seq::<Outcome<C, S>>::empty());
    let s0 = GrpcConnection::<C, S>::Error(st, c, Some(t));
    let s1 = GrpcConnection::<C, S>::Registered(c, t);
    let s2 = GrpcConnection::<C, S>::Error(st2, c, Some(t));
    assert(transition(s0, os[0]) == (Event::NoOp, s1));
    assert(transition(s1, os.drop_first()[0]) == (Event::RefreshDetails, s2));
    assert(drive(s2, os.drop_first().drop_first()).1 == s2);
    assert(drive(s1, os.drop_first()).1 == s2);
}

proof fn lemma_stream_from<C, S>(logs: Seq<Log>, last: Option<Result<Log, Status>>, tail: S, c: C, t: Connection, k: int)
    requires
        0 <= k < logs.len(),
    ensures
        drive(
            GrpcConnection::<C, S>::Streaming((Some(Ok(logs[k])), tail), c, t),
            pulls::<C, S>(logs, last).subrange(k, logs.len() as int),
        ) == (appends(logs.subrange(k, logs.len() as int)), GrpcConnection::<C, S>::Streaming((last, tail), c, t)),
    decreases logs.len() - k,
{
    let n = logs.len() as int;
    let os = pulls::<C, S>(logs, last).subrange(k, n);
    let s = GrpcConnection::<C, S>::Streaming((Some(Ok(logs[k])), tail), c, t);
    let next = GrpcConnection::<C, S>::Streaming((item_at(logs, last, k + 1), tail), c, t);
    assert(pulls::<C, S>(logs, last).len() == n);
    assert(os.len() == n - k);
    assert(os[0] == Outcome::<C, S>::Pulled(item_at(logs, last, k + 1)));
    assert(transition(s, os[0]) == (Event::AppendLog(logs[k]), next));
    if k + 1 < n {
        lemma_stream_from(logs, last, tail, c, t, k + 1);
        assert(os.drop_first() =~= pulls::<C, S>(logs, last).subrange(k + 1, n));
        assert(appends(logs.subrange(k, n)) =~= seq![Event::AppendLog(logs[k])] + appends(logs.subrange(k + 1, n)));
        assert(item_at(logs, last, k + 1) == Some(Ok::<Log, Status>(logs[k + 1])));
        assert(drive(s, os).0 == seq![Event::AppendLog(logs[k])] + drive(next, os.drop_first()).0);
    } else {
        assert(os.drop_first() =~= Seq::<Outcome<C, S>>::empty());
        assert(appends(logs.subrange(k, n)) =~= seq![Event::AppendLog(logs[k])]);
        assert(drive(next, os.drop_first()) == (Seq::<Event>::empty(), next));
        assert(seq![Event::AppendLog(logs[k])] + Seq::<Event>::empty() =~= seq![Event::AppendLog(logs[k])]);
    }
}

/// Log records reach the user interface in the order in which the stream
/// yields them: a stream that yields `logs` and then `last` publishes one
/// append event per record, in order, and then holds `last`.
pub proof fn lemma_stream_order<C, S>(logs: Seq<Log>, last: Option<Result<Log, Status>>, tail: S, c: C, t: Connection)
    requires
        logs.len() > 0,
    ensures
        drive(GrpcConnection::<C, S>::Streaming((Some(Ok(logs[0])), tail), c, t), pulls::<C, S>(logs, last))
            == (appends(logs), GrpcConnection::<C, S>::Streaming((last, tail), c, t)),
{
    lemma_stream_from(logs, last, tail, c, t, 0);
    assert(pulls::<C, S>(logs, last).subrange(0, logs.len() as int) =~= pulls::<C, S>(logs, last));
    assert(logs.subrange(0, logs.len() as int) =~= logs);
}

/// While the server stays unreachable, the session stays in its first stage
/// and publishes nothing but no-ops, however many attempts are made.
pub proof fn lemma_unreachable_stays_silent<C, S>(host: String, port: u32, n: nat)
    ensures
        drive(GrpcConnection::<C, S>::NotConnected(host, port), Seq::new(n, |i: int| Outcome::<C, S>::Unreachable))
            == (Seq::new(n, |i: int| Event::NoOp), GrpcConnection::<C, S>::NotConnected(host, port)),
    decreases n,
{
    let s = GrpcConnection::<C, S>::NotConnected(host, port);
    let os = Seq::new(n, |i: int| Outcome::<C, S>::Unreachable);
    if n > 0 {
        lemma_unreachable_stays_silent::<C, S>(host, port, (n - 1) as nat);
        assert(os.drop_first() =~= Seq::new((n - 1) as nat, |i: int| Outcome::<C, S>::Unreachable));
        assert(transition(s, os[0]) == (Event::NoOp, s));
        assert(seq![Event::NoOp] + Seq::new((n - 1) as nat, |i: int| Event::NoOp) =~= Seq::new(n, |i: int| Event::NoOp));
    } else {
        assert(Seq::new(n, |i: int| Event::NoOp) =~= Seq::<Event>::empty());
    }
}

/// Handing over `a` and then `b` is handing over `a + b`.
pub proof fn lemma_drive_concat<C, S>(s: GrpcConnection<C, S>, a: Seq<Outcome<C, S>>, b: Seq<Outcome<C, S>>)
    ensures
        drive(s, a + b) == (drive(s, a).0 + drive(drive(s, a).1, b).0, drive(drive(s, a).1, b).1),
    decreases a.len(),
{
    if a.len() == 0 {
        assert(a + b =~= b);
        assert(drive(s, a).0 + drive(s, b).0 =~= drive(s, b).0);
    } else {
        let next = transition(s, a[0]);
        lemma_drive_concat(next.1, a.drop_first(), b);
        assert((a + b).drop_first() =~= a.drop_first() + b);
        assert((a + b)[0] == a[0]);
        let rest = drive(next.1, a.drop_first());
        assert(seq![next.0] + (rest.0 + drive(rest.1, b).0) =~= (seq![next.0] + rest.0) + drive(rest.1, b).0);
    }
}

/// A stream that yields `logs` and then ends publishes one append event per
/// record, in order, and a refresh request; the session is then registered
/// again with the same client and token, ready to reopen the stream, and no
/// error is published on the way.
pub proof fn lemma_stream_close_reopens<C, S>(logs: Seq<Log>, tail: S, c: C, t: Connection)
    requires
        logs.len() > 0,
    ensures
        drive(
            GrpcConnection::<C, S>::Streaming((Some(Ok(logs[0])), tail), c, t),
            pulls::<C, S>(logs, None).push(Outcome::Idle),
        ) == (appends(logs).push(Event::RefreshDetails), GrpcConnection::<C, S>::Registered(c, t)),
{
    let s = GrpcConnection::<C, S>::Streaming((Some(Ok(logs[0])), tail), c, t);
    let closed = GrpcConnection::<C, S>::Streaming((None, tail), c, t);
    let last = seq![Outcome::<C, S>::Idle];
    lemma_stream_order(logs, None, tail, c, t);
    lemma_drive_concat(s, pulls::<C, S>(logs, None), last);
    assert(pulls::<C, S>(logs, None).push(Outcome::Idle) =~= pulls::<C, S>(logs, None) + last);
    assert(last.drop_first() =~= Seq::<Outcome<C, S>>::empty());
    assert(transition(closed, last[0]) == (Event::RefreshDetails, GrpcConnection::<C, S>::Registered(c, t)));
    assert(drive(GrpcConnection::<C, S>::Registered(c, t), last.drop_first())
        == (Seq::<Event>::empty(), GrpcConnection::<C, S>::Registered(c, t)));
    assert(drive(closed, last).0 =~= seq![Event::RefreshDetails] + Seq::<Event>::empty());
    assert(appends(logs) + seq![Event::RefreshDetails] =~= appends(logs).push(Event::RefreshDetails));
}

/// A fresh registration that succeeds, followed by details and an opened
/// stream, publishes the server details exactly once, before the stream's
/// first record can be appended.
pub proof fn lemma_fresh_session_details_first<C, S>(c: C, t: Connection, d: ServerDetails, first: Option<Result<Log, Status>>, tail: S)
    ensures
        drive(
            GrpcConnection::<C, S>::Connected(c, None),
            seq![Outcome::Token(t), Outcome::Details(d), Outcome::Opened(first, tail)],
        ) == (
            seq![Event::RefreshDetails, Event::UpdateDetails(d), Event::RefreshDetails],
            GrpcConnection::<C, S>::Streaming((first, tail), c, t),
        ),
{
    let os = seq![Outcome::<C, S>::Token(t), Outcome::Details(d), Outcome::Opened(first, tail)];
    let s1 = GrpcConnection::<C, S>::FetchingDetails(c, t);
    let s2 = GrpcConnection::<C, S>::Registered(c, t);
    let s3 = GrpcConnection::<C, S>::Streaming((first, tail), c, t);
    assert(os.drop_first() =~= seq![Outcome::<C, S>::Details(d), Outcome::Opened(first, tail)]);
    assert(os.drop_first().drop_first() =~= seq![Outcome::<C, S>::Opened(first, tail)]);
    assert(os.drop_first().drop_first().drop_first() =~= Seq::<Outcome<C, S>>::empty());
    assert(drive(s3, os.drop_first().drop_first().drop_first()) == (Seq::<Event>::empty(), s3));
    assert(drive(s2, os.drop_first().drop_first()).0 =~= seq![Event::RefreshDetails]);
    assert(drive(s1, os.drop_first()).0 =~= seq![Event::UpdateDetails(d), Event::RefreshDetails]);
    assert(drive(GrpcConnection::<C, S>::Connected(c, None), os).0
        =~= seq![Event::RefreshDetails, Event::UpdateDetails(d), Event::RefreshDetails]);
}

} // verus!

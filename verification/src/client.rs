//! Correlation engine: an explicitly owned context that matches outgoing
//! requests to incoming responses across concurrent callers and routes
//! unmatched incoming messages as events. Registration always precedes
//! transmission: `dispatch` records the waiter and only then hands the caller
//! the wire text to submit, so a response can never arrive before its waiter
//! exists. A waiter whose response never arrives stays pending forever; the
//! caller that owns the context decides when to abandon it.

use vstd::prelude::*;
use vstd::string::StringExecFns;

use crate::json::{client_id_of, extra_of, parse_client_id, parse_extra};
use crate::rustifier::{dec_text, push_dec};

verus! {

/// The state of one correlation-table entry: registered and waiting, or
/// holding the raw response text until the dispatching caller collects it.
pub enum Waiter {
    Pending,
    Fulfilled(String),
}

/// Ghost model of a waiter.
pub enum WaiterV {
    Pending,
    Fulfilled(Seq<char>),
}

impl View for Waiter {
    type V = WaiterV;

    open spec fn view(&self) -> WaiterV {
        if self is Pending {
            WaiterV::Pending
        } else {
            WaiterV::Fulfilled(self->Fulfilled_0@)
        }
    }
}

/// Ghost model of the correlation engine's state.
pub struct ContextV {
    pub next_extra: u64,
    pub next_client: i32,
    pub entries: Seq<(u64, WaiterV)>,
}

/// The correlation engine's owned state: the monotone correlation-id counter,
/// the client-id counter, and the correlation table.
pub struct CorrelationContext {
    next_extra: u64,
    next_client: i32,
    entries: Vec<(u64, Waiter)>,
}

impl View for CorrelationContext {
    type V = ContextV;

    closed spec fn view(&self) -> ContextV {
        ContextV {
            next_extra: self.next_extra,
            next_client: self.next_client,
            entries: self.entries@.map_values(|e: (u64, Waiter)| (e.0, e.1@)),
        }
    }
}

/// Well-formedness: table ids are pairwise distinct and all below the
/// counter, so a fresh id can never collide with a pending one.
pub open spec fn wf(c: ContextV) -> bool {
    &&& forall|i: int, j: int|
        0 <= i < j < c.entries.len() ==> (#[trigger] c.entries[i]).0 != (
        #[trigger] c.entries[j]).0
    &&& forall|i: int| 0 <= i < c.entries.len() ==> (#[trigger] c.entries[i]).0 < c.next_extra
}

/// Entry `i` is a pending waiter registered under `id`.
pub open spec fn pending_at(entries: Seq<(u64, WaiterV)>, i: int, id: u64) -> bool {
    0 <= i < entries.len() && entries[i].0 == id && entries[i].1 is Pending
}

/// Entry `i` holds a collected response registered under `id`.
pub open spec fn fulfilled_at(entries: Seq<(u64, WaiterV)>, i: int, id: u64) -> bool {
    0 <= i < entries.len() && entries[i].0 == id && entries[i].1 is Fulfilled
}

/// The payload entries of the wire text for the first `n` fields.
pub open spec fn fields_json_text(fields: Seq<(Seq<char>, Seq<char>)>, n: int) -> Seq<char>
    decreases n,
{
    if n <= 0 {
        Seq::empty()
    } else {
        fields_json_text(fields, n - 1) + ",\""@ + fields[n - 1].0 + "\":"@ + fields[n - 1].1
    }
}

/// The full wire text of a request: the reserved discriminator entry with the
/// operation's schema name, one entry per field in order, and the reserved
/// correlation entry last.
pub open spec fn request_text(
    name: Seq<char>,
    fields: Seq<(Seq<char>, Seq<char>)>,
    extra: u64,
) -> Seq<char> {
    "{\"@type\":\""@ + name + "\""@ + fields_json_text(fields, fields.len() as int)
        + ",\"@extra\":"@ + dec_text(extra as nat) + "}"@
}

/// What routing one polled text does to the context and reports back.
pub open spec fn route_spec(pre: ContextV, post: ContextV, text: Seq<char>, r: RouteOutcome) -> bool {
    &&& post.next_extra == pre.next_extra
    &&& post.next_client == pre.next_client
    &&& match extra_of(text) {
        Some(id) => {
            if exists|i: int| pending_at(pre.entries, i, id) {
                &&& r == RouteOutcome::Delivered(id)
                &&& exists|i: int|
                    #[trigger] pending_at(pre.entries, i, id) && post.entries == pre.entries.update(
                        i,
                        (id, WaiterV::Fulfilled(text)),
                    )
            } else {
                &&& r == RouteOutcome::Orphan(id)
                &&& post.entries == pre.entries
            }
        },
        None => {
            &&& post.entries == pre.entries
            &&& match client_id_of(text) {
                Some(c) => r matches RouteOutcome::Event(cc, t) && cc == c && t@ == text,
                None => r matches RouteOutcome::Discarded(t) && t@ == text,
            }
        },
    }
}

/// What the driver learns from routing one polled text.
pub enum RouteOutcome {
    /// A response was matched to its pending waiter and stored for collection.
    Delivered(u64),
    /// A response carried a correlation id nobody is waiting on; it was
    /// dropped, which is not an error.
    Orphan(u64),
    /// An uncorrelated message tagged with a client identifier: an event for
    /// that client, handed back raw for the caller to decode.
    Event(i64, String),
    /// A message with neither reserved key; dropped, handed back for logging.
    Discarded(String),
}

impl CorrelationContext {
    /// A fresh context: no pending requests, counters at their origins.
    pub fn new() -> (c: CorrelationContext)
        ensures
            c@.next_extra == 0,
            c@.next_client == 1,
            c@.entries == Seq::<(u64, WaiterV)>::empty(),
            wf(c@),
    {
        let c = CorrelationContext { next_extra: 0, next_client: 1, entries: Vec::new() };
        proof {
            assert(c@.entries =~= Seq::<(u64, WaiterV)>::empty());
        }
        c
    }

    /// Dispatch: draw the next correlation id, register a pending waiter
    /// under it, and build the wire text with the id stamped under the
    /// reserved correlation key. The caller submits the text only after this
    /// returns, so the waiter exists before the engine can answer.
    pub fn dispatch(&mut self, name: &str, fields: &Vec<(String, String)>) -> (r: (u64, String))
        requires
            old(self)@.next_extra < u64::MAX,
            wf(old(self)@),
        ensures
            wf(final(self)@),
            r.0 == old(self)@.next_extra,
            final(self)@.next_extra == old(self)@.next_extra + 1,
            final(self)@.next_client == old(self)@.next_client,
            final(self)@.entries == old(self)@.entries.push((r.0, WaiterV::Pending)),
            r.1@ == request_text(
                name@,
                fields@.map_values(|f: (String, String)| (f.0@, f.1@)),
                r.0,
            ),
    {
        let id = self.next_extra;
        self.next_extra = self.next_extra + 1;
        self.entries.push((id, Waiter::Pending));
        let ghost fv = fields@.map_values(|f: (String, String)| (f.0@, f.1@));
        let mut out: String = "{\"@type\":\"".to_owned();
        out.append(name);
        out.append("\"");
        let ghost base = out@;
        let mut j: usize = 0;
        while j < fields.len()
            invariant
                j <= fields@.len(),
                fv == fields@.map_values(|f: (String, String)| (f.0@, f.1@)),
                fv.len() == fields@.len(),
                out@ == base + fields_json_text(fv, j as int),
            decreases fields@.len() - j,
        {
            proof {
                assert(fv[j as int] == (fields@[j as int].0@, fields@[j as int].1@));
            }
            out.append(",\"");
            out.append(fields[j].0.as_str());
            out.append("\":");
            out.append(fields[j].1.as_str());
            proof {
                assert(out@ =~= base + fields_json_text(fv, j as int + 1));
            }
            j += 1;
        }
        out.append(",\"@extra\":");
        push_dec(&mut out, id);
        out.append("}");
        proof {
            assert(out@ =~= request_text(name@, fv, id));
            assert(self@.entries =~= old(self)@.entries.push((id, WaiterV::Pending)));
        }
        (id, out)
    }

    /// Route one incoming text: fulfill and report the matching pending
    /// waiter; report an orphaned correlation id without touching anything;
    /// hand an event or an unrecognized message back to the caller. Never an
    /// error, never blocking later messages.
    pub fn route(&mut self, text: String) -> (r: RouteOutcome)
        requires
            wf(old(self)@),
        ensures
            wf(final(self)@),
            route_spec(old(self)@, final(self)@, text@, r),
    {
        let ghost t0 = text@;
        let id_opt = parse_extra(text.as_str());
        match id_opt {
            Some(id) => {
                let mut i: usize = 0;
                let n = self.entries.len();
                while i < n
                    invariant
                        i <= n,
                        n == self.entries@.len(),
                        self@ == old(self)@,
                        wf(self@),
                        text@ == t0,
                        extra_of(t0) == Some(id),
                        forall|i2: int| 0 <= i2 < i ==> !pending_at(self@.entries, i2, id),
                    decreases n - i,
                {
                    proof {
                        assert(self@.entries[i as int] == (
                            self.entries@[i as int].0,
                            self.entries@[i as int].1@,
                        ));
                    }
                    let hit = self.entries[i].0 == id && match &self.entries[i].1 {
                        Waiter::Pending => true,
                        Waiter::Fulfilled(_) => false,
                    };
                    if hit {
                        let ghost prev_vec = self.entries@;
                        let ghost pre = self@.entries;
                        let w = Waiter::Fulfilled(text);
                        proof {
                            assert(w is Fulfilled);
                            assert(w->Fulfilled_0@ == t0);
                            assert(w@ == WaiterV::Fulfilled(t0));
                        }
                        let ghost wv = w@;
                        self.entries.set(i, (id, w));
                        proof {
                            let postv = self.entries@;
                            let upd = pre.update(i as int, (id, WaiterV::Fulfilled(t0)));
                            assert(postv[i as int].0 == id);
                            assert(postv[i as int].1@ == wv);
                            assert(postv[i as int].1@ == WaiterV::Fulfilled(t0));
                            assert forall|k: int| 0 <= k < postv.len() implies #[trigger] self@.entries[k]
                                == upd[k] by {
                                assert(self@.entries[k] == (postv[k].0, postv[k].1@));
                                if k != i as int {
                                    assert(postv[k] == prev_vec[k]);
                                    assert(pre[k] == (prev_vec[k].0, prev_vec[k].1@));
                                } else {
                                    assert(postv[k].0 == id);
                                    assert(upd[k] == (id, WaiterV::Fulfilled(t0)));
                                }
                            }
                            assert(self@.entries =~= pre.update(
                                i as int,
                                (id, WaiterV::Fulfilled(t0)),
                            ));
                            assert(pending_at(pre, i as int, id));
                            assert forall|a: int, b: int| 0 <= a < b < self@.entries.len()
                                implies (#[trigger] self@.entries[a]).0 != (
                            #[trigger] self@.entries[b]).0 by {
                                assert(self@.entries[a].0 == pre[a].0);
                                assert(self@.entries[b].0 == pre[b].0);
                            }
                            assert forall|a: int| 0 <= a < self@.entries.len() implies (
                            #[trigger] self@.entries[a]).0 < self@.next_extra by {
                                assert(self@.entries[a].0 == pre[a].0);
                            }
                        }
                        return RouteOutcome::Delivered(id);
                    }
                    i += 1;
                }
                RouteOutcome::Orphan(id)
            },
            None => {
                match parse_client_id(text.as_str()) {
                    Some(c) => RouteOutcome::Event(c, text),
                    None => RouteOutcome::Discarded(text),
                }
            },
        }
    }

    /// The pump step: apply one poll result. If the poll yielded nothing the
    /// pump yields nothing and the caller retries; otherwise the text is
    /// routed.
    pub fn pump(&mut self, polled: Option<String>) -> (r: Option<RouteOutcome>)
        requires
            wf(old(self)@),
        ensures
            wf(final(self)@),
            match polled {
                None => r is None && final(self)@ == old(self)@,
                Some(t) => r matches Some(o) && route_spec(old(self)@, final(self)@, t@, o),
            },
    {
        match polled {
            Some(t) => Some(self.route(t)),
            None => None,
        }
    }

    /// The id the next dispatch will draw: the correlation counter's
    /// position. Callers that cannot rule out counter exhaustion test this
    /// before dispatching.
    pub fn next_correlation_id(&self) -> (r: u64)
        ensures
            r == self@.next_extra,
    {
        self.next_extra
    }

    /// Collect the response delivered for a dispatched id, consuming the
    /// waiter; `None` while the response has not arrived (or the id was never
    /// registered, or was already collected).
    pub fn take_response(&mut self, id: u64) -> (r: Option<String>)
        requires
            wf(old(self)@),
        ensures
            wf(final(self)@),
            final(self)@.next_extra == old(self)@.next_extra,
            final(self)@.next_client == old(self)@.next_client,
            if exists|i: int| fulfilled_at(old(self)@.entries, i, id) {
                exists|i: int|
                    #[trigger] fulfilled_at(old(self)@.entries, i, id)
                        && old(self)@.entries[i].1 == WaiterV::Fulfilled(r.unwrap()@)
                        && final(self)@.entries == old(self)@.entries.remove(i) && r is Some
            } else {
                r is None && final(self)@.entries == old(self)@.entries
            },
    {
        let mut i: usize = 0;
        let n = self.entries.len();
        while i < n
            invariant
                i <= n,
                n == self.entries@.len(),
                self@ == old(self)@,
                wf(self@),
                forall|i2: int| 0 <= i2 < i ==> !fulfilled_at(self@.entries, i2, id),
            decreases n - i,
        {
            proof {
                assert(self@.entries[i as int] == (
                    self.entries@[i as int].0,
                    self.entries@[i as int].1@,
                ));
            }
            let hit = self.entries[i].0 == id && match &self.entries[i].1 {
                Waiter::Pending => false,
                Waiter::Fulfilled(_) => true,
            };
            if hit {
                let ghost pre = self@.entries;
                let entry = self.entries.remove(i);
                proof {
                    assert(fulfilled_at(pre, i as int, id));
                    assert(self@.entries =~= pre.remove(i as int));
                    assert forall|a: int| 0 <= a < self@.entries.len() implies (
                    #[trigger] self@.entries[a]) == if a < i as int {
                        pre[a]
                    } else {
                        pre[a + 1]
                    } by {}
                    assert forall|a: int, b: int| 0 <= a < b < self@.entries.len() implies (
                    #[trigger] self@.entries[a]).0 != (#[trigger] self@.entries[b]).0 by {}
                    assert forall|a: int| 0 <= a < self@.entries.len() implies (
                    #[trigger] self@.entries[a]).0 < self@.next_extra by {}
                }
                match entry.1 {
                    Waiter::Fulfilled(t) => {
                        proof {
                            assert(pre[i as int].1 == WaiterV::Fulfilled(t@));
                        }
                        return Some(t);
                    },
                    Waiter::Pending => {
                        proof {
                            assert(false);
                        }
                        return None;
                    },
                }
            }
            i += 1;
        }
        None
    }
}

/// Create a client, returning its identifier; identifiers are handed out in
/// order from the context's own counter, modelling the engine's sequential
/// allocation. An integration that must use the engine's own identifiers
/// obtains them through its engine boundary instead.
pub fn create_client(ctx: &mut CorrelationContext) -> (id: i32)
    requires
        old(ctx)@.next_client < i32::MAX,
    ensures
        id == old(ctx)@.next_client,
        final(ctx)@.next_client == old(ctx)@.next_client + 1,
        final(ctx)@.next_extra == old(ctx)@.next_extra,
        final(ctx)@.entries == old(ctx)@.entries,
{
    let id = ctx.next_client;
    ctx.next_client = ctx.next_client + 1;
    id
}

/// Correlation uniqueness: two distinct table entries never share an id, so a
/// delivered response reaches exactly one waiter.
pub proof fn lemma_correlation_unique(c: ContextV, i: int, j: int)
    requires
        wf(c),
        0 <= i < c.entries.len(),
        0 <= j < c.entries.len(),
        i != j,
    ensures
        c.entries[i].0 != c.entries[j].0,
{
}

/// Correlation uniqueness: a fresh dispatch's id differs from every id
/// already in the table, pending or fulfilled.
pub proof fn lemma_fresh_id_distinct(c: ContextV, i: int)
    requires
        wf(c),
        0 <= i < c.entries.len(),
    ensures
        c.entries[i].0 != c.next_extra,
{
}

/// Orphan handling: a correlated response with no pending waiter leaves the
/// context exactly as it was and reports the id; it is never an error and
/// never blocks later routing.
pub proof fn lemma_orphan_harmless(pre: ContextV, post: ContextV, text: Seq<char>, r: RouteOutcome)
    requires
        route_spec(pre, post, text, r),
        extra_of(text) is Some,
        forall|i: int| !pending_at(pre.entries, i, extra_of(text).unwrap()),
    ensures
        post.entries == pre.entries,
        post.next_extra == pre.next_extra,
        post.next_client == pre.next_client,
        r == RouteOutcome::Orphan(extra_of(text).unwrap()),
{
}

} // verus!

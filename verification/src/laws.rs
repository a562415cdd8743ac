//! The guarantees the pipeline gives, stated over the specifications of the
//! filter, the store and the dispatcher, and proved once and for all.

use crate::dispatch::{spec_sendable, Dispatcher, GatewayEvent};
use crate::filter::{spec_novel, spec_novel_post};
use crate::id::spec_parse_id;
use crate::post::Post;
use crate::store::SeenStore;
use vstd::prelude::*;

verus! {

/// Every post the novelty filter lets through is one the store decides and
/// does not count as seen.
pub proof fn lemma_novel_posts_unseen(batch: Seq<Post>, store: SeenStore)
    ensures
        forall|k: int|
            0 <= k < spec_novel(batch, store).len() ==> spec_novel_post(
                store,
                #[trigger] spec_novel(batch, store)[k],
            ),
    decreases batch.len(),
{
    if batch.len() > 0 {
        lemma_novel_posts_unseen(batch.drop_last(), store);
        let nv = spec_novel(batch, store);
        let sub = spec_novel(batch.drop_last(), store);
        assert forall|k: int| 0 <= k < nv.len() implies spec_novel_post(store, nv[k]) by {
            if spec_novel_post(store, batch.last()) {
                if k == 0 {
                    assert(nv[k] == batch.last());
                } else {
                    assert(nv[k] == sub[k - 1]);
                }
            } else {
                assert(nv[k] == sub[k]);
            }
        }
    }
}

/// No duplicate delivery: once an identifier's delivery has been accepted,
/// the store counts it as seen; a seen identifier never appears among the
/// novel posts of any later cycle's batch, and the dispatcher can never
/// offer a post bearing it again.
pub proof fn lemma_no_duplicate_delivery(
    d: Dispatcher,
    store: SeenStore,
    batch: Seq<Post>,
    x: Seq<char>,
)
    requires
        d.inv(store),
        d.delivered@.contains(x),
    ensures
        store.spec_seen(x),
        forall|k: int|
            0 <= k < spec_novel(batch, store).len() ==> (#[trigger] spec_novel(
                batch,
                store,
            )[k]).id@ != x,
        forall|j: int|
            d.pos <= j < d.queue.len() && (#[trigger] d.queue[j]).id@ == x ==> !spec_sendable(
                store,
                d.queue[j],
            ),
{
    lemma_novel_posts_unseen(batch, store);
}

/// The numeric value of a post's identifier, where it parses.
pub open spec fn id_value(p: Post) -> int {
    spec_parse_id(p.id@)->Some_0 as int
}

/// Every novel post of a batch whose identifier values all lie at or above
/// `b` has its own value at or above `b` (and a parsing identifier).
pub proof fn lemma_novel_value_bound(batch: Seq<Post>, store: SeenStore, b: int)
    requires
        forall|i: int|
            0 <= i < batch.len() ==> spec_parse_id((#[trigger] batch[i]).id@) is Some && id_value(
                batch[i],
            ) >= b,
    ensures
        forall|k: int|
            0 <= k < spec_novel(batch, store).len() ==> spec_parse_id((#[trigger] spec_novel(
                batch,
                store,
            )[k]).id@) is Some && id_value(spec_novel(batch, store)[k]) >= b,
    decreases batch.len(),
{
    if batch.len() > 0 {
        assert forall|i: int| 0 <= i < batch.drop_last().len() implies spec_parse_id(
            (#[trigger] batch.drop_last()[i]).id@,
        ) is Some && id_value(batch.drop_last()[i]) >= b by {
            assert(batch.drop_last()[i] == batch[i]);
        }
        lemma_novel_value_bound(batch.drop_last(), store, b);
        let nv = spec_novel(batch, store);
        let sub = spec_novel(batch.drop_last(), store);
        assert forall|k: int| 0 <= k < nv.len() implies spec_parse_id(nv[k].id@) is Some
            && id_value(nv[k]) >= b by {
            if spec_novel_post(store, batch.last()) {
                if k == 0 {
                    assert(nv[k] == batch.last());
                } else {
                    assert(nv[k] == sub[k - 1]);
                }
            } else {
                assert(nv[k] == sub[k]);
            }
        }
    }
}

/// Ordering: when a batch is strictly newest-first by identifier value, its
/// novel posts stand strictly oldest-to-newest, which is the order the
/// dispatcher delivers them in.
pub proof fn lemma_dispatch_order(batch: Seq<Post>, store: SeenStore)
    requires
        forall|i: int| 0 <= i < batch.len() ==> spec_parse_id((#[trigger] batch[i]).id@) is Some,
        forall|i: int, j: int|
            0 <= i < j < batch.len() ==> id_value(#[trigger] batch[i]) > id_value(
                #[trigger] batch[j],
            ),
    ensures
        forall|i: int, j: int|
            0 <= i < j < spec_novel(batch, store).len() ==> id_value(
                #[trigger] spec_novel(batch, store)[i],
            ) < id_value(#[trigger] spec_novel(batch, store)[j]),
    decreases batch.len(),
{
    if batch.len() > 0 {
        let pre = batch.drop_last();
        assert forall|i: int| 0 <= i < pre.len() implies spec_parse_id(
            (#[trigger] pre[i]).id@,
        ) is Some by {
            assert(pre[i] == batch[i]);
        }
        assert forall|i: int, j: int| 0 <= i < j < pre.len() implies id_value(#[trigger] pre[i])
            > id_value(#[trigger] pre[j]) by {
            assert(pre[i] == batch[i]);
            assert(pre[j] == batch[j]);
        }
        lemma_dispatch_order(pre, store);
        let floor = id_value(batch.last()) + 1;
        assert forall|i: int| 0 <= i < pre.len() implies spec_parse_id(
            (#[trigger] pre[i]).id@,
        ) is Some && id_value(pre[i]) >= floor by {
            assert(pre[i] == batch[i]);
            assert(id_value(batch[i]) > id_value(batch[batch.len() - 1]));
        }
        lemma_novel_value_bound(pre, store, floor);
        let nv = spec_novel(batch, store);
        let sub = spec_novel(pre, store);
        assert forall|i: int, j: int| 0 <= i < j < nv.len() implies id_value(nv[i]) < id_value(
            nv[j],
        ) by {
            if spec_novel_post(store, batch.last()) {
                assert(nv[j] == sub[j - 1]);
                if i == 0 {
                    assert(nv[i] == batch.last());
                } else {
                    assert(nv[i] == sub[i - 1]);
                }
            } else {
                assert(nv[i] == sub[i]);
                assert(nv[j] == sub[j]);
            }
        }
    }
}

/// Retry bound: a post whose delivery times out exactly twice and is
/// accepted on the third attempt is delivered exactly once — the same post
/// is retried both times, nothing is committed before the acceptance, and
/// the acceptance records the post as seen and moves the dispatcher on.
pub proof fn lemma_retry_bound(
    d0: Dispatcher,
    s0: SeenStore,
    d1: Dispatcher,
    s1: SeenStore,
    d2: Dispatcher,
    s2: SeenStore,
    d3: Dispatcher,
    s3: SeenStore,
)
    requires
        d0.inv(s0),
        d0.pos < d0.queue.len(),
        spec_sendable(s0, d0.queue[d0.pos as int]),
        d0.attempts == 0,
        Dispatcher::spec_step(d0, s0, GatewayEvent::TimedOut, d1, s1, false),
        Dispatcher::spec_step(d1, s1, GatewayEvent::TimedOut, d2, s2, false),
        Dispatcher::spec_step(d2, s2, GatewayEvent::Accepted, d3, s3, true),
    ensures
        d1.pos == d0.pos && d2.pos == d0.pos,
        d1.attempts == 1 && d2.attempts == 2,
        s1 == s0 && s2 == s0,
        !d0.delivered@.contains(d0.queue[d0.pos as int].id@),
        d3.delivered@ == d0.delivered@.insert(d0.queue[d0.pos as int].id@),
        s3.spec_seen(d0.queue[d0.pos as int].id@),
        d3.pos == d0.pos + 1,
{
}

/// Permanent-error short-circuit: a non-timeout transport error on the
/// first attempt abandons the post with no retry at all, and the post
/// remains unseen after the cycle — the store and the delivered set are
/// untouched.
pub proof fn lemma_permanent_error_short_circuit(
    d0: Dispatcher,
    s0: SeenStore,
    d1: Dispatcher,
    s1: SeenStore,
)
    requires
        d0.inv(s0),
        d0.pos < d0.queue.len(),
        spec_sendable(s0, d0.queue[d0.pos as int]),
        d0.attempts == 0,
        Dispatcher::spec_step(d0, s0, GatewayEvent::TransportFailed, d1, s1, false),
    ensures
        d1.pos == d0.pos + 1,
        d1.attempts == 0,
        s1 == s0,
        !s1.spec_seen(d0.queue[d0.pos as int].id@),
        d1.delivered@ == d0.delivered@,
{
}

} // verus!

//! The novelty filter: which fetched posts still need a notification, and in
//! what order they are handed to the dispatcher.
//!
//! Upstream batches arrive newest-first. The filter keeps the posts the store
//! does not count as seen — skipping, for watermark storage, posts whose
//! identifier it cannot order — and reverses them, so that delivery runs
//! strictly oldest-to-newest. The order is a correctness requirement, not
//! cosmetic: a crash mid-batch must leave the seen state at the last
//! chronologically delivered post.

use crate::id::{parse_id, spec_parse_id, IdError};
use crate::post::Post;
use crate::store::SeenStore;
use vstd::prelude::*;

verus! {

/// A fetch attempt that produced no usable batch this cycle.
#[derive(Clone, Copy, PartialEq, Eq, Structural, Debug)]
pub struct FetchError;

/// A post the store decides and does not count as seen: it still needs a
/// notification.
pub open spec fn spec_novel_post(store: SeenStore, p: Post) -> bool {
    store.spec_decides(p.id@) && !store.spec_seen(p.id@)
}

/// The novel posts of a newest-first batch, oldest-first.
pub open spec fn spec_novel(batch: Seq<Post>, store: SeenStore) -> Seq<Post>
    decreases batch.len(),
{
    if batch.len() == 0 {
        Seq::empty()
    } else {
        (if spec_novel_post(store, batch.last()) {
            seq![batch.last()]
        } else {
            Seq::empty()
        }) + spec_novel(batch.drop_last(), store)
    }
}

/// Reduces a newest-first batch to the posts not yet seen, reversed to
/// oldest-first delivery order. The store is the sole deduplication
/// authority: source identity plays no part.
pub fn novel_posts(batch: Vec<Post>, store: &SeenStore) -> (r: Vec<Post>)
    ensures
        r@ == spec_novel(batch@, *store),
{
    let mut rest = batch;
    let mut out: Vec<Post> = Vec::new();
    let ghost whole = rest@;
    while rest.len() > 0
        invariant
            spec_novel(whole, *store) == out@ + spec_novel(rest@, *store),
        decreases rest.len(),
    {
        let ghost before = rest@;
        let p = rest.pop().unwrap();
        let novel = match store.contains(p.id.as_str()) {
            Ok(b) => !b,
            Err(_) => false,
        };
        proof {
            assert(before.drop_last() == rest@);
            assert(before.last() == p);
        }
        if novel {
            out.push(p);
            proof {
                assert(out@ + spec_novel(rest@, *store) =~= spec_novel(whole, *store));
            }
        } else {
            proof {
                assert(out@ + spec_novel(rest@, *store) =~= spec_novel(whole, *store));
            }
        }
    }
    proof {
        assert(out@ + spec_novel(rest@, *store) =~= out@);
    }
    out
}

/// The longest newest-first prefix of `posts` that lies strictly above the
/// watermark `last`; with no watermark, the whole batch. `Err` exactly when
/// an identifier that had to be ordered does not parse: the whole cycle is
/// then abandoned rather than delivering out of order.
pub open spec fn spec_take_new(posts: Seq<Post>, last: Option<u64>) -> Result<Seq<Post>, IdError>
    decreases posts.len(),
{
    match last {
        None => Ok(posts),
        Some(w) => if posts.len() == 0 {
            Ok(Seq::empty())
        } else {
            match spec_parse_id(posts[0].id@) {
                None => Err(IdError),
                Some(n) => if n <= w {
                    Ok(Seq::empty())
                } else {
                    match spec_take_new(posts.skip(1), last) {
                        Ok(rest) => Ok(seq![posts[0]] + rest),
                        Err(e) => Err(e),
                    }
                },
            }
        },
    }
}

/// Cuts a newest-first batch down to the posts above the watermark, stopping
/// at the first post at or below it.
pub fn take_new_posts(posts: Vec<Post>, last: Option<u64>) -> (r: Result<Vec<Post>, IdError>)
    ensures
        r is Ok <==> spec_take_new(posts@, last) is Ok,
        r is Ok ==> r->Ok_0@ == spec_take_new(posts@, last)->Ok_0,
        r is Err ==> r->Err_0 == spec_take_new(posts@, last)->Err_0,
{
    let w = match last {
        None => {
            return Ok(posts);
        },
        Some(w) => w,
    };
    let mut rest = posts;
    let mut out: Vec<Post> = Vec::new();
    let ghost whole = rest@;
    loop
        invariant
            whole == posts@,
            spec_take_new(whole, last) == match spec_take_new(rest@, last) {
                Ok(s) => Ok::<Seq<Post>, IdError>(out@ + s),
                Err(e) => Err::<Seq<Post>, IdError>(e),
            },
            last == Some(w),
        decreases rest.len(),
    {
        if rest.len() == 0 {
            proof {
                assert(out@ + spec_take_new(rest@, last)->Ok_0 =~= out@);
            }
            return Ok(out);
        }
        let ghost before = rest@;
        let p = rest.remove(0);
        proof {
            assert(before.skip(1) =~= rest@);
            assert(before[0] == p);
        }
        match parse_id(p.id.as_str()) {
            Err(e) => {
                return Err(e);
            },
            Ok(n) => {
                if n <= w {
                    proof {
                        assert(spec_take_new(before, last) == Ok::<Seq<Post>, IdError>(
                            Seq::empty(),
                        ));
                        assert(out@ + Seq::<Post>::empty() =~= out@);
                    }
                    return Ok(out);
                }
                let ghost outb = out@;
                out.push(p);
                proof {
                    if spec_take_new(rest@, last) is Ok {
                        assert(out@ + spec_take_new(rest@, last)->Ok_0 =~= outb + (seq![p]
                            + spec_take_new(rest@, last)->Ok_0));
                    }
                }
            },
        }
    }
}

/// One cycle's decision: a failed fetch contributes nothing (the cycle is
/// skipped, the state untouched); a successful fetch is reduced to its novel
/// posts in delivery order.
pub fn cycle_posts(fetched: Result<Vec<Post>, FetchError>, store: &SeenStore) -> (r: Vec<Post>)
    ensures
        r@ == match fetched {
            Ok(batch) => spec_novel(batch@, *store),
            Err(_) => Seq::<Post>::empty(),
        },
{
    match fetched {
        Ok(batch) => novel_posts(batch, store),
        Err(_) => Vec::new(),
    }
}

} // verus!

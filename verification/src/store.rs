//! The seen-set store: which posts have already triggered a notification.
//!
//! Two interchangeable strategies, as the deployments differ:
//! a membership set of identifier strings (unbounded, order-free), and a
//! single watermark holding the numeric value of the last delivered
//! identifier (every identifier at or below it counts as seen). The
//! watermark needs identifiers to be totally ordered, so it fails closed on
//! an identifier that does not parse: such a post is skipped rather than
//! risking a duplicate or a lost delivery.
//!
//! Durability lives outside this crate: the surrounding program writes the
//! state out after each confirmed delivery and reads it back at startup.

use crate::id::{parse_id, spec_parse_id, IdError};
use vstd::prelude::*;

verus! {

/// Persistent "already notified" state, in one of the two strategies.
pub enum SeenStore {
    Membership { ids: Vec<String> },
    Watermark { last: Option<u64> },
}

/// Whether some string in `ids` reads as `id`.
pub open spec fn has_id(ids: Seq<String>, id: Seq<char>) -> bool {
    exists|i: int| 0 <= i < ids.len() && ids[i]@ == id
}

/// The watermark after recording a delivery of value `n`: never moves down.
pub open spec fn spec_watermark_after(w: Option<u64>, n: u64) -> u64 {
    match w {
        Some(v) => if v >= n {
            v
        } else {
            n
        },
        None => n,
    }
}

impl SeenStore {
    /// A membership store never holds the same identifier twice.
    pub open spec fn wf(self) -> bool {
        match self {
            SeenStore::Membership { ids } => forall|i: int, j: int|
                0 <= i < j < ids.len() ==> ids[i]@ != ids[j]@,
            SeenStore::Watermark { .. } => true,
        }
    }

    /// The identifier strings a membership store holds, as sequences.
    pub open spec fn id_views(self) -> Seq<Seq<char>> {
        match self {
            SeenStore::Membership { ids } => ids@.map_values(|s: String| s@),
            SeenStore::Watermark { .. } => Seq::empty(),
        }
    }

    /// Whether the store counts `id` as already notified.
    pub open spec fn spec_seen(self, id: Seq<char>) -> bool {
        match self {
            SeenStore::Membership { ids } => has_id(ids@, id),
            SeenStore::Watermark { last } => match (spec_parse_id(id), last) {
                (Some(n), Some(w)) => n <= w,
                _ => false,
            },
        }
    }

    /// Whether the store can decide `id` at all: a watermark store cannot
    /// order an identifier that does not parse, and fails closed on it.
    pub open spec fn spec_decides(self, id: Seq<char>) -> bool {
        match self {
            SeenStore::Membership { .. } => true,
            SeenStore::Watermark { .. } => spec_parse_id(id) is Some,
        }
    }

    /// Exactly how `post` differs from `self` after `id` was marked seen:
    /// a membership store gains the identifier (once), a watermark store
    /// moves up to the identifier's value.
    pub open spec fn spec_marked(self, post: SeenStore, id: Seq<char>) -> bool {
        match (self, post) {
            (SeenStore::Membership { ids: a }, SeenStore::Membership { ids: b }) => b@.map_values(
                |s: String| s@,
            ) == if self.spec_seen(id) {
                a@.map_values(|s: String| s@)
            } else {
                a@.map_values(|s: String| s@).push(id)
            },
            (SeenStore::Watermark { last: a }, SeenStore::Watermark { last: b }) => spec_parse_id(
                id,
            ) is Some && b == Some(spec_watermark_after(a, spec_parse_id(id)->Some_0)),
            _ => false,
        }
    }

    /// A cold start with membership storage: nothing seen yet.
    pub fn new_membership() -> (s: SeenStore)
        ensures
            s is Membership,
            s.wf(),
            forall|x: Seq<char>| !s.spec_seen(x),
            forall|x: Seq<char>| s.spec_decides(x),
    {
        SeenStore::Membership { ids: Vec::new() }
    }

    /// Watermark storage starting from `last` (`None` on a cold start).
    pub fn new_watermark(last: Option<u64>) -> (s: SeenStore)
        ensures
            s == (SeenStore::Watermark { last }),
    {
        SeenStore::Watermark { last }
    }

    /// Membership or ordering check; never consults anything but the value.
    pub fn contains(&self, id: &str) -> (r: Result<bool, IdError>)
        ensures
            match r {
                Ok(b) => self.spec_decides(id@) && b == self.spec_seen(id@),
                Err(_) => !self.spec_decides(id@),
            },
    {
        match self {
            SeenStore::Membership { ids } => {
                let key: String = id.to_owned();
                let mut i: usize = 0;
                while i < ids.len()
                    invariant
                        i <= ids.len(),
                        key@ == id@,
                        *self == (SeenStore::Membership { ids: *ids }),
                        forall|j: int| 0 <= j < i ==> ids[j]@ != id@,
                    decreases ids.len() - i,
                {
                    if ids[i] == key {
                        proof {
                            assert(has_id(ids@, id@)) by {
                                assert(ids@[i as int]@ == id@);
                            }
                        }
                        return Ok(true);
                    }
                    i += 1;
                }
                Ok(false)
            },
            SeenStore::Watermark { last } => {
                match parse_id(id) {
                    Err(e) => Err(e),
                    Ok(n) => match last {
                        Some(w) => Ok(n <= *w),
                        None => Ok(false),
                    },
                }
            },
        }
    }

    /// Records that `id` has been notified. `Err` exactly when the store
    /// cannot decide the identifier (watermark storage, unparsable id); the
    /// store is then unchanged.
    pub fn mark_seen(&mut self, id: &str) -> (r: Result<(), IdError>)
        ensures
            r is Ok <==> old(self).spec_decides(id@),
            r is Err ==> *final (self) == *old(self),
            r is Ok ==> old(self).spec_marked(*final (self), id@),
            r is Ok ==> final (self).spec_seen(id@),
            forall|x: Seq<char>| old(self).spec_seen(x) ==> final (self).spec_seen(x),
            forall|x: Seq<char>| final (self).spec_decides(x) == old(self).spec_decides(x),
            old(self).wf() ==> final (self).wf(),
    {
        let already = match self.contains(id) {
            Ok(b) => b,
            Err(e) => {
                return Err(e);
            },
        };
        match self {
            SeenStore::Membership { ids } => {
                if !already {
                    let ghost prior = ids@;
                    ids.push(id.to_owned());
                    proof {
                        assert(ids@.map_values(|s: String| s@) =~= prior.map_values(
                            |s: String| s@,
                        ).push(id@));
                        assert(ids@[prior.len() as int]@ == id@);
                        assert(forall|j: int| 0 <= j < prior.len() ==> ids@[j] == prior[j]);
                    }
                }
                Ok(())
            },
            SeenStore::Watermark { last } => {
                match parse_id(id) {
                    Ok(n) => {
                        match last {
                            Some(w) => {
                                if *w < n {
                                    *last = Some(n);
                                }
                            },
                            None => {
                                *last = Some(n);
                            },
                        }
                        Ok(())
                    },
                    Err(e) => {
                        proof {
                            assert(false);
                        }
                        Err(e)
                    },
                }
            },
        }
    }

    /// The watermark value, for the surrounding program to persist;
    /// `None` for membership storage or before any delivery.
    pub fn watermark(&self) -> (r: Option<u64>)
        ensures
            r == match *self {
                SeenStore::Watermark { last } => last,
                SeenStore::Membership { .. } => None::<u64>,
            },
    {
        match self {
            SeenStore::Watermark { last } => *last,
            SeenStore::Membership { .. } => None,
        }
    }
}

/// Restores watermark storage from the persisted text form: the last
/// delivered identifier as it was written. `Err` exactly when the text does
/// not parse as an identifier.
pub fn watermark_from_text(s: &str) -> (r: Result<SeenStore, IdError>)
    ensures
        r == match spec_parse_id(s@) {
            Some(n) => Ok::<SeenStore, IdError>(SeenStore::Watermark { last: Some(n) }),
            None => Err::<SeenStore, IdError>(IdError),
        },
{
    match parse_id(s) {
        Ok(n) => Ok(SeenStore::Watermark { last: Some(n) }),
        Err(e) => Err(e),
    }
}

} // verus!

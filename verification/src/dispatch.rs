//! The notification dispatcher.
//!
//! For each novel post, oldest first, the dispatcher renders a gateway
//! payload and offers it for delivery. The surrounding program performs the
//! network send and reports back one event per attempt; the dispatcher
//! decides what follows: a timeout consumes one of the three attempts a post
//! gets, any other transport error or a gateway-reported logical failure
//! abandons the post for this cycle, and an acceptance commits the post to
//! the seen store before anything newer is offered. A post is never offered
//! again once its delivery has been accepted.

use crate::filter::spec_novel_post;
use crate::id::{strip_kind_prefix, strip_kind_prefixes};
use crate::post::{spec_timestamp, Config, Post};
use crate::store::SeenStore;
use vstd::prelude::*;

verus! {

/// What `htmlescape`'s entity decoder makes of a string: the text with HTML
/// entities replaced, or `None` when the string holds a malformed entity.
/// Uninterpreted here; the trusted wrapper below computes it.
pub uninterp spec fn html_decoded(s: Seq<char>) -> Option<Seq<char>>;

/// Relies on `htmlescape::decode_html` to replace HTML entities such as
/// `&amp;` with their characters. The outcome depends on the input
/// characters alone.
#[verifier::external_body]
fn decode_html_entities(s: &str) -> (r: Option<String>)
    ensures
        match r {
            Some(d) => html_decoded(s@) == Some(d@),
            None => html_decoded(s@) is None,
        },
{
    match htmlescape::decode_html(s) {
        Ok(d) => Some(d),
        Err(_) => None,
    }
}

/// The notification text for a title: entity-decoded when the decoder
/// accepts it, the raw title otherwise — a decode failure never abandons a
/// post.
pub open spec fn spec_decoded_title(t: Seq<char>) -> Seq<char> {
    match html_decoded(t) {
        Some(d) => d,
        None => t,
    }
}

/// One rendered gateway request: the form fields of a push message.
pub struct Payload {
    pub token: String,
    pub user: String,
    pub title: String,
    pub message: String,
    pub url: String,
    pub timestamp: i64,
}

/// How a payload is rendered from the configuration and a post: credentials
/// as configured, a fixed title naming the source, the entity-decoded post
/// title as message, a permalink built from the identifier, and the
/// normalized creation time.
pub open spec fn spec_payload_for(cfg: Config, p: Post, pl: Payload) -> bool {
    &&& pl.token@ == cfg.pushover_token@
    &&& pl.user@ == cfg.pushover_user@
    &&& pl.title@ == "New post on r/"@ + cfg.subreddit@
    &&& pl.message@ == spec_decoded_title(p.title@)
    &&& pl.url@ == "https://redd.it/"@ + strip_kind_prefix(p.id@)
    &&& Some(pl.timestamp) == spec_timestamp(p.created)
}

/// Renders the gateway payload for one post; `None` exactly when the post's
/// creation time cannot be normalized to epoch seconds.
pub fn render_payload(cfg: &Config, p: &Post) -> (r: Option<Payload>)
    ensures
        match r {
            Some(pl) => spec_payload_for(*cfg, *p, pl),
            None => spec_timestamp(p.created) is None,
        },
{
    let timestamp = match p.created.normalize() {
        Some(t) => t,
        None => {
            return None;
        },
    };
    let message = match decode_html_entities(p.title.as_str()) {
        Some(d) => d,
        None => p.title.clone(),
    };
    let mut title: String = "New post on r/".to_owned();
    title.append(cfg.subreddit.as_str());
    let mut url: String = "https://redd.it/".to_owned();
    let tail = strip_kind_prefixes(p.id.as_str());
    url.append(tail.as_str());
    Some(
        Payload {
            token: cfg.pushover_token.clone(),
            user: cfg.pushover_user.clone(),
            title,
            message,
            url,
            timestamp,
        },
    )
}

/// What one delivery attempt came to, as the surrounding program saw it.
#[derive(Clone, Copy, PartialEq, Eq, Structural, Debug)]
pub enum GatewayEvent {
    /// HTTP success and the gateway's body reported logical success.
    Accepted,
    /// The gateway answered, but its body did not report logical success.
    LogicalFailure,
    /// The request timed out: a transient fault, worth a retry.
    TimedOut,
    /// Any other transport error: treated as permanent for this cycle.
    TransportFailed,
}

/// How many delivery attempts one post gets within a cycle.
pub const MAX_ATTEMPTS: u8 = 3;

/// A post the dispatcher can actually offer: the store decides it, has not
/// seen it, and its creation time normalizes.
pub open spec fn spec_sendable(store: SeenStore, p: Post) -> bool {
    spec_novel_post(store, p) && spec_timestamp(p.created) is Some
}

/// Drives delivery of one cycle's novel posts, oldest first, against a seen
/// store. `next_send` yields the payload to attempt now; `on_event` takes
/// the attempt's outcome and commits or moves on.
pub struct Dispatcher {
    /// The cycle's novel posts, oldest first.
    pub queue: Vec<Post>,
    /// The post currently being delivered (everything before it is settled).
    pub pos: usize,
    /// Attempts already consumed by the current post.
    pub attempts: u8,
    /// The gateway credentials and source name used for rendering.
    pub config: Config,
    /// The identifiers whose delivery was accepted in this cycle.
    pub delivered: Ghost<Set<Seq<char>>>,
}

impl Dispatcher {
    /// What holds between any two interactions: the cursor is within the
    /// queue, a post mid-retry is still sendable, and everything delivered
    /// is seen by the store.
    pub open spec fn inv(self, store: SeenStore) -> bool {
        &&& self.pos <= self.queue.len()
        &&& self.attempts < MAX_ATTEMPTS
        &&& (self.attempts > 0 ==> self.pos < self.queue.len() && spec_sendable(
            store,
            self.queue[self.pos as int],
        ))
        &&& (forall|x: Seq<char>| self.delivered@.contains(x) ==> store.spec_seen(x))
    }

    /// Exactly how one event changes the dispatcher and the store.
    pub open spec fn spec_step(
        pre: Dispatcher,
        pre_store: SeenStore,
        ev: GatewayEvent,
        post: Dispatcher,
        post_store: SeenStore,
        delivered: bool,
    ) -> bool {
        let cur = pre.queue[pre.pos as int];
        &&& post.queue == pre.queue
        &&& post.config == pre.config
        &&& match ev {
            GatewayEvent::Accepted => {
                &&& delivered
                &&& pre_store.spec_marked(post_store, cur.id@)
                &&& post_store.spec_seen(cur.id@)
                &&& post.pos == pre.pos + 1
                &&& post.attempts == 0
                &&& post.delivered@ == pre.delivered@.insert(cur.id@)
            },
            GatewayEvent::TimedOut => {
                &&& !delivered
                &&& post_store == pre_store
                &&& post.delivered == pre.delivered
                &&& if pre.attempts + 1 < MAX_ATTEMPTS {
                    post.pos == pre.pos && post.attempts == pre.attempts + 1
                } else {
                    post.pos == pre.pos + 1 && post.attempts == 0
                }
            },
            GatewayEvent::LogicalFailure | GatewayEvent::TransportFailed => {
                &&& !delivered
                &&& post_store == pre_store
                &&& post.delivered == pre.delivered
                &&& post.pos == pre.pos + 1
                &&& post.attempts == 0
            },
        }
    }

    /// A fresh dispatcher over one cycle's novel posts, oldest first.
    pub fn new(config: Config, queue: Vec<Post>) -> (d: Dispatcher)
        ensures
            d.queue == queue,
            d.config == config,
            d.pos == 0,
            d.attempts == 0,
            d.delivered@ == Set::<Seq<char>>::empty(),
            forall|s: SeenStore| #[trigger] d.inv(s),
    {
        Dispatcher { queue, pos: 0, attempts: 0, config, delivered: Ghost(Set::empty()) }
    }

    /// The post an event would settle, for the surrounding program to
    /// persist its identifier after a confirmed delivery.
    pub fn current_post(&self) -> (r: Option<&Post>)
        ensures
            match r {
                Some(p) => self.pos < self.queue.len() && *p == self.queue[self.pos as int],
                None => self.pos >= self.queue.len(),
            },
    {
        if self.pos < self.queue.len() {
            Some(&self.queue[self.pos])
        } else {
            None
        }
    }

    /// The payload to attempt now. Posts the store already counts as seen —
    /// the store, not source identity, is the sole deduplication authority,
    /// so a duplicate identifier in the same batch is caught here — posts a
    /// watermark store cannot order, and posts whose creation time does not
    /// normalize are passed over. `None` when the cycle is done.
    pub fn next_send(&mut self, store: &SeenStore) -> (r: Option<Payload>)
        requires
            old(self).inv(*store),
        ensures
            final (self).inv(*store),
            final (self).queue == old(self).queue,
            final (self).config == old(self).config,
            final (self).attempts == old(self).attempts,
            final (self).delivered == old(self).delivered,
            old(self).pos <= final (self).pos,
            forall|j: int|
                old(self).pos <= j < final (self).pos ==> !spec_sendable(
                    *store,
                    final (self).queue[j],
                ),
            match r {
                Some(pl) => final (self).pos < final (self).queue.len() && spec_sendable(
                    *store,
                    final (self).queue[final (self).pos as int],
                ) && spec_payload_for(
                    final (self).config,
                    final (self).queue[final (self).pos as int],
                    pl,
                ),
                None => final (self).pos == final (self).queue.len(),
            },
    {
        while self.pos < self.queue.len()
            invariant
                self.queue == old(self).queue,
                self.config == old(self).config,
                self.attempts == old(self).attempts,
                self.attempts < MAX_ATTEMPTS,
                self.delivered == old(self).delivered,
                old(self).pos <= self.pos <= self.queue.len(),
                self.attempts > 0 ==> self.pos < self.queue.len() && spec_sendable(
                    *store,
                    self.queue[self.pos as int],
                ),
                forall|x: Seq<char>| self.delivered@.contains(x) ==> store.spec_seen(x),
                forall|j: int|
                    old(self).pos <= j < self.pos ==> !spec_sendable(*store, self.queue[j]),
            decreases self.queue.len() - self.pos,
        {
            let decided = match store.contains(self.queue[self.pos].id.as_str()) {
                Ok(b) => !b,
                Err(_) => false,
            };
            if decided {
                match render_payload(&self.config, &self.queue[self.pos]) {
                    Some(pl) => {
                        return Some(pl);
                    },
                    None => {
                        self.pos = self.pos + 1;
                    },
                }
            } else {
                self.pos = self.pos + 1;
            }
        }
        None
    }

    /// Takes the outcome of the attempt `next_send` offered. An acceptance
    /// marks the post seen — committed before anything newer is offered —
    /// and moves on; a timeout consumes one attempt and, once the attempts
    /// are exhausted, abandons the post; any other outcome abandons the post
    /// at once, leaving it unseen for a later cycle. Returns whether the
    /// post was delivered and committed, so the caller can persist the
    /// store.
    pub fn on_event(&mut self, store: &mut SeenStore, ev: GatewayEvent) -> (delivered: bool)
        requires
            old(self).inv(*old(store)),
            old(self).pos < old(self).queue.len(),
            spec_sendable(*old(store), old(self).queue[old(self).pos as int]),
        ensures
            final (self).inv(*final (store)),
            Dispatcher::spec_step(
                *old(self),
                *old(store),
                ev,
                *final (self),
                *final (store),
                delivered,
            ),
            forall|x: Seq<char>| old(store).spec_seen(x) ==> final (store).spec_seen(x),
            forall|x: Seq<char>| final (store).spec_decides(x) == old(store).spec_decides(x),
            old(store).wf() ==> final (store).wf(),
    {
        match ev {
            GatewayEvent::Accepted => {
                let marked = store.mark_seen(self.queue[self.pos].id.as_str());
                proof {
                    assert(marked is Ok);
                }
                proof {
                    self.delivered@ = self.delivered@.insert(self.queue[self.pos as int].id@);
                }
                self.pos = self.pos + 1;
                self.attempts = 0;
                true
            },
            GatewayEvent::TimedOut => {
                if self.attempts + 1 < MAX_ATTEMPTS {
                    self.attempts = self.attempts + 1;
                } else {
                    self.pos = self.pos + 1;
                    self.attempts = 0;
                }
                false
            },
            GatewayEvent::LogicalFailure | GatewayEvent::TransportFailed => {
                self.pos = self.pos + 1;
                self.attempts = 0;
                false
            },
        }
    }
}

} // verus!

//! Notification fan-out: the subscriber set and the listener's rule.
//!
//! Recipients are chat ids. The listener task adds ids; broadcasts copy
//! the current set and deliver outside any lock. This module holds the
//! set itself and the decisions; the guard around it and the transport
//! live with the caller, which holds the lock only across `add` or
//! `snapshot`, never across a delivery, so additions are never blocked
//! by slow deliveries.

use vstd::prelude::*;

use crate::text::str_eq;

verus! {

/// The set of notification recipients: each chat id at most once, in
/// subscription order.
#[derive(Debug)]
pub struct SubscriberRegistry {
    ids: Vec<i64>,
}

impl View for SubscriberRegistry {
    type V = Seq<i64>;

    closed spec fn view(&self) -> Seq<i64> {
        self.ids@
    }
}

impl SubscriberRegistry {
    /// The set's invariant: no recipient is listed twice.
    pub open spec fn wf(&self) -> bool {
        self@.no_duplicates()
    }

    /// An empty recipient set.
    pub fn new() -> (r: SubscriberRegistry)
        ensures
            r@ == Seq::<i64>::empty(),
            r.wf(),
    {
        SubscriberRegistry { ids: Vec::new() }
    }

    /// Number of recipients.
    pub fn len(&self) -> (n: usize)
        ensures
            n == self@.len(),
    {
        self.ids.len()
    }

    /// Whether the given recipient is subscribed.
    pub fn contains(&self, id: i64) -> (r: bool)
        ensures
            r == self@.contains(id),
    {
        let mut k: usize = 0;
        while k < self.ids.len()
            invariant
                0 <= k as int <= self@.len(),
                self@.len() == self.ids@.len(),
                self@ == self.ids@,
                forall|j: int| 0 <= j < k as int ==> self@[j] != id,
            decreases self@.len() - k,
        {
            if self.ids[k] == id {
                return true;
            }
            k = k + 1;
        }
        false
    }

    /// Subscribes a recipient: a set insert. A recipient already present
    /// is kept as is; afterwards the recipient is always a member — so
    /// it is in every snapshot taken from then on, and thereby in the
    /// next broadcast.
    pub fn add(&mut self, id: i64) -> (added: bool)
        requires
            old(self).wf(),
        ensures
            final(self).wf(),
            added == !old(self)@.contains(id),
            added ==> final(self)@ == old(self)@.push(id),
            !added ==> *final(self) == *old(self),
            final(self)@.contains(id),
            forall|x: i64| final(self)@.contains(x) <==> old(self)@.contains(x) || x == id,
    {
        if self.contains(id) {
            return false;
        }
        let ghost pre = self.ids@;
        self.ids.push(id);
        proof {
            assert(self@ =~= pre.push(id));
            assert(self@[pre.len() as int] == id);
            assert(forall|j: int| 0 <= j < pre.len() ==> self@[j] == pre[j]);
        }
        true
    }

    /// Copies the current recipients out, exactly and in order: the
    /// snapshot a broadcast iterates after releasing the guard.
    pub fn snapshot(&self) -> (v: Vec<i64>)
        ensures
            v@ == self@,
    {
        let mut v: Vec<i64> = Vec::new();
        let mut k: usize = 0;
        while k < self.ids.len()
            invariant
                0 <= k as int <= self@.len(),
                self@.len() == self.ids@.len(),
                self@ == self.ids@,
                v@ == self@.subrange(0, k as int),
            decreases self@.len() - k,
        {
            v.push(self.ids[k]);
            proof {
                assert(v@ =~= self@.subrange(0, k as int + 1));
            }
            k = k + 1;
        }
        proof {
            assert(v@ =~= self@);
        }
        v
    }
}

/// Decimal places a notification shows for a price, by magnitude: two
/// places from a thousand up, six below ten, three and four between.
pub open spec fn spec_price_decimals(price_nano: int) -> int {
    if price_nano >= 1000 * 1_000_000_000 {
        2
    } else if price_nano >= 100 * 1_000_000_000 {
        3
    } else if price_nano >= 10 * 1_000_000_000 {
        4
    } else {
        6
    }
}

/// Picks the price precision for a notification's text.
pub fn price_decimals(price_nano: i64) -> (d: u32)
    ensures
        d as int == spec_price_decimals(price_nano as int),
{
    if price_nano >= 1_000_000_000_000 {
        2
    } else if price_nano >= 100_000_000_000 {
        3
    } else if price_nano >= 10_000_000_000 {
        4
    } else {
        6
    }
}

/// The listener's one rule: exactly the text `/start` subscribes the
/// sender.
pub fn is_subscribe_command(text: &str) -> (r: bool)
    ensures
        r == (text@ == "/start"@),
{
    str_eq(text, "/start")
}

/// Law: a recipient just added is a member of every snapshot taken from
/// then on, so it receives the next broadcast. `pre` and `post` are the
/// set's contents around the `add`.
pub proof fn lemma_added_recipient_in_next_snapshot(pre: Seq<i64>, post: Seq<i64>, id: i64)
    requires
        post == pre.push(id) || (post == pre && pre.contains(id)),
    ensures
        post.contains(id),
{
    if post == pre.push(id) {
        assert(post[pre.len() as int] == id);
    }
}

} // verus!

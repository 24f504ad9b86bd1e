//! Waiting for a reply after sending a message: the decisions taken at each
//! poll of the room.
use vstd::prelude::*;
use crate::client::{Message, MessageView, message_views};

verus! {

/// The reply to our message in a chronological list of messages, if any, and
/// whether our message is in the list: the first message after our message
/// (our `event_id`) that another user sent and that could be decrypted.
/// `found` tells whether our message was already seen before `msgs`.
pub open spec fn scan_reply(msgs: Seq<MessageView>, event_id: Seq<char>, own_user: Seq<char>, found: bool) -> (Option<MessageView>, bool)
    decreases msgs.len(),
{
    if msgs.len() == 0 {
        (None, found)
    } else if msgs[0].event_id == event_id {
        scan_reply(msgs.drop_first(), event_id, own_user, true)
    } else if found && msgs[0].sender != own_user && !msgs[0].decryption_failed {
        (Some(msgs[0]), true)
    } else {
        scan_reply(msgs.drop_first(), event_id, own_user, found)
    }
}

/// The poll window after a poll that found no reply: widened by 20, up to
/// 100, while our message is not in view.
pub open spec fn next_window(window: u32, found_ours: bool) -> u32 {
    if !found_ours && window < 100 {
        if window + 20 < 100 { (window + 20) as u32 } else { 100 }
    } else {
        window
    }
}

/// Waiting for a reply to the message `event_id`, sent by `own_user`.
#[derive(Debug, Clone)]
pub struct ReplyWait {
    pub event_id: String,
    pub own_user: String,
    /// How many recent messages the next poll reads.
    pub poll_window: u32,
}

impl ReplyWait {
    /// Whether the poll window lies between 20 and 100.
    pub open spec fn wf(&self) -> bool {
        20 <= self.poll_window <= 100
    }

    /// The wait for a reply to `event_id`, starting with a window of 20 messages.
    pub fn new(event_id: String, own_user: String) -> (r: ReplyWait)
        ensures
            r.event_id == event_id,
            r.own_user == own_user,
            r.poll_window == 20,
            r.wf(),
    {
        ReplyWait { event_id, own_user, poll_window: 20 }
    }

    /// How many messages the next poll reads.
    pub fn read_limit(&self) -> (r: u32)
        ensures
            r == (if self.poll_window < 100 { self.poll_window } else { 100 }),
    {
        if self.poll_window < 100 {
            self.poll_window
        } else {
            100
        }
    }

    /// One poll: the reply found in `msgs` (chronological), if any; when there
    /// is none, the window widens while our message is out of view.
    pub fn on_poll(&mut self, msgs: &Vec<Message>) -> (r: Option<Message>)
        ensures
            ({
                let (reply, found) = scan_reply(message_views(msgs@), old(self).event_id@, old(self).own_user@, false);
                &&& match r {
                    Some(m) => reply == Some(m@),
                    None => reply is None,
                }
                &&& final(self).event_id == old(self).event_id
                &&& final(self).own_user == old(self).own_user
                &&& final(self).poll_window == (if r is Some { old(self).poll_window } else { next_window(old(self).poll_window, found) })
            }),
            old(self).wf() ==> final(self).wf(),
    {
        let ghost views = message_views(msgs@);
        let mut found_ours = false;
        let mut i: usize = 0;
        assert(views.skip(0) == views);
        while i < msgs.len()
            invariant
                i <= msgs.len(),
                views == message_views(msgs@),
                scan_reply(views, self.event_id@, self.own_user@, false) == scan_reply(views.skip(i as int), self.event_id@, self.own_user@, found_ours),
            decreases msgs.len() - i,
        {
            let msg = &msgs[i];
            proof {
                let s = views.skip(i as int);
                assert(s[0] == msg@);
                assert(s.drop_first() == views.skip(i + 1));
            }
            if msg.event_id == self.event_id {
                found_ours = true;
            } else if found_ours && msg.sender != self.own_user && !msg.decryption_failed {
                return Some(msg.copy());
            }
            i = i + 1;
        }
        assert(views.skip(i as int).len() == 0);
        if !found_ours && self.poll_window < 100 {
            self.poll_window = if self.poll_window + 20 < 100 { self.poll_window + 20 } else { 100 };
        }
        None
    }
}

/// A reply that a poll finds follows our message, comes from another user,
/// and could be decrypted; it is one of the polled messages.
pub proof fn law_reply_follows_our_message(msgs: Seq<MessageView>, event_id: Seq<char>, own_user: Seq<char>)
    ensures
        scan_reply(msgs, event_id, own_user, false).0 matches Some(m) ==> {
            &&& m.sender != own_user
            &&& !m.decryption_failed
            &&& m.event_id != event_id
            &&& exists|i: int, j: int| 0 <= i < j < msgs.len() && msgs[i].event_id == event_id && msgs[j] == m
        },
{
    lemma_scan_reply(msgs, event_id, own_user, false);
}

/// What `scan_reply` finds, by induction over the messages.
proof fn lemma_scan_reply(msgs: Seq<MessageView>, event_id: Seq<char>, own_user: Seq<char>, found: bool)
    ensures
        scan_reply(msgs, event_id, own_user, found).0 matches Some(m) ==> {
            &&& m.sender != own_user
            &&& !m.decryption_failed
            &&& m.event_id != event_id
            &&& exists|j: int| 0 <= j < msgs.len() && msgs[j] == m && (found || exists|i: int| 0 <= i < j && msgs[i].event_id == event_id)
        },
    decreases msgs.len(),
{
    if msgs.len() > 0 {
        let rest = msgs.drop_first();
        if msgs[0].event_id == event_id {
            lemma_scan_reply(rest, event_id, own_user, true);
            if let Some(m) = scan_reply(rest, event_id, own_user, true).0 {
                let j = choose|j: int| 0 <= j < rest.len() && rest[j] == m && (true || exists|i: int| 0 <= i < j && rest[i].event_id == event_id);
                assert(msgs[j + 1] == m);
                assert(msgs[0].event_id == event_id);
            }
        } else if found && msgs[0].sender != own_user && !msgs[0].decryption_failed {
            assert(msgs[0] == scan_reply(msgs, event_id, own_user, found).0->0);
        } else {
            lemma_scan_reply(rest, event_id, own_user, found);
            if let Some(m) = scan_reply(rest, event_id, own_user, found).0 {
                let j = choose|j: int| 0 <= j < rest.len() && rest[j] == m && (found || exists|i: int| 0 <= i < j && rest[i].event_id == event_id);
                assert(msgs[j + 1] == m);
                if !found {
                    let i = choose|i: int| 0 <= i < j && rest[i].event_id == event_id;
                    assert(msgs[i + 1].event_id == event_id);
                }
            }
        }
    }
}

/// Whether `m` can be the reply to our message `event_id` sent by
/// `own_user`: another message, from another user, that could be decrypted.
pub open spec fn is_reply_candidate(m: MessageView, event_id: Seq<char>, own_user: Seq<char>) -> bool {
    &&& m.event_id != event_id
    &&& m.sender != own_user
    &&& !m.decryption_failed
}

/// Once our message has been seen, the scan returns the first candidate, and
/// nothing when there is none.
proof fn lemma_scan_after_ours(msgs: Seq<MessageView>, event_id: Seq<char>, own_user: Seq<char>)
    ensures
        (exists|j: int| 0 <= j < msgs.len() && is_reply_candidate(msgs[j], event_id, own_user)) ==> exists|k: int|
            {
                &&& 0 <= k < msgs.len()
                &&& is_reply_candidate(msgs[k], event_id, own_user)
                &&& scan_reply(msgs, event_id, own_user, true).0 == Some(msgs[k])
                &&& forall|j: int| 0 <= j < k ==> !is_reply_candidate(#[trigger] msgs[j], event_id, own_user)
            },
        (forall|j: int| 0 <= j < msgs.len() ==> !is_reply_candidate(#[trigger] msgs[j], event_id, own_user))
            ==> scan_reply(msgs, event_id, own_user, true) == (None::<MessageView>, true),
    decreases msgs.len(),
{
    if msgs.len() > 0 {
        let rest = msgs.drop_first();
        if is_reply_candidate(msgs[0], event_id, own_user) {
            assert(scan_reply(msgs, event_id, own_user, true).0 == Some(msgs[0]));
        } else {
            assert(scan_reply(msgs, event_id, own_user, true) == scan_reply(rest, event_id, own_user, true));
            lemma_scan_after_ours(rest, event_id, own_user);
            if exists|j: int| 0 <= j < msgs.len() && is_reply_candidate(msgs[j], event_id, own_user) {
                let j0 = choose|j: int| 0 <= j < msgs.len() && is_reply_candidate(msgs[j], event_id, own_user);
                assert(rest[j0 - 1] == msgs[j0]);
                let k = choose|k: int|
                    {
                        &&& 0 <= k < rest.len()
                        &&& is_reply_candidate(rest[k], event_id, own_user)
                        &&& scan_reply(rest, event_id, own_user, true).0 == Some(rest[k])
                        &&& forall|j: int| 0 <= j < k ==> !is_reply_candidate(#[trigger] rest[j], event_id, own_user)
                    };
                assert(msgs[k + 1] == rest[k]);
                assert forall|j: int| 0 <= j < k + 1 implies !is_reply_candidate(#[trigger] msgs[j], event_id, own_user) by {
                    if j > 0 {
                        assert(msgs[j] == rest[j - 1]);
                    }
                }
            } else {
                assert forall|j: int| 0 <= j < rest.len() implies !is_reply_candidate(#[trigger] rest[j], event_id, own_user) by {
                    assert(rest[j] == msgs[j + 1]);
                }
            }
        }
    }
}

/// Before our message has been seen, the scan skips to what follows the first
/// occurrence of our message; without our message it finds nothing.
proof fn lemma_scan_before_ours(msgs: Seq<MessageView>, event_id: Seq<char>, own_user: Seq<char>, f: int)
    requires
        0 <= f <= msgs.len(),
        forall|j: int| 0 <= j < f ==> (#[trigger] msgs[j]).event_id != event_id,
    ensures
        f < msgs.len() && msgs[f].event_id == event_id
            ==> scan_reply(msgs, event_id, own_user, false) == scan_reply(msgs.skip(f + 1), event_id, own_user, true),
        f == msgs.len() ==> scan_reply(msgs, event_id, own_user, false) == (None::<MessageView>, false),
    decreases f,
{
    if f > 0 {
        let rest = msgs.drop_first();
        assert(msgs[0].event_id != event_id);
        assert(scan_reply(msgs, event_id, own_user, false) == scan_reply(rest, event_id, own_user, false));
        assert forall|j: int| 0 <= j < f - 1 implies (#[trigger] rest[j]).event_id != event_id by {
            assert(rest[j] == msgs[j + 1]);
        }
        lemma_scan_before_ours(rest, event_id, own_user, f - 1);
        if f < msgs.len() {
            assert(rest[f - 1] == msgs[f]);
            assert(rest.skip(f) =~= msgs.skip(f + 1));
        }
    } else if msgs.len() > 0 {
        assert(msgs.drop_first() == msgs.skip(1));
    }
}

/// The reply a poll finds is the first candidate after our message: where
/// `f` is the first position of our message, the scan returns the earliest
/// message after `f` that another user sent and that could be decrypted,
/// whatever its distance from our message, and returns nothing (with our
/// message seen) exactly when no such message follows.
pub proof fn law_reply_is_first_candidate_after_ours(msgs: Seq<MessageView>, event_id: Seq<char>, own_user: Seq<char>, f: int)
    requires
        0 <= f < msgs.len(),
        msgs[f].event_id == event_id,
        forall|j: int| 0 <= j < f ==> (#[trigger] msgs[j]).event_id != event_id,
    ensures
        (exists|j: int| f < j < msgs.len() && is_reply_candidate(msgs[j], event_id, own_user)) ==> exists|k: int|
            {
                &&& f < k < msgs.len()
                &&& is_reply_candidate(msgs[k], event_id, own_user)
                &&& scan_reply(msgs, event_id, own_user, false).0 == Some(msgs[k])
                &&& forall|j: int| f < j < k ==> !is_reply_candidate(#[trigger] msgs[j], event_id, own_user)
            },
        (forall|j: int| f < j < msgs.len() ==> !is_reply_candidate(#[trigger] msgs[j], event_id, own_user))
            ==> scan_reply(msgs, event_id, own_user, false) == (None::<MessageView>, true),
{
    let after = msgs.skip(f + 1);
    lemma_scan_before_ours(msgs, event_id, own_user, f);
    lemma_scan_after_ours(after, event_id, own_user);
    if exists|j: int| f < j < msgs.len() && is_reply_candidate(msgs[j], event_id, own_user) {
        let j0 = choose|j: int| f < j < msgs.len() && is_reply_candidate(msgs[j], event_id, own_user);
        assert(after[j0 - f - 1] == msgs[j0]);
        let k = choose|k: int|
            {
                &&& 0 <= k < after.len()
                &&& is_reply_candidate(after[k], event_id, own_user)
                &&& scan_reply(after, event_id, own_user, true).0 == Some(after[k])
                &&& forall|j: int| 0 <= j < k ==> !is_reply_candidate(#[trigger] after[j], event_id, own_user)
            };
        assert(msgs[k + f + 1] == after[k]);
        assert forall|j: int| f < j < k + f + 1 implies !is_reply_candidate(#[trigger] msgs[j], event_id, own_user) by {
            assert(msgs[j] == after[j - f - 1]);
        }
    } else {
        assert forall|j: int| 0 <= j < after.len() implies !is_reply_candidate(#[trigger] after[j], event_id, own_user) by {
            assert(after[j] == msgs[j + f + 1]);
        }
    }
}

/// A poll whose messages do not hold our message finds no reply and reports
/// our message as not seen, so the window widens.
pub proof fn law_no_reply_without_our_message(msgs: Seq<MessageView>, event_id: Seq<char>, own_user: Seq<char>)
    requires
        forall|j: int| 0 <= j < msgs.len() ==> (#[trigger] msgs[j]).event_id != event_id,
    ensures
        scan_reply(msgs, event_id, own_user, false) == (None::<MessageView>, false),
{
    lemma_scan_before_ours(msgs, event_id, own_user, msgs.len() as int);
}

/// While our message is out of view the window widens by 20 messages at each
/// poll, up to 100; once our message is in view it stays as it is.
pub proof fn law_window_widens_until_our_message_is_seen(window: u32)
    requires
        20 <= window <= 100,
    ensures
        next_window(window, true) == window,
        window + 20 <= 100 ==> next_window(window, false) == window + 20,
        window + 20 > 100 ==> next_window(window, false) == 100,
{
}

/// The poll window never leaves 20 to 100 and never shrinks.
pub proof fn law_window_bounded_and_growing(window: u32, found_ours: bool)
    requires
        20 <= window <= 100,
    ensures
        20 <= next_window(window, found_ours) <= 100,
        window <= next_window(window, found_ours),
{
}

} // verus!

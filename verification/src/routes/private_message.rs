//! Private messages: the overview of conversations, one conversation, and
//! the editor.

use crate::api::private_message::{create_private_message, mark_private_message_read};
use crate::api::user::get_person;
use crate::api::{ApiCall, NameOrId, Sensitive};
use crate::model::{Person, PrivateMessageView};
use crate::site_fairing::SiteData;
use crate::sort::{sort_by_key, stable_sort, Keyed};
use crate::vecs::reverse;
use crate::text::{concat_int, decimal};
use crate::time::Timestamp;
use crate::utils::{origin, replace_smilies, with_smilies};
use vstd::prelude::*;

verus! {

/// A conversation with one other user, as the overview shows it.
#[derive(Debug)]
pub struct PrivateMessageThread {
    pub other_participant: Person,
    /// Whether the visitor has read every message that the other user sent.
    pub read: bool,
    /// The time of the latest message.
    pub last_message: Timestamp,
}

impl Keyed for PrivateMessageThread {
    /// Conversations are ordered by the second of their latest message,
    /// the newest first.
    open spec fn key(&self) -> int {
        -(self.last_message.secs as int)
    }

    fn key_lt(&self, other: &PrivateMessageThread) -> (smaller: bool) {
        self.last_message.secs > other.last_message.secs
    }
}

/// The user with whom the visitor, who has the number `me`, exchanged
/// `message`: its sender, unless that is the visitor.
pub open spec fn other_participant(message: PrivateMessageView, me: i32) -> Person {
    if message.creator.id != me {
        message.creator
    } else {
        message.recipient
    }
}

/// Whether `message` belongs to the conversation with the user `other`.
pub open spec fn in_thread(message: PrivateMessageView, me: i32, other: i32) -> bool {
    other_participant(message, me).id == other
}

/// Whether, of the first `n` of `messages`, every one that the user `other`
/// sent has been read.
pub open spec fn read_upto(messages: Seq<PrivateMessageView>, me: i32, other: i32, n: int) -> bool {
    forall|j: int|
        0 <= j < n && in_thread(#[trigger] messages[j], me, other) && messages[j].creator.id != me
            ==> messages[j].private_message.read
}

/// Whether `time` is the time of the latest of the first `n` of `messages`
/// that belong to the conversation with `other`.
pub open spec fn is_last_upto(
    messages: Seq<PrivateMessageView>,
    me: i32,
    other: i32,
    n: int,
    time: Timestamp,
) -> bool {
    &&& exists|j: int|
        0 <= j < n && in_thread(#[trigger] messages[j], me, other)
            && messages[j].private_message.published == time
    &&& forall|j: int|
        0 <= j < n && in_thread(#[trigger] messages[j], me, other) ==> !time.is_before(
            messages[j].private_message.published,
        )
}

/// Whether one of the first `n` of `messages` was exchanged with `person`.
pub open spec fn exchanged_upto(
    messages: Seq<PrivateMessageView>,
    me: i32,
    person: Person,
    n: int,
) -> bool {
    exists|j: int| 0 <= j < n && other_participant(#[trigger] messages[j], me) == person
}

/// Whether `thread` sums up the conversation with its other participant
/// among the first `n` of `messages`.
#[verifier::opaque]
pub open spec fn summarizes_upto(
    thread: PrivateMessageThread,
    messages: Seq<PrivateMessageView>,
    me: i32,
    n: int,
) -> bool {
    &&& exchanged_upto(messages, me, thread.other_participant, n)
    &&& thread.read == read_upto(messages, me, thread.other_participant.id, n)
    &&& is_last_upto(messages, me, thread.other_participant.id, n, thread.last_message)
}

/// Whether one of `threads` is the conversation that `message` belongs to.
pub open spec fn has_thread(
    threads: Seq<PrivateMessageThread>,
    message: PrivateMessageView,
    me: i32,
) -> bool {
    exists|l: int|
        0 <= l < threads.len() && (#[trigger] threads[l]).other_participant.id
            == other_participant(message, me).id
}

/// Whether no two of `threads` are conversations with the same user.
pub open spec fn distinct_participants(threads: Seq<PrivateMessageThread>) -> bool {
    forall|k: int, l: int|
        0 <= k < l < threads.len() ==> (#[trigger] threads[k]).other_participant.id
            != (#[trigger] threads[l]).other_participant.id
}

/// Whether `threads` are the conversations among the first `n` of
/// `messages`: one for each user with whom a message was exchanged, and no
/// two with the same user.
pub open spec fn is_grouping_upto(
    threads: Seq<PrivateMessageThread>,
    messages: Seq<PrivateMessageView>,
    me: i32,
    n: int,
) -> bool {
    &&& forall|k: int|
        0 <= k < threads.len() ==> summarizes_upto(#[trigger] threads[k], messages, me, n)
    &&& distinct_participants(threads)
    &&& forall|j: int| 0 <= j < n ==> has_thread(threads, #[trigger] messages[j], me)
}

/// Whether `threads` are the conversations among `messages`.
pub open spec fn is_grouping(
    threads: Seq<PrivateMessageThread>,
    messages: Seq<PrivateMessageView>,
    me: i32,
) -> bool {
    is_grouping_upto(threads, messages, me, messages.len() as int)
}

fn find_thread(threads: &Vec<PrivateMessageThread>, other: i32) -> (found: Option<usize>)
    ensures
        match found {
            Some(k) => k < threads@.len() && threads@[k as int].other_participant.id == other,
            None => forall|k: int|
                0 <= k < threads@.len() ==> (#[trigger] threads@[k]).other_participant.id != other,
        },
{
    let mut k: usize = 0;
    while k < threads.len()
        invariant
            k <= threads.len(),
            forall|l: int| 0 <= l < k ==> (#[trigger] threads@[l]).other_participant.id != other,
        decreases threads.len() - k,
    {
        if threads[k].other_participant.id == other {
            return Some(k);
        }
        k += 1;
    }
    None
}

/// A summary of a conversation stays one when a message of another
/// conversation is added.
proof fn lemma_other_thread_unaffected(
    thread: PrivateMessageThread,
    messages: Seq<PrivateMessageView>,
    me: i32,
    n: int,
)
    requires
        0 <= n < messages.len(),
        summarizes_upto(thread, messages, me, n),
        !in_thread(messages[n], me, thread.other_participant.id),
    ensures
        summarizes_upto(thread, messages, me, n + 1),
{
    reveal(summarizes_upto);
    let id = thread.other_participant.id;
    let j0 = choose|j: int|
        0 <= j < n && other_participant(#[trigger] messages[j], me) == thread.other_participant;
    assert(0 <= j0 < n + 1);
    assert(exchanged_upto(messages, me, thread.other_participant, n + 1));
    let j1 = choose|j: int|
        0 <= j < n && in_thread(#[trigger] messages[j], me, id)
            && messages[j].private_message.published == thread.last_message;
    assert(0 <= j1 < n + 1);
    assert(is_last_upto(messages, me, id, n + 1, thread.last_message));
    assert(read_upto(messages, me, id, n) == read_upto(messages, me, id, n + 1));
}

/// The summary of a conversation to which its next message is added.
proof fn lemma_thread_extended(
    thread: PrivateMessageThread,
    merged: PrivateMessageThread,
    messages: Seq<PrivateMessageView>,
    me: i32,
    n: int,
)
    requires
        0 <= n < messages.len(),
        summarizes_upto(thread, messages, me, n),
        in_thread(messages[n], me, thread.other_participant.id),
        merged.other_participant == thread.other_participant,
        merged.read == (thread.read && (messages[n].creator.id == me
            || messages[n].private_message.read)),
        merged.last_message == if thread.last_message.is_before(
            messages[n].private_message.published,
        ) {
            messages[n].private_message.published
        } else {
            thread.last_message
        },
    ensures
        summarizes_upto(merged, messages, me, n + 1),
{
    reveal(summarizes_upto);
    let id = thread.other_participant.id;
    let j0 = choose|j: int|
        0 <= j < n && other_participant(#[trigger] messages[j], me) == thread.other_participant;
    assert(0 <= j0 < n + 1);
    assert(exchanged_upto(messages, me, merged.other_participant, n + 1));
    let j1 = choose|j: int|
        0 <= j < n && in_thread(#[trigger] messages[j], me, id)
            && messages[j].private_message.published == thread.last_message;
    if thread.last_message.is_before(messages[n].private_message.published) {
        assert(in_thread(messages[n], me, id) && messages[n].private_message.published
            == merged.last_message);
        assert forall|j: int| 0 <= j < n + 1 && in_thread(#[trigger] messages[j], me, id)
            implies !merged.last_message.is_before(messages[j].private_message.published) by {
            if j < n {
                assert(!thread.last_message.is_before(messages[j].private_message.published));
            }
        }
    } else {
        assert(0 <= j1 < n + 1);
    }
    assert(is_last_upto(messages, me, id, n + 1, merged.last_message));
    if read_upto(messages, me, id, n + 1) {
        assert(read_upto(messages, me, id, n));
        assert(in_thread(messages[n], me, id));
    }
    assert(merged.read == read_upto(messages, me, id, n + 1));
}

/// The summary of a conversation that begins with the next message.
proof fn lemma_thread_begun(
    thread: PrivateMessageThread,
    messages: Seq<PrivateMessageView>,
    me: i32,
    n: int,
)
    requires
        0 <= n < messages.len(),
        forall|j: int|
            0 <= j < n ==> !in_thread(#[trigger] messages[j], me, thread.other_participant.id),
        thread.other_participant == other_participant(messages[n], me),
        thread.read == (messages[n].creator.id == me || messages[n].private_message.read),
        thread.last_message == messages[n].private_message.published,
    ensures
        summarizes_upto(thread, messages, me, n + 1),
{
    reveal(summarizes_upto);
    let id = thread.other_participant.id;
    assert(0 <= n < n + 1 && other_participant(messages[n], me) == thread.other_participant);
    assert(exchanged_upto(messages, me, thread.other_participant, n + 1));
    assert(in_thread(messages[n], me, id));
    assert(is_last_upto(messages, me, id, n + 1, thread.last_message));
    if thread.read {
        assert(read_upto(messages, me, id, n + 1));
    } else {
        assert(!read_upto(messages, me, id, n + 1));
    }
}

/// A message that has its conversation among `before` has it among
/// `after`, if the conversations of `before` are with the same users in `after`.
proof fn lemma_still_covered(
    before: Seq<PrivateMessageThread>,
    after: Seq<PrivateMessageThread>,
    message: PrivateMessageView,
    me: i32,
)
    requires
        before.len() <= after.len(),
        forall|l: int|
            0 <= l < before.len() ==> (#[trigger] after[l]).other_participant.id
                == before[l].other_participant.id,
        has_thread(before, message, me),
    ensures
        has_thread(after, message, me),
{
    let l = choose|l: int|
        0 <= l < before.len() && (#[trigger] before[l]).other_participant.id == other_participant(
            message,
            me,
        ).id;
    assert(after[l].other_participant.id == other_participant(message, me).id);
}

/// Adding the next message to the conversation that it belongs to keeps
/// the grouping.
proof fn lemma_grouping_extended(
    before: Seq<PrivateMessageThread>,
    merged: PrivateMessageThread,
    messages: Seq<PrivateMessageView>,
    me: i32,
    n: int,
    k: int,
)
    requires
        0 <= n < messages.len(),
        is_grouping_upto(before, messages, me, n),
        0 <= k < before.len(),
        in_thread(messages[n], me, before[k].other_participant.id),
        merged.other_participant == before[k].other_participant,
        merged.read == (before[k].read && (messages[n].creator.id == me
            || messages[n].private_message.read)),
        merged.last_message == if before[k].last_message.is_before(
            messages[n].private_message.published,
        ) {
            messages[n].private_message.published
        } else {
            before[k].last_message
        },
    ensures
        is_grouping_upto(before.update(k, merged), messages, me, n + 1),
{
    let after = before.update(k, merged);
    assert forall|l: int| 0 <= l < after.len() implies summarizes_upto(
        #[trigger] after[l],
        messages,
        me,
        n + 1,
    ) by {
        assert(summarizes_upto(before[l], messages, me, n));
        if l == k {
            lemma_thread_extended(before[k], merged, messages, me, n);
        } else {
            if l < k {
                assert(before[l].other_participant.id != before[k].other_participant.id);
            } else {
                assert(before[k].other_participant.id != before[l].other_participant.id);
            }
            lemma_other_thread_unaffected(before[l], messages, me, n);
        }
    }
    assert(distinct_participants(after)) by {
        assert forall|a: int, b: int| 0 <= a < b < after.len() implies (#[trigger] after[a]).other_participant.id
            != (#[trigger] after[b]).other_participant.id by {
            assert(before[a].other_participant.id != before[b].other_participant.id);
        }
    }
    assert forall|j: int| 0 <= j < n + 1 implies has_thread(after, #[trigger] messages[j], me) by {
        if j < n {
            lemma_still_covered(before, after, messages[j], me);
        } else {
            assert(after[k].other_participant.id == other_participant(messages[n], me).id);
        }
    }
}

/// Beginning a conversation with the next message, which belongs to none
/// so far, keeps the grouping.
proof fn lemma_grouping_begun(
    before: Seq<PrivateMessageThread>,
    thread: PrivateMessageThread,
    messages: Seq<PrivateMessageView>,
    me: i32,
    n: int,
)
    requires
        0 <= n < messages.len(),
        is_grouping_upto(before, messages, me, n),
        forall|l: int|
            0 <= l < before.len() ==> (#[trigger] before[l]).other_participant.id
                != thread.other_participant.id,
        thread.other_participant == other_participant(messages[n], me),
        thread.read == (messages[n].creator.id == me || messages[n].private_message.read),
        thread.last_message == messages[n].private_message.published,
    ensures
        is_grouping_upto(before.push(thread), messages, me, n + 1),
{
    let after = before.push(thread);
    let id = thread.other_participant.id;
    assert forall|j: int| 0 <= j < n implies !in_thread(#[trigger] messages[j], me, id) by {
        assert(has_thread(before, messages[j], me));
        let l = choose|l: int|
            0 <= l < before.len() && (#[trigger] before[l]).other_participant.id
                == other_participant(messages[j], me).id;
        assert(before[l].other_participant.id != id);
    }
    lemma_thread_begun(thread, messages, me, n);
    assert forall|l: int| 0 <= l < after.len() implies summarizes_upto(
        #[trigger] after[l],
        messages,
        me,
        n + 1,
    ) by {
        if l < before.len() {
            assert(after[l] == before[l]);
            assert(summarizes_upto(before[l], messages, me, n));
            assert(before[l].other_participant.id != id);
            lemma_other_thread_unaffected(before[l], messages, me, n);
        }
    }
    assert(distinct_participants(after)) by {
        assert forall|a: int, b: int| 0 <= a < b < after.len() implies (#[trigger] after[a]).other_participant.id
            != (#[trigger] after[b]).other_participant.id by {
            if b < before.len() {
                assert(before[a].other_participant.id != before[b].other_participant.id);
            } else {
                assert(before[a].other_participant.id != id);
            }
        }
    }
    assert forall|j: int| 0 <= j < n + 1 implies has_thread(after, #[trigger] messages[j], me) by {
        if j < n {
            lemma_still_covered(before, after, messages[j], me);
        } else {
            assert(after[before.len() as int].other_participant.id == other_participant(
                messages[n],
                me,
            ).id);
        }
    }
}

/// Gathers the visitor's private messages into conversations, in the
/// order in which their first messages come.
pub fn group_by_participant(messages: &Vec<PrivateMessageView>, my_user_id: i32) -> (threads: Vec<
    PrivateMessageThread,
>)
    ensures
        is_grouping(threads@, messages@, my_user_id),
{
    let me = my_user_id;
    let mut threads: Vec<PrivateMessageThread> = Vec::new();
    let mut i: usize = 0;
    while i < messages.len()
        invariant
            i <= messages.len(),
            is_grouping_upto(threads@, messages@, me, i as int),
        decreases messages.len() - i,
    {
        let message = &messages[i];
        let from_other = message.creator.id != me;
        let other = if from_other {
            &message.creator
        } else {
            &message.recipient
        };
        let read = !from_other || message.private_message.read;
        let published = message.private_message.published;
        let ghost before = threads@;
        match find_thread(&threads, other.id) {
            Some(k) => {
                let known = &threads[k];
                let last_message = if known.last_message.before(&published) {
                    published
                } else {
                    known.last_message
                };
                let merged = PrivateMessageThread {
                    other_participant: known.other_participant.clone(),
                    read: known.read && read,
                    last_message,
                };
                proof {
                    lemma_grouping_extended(before, merged, messages@, me, i as int, k as int);
                }
                threads.set(k, merged);
            },
            None => {
                let thread = PrivateMessageThread {
                    other_participant: other.clone(),
                    read,
                    last_message: published,
                };
                proof {
                    lemma_grouping_begun(before, thread, messages@, me, i as int);
                }
                threads.push(thread);
            },
        }
        i += 1;
    }
    threads
}

/// Whether `threads` is the overview of the visitor's conversations: the
/// conversations among `messages`, those with the newest messages first.
/// Conversations whose latest messages fall into the same second come in
/// no particular order.
pub open spec fn is_overview(
    threads: Seq<PrivateMessageThread>,
    messages: Seq<PrivateMessageView>,
    me: i32,
) -> bool {
    exists|grouped: Seq<PrivateMessageThread>|
        is_grouping(grouped, messages, me) && threads == #[trigger] stable_sort(grouped)
}

/// Whatever stands in a sorted list stands in the list that was sorted, and
/// the other way round.
proof fn lemma_sorted_holds_the_same(grouped: Seq<PrivateMessageThread>, thread: PrivateMessageThread)
    ensures
        stable_sort(grouped).contains(thread) <==> grouped.contains(thread),
{
    crate::sort::lemma_stable_sort_sorts(grouped);
    vstd::seq_lib::to_multiset_contains(stable_sort(grouped), thread);
    vstd::seq_lib::to_multiset_contains(grouped, thread);
}

/// The overview holds exactly one conversation for every user with whom
/// the visitor exchanged a message; each sums up all the messages exchanged
/// with that user; and none comes before one with a newer latest message.
pub proof fn lemma_overview_lists_each_partner_once(
    threads: Seq<PrivateMessageThread>,
    messages: Seq<PrivateMessageView>,
    me: i32,
)
    requires
        is_overview(threads, messages, me),
    ensures
        distinct_participants(threads),
        forall|k: int|
            0 <= k < threads.len() ==> summarizes_upto(
                #[trigger] threads[k],
                messages,
                me,
                messages.len() as int,
            ),
        forall|j: int| 0 <= j < messages.len() ==> has_thread(threads, #[trigger] messages[j], me),
        forall|k: int, l: int|
            0 <= k <= l < threads.len() ==> threads[k].last_message.secs
                >= threads[l].last_message.secs,
{
    let grouped = choose|grouped: Seq<PrivateMessageThread>|
        is_grouping(grouped, messages, me) && threads == #[trigger] stable_sort(grouped);
    crate::sort::lemma_stable_sort_sorts(grouped);
    assert forall|k: int| 0 <= k < threads.len() implies summarizes_upto(
        #[trigger] threads[k],
        messages,
        me,
        messages.len() as int,
    ) by {
        assert(threads.contains(threads[k]));
        lemma_sorted_holds_the_same(grouped, threads[k]);
        let x = choose|x: int| 0 <= x < grouped.len() && grouped[x] == threads[k];
        assert(summarizes_upto(grouped[x], messages, me, messages.len() as int));
    }
    assert forall|j: int| 0 <= j < messages.len() implies has_thread(
        threads,
        #[trigger] messages[j],
        me,
    ) by {
        assert(has_thread(grouped, messages[j], me));
        let l = choose|l: int|
            0 <= l < grouped.len() && (#[trigger] grouped[l]).other_participant.id
                == other_participant(messages[j], me).id;
        assert(grouped.contains(grouped[l]));
        lemma_sorted_holds_the_same(grouped, grouped[l]);
        let k = choose|k: int| 0 <= k < threads.len() && threads[k] == grouped[l];
        assert(threads[k].other_participant.id == other_participant(messages[j], me).id);
    }
    assert(grouped.no_duplicates()) by {
        assert forall|i: int, j: int|
            0 <= i < grouped.len() && 0 <= j < grouped.len() && i != j implies grouped[i]
            != grouped[j] by {
            if i < j {
                assert(grouped[i].other_participant.id != grouped[j].other_participant.id);
            } else {
                assert(grouped[j].other_participant.id != grouped[i].other_participant.id);
            }
        }
    }
    grouped.lemma_multiset_has_no_duplicates();
    threads.lemma_multiset_has_no_duplicates_conv();
    assert(distinct_participants(threads)) by {
        assert forall|a: int, b: int| 0 <= a < b < threads.len() implies (#[trigger] threads[a]).other_participant.id
            != (#[trigger] threads[b]).other_participant.id by {
            assert(threads.contains(threads[a]));
            assert(threads.contains(threads[b]));
            lemma_sorted_holds_the_same(grouped, threads[a]);
            lemma_sorted_holds_the_same(grouped, threads[b]);
            let x = choose|x: int| 0 <= x < grouped.len() && grouped[x] == threads[a];
            let y = choose|y: int| 0 <= y < grouped.len() && grouped[y] == threads[b];
            assert(threads[a] != threads[b]);
            if x < y {
                assert(grouped[x].other_participant.id != grouped[y].other_participant.id);
            } else if y < x {
                assert(grouped[y].other_participant.id != grouped[x].other_participant.id);
            }
        }
    }
    assert forall|k: int, l: int| 0 <= k <= l < threads.len() implies threads[k].last_message.secs
        >= threads[l].last_message.secs by {
        assert(threads[k].key() <= threads[l].key());
    }
}

/// The overview of the visitor's conversations, from all of the visitor's
/// private messages. The visitor has the number `my_user_id`.
pub fn private_messages_list(messages: &Vec<PrivateMessageView>, my_user_id: i32) -> (threads: Vec<
    PrivateMessageThread,
>)
    ensures
        is_overview(threads@, messages@, my_user_id),
        forall|k: int, l: int|
            0 <= k <= l < threads@.len() ==> threads@[k].last_message.secs
                >= threads@[l].last_message.secs,
{
    let grouped = group_by_participant(messages, my_user_id);
    let threads = sort_by_key(grouped);
    assert forall|k: int, l: int| 0 <= k <= l < threads@.len() implies threads@[k].last_message.secs
        >= threads@[l].last_message.secs by {
        assert(threads@[k].key() <= threads@[l].key());
    }
    threads
}

impl Keyed for PrivateMessageView {
    open spec fn key(&self) -> int {
        self.private_message.published.instant()
    }

    fn key_lt(&self, other: &PrivateMessageView) -> (smaller: bool) {
        self.private_message.published.before(&other.private_message.published)
    }
}

/// Whether the user with number `other` sent or received `message`.
pub open spec fn involves(message: PrivateMessageView, other: i32) -> bool {
    message.creator.id == other || message.recipient.id == other
}

/// The conversation with the user `other`: the messages that they sent or
/// received, oldest first.
pub open spec fn conversation(messages: Seq<PrivateMessageView>, other: i32) -> Seq<
    PrivateMessageView,
> {
    stable_sort(messages.filter(|message: PrivateMessageView| involves(message, other)))
}

/// Picks the conversation with the user with number `u` out of all of the
/// visitor's private messages.
pub fn private_messages_thread(u: i32, messages: Vec<PrivateMessageView>) -> (thread: Vec<
    PrivateMessageView,
>)
    ensures
        thread@ == conversation(messages@, u),
{
    let ghost all = messages@;
    let ghost wanted = |message: PrivateMessageView| involves(message, u);
    let mut rest = reverse(messages);
    let mut kept: Vec<PrivateMessageView> = Vec::new();
    assert(all.take(0) =~= Seq::<PrivateMessageView>::empty());
    while rest.len() > 0
        invariant
            rest@ == all.reverse().take(rest@.len() as int),
            rest@.len() <= all.len(),
            wanted == |message: PrivateMessageView| involves(message, u),
            kept@ == all.take(all.len() - rest@.len()).filter(wanted),
        decreases rest.len(),
    {
        let ghost done = all.len() - rest@.len();
        let message = rest.pop().unwrap();
        proof {
            assert(message == all[done]);
            assert(all.take(done + 1) =~= all.take(done).push(all[done]));
            all.take(done).lemma_filter_push(all[done], wanted);
        }
        if message.creator.id == u || message.recipient.id == u {
            kept.push(message);
        }
    }
    assert(all.take(all.len() as int) =~= all);
    sort_by_key(kept)
}

/// Whether `message` is one that the visitor has yet to read: it is not
/// marked as read, and the visitor did not send it.
pub open spec fn is_unread(message: PrivateMessageView, me: i32) -> bool {
    !message.private_message.read && message.creator.id != me
}

/// The call that marks `message` as read.
pub open spec fn mark_call(message: PrivateMessageView, auth: Sensitive) -> ApiCall {
    ApiCall::MarkPrivateMessageAsRead {
        private_message_id: message.private_message.id,
        read: true,
        auth,
    }
}

/// Whether `calls` mark as read every message of `thread` that the visitor
/// has yet to read, in their order, and nothing else.
pub open spec fn marks_unread(
    calls: Seq<ApiCall>,
    thread: Seq<PrivateMessageView>,
    me: i32,
    auth: Sensitive,
) -> bool {
    calls == thread.filter(|message: PrivateMessageView| is_unread(message, me)).map_values(
        |message: PrivateMessageView| mark_call(message, auth),
    )
}

/// The calls that mark a conversation as read once it is shown.
pub fn mark_read_calls(thread: &Vec<PrivateMessageView>, my_user_id: i32, auth: &Sensitive) -> (calls:
    Vec<ApiCall>)
    ensures
        marks_unread(calls@, thread@, my_user_id, *auth),
{
    let ghost unread = |message: PrivateMessageView| is_unread(message, my_user_id);
    let ghost mark = |message: PrivateMessageView| mark_call(message, *auth);
    let mut calls: Vec<ApiCall> = Vec::new();
    let mut i: usize = 0;
    assert(thread@.take(0) =~= Seq::<PrivateMessageView>::empty());
    assert(Seq::<PrivateMessageView>::empty().filter(unread).map_values(mark) =~= Seq::<
        ApiCall,
    >::empty());
    while i < thread.len()
        invariant
            i <= thread.len(),
            unread == |message: PrivateMessageView| is_unread(message, my_user_id),
            mark == |message: PrivateMessageView| mark_call(message, *auth),
            calls@ == thread@.take(i as int).filter(unread).map_values(mark),
        decreases thread.len() - i,
    {
        let message = &thread[i];
        proof {
            assert(thread@.take(i + 1) =~= thread@.take(i as int).push(thread@[i as int]));
            thread@.take(i as int).lemma_filter_push(thread@[i as int], unread);
            let kept = thread@.take(i as int).filter(unread);
            assert(kept.push(thread@[i as int]).map_values(mark) =~= kept.map_values(mark).push(
                mark(thread@[i as int]),
            ));
        }
        if !message.private_message.read && message.creator.id != my_user_id {
            calls.push(mark_private_message_read(message.private_message.id, auth.duplicate()));
        }
        i += 1;
    }
    assert(thread@.take(i as int) =~= thread@);
    calls
}

/// The call that fetches the user to whom a message is written.
pub fn private_message_editor(u: i32, auth: Option<Sensitive>) -> (call: ApiCall)
    ensures
        call == (ApiCall::GetPersonDetails { username: None, person_id: Some(u), auth }),
{
    get_person(NameOrId::Id(u), auth)
}

/// What the editor for a private message sends.
pub struct PrivateMessageForm {
    pub message: String,
    pub preview: Option<String>,
}

/// What is done with a private message that the editor sent.
pub enum SendStep {
    /// Show the editor again, with this text.
    Preview(String),
    /// Make this call, then show the conversation.
    Send(ApiCall),
}

/// Decides what is done with a private message for the user with number
/// `u`. Its smilies are replaced by pictures. A preview shows the editor
/// again; else the message is sent; the visitor is logged in then.
pub fn do_send_private_message(u: i32, form: PrivateMessageForm, site_data: &SiteData) -> (step:
    SendStep)
    requires
        site_data.site.actor_domain is Some,
        form.preview is None ==> site_data.auth is Some,
    ensures
        ({
            let text = with_smilies(
                form.message@,
                origin(site_data.site.actor_scheme@, site_data.site.actor_domain->0@),
            );
            match form.preview {
                Some(_) => step matches SendStep::Preview(message) && message@ == text,
                None => step matches SendStep::Send(
                    ApiCall::CreatePrivateMessage { content, recipient_id, auth },
                ) && content@ == text && recipient_id == u && auth == site_data.auth->0,
            }
        }),
{
    let message = replace_smilies(form.message.as_str(), site_data);
    if form.preview.is_some() {
        return SendStep::Preview(message);
    }
    let auth = match &site_data.auth {
        Some(auth) => auth.duplicate(),
        None => vstd::pervasive::unreached(),
    };
    SendStep::Send(create_private_message(message, u, auth))
}

/// The page of the conversation with the user with number `u`.
pub open spec fn thread_page(u: int) -> Seq<char> {
    "/private_messages_thread?u="@ + decimal(u)
}

/// The page to which the visitor is sent after a message to the user
/// with number `u` is sent.
pub fn sent_redirect(u: i32) -> (page: String)
    ensures
        page@ == thread_page(u as int),
{
    concat_int("/private_messages_thread?u=", u)
}

} // verus!

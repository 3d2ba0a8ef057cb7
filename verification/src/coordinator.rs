use vstd::prelude::*;
use vstd::pervasive::unreached;
use crate::message::{IncomingMessage, StoredMessage};
use crate::store::MessageStore;
use crate::detect::spec_find_duplicate;
use crate::filter::ChannelFilter;
use crate::reply::{duplicate_reply, spec_duplicate_reply};

verus! {

/// A pluggable per-message moderation rule: when a message's author
/// matches `author_id`, the canned `reply` is sent before the message
/// is persisted.
pub struct ModerationRule {
    pub author_id: String,
    pub reply: String,
}

impl Clone for ModerationRule {
    fn clone(&self) -> (r: Self)
        ensures
            r == *self,
    {
        ModerationRule { author_id: self.author_id.clone(), reply: self.reply.clone() }
    }
}

/// The replies of the rules whose author matches, in rule order.
pub open spec fn rule_replies(rules: Seq<ModerationRule>, author: Seq<char>) -> Seq<Seq<char>>
    decreases rules.len(),
{
    if rules.len() == 0 {
        Seq::empty()
    } else if rules.last().author_id@ == author {
        rule_replies(rules.drop_last(), author).push(rules.last().reply@)
    } else {
        rule_replies(rules.drop_last(), author)
    }
}

/// Evaluate every rule against the author and append the replies of
/// the matching ones, in rule order, to `out`.
pub fn push_rule_replies(rules: &Vec<ModerationRule>, author_id: &str, out: &mut Vec<String>)
    ensures
        final(out).deep_view() == old(out).deep_view() + rule_replies(rules@, author_id@),
{
    let needle = author_id.to_owned();
    let n = rules.len();
    let mut i: usize = 0;
    proof {
        assert(out.deep_view() =~= out.deep_view() + rule_replies(
            rules@.take(0),
            author_id@,
        ));
    }
    while i < n
        invariant
            n == rules@.len(),
            i <= n,
            needle@ == author_id@,
            out.deep_view() == old(out).deep_view() + rule_replies(rules@.take(i as int), author_id@),
        decreases n - i,
    {
        proof {
            assert(rules@.take(i as int + 1).drop_last() =~= rules@.take(i as int));
            assert(rules@.take(i as int + 1).last() == rules@[i as int]);
        }
        if rules[i].author_id == needle {
            let ghost before = out.deep_view();
            out.push(rules[i].reply.clone());
            proof {
                assert(out.deep_view() =~= before.push(rules@[i as int].reply@));
            }
        }
        i += 1;
    }
    proof {
        assert(rules@.take(n as int) =~= rules@);
    }
}

/// All canned replies the moderation rules owe to the given author,
/// in rule order.
pub fn collect_rule_replies(rules: &Vec<ModerationRule>, author_id: &str) -> (r: Vec<String>)
    ensures
        r.deep_view() == rule_replies(rules@, author_id@),
{
    let mut out: Vec<String> = Vec::new();
    proof {
        assert(out.deep_view() =~= Seq::<Seq<char>>::empty());
    }
    push_rule_replies(rules, author_id, &mut out);
    proof {
        assert(Seq::<Seq<char>>::empty() + rule_replies(rules@, author_id@) =~= rule_replies(
            rules@,
            author_id@,
        ));
    }
    out
}

/// An event is accepted for processing iff its author is not an
/// automated account and its channel is monitored.
pub open spec fn spec_accepted(filter: ChannelFilter, msg: IncomingMessage) -> bool {
    &&& !msg.is_bot
    &&& filter.spec_monitors(msg.channel_id@)
}

/// An accepted event is persisted iff it carries a guild context.
pub open spec fn spec_persists(filter: ChannelFilter, msg: IncomingMessage) -> bool {
    &&& spec_accepted(filter, msg)
    &&& msg.guild_id is Some
}

/// The replies the pipeline owes for one event against store contents
/// `s`: nothing for a rejected event; otherwise the duplicate notice
/// (if the detector finds a match) followed, for guild-scoped
/// messages, by the canned replies of the matching moderation rules.
pub open spec fn spec_replies(
    s: Seq<StoredMessage>,
    filter: ChannelFilter,
    rules: Seq<ModerationRule>,
    msg: IncomingMessage,
) -> Seq<Seq<char>> {
    if !spec_accepted(filter, msg) {
        Seq::empty()
    } else {
        (match spec_find_duplicate(s, msg.content@) {
            Some(m) => seq![spec_duplicate_reply(m)],
            None => Seq::empty(),
        }) + (if msg.guild_id is Some {
            rule_replies(rules, msg.author_id@)
        } else {
            Seq::empty()
        })
    }
}

/// What one processed event did: the replies to deliver, in order, and
/// the record persisted for it, if any.
pub struct Outcome {
    pub replies: Vec<String>,
    pub stored: Option<StoredMessage>,
}

/// The first pipeline phase: filtering, duplicate detection and reply
/// planning. Reads the store, never writes it; the replies cite only
/// records present before the current message is persisted.
pub struct Plan {
    pub replies: Vec<String>,
    pub persist: bool,
}

/// Phase one of the per-message pipeline: decide which replies the
/// event owes and whether it is to be persisted, against the store as
/// it stands. Takes the store read-only, so detection can never see
/// the current message itself.
pub fn detect_and_notify(
    store: &MessageStore,
    filter: &ChannelFilter,
    rules: &Vec<ModerationRule>,
    msg: &IncomingMessage,
) -> (p: Plan)
    ensures
        p.replies.deep_view() == spec_replies(store@, *filter, rules@, *msg),
        p.persist == spec_persists(*filter, *msg),
{
    if msg.is_bot || !filter.is_monitored(msg.channel_id.as_str()) {
        let p = Plan { replies: Vec::new(), persist: false };
        proof {
            assert(p.replies.deep_view() =~= spec_replies(store@, *filter, rules@, *msg));
        }
        return p;
    }
    let mut replies: Vec<String> = Vec::new();
    match store.find_duplicate(msg.content.as_str()) {
        Some(m) => {
            let text = duplicate_reply(&m);
            replies.push(text);
        },
        None => {},
    }
    let ghost dup_part = match spec_find_duplicate(store@, msg.content@) {
        Some(m) => seq![spec_duplicate_reply(m)],
        None => Seq::<Seq<char>>::empty(),
    };
    proof {
        assert(replies.deep_view() =~= dup_part);
    }
    if msg.guild_id.is_some() {
        push_rule_replies(rules, msg.author_id.as_str(), &mut replies);
        let p = Plan { replies, persist: true };
        return p;
    }
    proof {
        assert(replies.deep_view() =~= replies.deep_view() + Seq::<Seq<char>>::empty());
    }
    Plan { replies, persist: false }
}

/// Phase two of the per-message pipeline: persist an accepted,
/// guild-scoped message. Appends exactly one record carrying the
/// event's identifiers and content; prior records are untouched.
pub fn persist_message(store: &mut MessageStore, msg: &IncomingMessage) -> (m: StoredMessage)
    requires
        old(store).wf(),
        old(store)@.len() < u64::MAX,
        msg.guild_id is Some,
    ensures
        final(store).wf(),
        final(store)@ == old(store)@.push(m),
        m.id == old(store)@.len() + 1,
        m.guild_id == msg.guild_id.unwrap(),
        m.channel_id == msg.channel_id,
        m.platform_message_id == msg.platform_message_id,
        m.author_id == msg.author_id,
        m.content == msg.content,
        m.image_hash is None,
{
    let guild_id = match &msg.guild_id {
        Some(g) => g.clone(),
        None => unreached(),
    };
    store.insert(
        guild_id,
        msg.channel_id.clone(),
        msg.platform_message_id.clone(),
        msg.author_id.clone(),
        msg.content.clone(),
    )
}

/// The per-message pipeline: filter, then detect-and-notify against
/// the store as it stood on arrival, then persist. A rejected event
/// (automated author, unmonitored channel) leaves the store untouched
/// and owes no reply; a guild-less event may still be answered but is
/// never persisted; an accepted guild-scoped message is always
/// persisted, duplicate or not, so that later duplicates can cite it.
pub fn process_message(
    store: &mut MessageStore,
    filter: &ChannelFilter,
    rules: &Vec<ModerationRule>,
    msg: &IncomingMessage,
) -> (o: Outcome)
    requires
        old(store).wf(),
        old(store)@.len() < u64::MAX,
    ensures
        final(store).wf(),
        o.replies.deep_view() == spec_replies(old(store)@, *filter, rules@, *msg),
        spec_persists(*filter, *msg) ==> {
            &&& o.stored is Some
            &&& final(store)@ == old(store)@.push(o.stored.unwrap())
            &&& o.stored.unwrap().id == old(store)@.len() + 1
            &&& o.stored.unwrap().guild_id == msg.guild_id.unwrap()
            &&& o.stored.unwrap().channel_id == msg.channel_id
            &&& o.stored.unwrap().platform_message_id == msg.platform_message_id
            &&& o.stored.unwrap().author_id == msg.author_id
            &&& o.stored.unwrap().content == msg.content
            &&& o.stored.unwrap().image_hash is None
        },
        !spec_persists(*filter, *msg) ==> final(store)@ == old(store)@ && o.stored is None,
        msg.is_bot ==> o.replies@.len() == 0,
        !filter.spec_monitors(msg.channel_id@) ==> o.replies@.len() == 0,
{
    let plan = detect_and_notify(store, filter, rules, msg);
    let stored = if plan.persist {
        Some(persist_message(store, msg))
    } else {
        None
    };
    Outcome { replies: plan.replies, stored }
}

} // verus!

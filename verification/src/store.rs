use vstd::prelude::*;
use crate::message::StoredMessage;
use crate::detect::{find_duplicate_in, spec_find_duplicate, MIN_DUPLICATE_LEN};

verus! {

/// The records of `s` whose content is exactly `c`, oldest first.
pub open spec fn matching(s: Seq<StoredMessage>, c: Seq<char>) -> Seq<StoredMessage>
    decreases s.len(),
{
    if s.len() == 0 {
        Seq::empty()
    } else if s.last().content@ == c {
        matching(s.drop_last(), c).push(s.last())
    } else {
        matching(s.drop_last(), c)
    }
}

/// Identifiers are assigned sequentially from 1 in insertion order.
pub open spec fn ids_sequential(s: Seq<StoredMessage>) -> bool {
    forall|i: int| 0 <= i < s.len() ==> (#[trigger] s[i]).id == i + 1
}

/// Identifiers are strictly increasing in insertion order.
pub open spec fn ids_increasing(s: Seq<StoredMessage>) -> bool {
    forall|i: int, j: int| 0 <= i < j < s.len() ==> s[i].id < s[j].id
}

pub proof fn lemma_sequential_implies_increasing(s: Seq<StoredMessage>)
    requires
        ids_sequential(s),
    ensures
        ids_increasing(s),
{
}

/// Durable append-only log of observed messages, queryable by exact
/// content. Records are immutable once stored: the only operation that
/// changes the store appends one record and assigns it the next
/// identifier.
pub struct MessageStore {
    records: Vec<StoredMessage>,
}

impl View for MessageStore {
    type V = Seq<StoredMessage>;

    closed spec fn view(&self) -> Seq<StoredMessage> {
        self.records@
    }
}

impl MessageStore {
    pub open spec fn wf(self) -> bool {
        ids_sequential(self@)
    }

    pub fn new() -> (s: MessageStore)
        ensures
            s.wf(),
            s@ == Seq::<StoredMessage>::empty(),
    {
        MessageStore { records: Vec::new() }
    }

    pub fn len(&self) -> (n: usize)
        ensures
            n == self@.len(),
    {
        self.records.len()
    }

    /// Persists one new record and returns it fully populated,
    /// including its assigned identifier. Prior records are untouched:
    /// the new state is exactly the old state with one record appended.
    pub fn insert(
        &mut self,
        guild_id: String,
        channel_id: String,
        platform_message_id: String,
        author_id: String,
        content: String,
    ) -> (m: StoredMessage)
        requires
            old(self).wf(),
            old(self)@.len() < u64::MAX,
        ensures
            final(self).wf(),
            final(self)@ == old(self)@.push(m),
            m.id == old(self)@.len() + 1,
            m.guild_id == guild_id,
            m.channel_id == channel_id,
            m.platform_message_id == platform_message_id,
            m.author_id == author_id,
            m.content == content,
            m.image_hash is None,
    {
        let id = (self.records.len() as u64) + 1;
        let m = StoredMessage {
            id,
            guild_id,
            channel_id,
            platform_message_id,
            author_id,
            content,
            image_hash: None,
        };
        let record = m.clone();
        self.records.push(record);
        m
    }

    /// All records whose content is exactly `content`, oldest first.
    /// Read-only.
    pub fn query_by_content(&self, content: &str) -> (r: Vec<StoredMessage>)
        ensures
            r@ == matching(self@, content@),
    {
        let needle = content.to_owned();
        let n = self.records.len();
        let mut r: Vec<StoredMessage> = Vec::new();
        let mut i: usize = 0;
        while i < n
            invariant
                n == self@.len(),
                i <= n,
                needle@ == content@,
                r@ == matching(self@.take(i as int), content@),
            decreases n - i,
        {
            proof {
                assert(self@.take(i as int + 1).drop_last() =~= self@.take(i as int));
                assert(self@.take(i as int + 1).last() == self@[i as int]);
            }
            if self.records[i].content == needle {
                r.push(self.records[i].clone());
            }
            i += 1;
        }
        proof {
            assert(self@.take(n as int) =~= self@);
        }
        r
    }

    /// Duplicate lookup against everything stored so far: none for
    /// content shorter than the minimum length, otherwise the oldest
    /// record with exactly equal content. Read-only.
    pub fn find_duplicate(&self, content: &str) -> (r: Option<StoredMessage>)
        ensures
            r == spec_find_duplicate(self@, content@),
            content@.len() < MIN_DUPLICATE_LEN ==> r is None,
    {
        find_duplicate_in(&self.records, content)
    }
}

/// Appending a record whose content differs from `c` leaves the query
/// result for `c` unchanged: an insert never mutates or removes prior
/// records, and unaffected content queries read the same before and
/// after.
pub proof fn lemma_query_unaffected_by_insert(s: Seq<StoredMessage>, m: StoredMessage, c: Seq<char>)
    requires
        m.content@ != c,
    ensures
        matching(s.push(m), c) == matching(s, c),
{
    assert(s.push(m).drop_last() =~= s);
}

} // verus!

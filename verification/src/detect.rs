use vstd::prelude::*;
use vstd::string::StrSliceExecFns;
use crate::message::StoredMessage;
use crate::store::{ids_increasing, lemma_sequential_implies_increasing, MessageStore};

verus! {

/// Content shorter than this many characters is never checked for
/// duplicates and never reported as one: short strings (greetings,
/// emoji, single words) give too many false positives to be useful.
pub const MIN_DUPLICATE_LEN: usize = 8;

/// The earliest record of `s` whose content is exactly `c`.
pub open spec fn first_match(s: Seq<StoredMessage>, c: Seq<char>) -> Option<StoredMessage>
    decreases s.len(),
{
    if s.len() == 0 {
        None
    } else if s.first().content@ == c {
        Some(s.first())
    } else {
        first_match(s.drop_first(), c)
    }
}

/// What the duplicate detector returns: nothing for short content,
/// otherwise the earliest record with exactly equal content.
pub open spec fn spec_find_duplicate(s: Seq<StoredMessage>, c: Seq<char>) -> Option<StoredMessage> {
    if c.len() < MIN_DUPLICATE_LEN {
        None
    } else {
        first_match(s, c)
    }
}

proof fn lemma_first_match_none(s: Seq<StoredMessage>, c: Seq<char>)
    requires
        forall|j: int| 0 <= j < s.len() ==> (#[trigger] s[j]).content@ != c,
    ensures
        first_match(s, c) is None,
    decreases s.len(),
{
    if s.len() > 0 {
        assert(forall|j: int| 0 <= j < s.drop_first().len()
            ==> (#[trigger] s.drop_first()[j]).content@ != c) by {
            assert(forall|j: int| 0 <= j < s.drop_first().len()
                ==> s.drop_first()[j] == s[j + 1]);
        }
        lemma_first_match_none(s.drop_first(), c);
    }
}

proof fn lemma_first_match_at(s: Seq<StoredMessage>, c: Seq<char>, i: int)
    requires
        0 <= i < s.len(),
        s[i].content@ == c,
        forall|j: int| 0 <= j < i ==> (#[trigger] s[j]).content@ != c,
    ensures
        first_match(s, c) == Some(s[i]),
    decreases i,
{
    if i == 0 {
        assert(s.first() == s[0]);
    } else {
        assert(s[0].content@ != c);
        assert(s.drop_first()[i - 1] == s[i]);
        assert(forall|j: int| 0 <= j < i - 1 ==> (#[trigger] s.drop_first()[j]).content@ != c) by {
            assert(forall|j: int| 0 <= j < i - 1 ==> s.drop_first()[j] == s[j + 1]);
        }
        lemma_first_match_at(s.drop_first(), c, i - 1);
    }
}

/// Scan `rows` (oldest first) for the earliest exact-content match,
/// skipping content below the minimum length.
pub fn find_duplicate_in(rows: &Vec<StoredMessage>, content: &str) -> (r: Option<StoredMessage>)
    ensures
        r == spec_find_duplicate(rows@, content@),
        content@.len() < MIN_DUPLICATE_LEN ==> r is None,
{
    if content.unicode_len() < MIN_DUPLICATE_LEN {
        return None;
    }
    let needle = content.to_owned();
    let n = rows.len();
    let mut i: usize = 0;
    while i < n
        invariant
            n == rows@.len(),
            i <= n,
            needle@ == content@,
            content@.len() >= MIN_DUPLICATE_LEN,
            forall|j: int| 0 <= j < i ==> (#[trigger] rows@[j]).content@ != content@,
        decreases n - i,
    {
        if rows[i].content == needle {
            proof {
                lemma_first_match_at(rows@, content@, i as int);
            }
            return Some(rows[i].clone());
        }
        i += 1;
    }
    proof {
        lemma_first_match_none(rows@, content@);
    }
    None
}

/// The detector cites the oldest occurrence: whenever some record of a
/// store with strictly increasing identifiers carries content `c` of at
/// least the minimum length, the detector returns a record with that
/// content whose identifier is the smallest among all records carrying
/// `c`.
pub proof fn lemma_find_duplicate_returns_oldest(s: Seq<StoredMessage>, c: Seq<char>)
    requires
        ids_increasing(s),
        c.len() >= MIN_DUPLICATE_LEN,
        exists|i: int| 0 <= i < s.len() && (#[trigger] s[i]).content@ == c,
    ensures
        spec_find_duplicate(s, c) is Some,
        s.contains(spec_find_duplicate(s, c).unwrap()),
        spec_find_duplicate(s, c).unwrap().content@ == c,
        forall|i: int| 0 <= i < s.len() && (#[trigger] s[i]).content@ == c
            ==> spec_find_duplicate(s, c).unwrap().id <= s[i].id,
    decreases s.len(),
{
    if s.first().content@ == c {
        assert(first_match(s, c) == Some(s[0]));
        assert(s.contains(s[0]));
        assert(forall|i: int| 0 < i < s.len() ==> s[0].id < (#[trigger] s[i]).id);
    } else {
        let t = s.drop_first();
        let i0 = choose|i: int| 0 <= i < s.len() && (#[trigger] s[i]).content@ == c;
        assert(i0 != 0);
        assert(forall|j: int| 0 <= j < t.len() ==> #[trigger] t[j] == s[j + 1]);
        assert(t[i0 - 1].content@ == c);
        assert(ids_increasing(t));
        lemma_find_duplicate_returns_oldest(t, c);
        let m = spec_find_duplicate(t, c).unwrap();
        assert(spec_find_duplicate(s, c) == Some(m));
        let k = choose|k: int| 0 <= k < t.len() && t[k] == m;
        assert(s[k + 1] == m);
        assert(s.contains(m));
        assert(forall|i: int| 0 <= i < s.len() && (#[trigger] s[i]).content@ == c
            ==> m.id <= s[i].id) by {
            assert(forall|i: int| 0 < i < s.len() && (#[trigger] s[i]).content@ == c
                ==> t[i - 1].content@ == c && t[i - 1].id == s[i].id);
        }
    }
}

/// [`lemma_find_duplicate_returns_oldest`] read against a well-formed
/// store: whenever content `c` of at least the minimum length is
/// stored at all, `MessageStore::find_duplicate` returns a stored
/// record carrying `c` whose identifier is the smallest among all
/// records carrying `c`.
pub proof fn lemma_store_duplicate_is_oldest(store: MessageStore, c: Seq<char>)
    requires
        store.wf(),
        c.len() >= MIN_DUPLICATE_LEN,
        exists|i: int| 0 <= i < store@.len() && (#[trigger] store@[i]).content@ == c,
    ensures
        spec_find_duplicate(store@, c) is Some,
        store@.contains(spec_find_duplicate(store@, c).unwrap()),
        spec_find_duplicate(store@, c).unwrap().content@ == c,
        forall|i: int| 0 <= i < store@.len() && (#[trigger] store@[i]).content@ == c
            ==> spec_find_duplicate(store@, c).unwrap().id <= store@[i].id,
{
    lemma_sequential_implies_increasing(store@);
    lemma_find_duplicate_returns_oldest(store@, c);
}

/// A message is never reported as a duplicate of itself: detection runs
/// against the store as it stood before the message is persisted, so
/// when no prior record carries the message's content, no duplicate is
/// reported at all.
pub proof fn lemma_no_self_duplicate(s: Seq<StoredMessage>, c: Seq<char>)
    requires
        forall|i: int| 0 <= i < s.len() ==> (#[trigger] s[i]).content@ != c,
    ensures
        spec_find_duplicate(s, c) is None,
{
    if c.len() >= MIN_DUPLICATE_LEN {
        lemma_first_match_none(s, c);
    }
}

} // verus!

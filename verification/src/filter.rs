use vstd::prelude::*;
use vstd::string::StrSliceExecFns;

verus! {

/// Helper for [`split_commas`]: splits `s`, with `cur` the piece read
/// so far and `acc` the pieces already completed.
pub open spec fn split_commas_rec(s: Seq<char>, cur: Seq<char>, acc: Seq<Seq<char>>) -> Seq<
    Seq<char>,
>
    decreases s.len(),
{
    if s.len() == 0 {
        acc.push(cur)
    } else if s.first() == ',' {
        split_commas_rec(s.drop_first(), Seq::empty(), acc.push(cur))
    } else {
        split_commas_rec(s.drop_first(), cur.push(s.first()), acc)
    }
}

/// The comma-separated pieces of `s`, in order. An empty input yields
/// no pieces at all: an empty or missing configuration value monitors
/// nothing (fail closed).
pub open spec fn split_commas(s: Seq<char>) -> Seq<Seq<char>> {
    if s.len() == 0 {
        Seq::empty()
    } else {
        split_commas_rec(s, Seq::empty(), Seq::empty())
    }
}

/// The configured allow-list of monitored channels. Only events from
/// channels on the list are processed; membership is exact string
/// match.
pub struct ChannelFilter {
    channels: Vec<String>,
}

impl ChannelFilter {
    /// The allow-list as a sequence of channel identifiers.
    pub closed spec fn allow_list(self) -> Seq<Seq<char>> {
        self.channels.deep_view()
    }

    /// True iff `c` is on the allow-list.
    pub open spec fn spec_monitors(self, c: Seq<char>) -> bool {
        self.allow_list().contains(c)
    }

    /// Build the filter from an already-split list of identifiers.
    pub fn new(channels: Vec<String>) -> (f: ChannelFilter)
        ensures
            f.allow_list() == channels.deep_view(),
    {
        ChannelFilter { channels }
    }

    /// Parse a comma-delimited configuration value into the filter.
    /// An empty value monitors nothing.
    pub fn from_config(config: &str) -> (f: ChannelFilter)
        ensures
            f.allow_list() == split_commas(config@),
    {
        let n = config.unicode_len();
        if n == 0 {
            let f = ChannelFilter { channels: Vec::new() };
            proof {
                assert(f.allow_list() =~= split_commas(config@));
            }
            return f;
        }
        let mut channels: Vec<String> = Vec::new();
        let mut start: usize = 0;
        let mut i: usize = 0;
        proof {
            assert(config@.skip(0) =~= config@);
            assert(config@.subrange(0, 0) =~= Seq::<char>::empty());
            assert(channels.deep_view() =~= Seq::<Seq<char>>::empty());
        }
        while i < n
            invariant
                n == config@.len(),
                start <= i <= n,
                split_commas_rec(
                    config@.skip(i as int),
                    config@.subrange(start as int, i as int),
                    channels.deep_view(),
                ) == split_commas_rec(config@, Seq::empty(), Seq::empty()),
            decreases n - i,
        {
            proof {
                assert(config@.skip(i as int).first() == config@[i as int]);
                assert(config@.skip(i as int).drop_first() =~= config@.skip(i as int + 1));
            }
            let ch = config.get_char(i);
            if ch == ',' {
                let piece = config.substring_char(start, i);
                let ghost before = channels.deep_view();
                channels.push(piece.to_owned());
                proof {
                    assert(channels.deep_view() =~= before.push(
                        config@.subrange(start as int, i as int),
                    ));
                    assert(config@.subrange(i as int + 1, i as int + 1) =~= Seq::<char>::empty());
                }
                start = i + 1;
            } else {
                proof {
                    assert(config@.subrange(start as int, i as int + 1) =~= config@.subrange(
                        start as int,
                        i as int,
                    ).push(config@[i as int]));
                }
            }
            i += 1;
        }
        let piece = config.substring_char(start, n);
        let ghost before = channels.deep_view();
        channels.push(piece.to_owned());
        let f = ChannelFilter { channels };
        proof {
            assert(config@.skip(n as int) =~= Seq::<char>::empty());
            assert(f.allow_list() =~= before.push(config@.subrange(start as int, n as int)));
        }
        f
    }

    /// True iff `channel_id` is a member of the allow-list (exact
    /// string match). Pure lookup, no side effects.
    pub fn is_monitored(&self, channel_id: &str) -> (r: bool)
        ensures
            r == self.spec_monitors(channel_id@),
    {
        let needle = channel_id.to_owned();
        let n = self.channels.len();
        let mut i: usize = 0;
        while i < n
            invariant
                n == self.channels@.len(),
                i <= n,
                needle@ == channel_id@,
                forall|j: int| 0 <= j < i ==> self.channels@[j]@ != channel_id@,
            decreases n - i,
        {
            if self.channels[i] == needle {
                proof {
                    assert(self.allow_list()[i as int] == channel_id@);
                }
                return true;
            }
            i += 1;
        }
        proof {
            assert forall|k: int| 0 <= k < self.allow_list().len()
                implies self.allow_list()[k] != channel_id@ by {
                assert(self.allow_list()[k] == self.channels@[k]@);
            }
        }
        false
    }
}

} // verus!

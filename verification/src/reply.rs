use vstd::prelude::*;
use vstd::string::StringExecFns;
use crate::message::StoredMessage;

verus! {

/// The canonical reference locator of a stored message on the source
/// platform: a guild/channel/message triple usable to deep-link to the
/// original.
pub open spec fn spec_canonical_url(guild: Seq<char>, channel: Seq<char>, message_id: Seq<char>) -> Seq<char> {
    "platform://guild/"@ + guild + "/channel/"@ + channel + "/message/"@ + message_id
}

/// The reply text citing the original of a duplicate.
pub open spec fn spec_duplicate_reply(m: StoredMessage) -> Seq<char> {
    "Duplicate of "@ + spec_canonical_url(m.guild_id@, m.channel_id@, m.platform_message_id@)
}

/// Build the canonical reference locator for a message identified by
/// the given platform identifiers.
pub fn canonical_url(guild_id: &str, channel_id: &str, platform_message_id: &str) -> (r: String)
    ensures
        r@ == spec_canonical_url(guild_id@, channel_id@, platform_message_id@),
{
    let mut r = String::from_str("platform://guild/");
    r.append(guild_id);
    r.append("/channel/");
    r.append(channel_id);
    r.append("/message/");
    r.append(platform_message_id);
    proof {
        assert(r@ =~= spec_canonical_url(guild_id@, channel_id@, platform_message_id@));
    }
    r
}

/// Build the reply sent when a message duplicates the stored record
/// `m`: it cites `m`'s canonical locator.
pub fn duplicate_reply(m: &StoredMessage) -> (r: String)
    ensures
        r@ == spec_duplicate_reply(*m),
{
    let url = canonical_url(
        m.guild_id.as_str(),
        m.channel_id.as_str(),
        m.platform_message_id.as_str(),
    );
    let mut r = String::from_str("Duplicate of ");
    r.append(url.as_str());
    proof {
        assert(r@ =~= spec_duplicate_reply(*m));
    }
    r
}

} // verus!

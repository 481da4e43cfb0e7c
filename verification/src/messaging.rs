//! Messaging-side decisions: chunking outbound text to a platform's length
//! limit, shaping inbound platform messages, and the per-guild filters that
//! decide which messages reach an agent. The platform connection itself is
//! the runtime's business; everything here is plain values.

use vstd::prelude::*;

use crate::events::Attachment;
use crate::events::MessageContent;
use crate::text::dec_rep;
use crate::text::is_space;
use crate::text::leading_spaces;
use crate::text::lemma_leading_spaces_bounds;
use crate::text::trim_start;
use crate::text::trim_start_spec;
use crate::text::u64_to_string;

verus! {

/// The largest index below `bound` where `c` occurs in `s`, or -1.
pub open spec fn rfind_before(s: Seq<char>, c: char, bound: int) -> int
    decreases bound,
{
    if bound <= 0 {
        -1
    } else if s[bound - 1] == c {
        bound - 1
    } else {
        rfind_before(s, c, bound - 1)
    }
}

pub proof fn lemma_rfind_before(s: Seq<char>, c: char, bound: int)
    ensures
        rfind_before(s, c, bound) == -1 || (0 <= rfind_before(s, c, bound) < bound && s[rfind_before(
            s,
            c,
            bound,
        )] == c),
    decreases bound,
{
    if bound > 0 && s[bound - 1] != c {
        lemma_rfind_before(s, c, bound - 1);
    }
}

/// Where a long text is cut for one chunk: at the last newline within the
/// limit, else the last space, else hard at the limit.
pub open spec fn split_point(text: Seq<char>, max_len: int) -> int {
    let nl = rfind_before(text, '\n', max_len);
    if nl >= 0 {
        nl
    } else {
        let sp = rfind_before(text, ' ', max_len);
        if sp >= 0 {
            sp
        } else {
            max_len
        }
    }
}

pub proof fn lemma_split_point(text: Seq<char>, max_len: int)
    requires
        1 <= max_len,
    ensures
        0 <= split_point(text, max_len) <= max_len,
        split_point(text, max_len) == 0 ==> is_space(text[0]),
{
    lemma_rfind_before(text, '\n', max_len);
    lemma_rfind_before(text, ' ', max_len);
}

/// The chunks the splitting loop yields for a remaining text: each chunk
/// ends at its split point, and the remainder continues without its leading
/// whitespace.
pub open spec fn split_chunks(text: Seq<char>, max_len: int) -> Seq<Seq<char>>
    decreases text.len(),
    when max_len >= 1
{
    if text.len() == 0 {
        Seq::empty()
    } else if text.len() <= max_len {
        seq![text]
    } else {
        let p = split_point(text, max_len);
        proof {
            lemma_split_point(text, max_len);
            let tail = text.subrange(p, text.len() as int);
            lemma_leading_spaces_bounds(tail);
            if p == 0 {
                assert(tail[0] == text[0]);
                assert(leading_spaces(tail) != 0);
            }
        }
        seq![text.subrange(0, p)] + split_chunks(
            trim_start_spec(text.subrange(p, text.len() as int)),
            max_len,
        )
    }
}

/// Law: every chunk the splitting loop yields fits within the length
/// limit — the purpose of the split.
pub proof fn lemma_split_chunks_fit(text: Seq<char>, max_len: int)
    requires
        max_len >= 1,
    ensures
        forall|i: int|
            0 <= i < split_chunks(text, max_len).len() ==> (#[trigger] split_chunks(
                text,
                max_len,
            )[i]).len() <= max_len,
    decreases text.len(),
{
    if text.len() > max_len {
        let p = split_point(text, max_len);
        lemma_split_point(text, max_len);
        let tail = text.subrange(p, text.len() as int);
        lemma_leading_spaces_bounds(tail);
        if p == 0 {
            assert(tail[0] == text[0]);
            assert(leading_spaces(tail) != 0);
        }
        let rest = trim_start_spec(tail);
        lemma_split_chunks_fit(rest, max_len);
        assert forall|i: int|
            0 <= i < split_chunks(text, max_len).len() implies (#[trigger] split_chunks(
            text,
            max_len,
        )[i]).len() <= max_len by {
            if i > 0 {
                assert(split_chunks(text, max_len)[i] == split_chunks(rest, max_len)[i - 1]);
            }
        }
    }
}

/// What split_message returns: a short text stays one chunk (even empty);
/// a long one is cut by the splitting loop.
pub open spec fn split_message_spec(text: Seq<char>, max_len: int) -> Seq<Seq<char>> {
    if text.len() <= max_len {
        seq![text]
    } else {
        split_chunks(text, max_len)
    }
}

/// The views of a vector of chunk strings.
pub open spec fn chunk_views(v: Seq<String>) -> Seq<Seq<char>> {
    v.map_values(|s: String| s@)
}

/// Find the largest index below `bound` where `c` occurs, if any.
fn rfind_char(s: &str, c: char, bound: usize) -> (r: Option<usize>)
    requires
        bound <= s@.len(),
    ensures
        (match r {
            Some(i) => i == rfind_before(s@, c, bound as int),
            None => rfind_before(s@, c, bound as int) == -1,
        }),
{
    let mut i: usize = bound;
    while i > 0
        invariant
            0 <= i <= bound,
            bound <= s@.len(),
            rfind_before(s@, c, bound as int) == rfind_before(s@, c, i as int),
        decreases i,
    {
        if s.get_char(i - 1) == c {
            return Some(i - 1);
        }
        i = i - 1;
    }
    None
}

/// Split a message into chunks that fit within a platform's length limit,
/// preferring to cut at newlines, then spaces, then hard at the limit.
pub fn split_message(text: &str, max_len: usize) -> (r: Vec<String>)
    requires
        max_len >= 1,
    ensures
        chunk_views(r@) == split_message_spec(text@, max_len as int),
{
    let total = text.unicode_len();
    if total <= max_len {
        let mut one: Vec<String> = Vec::new();
        one.push(String::from_str(text));
        proof {
            assert(chunk_views(one@) =~= seq![text@]);
        }
        return one;
    }
    let mut chunks: Vec<String> = Vec::new();
    let mut remaining: &str = text;
    let mut remaining_len: usize = total;
    proof {
        assert(chunk_views(chunks@) =~= Seq::<Seq<char>>::empty());
        assert(chunk_views(chunks@) + split_chunks(remaining@, max_len as int) =~= split_chunks(
            text@,
            max_len as int,
        ));
    }
    while remaining_len > max_len
        invariant
            max_len >= 1,
            remaining_len == remaining@.len(),
            chunk_views(chunks@) + split_chunks(remaining@, max_len as int) == split_chunks(
                text@,
                max_len as int,
            ),
        decreases remaining_len,
    {
        let ghost rem0 = remaining@;
        let p = match rfind_char(remaining, '\n', max_len) {
            Some(i) => i,
            None => match rfind_char(remaining, ' ', max_len) {
                Some(i) => i,
                None => max_len,
            },
        };
        proof {
            lemma_split_point(rem0, max_len as int);
            assert(p == split_point(rem0, max_len as int));
        }
        let chunk = remaining.substring_char(0, p);
        chunks.push(String::from_str(chunk));
        let tail = remaining.substring_char(p, remaining_len);
        remaining = trim_start(tail);
        remaining_len = remaining.unicode_len();
        proof {
            lemma_leading_spaces_bounds(tail@);
            if p == 0 {
                assert(tail@ =~= rem0);
                assert(leading_spaces(tail@) >= 1);
            }
            assert(split_chunks(rem0, max_len as int) == seq![rem0.subrange(0, p as int)]
                + split_chunks(remaining@, max_len as int));
            assert(chunk_views(chunks@) =~= chunk_views(chunks@.drop_last()) + seq![chunk@]);
            assert(chunk_views(chunks@) + split_chunks(remaining@, max_len as int) =~= split_chunks(
                text@,
                max_len as int,
            ));
        }
    }
    if remaining_len > 0 {
        chunks.push(String::from_str(remaining));
        proof {
            assert(split_chunks(remaining@, max_len as int) == seq![remaining@]);
            assert(chunk_views(chunks@) =~= chunk_views(chunks@.drop_last()) + seq![remaining@]);
            assert(chunk_views(chunks@) =~= split_chunks(text@, max_len as int));
        }
    } else {
        proof {
            assert(split_chunks(remaining@, max_len as int) =~= Seq::<Seq<char>>::empty());
            assert(chunk_views(chunks@) =~= split_chunks(text@, max_len as int));
        }
    }
    chunks
}

/// What a streamed partial text looks like when edited into a single
/// platform message: over the limit it is cut to three characters short of
/// it and marked with an ellipsis.
pub open spec fn stream_display_spec(text: Seq<char>, max_len: int) -> Seq<char> {
    if text.len() > max_len {
        text.subrange(0, max_len - 3) + "..."@
    } else {
        text
    }
}

/// Cut a streamed partial text to a platform's message length limit.
pub fn stream_display_text(text: &str, max_len: usize) -> (r: String)
    requires
        max_len >= 3,
    ensures
        r@ == stream_display_spec(text@, max_len as int),
{
    let len = text.unicode_len();
    if len > max_len {
        let head = text.substring_char(0, max_len - 3);
        let mut out = String::from_str(head);
        out.append("...");
        out
    } else {
        String::from_str(text)
    }
}

/// The conversation id of a platform message: guild and channel for guild
/// messages, the author for direct messages.
pub open spec fn spec_conversation_id(
    guild_id: Option<u64>,
    channel_id: u64,
    author_id: u64,
) -> Seq<char> {
    match guild_id {
        Some(g) => "discord:"@ + dec_rep(g as nat) + ":"@ + dec_rep(channel_id as nat),
        None => "discord:dm:"@ + dec_rep(author_id as nat),
    }
}

/// Build the conversation id for a platform message.
pub fn build_conversation_id(guild_id: Option<u64>, channel_id: u64, author_id: u64) -> (r:
    String)
    ensures
        r@ == spec_conversation_id(guild_id, channel_id, author_id),
{
    match guild_id {
        Some(g) => {
            let mut out = String::from_str("discord:");
            let g_text = u64_to_string(g);
            out.append(g_text.as_str());
            out.append(":");
            let c_text = u64_to_string(channel_id);
            out.append(c_text.as_str());
            out
        },
        None => {
            let mut out = String::from_str("discord:dm:");
            let a_text = u64_to_string(author_id);
            out.append(a_text.as_str());
            out
        },
    }
}

/// Shape a platform message's text and attachments into message content:
/// plain text without attachments, media otherwise, with empty text read
/// as no text.
pub fn extract_content(text: &str, attachments: Vec<Attachment>) -> (r: MessageContent)
    ensures
        attachments@.len() == 0 ==> (r matches MessageContent::Text(t) && t@ == text@),
        attachments@.len() > 0 ==> (r matches MessageContent::Media { text: t, attachments: a }
            && a@ == attachments@ && (match t {
            Some(inner) => text@.len() > 0 && inner@ == text@,
            None => text@.len() == 0,
        })),
{
    if attachments.len() == 0 {
        MessageContent::Text(String::from_str(text))
    } else {
        let t = if text.unicode_len() == 0 {
            None
        } else {
            Some(String::from_str(text))
        };
        MessageContent::Media { text: t, attachments }
    }
}

/// The inbound filters of one platform connection: an optional guild
/// allowlist, per-guild channel allowlists, and the users allowed to send
/// direct messages.
#[derive(Clone, Debug)]
pub struct InboundFilters {
    /// When present, only these guilds are processed.
    pub guild_filter: Option<Vec<u64>>,
    /// Per-guild channel allowlist; a guild with a non-empty entry admits
    /// only those channels (or threads under them).
    pub channel_filter: Vec<(u64, Vec<u64>)>,
    /// Users allowed to send direct messages; empty means no direct
    /// messages at all.
    pub dm_allowed_users: Vec<u64>,
}

/// First-match lookup of a guild's channel allowlist.
pub open spec fn channel_list_of(filters: Seq<(u64, Vec<u64>)>, guild: u64) -> Option<Seq<u64>>
    decreases filters.len(),
{
    if filters.len() == 0 {
        None
    } else if filters[0].0 == guild {
        Some(filters[0].1@)
    } else {
        channel_list_of(filters.drop_first(), guild)
    }
}

/// Whether an inbound platform message reaches the agent: bot authors are
/// dropped; direct messages only from allowed users; guild messages only
/// from allowed guilds; and where a guild has a non-empty channel
/// allowlist, only from those channels or threads under them.
pub open spec fn spec_accept_inbound(
    author_is_bot: bool,
    guild_id: Option<u64>,
    author_id: u64,
    channel_id: u64,
    parent_channel_id: Option<u64>,
    filters: InboundFilters,
) -> bool {
    if author_is_bot {
        false
    } else if guild_id is None {
        filters.dm_allowed_users@.len() > 0 && filters.dm_allowed_users@.contains(author_id)
    } else if (filters.guild_filter matches Some(allowed) && !allowed@.contains(
        guild_id->Some_0,
    )) {
        false
    } else {
        match channel_list_of(filters.channel_filter@, guild_id->Some_0) {
            Some(allowed_channels) => {
                if allowed_channels.len() == 0 {
                    true
                } else {
                    allowed_channels.contains(channel_id) || (
                    parent_channel_id matches Some(p) && allowed_channels.contains(p))
                }
            },
            None => true,
        }
    }
}

/// Membership test in a plain id list.
fn contains_u64(v: &Vec<u64>, x: u64) -> (r: bool)
    ensures
        r == v@.contains(x),
{
    let n = v.len();
    let mut i: usize = 0;
    while i < n
        invariant
            0 <= i <= n,
            n == v@.len(),
            forall|j: int| 0 <= j < i ==> v@[j] != x,
        decreases n - i,
    {
        if v[i] == x {
            return true;
        }
        i = i + 1;
    }
    false
}

/// Decide whether an inbound platform message reaches the agent.
pub fn accept_inbound(
    author_is_bot: bool,
    guild_id: Option<u64>,
    author_id: u64,
    channel_id: u64,
    parent_channel_id: Option<u64>,
    filters: &InboundFilters,
) -> (r: bool)
    ensures
        r == spec_accept_inbound(
            author_is_bot,
            guild_id,
            author_id,
            channel_id,
            parent_channel_id,
            *filters,
        ),
{
    if author_is_bot {
        return false;
    }
    let guild = match guild_id {
        None => {
            return filters.dm_allowed_users.len() > 0 && contains_u64(
                &filters.dm_allowed_users,
                author_id,
            );
        },
        Some(g) => g,
    };
    match &filters.guild_filter {
        Some(allowed) => {
            if !contains_u64(allowed, guild) {
                return false;
            }
        },
        None => {},
    }
    let n = filters.channel_filter.len();
    let mut i: usize = 0;
    proof {
        assert(filters.channel_filter@.subrange(0, n as int) =~= filters.channel_filter@);
    }
    while i < n
        invariant
            0 <= i <= n,
            n == filters.channel_filter@.len(),
            !author_is_bot,
            guild_id == Some(guild),
            !(filters.guild_filter matches Some(allowed) && !allowed@.contains(guild)),
            channel_list_of(filters.channel_filter@.subrange(i as int, n as int), guild)
                == channel_list_of(filters.channel_filter@, guild),
        decreases n - i,
    {
        let ghost tail = filters.channel_filter@.subrange(i as int, n as int);
        proof {
            assert(tail[0] == filters.channel_filter@[i as int]);
            assert(tail.drop_first() =~= filters.channel_filter@.subrange(i as int + 1, n as int));
        }
        if filters.channel_filter[i].0 == guild {
            proof {
                assert(channel_list_of(filters.channel_filter@, guild) == Some(
                    filters.channel_filter@[i as int].1@,
                ));
            }
            let allowed_channels = &filters.channel_filter[i].1;
            if allowed_channels.len() == 0 {
                return true;
            }
            if contains_u64(allowed_channels, channel_id) {
                return true;
            }
            match parent_channel_id {
                Some(p) => {
                    return contains_u64(allowed_channels, p);
                },
                None => {
                    return false;
                },
            }
        }
        i = i + 1;
    }
    proof {
        assert(filters.channel_filter@.subrange(n as int, n as int).len() == 0);
    }
    true
}

/// One entry of fetched platform history, oldest first after ordering.
#[derive(Clone, Debug)]
pub struct HistoryMessage {
    pub author: String,
    pub content: String,
    pub is_bot: bool,
}

/// One entry of fetched platform history as the platform hands it out:
/// newest first, with the author's id.
#[derive(Clone, Debug)]
pub struct FetchedMessage {
    pub author: String,
    pub author_id: u64,
    pub content: String,
}

/// Order fetched history chronologically and mark the agent's own messages.
///
/// The platform returns messages newest first; the result is reversed into
/// chronological order, and each entry is marked as the bot's own exactly
/// when the author id equals the connection's bot user id (unknown id:
/// nothing is marked).
pub fn order_history(fetched: &Vec<FetchedMessage>, bot_user_id: Option<u64>) -> (r: Vec<
    HistoryMessage,
>)
    ensures
        r@.len() == fetched@.len(),
        forall|i: int|
            0 <= i < r@.len() ==> {
                let src = fetched@[fetched@.len() - 1 - i];
                &&& (#[trigger] r@[i]).author == src.author
                &&& r@[i].content == src.content
                &&& r@[i].is_bot == (bot_user_id matches Some(b) && src.author_id == b)
            },
{
    let n = fetched.len();
    let mut out: Vec<HistoryMessage> = Vec::new();
    let mut i: usize = 0;
    while i < n
        invariant
            0 <= i <= n,
            n == fetched@.len(),
            out@.len() == i,
            forall|k: int|
                0 <= k < i ==> {
                    let src = fetched@[fetched@.len() - 1 - k];
                    &&& (#[trigger] out@[k]).author == src.author
                    &&& out@[k].content == src.content
                    &&& out@[k].is_bot == (bot_user_id matches Some(b) && src.author_id == b)
                },
        decreases n - i,
    {
        let src = &fetched[n - 1 - i];
        let is_bot = match bot_user_id {
            Some(b) => src.author_id == b,
            None => false,
        };
        out.push(
            HistoryMessage { author: src.author.clone(), content: src.content.clone(), is_bot },
        );
        i = i + 1;
    }
    out
}


/// The display name shown for a platform message's author: the member
/// nickname first, then the global display name, then the bare username.
pub open spec fn spec_display_name(
    member_nick: Option<String>,
    global_name: Option<String>,
    author_name: Seq<char>,
) -> Seq<char> {
    match member_nick {
        Some(nick) => nick@,
        None => match global_name {
            Some(global) => global@,
            None => author_name,
        },
    }
}

/// Resolve the display name a message is attributed under.
pub fn display_name_for(
    member_nick: &Option<String>,
    global_name: &Option<String>,
    author_name: &str,
) -> (r: String)
    ensures
        r@ == spec_display_name(*member_nick, *global_name, author_name@),
{
    match member_nick {
        Some(nick) => nick.clone(),
        None => match global_name {
            Some(global) => global.clone(),
            None => String::from_str(author_name),
        },
    }
}

} // verus!

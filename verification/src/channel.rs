//! Channel categories a channel-typed option can be restricted to.

use vstd::prelude::*;

verus! {

/// A channel category of the platform. A `Channel` option may carry a list
/// of these to restrict which channels the user can pick.
#[derive(Clone, Copy, Debug, PartialEq, Eq, Structural)]
pub enum ChannelType {
    GuildText,
    Private,
    GuildVoice,
    Group,
    GuildCategory,
    GuildNews,
    GuildStore,
    GuildNewsThread,
    GuildPublicThread,
    GuildPrivateThread,
    GuildStageVoice,
}

/// The channel type that a snake_case keyword names, if any.
pub open spec fn spec_parse_channel_type(s: Seq<char>) -> Option<ChannelType> {
    if s == "guild_text"@ {
        Some(ChannelType::GuildText)
    } else if s == "private"@ {
        Some(ChannelType::Private)
    } else if s == "guild_voice"@ {
        Some(ChannelType::GuildVoice)
    } else if s == "group"@ {
        Some(ChannelType::Group)
    } else if s == "guild_category"@ {
        Some(ChannelType::GuildCategory)
    } else if s == "guild_news"@ {
        Some(ChannelType::GuildNews)
    } else if s == "guild_store"@ {
        Some(ChannelType::GuildStore)
    } else if s == "guild_news_thread"@ {
        Some(ChannelType::GuildNewsThread)
    } else if s == "guild_public_thread"@ {
        Some(ChannelType::GuildPublicThread)
    } else if s == "guild_private_thread"@ {
        Some(ChannelType::GuildPrivateThread)
    } else if s == "guild_stage_voice"@ {
        Some(ChannelType::GuildStageVoice)
    } else {
        None
    }
}

impl ChannelType {
    /// Parse a single snake_case keyword as a [`ChannelType`].
    pub fn parse(value: &str) -> (r: Option<ChannelType>)
        ensures
            r == spec_parse_channel_type(value@),
    {
        if crate::text::str_eq(value, "guild_text") {
            Some(ChannelType::GuildText)
        } else if crate::text::str_eq(value, "private") {
            Some(ChannelType::Private)
        } else if crate::text::str_eq(value, "guild_voice") {
            Some(ChannelType::GuildVoice)
        } else if crate::text::str_eq(value, "group") {
            Some(ChannelType::Group)
        } else if crate::text::str_eq(value, "guild_category") {
            Some(ChannelType::GuildCategory)
        } else if crate::text::str_eq(value, "guild_news") {
            Some(ChannelType::GuildNews)
        } else if crate::text::str_eq(value, "guild_store") {
            Some(ChannelType::GuildStore)
        } else if crate::text::str_eq(value, "guild_news_thread") {
            Some(ChannelType::GuildNewsThread)
        } else if crate::text::str_eq(value, "guild_public_thread") {
            Some(ChannelType::GuildPublicThread)
        } else if crate::text::str_eq(value, "guild_private_thread") {
            Some(ChannelType::GuildPrivateThread)
        } else if crate::text::str_eq(value, "guild_stage_voice") {
            Some(ChannelType::GuildStageVoice)
        } else {
            None
        }
    }
}

/// The whitespace characters that separate channel-type keywords.
pub open spec fn is_space(c: char) -> bool {
    c == ' ' || c == '\t' || c == '\n' || c == '\r'
}

/// The end of the keyword starting at `i`: the first position at or
/// after `i` holding whitespace, or the end of the text.
pub open spec fn token_end(s: Seq<char>, i: int) -> int
    decreases s.len() - i,
{
    if i < 0 || i >= s.len() || is_space(s[i]) {
        i
    } else {
        token_end(s, i + 1)
    }
}

/// Bounds and content of [`token_end`]: it does not move left, stays in
/// the text, skips no whitespace and stops at whitespace or the end.
pub proof fn lemma_token_end_props(s: Seq<char>, i: int)
    requires
        0 <= i <= s.len(),
    ensures
        i <= token_end(s, i) <= s.len(),
        i < s.len() && !is_space(s[i]) ==> token_end(s, i) >= i + 1,
        forall|t: int| i <= t < token_end(s, i) ==> !is_space(s[t]),
        token_end(s, i) == s.len() || is_space(s[token_end(s, i)]),
    decreases s.len() - i,
{
    if i < s.len() && !is_space(s[i]) {
        lemma_token_end_props(s, i + 1);
    }
}

/// [`token_end`] is the position scanning finds: the first non-keyword
/// position after a run of non-whitespace.
pub proof fn lemma_token_end_eq(s: Seq<char>, i: int, j: int)
    requires
        0 <= i <= j <= s.len(),
        forall|t: int| i <= t < j ==> !is_space(s[t]),
        j == s.len() || is_space(s[j]),
    ensures
        token_end(s, i) == j,
    decreases j - i,
{
    if i < j {
        lemma_token_end_eq(s, i + 1, j);
    }
}

/// The whitespace-separated keywords of the text from position `i` on.
pub open spec fn ws_tokens_from(s: Seq<char>, i: int) -> Seq<Seq<char>>
    decreases s.len() - i,
    via ws_tokens_from_decreases
{
    if i < 0 || i >= s.len() {
        Seq::empty()
    } else if is_space(s[i]) {
        ws_tokens_from(s, i + 1)
    } else {
        seq![s.subrange(i, token_end(s, i))] + ws_tokens_from(s, token_end(s, i))
    }
}

#[via_fn]
proof fn ws_tokens_from_decreases(s: Seq<char>, i: int) {
    if 0 <= i < s.len() && !is_space(s[i]) {
        lemma_token_end_props(s, i);
    }
}

/// The whitespace-separated keywords of the whole text.
pub open spec fn ws_tokens(s: Seq<char>) -> Seq<Seq<char>> {
    ws_tokens_from(s, 0)
}

/// Parse a keyword list left to right: the channel types of the
/// keywords in order, or the first keyword that names none.
pub open spec fn spec_parse_channel_list(tokens: Seq<Seq<char>>) -> Result<
    Seq<ChannelType>,
    Seq<char>,
>
    decreases tokens.len(),
{
    if tokens.len() == 0 {
        Ok(Seq::empty())
    } else {
        match spec_parse_channel_type(tokens[0]) {
            Some(c) => match spec_parse_channel_list(tokens.drop_first()) {
                Ok(rest) => Ok(seq![c] + rest),
                Err(t) => Err(t),
            },
            None => Err(tokens[0]),
        }
    }
}

/// Parsing a keyword list distributes over concatenation: the left part
/// parses first, and its failure wins.
pub proof fn lemma_parse_channel_list_concat(t1: Seq<Seq<char>>, t2: Seq<Seq<char>>)
    ensures
        spec_parse_channel_list(t1 + t2) == (match spec_parse_channel_list(t1) {
            Ok(v1) => match spec_parse_channel_list(t2) {
                Ok(v2) => Ok::<Seq<ChannelType>, Seq<char>>(v1 + v2),
                Err(t) => Err(t),
            },
            Err(t) => Err(t),
        }),
    decreases t1.len(),
{
    if t1.len() == 0 {
        assert(t1 + t2 =~= t2);
        match spec_parse_channel_list(t2) {
            Ok(v2) => {
                assert(Seq::<ChannelType>::empty() + v2 =~= v2);
            },
            Err(_) => {},
        }
    } else {
        assert((t1 + t2).drop_first() =~= t1.drop_first() + t2);
        lemma_parse_channel_list_concat(t1.drop_first(), t2);
        match spec_parse_channel_type(t1[0]) {
            Some(c) => {
                match (spec_parse_channel_list(t1.drop_first()), spec_parse_channel_list(t2)) {
                    (Ok(r1), Ok(v2)) => {
                        assert(seq![c] + (r1 + v2) =~= (seq![c] + r1) + v2);
                    },
                    _ => {},
                }
            },
            None => {},
        }
    }
}

impl ChannelType {
    /// Parse a whitespace-separated keyword list as a list of channel
    /// types, in order; an unknown keyword fails with that keyword.
    pub fn parse_attr(value: &str) -> (r: Result<Vec<ChannelType>, String>)
        ensures
            match r {
                Ok(v) => spec_parse_channel_list(ws_tokens(value@)) == Ok::<
                    Seq<ChannelType>,
                    Seq<char>,
                >(v@),
                Err(t) => spec_parse_channel_list(ws_tokens(value@)) == Err::<
                    Seq<ChannelType>,
                    Seq<char>,
                >(t@),
            },
    {
        let n = value.unicode_len();
        let mut out: Vec<ChannelType> = Vec::new();
        let mut i: usize = 0;
        let ghost mut toks: Seq<Seq<char>> = Seq::empty();
        proof {
            assert(spec_parse_channel_list(toks) == Ok::<Seq<ChannelType>, Seq<char>>(out@));
            assert(toks + ws_tokens_from(value@, 0) =~= ws_tokens_from(value@, 0));
        }
        while i < n
            invariant
                0 <= i <= n,
                n == value@.len(),
                ws_tokens(value@) == toks + ws_tokens_from(value@, i as int),
                spec_parse_channel_list(toks) == Ok::<Seq<ChannelType>, Seq<char>>(out@),
            decreases n - i,
        {
            let c = value.get_char(i);
            let space = c == ' ' || c == '\t' || c == '\n' || c == '\r';
            if space {
                proof {
                    assert(ws_tokens_from(value@, i as int) == ws_tokens_from(
                        value@,
                        i as int + 1,
                    ));
                }
                i = i + 1;
            } else {
                let mut j: usize = i + 1;
                let mut stop = false;
                while j < n && !stop
                    invariant
                        0 <= i < j <= n,
                        n == value@.len(),
                        forall|t: int| i <= t < j ==> !is_space(value@[t]),
                        stop ==> j < n && is_space(value@[j as int]),
                    decreases n - j + (if stop { 0int } else { 1int }),
                {
                    let cj = value.get_char(j);
                    if cj == ' ' || cj == '\t' || cj == '\n' || cj == '\r' {
                        stop = true;
                    } else {
                        j = j + 1;
                    }
                }
                proof {
                    lemma_token_end_eq(value@, i as int, j as int);
                }
                let tok = value.substring_char(i, j);
                let ghost tokv = value@.subrange(i as int, j as int);
                match ChannelType::parse(tok) {
                    Some(ct) => {
                        let ghost out_old = out@;
                        out.push(ct);
                        proof {
                            lemma_parse_channel_list_concat(toks, seq![tokv]);
                            assert(seq![tokv].drop_first() =~= Seq::<Seq<char>>::empty());
                            assert(spec_parse_channel_list(Seq::<Seq<char>>::empty()) == Ok::<
                                Seq<ChannelType>,
                                Seq<char>,
                            >(Seq::empty()));
                            assert(spec_parse_channel_type(tokv) == Some(ct));
                            assert(spec_parse_channel_list(seq![tokv]) == Ok::<
                                Seq<ChannelType>,
                                Seq<char>,
                            >(seq![ct] + Seq::empty()));
                            assert(seq![ct] + Seq::<ChannelType>::empty() =~= seq![ct]);
                            assert(out@ =~= out_old + seq![ct]);
                            toks = toks + seq![tokv];
                            assert(ws_tokens(value@) == toks + ws_tokens_from(value@, j as int));
                        }
                        i = j;
                    },
                    None => {
                        proof {
                            let rest = ws_tokens_from(value@, i as int);
                            assert(rest == seq![tokv] + ws_tokens_from(value@, j as int));
                            assert(spec_parse_channel_list(rest) == Err::<
                                Seq<ChannelType>,
                                Seq<char>,
                            >(tokv)) by {
                                assert(rest[0] == tokv);
                                assert(spec_parse_channel_type(tokv) is None);
                            }
                            lemma_parse_channel_list_concat(toks, rest);
                        }
                        return Err(tok.to_owned());
                    },
                }
            }
        }
        proof {
            assert(ws_tokens_from(value@, i as int) =~= Seq::<Seq<char>>::empty());
            assert(ws_tokens(value@) =~= toks);
        }
        Ok(out)
    }
}

} // verus!

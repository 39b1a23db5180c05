//! Startup configuration: the gateway credential and the identifier of the
//! watched channel. Interactive capture and on-disk persistence live outside
//! this crate; it only builds the value and normalises prompted input.

use vstd::prelude::*;
use vstd::string::StrSliceExecFns;
use vstd::string::StringExecFns;

verus! {

/// Configuration loaded once at startup and read-only afterwards.
pub struct ITGBuddyConfig {
    /// Credential handed to the chat gateway.
    pub discord_key: String,
    /// Identifier of the channel whose attachments are processed.
    pub add_song_channel_id: String,
}

/// `s` with every trailing `'\n'` or `'\r'` removed.
pub open spec fn trim_newline_spec(s: Seq<char>) -> Seq<char>
    decreases s.len(),
{
    if s.len() > 0 && (s.last() == '\n' || s.last() == '\r') {
        trim_newline_spec(s.drop_last())
    } else {
        s
    }
}

impl ITGBuddyConfig {
    /// Builds a fresh configuration from a prompted credential; the watched
    /// channel identifier starts empty and is filled in separately.
    pub fn new(discord_key: String) -> (c: ITGBuddyConfig)
        ensures
            c.discord_key@ == discord_key@,
            c.add_song_channel_id@ == Seq::<char>::empty(),
    {
        ITGBuddyConfig { discord_key, add_song_channel_id: String::new() }
    }
}

/// Strips every trailing newline or carriage return left by a line read,
/// keeping the rest of the string unchanged.
pub fn trim_newline(s: &mut String)
    ensures
        final(s)@ == trim_newline_spec(old(s)@),
{
    let len = s.as_str().unicode_len();
    let mut end: usize = len;
    proof {
        assert(s@.take(len as int) =~= s@);
    }
    loop
        invariant
            end <= len,
            len == s@.len(),
            trim_newline_spec(s@) == trim_newline_spec(s@.take(end as int)),
        ensures
            end <= len,
            len == s@.len(),
            trim_newline_spec(s@) == trim_newline_spec(s@.take(end as int)),
            trim_newline_spec(s@.take(end as int)) == s@.take(end as int),
        decreases end,
    {
        if end == 0 {
            proof {
                assert(s@.take(0).len() == 0);
            }
            break;
        }
        let c = s.as_str().get_char(end - 1);
        proof {
            assert(s@.take(end as int).last() == s@[end - 1]);
        }
        if c != '\n' && c != '\r' {
            break;
        }
        proof {
            assert(s@.take(end as int).drop_last() =~= s@.take(end - 1));
        }
        end -= 1;
    }
    let trimmed = {
        let tail = s.as_str().substring_char(0, end);
        String::from_str(tail)
    };
    proof {
        assert(old(s)@.subrange(0, end as int) =~= old(s)@.take(end as int));
    }
    *s = trimmed;
}

} // verus!

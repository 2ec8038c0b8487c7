//! Texts the bot sends, and the test that tells a link from a search query.

use vstd::prelude::*;
use vstd::string::*;

verus! {

/// Sent to whoever asks for music without being in a voice channel.
pub const NOT_IN_VOICE: &'static str = "Must be in a voice channel to use this feature";

/// Sent when no audio source could be made of a request.
pub const SOURCE_ERROR: &'static str = "Error sourcing file";

/// Sent on a request for help.
pub const HELP: &'static str =
    "You can use the `--` prefix to use this bot's commands.\n\n    `--play <youtube URL> OR <youtube search query>`\n\n    `--leave` when you want the bot to leave.\n";

/// What precedes the link in the announcement of a search hit.
pub const NOW_PLAYING: &'static str = "Now playing: ";

/// What precedes the details in the report of a failure.
pub const FAILED: &'static str = "Failed: ";

/// The characters every link starts with.
pub open spec fn link_prefix() -> Seq<char> {
    seq!['h', 't', 't', 'p']
}

/// A request names a link when it starts with `http`; anything else is a
/// search query.
pub open spec fn names_link(text: Seq<char>) -> bool {
    link_prefix().is_prefix_of(text)
}

/// The announcement that the audio behind `url` is about to play.
pub open spec fn now_playing_text(url: Seq<char>) -> Seq<char> {
    NOW_PLAYING@ + url
}

/// The report of a failure described by `detail`.
pub open spec fn failure_text(detail: Seq<char>) -> Seq<char> {
    FAILED@ + detail
}

/// Tells whether `text` names a link.
pub fn is_link(text: &str) -> (r: bool)
    ensures
        r == names_link(text@),
{
    let n: usize = text.unicode_len();
    if n < 4 {
        return false;
    }
    let r = text.get_char(0) == 'h' && text.get_char(1) == 't' && text.get_char(2) == 't'
        && text.get_char(3) == 'p';
    proof {
        let p = link_prefix();
        if r {
            assert(text@.subrange(0, 4) =~= p);
        } else {
            assert(p[0] == 'h' && p[1] == 't' && p[2] == 't' && p[3] == 'p');
            if p.is_prefix_of(text@) {
                let s = text@.subrange(0, 4);
                assert(s[0] == text@[0] && s[1] == text@[1] && s[2] == text@[2] && s[3]
                    == text@[3]);
            }
        }
    }
    r
}

/// Writes the reply to a request for help, which tells how to use the bot.
pub fn help() -> (r: String)
    ensures
        r@ == HELP@,
{
    String::from_str(HELP)
}

/// Writes the announcement that the audio behind `url` is about to play.
pub fn now_playing(url: &str) -> (r: String)
    ensures
        r@ == now_playing_text(url@),
{
    String::from_str(NOW_PLAYING).concat(url)
}

/// Writes the report of a failure described by `detail`.
pub fn failure(detail: &str) -> (r: String)
    ensures
        r@ == failure_text(detail@),
{
    String::from_str(FAILED).concat(detail)
}

} // verus!

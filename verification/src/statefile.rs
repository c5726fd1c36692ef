//! The state as a few lines of text, for programs that read it from a file.
//!
//! Outside a voice channel, or before the local user is known, the text is
//! a single `0`. Else it holds the channel's id, the number of known users,
//! and three lines for every user in the channel: the name, the flags, and
//! the address of the avatar (an empty line where there is none).

use vstd::prelude::*;
use vstd::string::StringExecFns;
use crate::avatar::{avatar_key, avatar_key_of, avatar_url, avatar_url_of};
use crate::data::{roster_of, roster_view, ConnState, ConnStateView, RosterEntry, RosterEntryView};

verus! {

/// The character of a decimal digit.
pub open spec fn digit_char(d: nat) -> char {
    if d == 0 {
        '0'
    } else if d == 1 {
        '1'
    } else if d == 2 {
        '2'
    } else if d == 3 {
        '3'
    } else if d == 4 {
        '4'
    } else if d == 5 {
        '5'
    } else if d == 6 {
        '6'
    } else if d == 7 {
        '7'
    } else if d == 8 {
        '8'
    } else {
        '9'
    }
}

/// A number in decimal, without leading zeros.
pub open spec fn decimal_of(n: nat) -> Seq<char>
    decreases n,
{
    if n < 10 {
        seq![digit_char(n)]
    } else {
        decimal_of(n / 10).push(digit_char(n % 10))
    }
}

fn digit_text(d: usize) -> (r: &'static str)
    requires
        d < 10,
    ensures
        r@ == seq![digit_char(d as nat)],
{
    proof {
        reveal_strlit("0");
        reveal_strlit("1");
        reveal_strlit("2");
        reveal_strlit("3");
        reveal_strlit("4");
        reveal_strlit("5");
        reveal_strlit("6");
        reveal_strlit("7");
        reveal_strlit("8");
        reveal_strlit("9");
    }
    let r = if d == 0 {
        "0"
    } else if d == 1 {
        "1"
    } else if d == 2 {
        "2"
    } else if d == 3 {
        "3"
    } else if d == 4 {
        "4"
    } else if d == 5 {
        "5"
    } else if d == 6 {
        "6"
    } else if d == 7 {
        "7"
    } else if d == 8 {
        "8"
    } else {
        "9"
    };
    assert(r@ =~= seq![digit_char(d as nat)]);
    r
}

/// Writes a number in decimal.
pub fn decimal(n: usize) -> (r: String)
    ensures
        r@ == decimal_of(n as nat),
    decreases n,
{
    if n < 10 {
        digit_text(n).to_string()
    } else {
        let mut text = decimal(n / 10);
        text.append(digit_text(n % 10));
        assert(text@ =~= decimal_of(n as nat));
        text
    }
}

/// The mark of a flag: its letter where it is set, a dot where it is not.
pub open spec fn mark_of(letter: Seq<char>, set: bool) -> Seq<char> {
    if set {
        letter
    } else {
        "."@
    }
}

/// The line with the flags of a user: muted, deafened, talking.
pub open spec fn flags_line(e: RosterEntryView) -> Seq<char> {
    mark_of("m"@, e.muted) + mark_of("d"@, e.deafened) + mark_of("t"@, e.talking) + "\n"@
}

/// The line with the address of the avatar of a user.
pub open spec fn avatar_line(e: RosterEntryView) -> Seq<char> {
    match e.avatar {
        Some(token) => avatar_url_of(avatar_key_of(e.id, token)) + "\n"@,
        None => "\n"@,
    }
}

/// The three lines of one user.
pub open spec fn entry_lines(e: RosterEntryView) -> Seq<char> {
    e.name + "\n"@ + flags_line(e) + avatar_line(e)
}

/// The lines of a roster.
pub open spec fn roster_lines(roster: Seq<RosterEntryView>) -> Seq<char>
    decreases roster.len(),
{
    if roster.len() == 0 {
        Seq::empty()
    } else {
        roster_lines(roster.drop_last()) + entry_lines(roster.last())
    }
}

/// The text of a state.
pub open spec fn statefile_of(s: ConnStateView) -> Seq<char> {
    if s.user_id is Some && s.voice_channel is Some {
        s.voice_channel->0 + "\n"@ + decimal_of(s.users.len()) + "\n"@ + roster_lines(roster_of(s))
    } else {
        "0\n"@
    }
}

fn flags_text(e: &RosterEntry) -> (r: String)
    ensures
        r@ == flags_line(e@),
{
    let mut line = (if e.muted {
        "m"
    } else {
        "."
    }).to_string();
    line.append(if e.deafened { "d" } else { "." });
    line.append(if e.talking { "t" } else { "." });
    line.append("\n");
    line
}

fn avatar_text(e: &RosterEntry) -> (r: String)
    ensures
        r@ == avatar_line(e@),
{
    match &e.avatar {
        Some(token) => {
            let mut line = avatar_url(avatar_key(e.id.as_str(), token.as_str()).as_str());
            line.append("\n");
            line
        },
        None => "\n".to_string(),
    }
}

fn append_entry(text: &mut String, e: &RosterEntry)
    ensures
        final(text)@ == old(text)@ + entry_lines(e@),
{
    let flags = flags_text(e);
    let avatar = avatar_text(e);
    text.append(e.name.as_str());
    text.append("\n");
    text.append(flags.as_str());
    text.append(avatar.as_str());
    assert(text@ =~= old(text)@ + (e@.name + "\n"@ + flags@ + avatar@));
}

/// Writes the state as text.
pub fn statefile_text(state: &ConnState) -> (r: String)
    ensures
        r@ == statefile_of(state@),
{
    let channel = match (state.user_id(), state.voice_channel()) {
        (Some(_), Some(channel)) => channel,
        _ => {
            return "0\n".to_string();
        },
    };
    let mut text = channel.clone();
    text.append("\n");
    text.append(decimal(state.users().len()).as_str());
    text.append("\n");
    let ghost head = text@;
    let roster = state.roster();
    let n = roster.len();
    let mut i: usize = 0;
    assert(roster_view(roster@).take(0) =~= Seq::empty());
    while i < n
        invariant
            n == roster@.len(),
            i <= n,
            text@ == head + roster_lines(roster_view(roster@).take(i as int)),
        decreases n - i,
    {
        proof {
            let all = roster_view(roster@);
            assert(all.take(i + 1).drop_last() =~= all.take(i as int));
            assert(all.take(i + 1).last() == roster@[i as int]@);
        }
        append_entry(&mut text, &roster[i]);
        i += 1;
    }
    assert(roster_view(roster@).take(n as int) =~= roster_view(roster@));
    text
}

} // verus!

//! What holds of the state and the session whatever the events are.

use vstd::prelude::*;
use crate::data::{
    order_with, state_digest, synced_order, synced_users, synced_voice_states, talking_in,
    ConnStateView, VoiceUpdateView,
};
use crate::frames::{frame_of, DecodeError, FrameView};
use crate::json::JsonView;
use crate::session::{
    notices, packets_after, phase_after, resync_trees, state_after, ActionView, EventView, Phase,
    SessionView,
};

verus! {

/// The state after a run of frames, taken one after the other.
pub open spec fn state_after_all(s: ConnStateView, frames: Seq<FrameView>) -> ConnStateView
    decreases frames.len(),
{
    if frames.len() == 0 {
        s
    } else {
        state_after(state_after_all(s, frames.drop_last()), frames.last())
    }
}

/// After any run of voice-state updates for one user, the user's stored
/// name, avatar, nickname and flags are those of the last update, and the
/// talking flag is what it was before the run: the flag of the user's voice
/// state then, or `false` where the user had none.
pub proof fn law_last_update_wins(
    s: ConnStateView,
    frames: Seq<FrameView>,
    id: Seq<char>,
    last: VoiceUpdateView,
)
    requires
        frames.len() > 0,
        forall|i: int|
            0 <= i < frames.len() ==> (#[trigger] frames[i]) is VoiceStateUpdate
                && frames[i]->VoiceStateUpdate_0.user.id == id,
        frames.last() == FrameView::VoiceStateUpdate(last),
    ensures
        state_after_all(s, frames).users.contains_key(id),
        state_after_all(s, frames).users[id] == last.user,
        state_after_all(s, frames).voice_states.contains_key(id),
        state_after_all(s, frames).voice_states[id] == last.voice_state(
            talking_in(s.voice_states, id),
        ),
    decreases frames.len(),
{
    let front = frames.drop_last();
    if front.len() > 0 {
        let prev = front.last()->VoiceStateUpdate_0;
        assert(front.last() == frames[front.len() - 1]);
        assert forall|i: int| 0 <= i < front.len() implies (#[trigger] front[i]) is VoiceStateUpdate
            && front[i]->VoiceStateUpdate_0.user.id == id by {
            assert(front[i] == frames[i]);
        }
        law_last_update_wins(s, front, id, prev);
    } else {
        assert(state_after_all(s, front) == s);
    }
}

/// A voice-state update never touches the talking flag of any user, and a
/// speaking event sets the flag of a user who has a voice state.
pub proof fn law_talking_follows_speaking(s: ConnStateView, update: VoiceUpdateView, id: Seq<char>)
    ensures
        talking_in(s.with_update(update).voice_states, id) == talking_in(s.voice_states, id),
        s.voice_states.contains_key(id) ==> talking_in(s.with_talking(id, true).voice_states, id),
        !talking_in(s.with_talking(id, false).voice_states, id),
{
}

/// Two states that hold the same have the same digest, in whatever order
/// their users became known.
pub proof fn law_digest_ignores_order(x: ConnStateView, y: ConnStateView)
    requires
        x.same_content(y),
    ensures
        state_digest(x) == state_digest(y),
{
}

/// Putting two users into a state in one order or the other gives states
/// that hold the same, and so have the same digest.
pub proof fn law_insertion_order_is_immaterial(
    s: ConnStateView,
    a: VoiceUpdateView,
    b: VoiceUpdateView,
)
    requires
        a.user.id != b.user.id,
    ensures
        s.with_update(a).with_update(b).same_content(s.with_update(b).with_update(a)),
        state_digest(s.with_update(a).with_update(b)) == state_digest(
            s.with_update(b).with_update(a),
        ),
{
    let x = s.with_update(a).with_update(b);
    let y = s.with_update(b).with_update(a);
    assert(x.users =~= y.users);
    assert(x.voice_states =~= y.voice_states);
}

/// After a full reset nothing is left: no users, no voice states, no
/// channel, no local user. After the local user left the channel the same
/// holds, but that the local user is still known.
pub proof fn law_reset_leaves_nothing(s: ConnStateView)
    ensures
        ConnStateView::empty().users.len() == 0,
        ConnStateView::empty().voice_states.len() == 0,
        ConnStateView::empty().voice_channel is None,
        ConnStateView::empty().user_id is None,
        s.left_channel().users.len() == 0,
        s.left_channel().voice_states.len() == 0,
        s.left_channel().voice_channel is None,
        s.left_channel().user_id == s.user_id,
{
}

/// A speaking event for a user without a voice state changes nothing in
/// the state; all it does is to ask for the selected channel again where no
/// channel is tracked.
pub proof fn law_unknown_speaker_is_ignored(s: ConnStateView, id: Seq<char>)
    requires
        !s.voice_states.contains_key(id),
    ensures
        state_after(s, FrameView::SpeakingStart { user_id: id }) == s,
        state_after(s, FrameView::SpeakingStop { user_id: id }) == s,
        packets_after(s, FrameView::SpeakingStart { user_id: id }) == resync_trees(s),
        packets_after(s, FrameView::SpeakingStop { user_id: id }) == resync_trees(s),
{
}

/// The departure of a user other than the local one removes nobody.
pub proof fn law_other_departures_change_nothing(s: ConnStateView, id: Seq<char>)
    requires
        s.user_id != Some(id),
    ensures
        state_after(s, FrameView::VoiceStateDelete { user_id: id }) == s,
{
}

/// A channel answer without an `id` empties the membership: whoever was
/// in the state before, no user and no voice state is left, and no channel
/// is tracked. The session then stands as subscribed.
pub proof fn law_no_channel_empties_membership(s: SessionView, tree: JsonView)
    requires
        s.phase.connected(),
        tree.member("cmd"@) == JsonView::Str("GET_SELECTED_VOICE_CHANNEL"@),
        tree.member("data"@).field("id"@) is None,
    ensures
        frame_of(tree) == Ok::<FrameView, DecodeError>(FrameView::NoChannel),
        s.on_tree(tree).0.state == s.state.left_channel(),
        s.on_tree(tree).0.state.users.len() == 0,
        s.on_tree(tree).0.state.voice_states.len() == 0,
        s.on_tree(tree).0.state.voice_channel is None,
        s.on_tree(tree).0.phase == Phase::Subscribed,
{
    reveal_strlit("GET_SELECTED_VOICE_CHANNEL");
    reveal_strlit("AUTHORIZE");
    reveal_strlit("AUTHENTICATE");
    reveal_strlit("GET_GUILDS");
    let cmd = "GET_SELECTED_VOICE_CHANNEL"@;
    assert(cmd.len() == 26);
    assert("AUTHORIZE"@.len() == 9);
    assert("AUTHENTICATE"@.len() == 12);
    assert("GET_GUILDS"@.len() == 10);
}

/// An event announces a state only where the digest of the state has
/// changed, and then it announces the new state, once. An event that
/// leaves the state as it was announces nothing.
pub proof fn law_only_changes_are_announced(s: SessionView, event: EventView, i: int)
    requires
        0 <= i < s.step(event).1.len(),
        s.step(event).1[i] is Notify,
    ensures
        s.step(event).1[i] == ActionView::Notify(s.step(event).0.state),
        state_digest(s.step(event).0.state) != state_digest(s.state),
        !s.step(event).0.state.same_content(s.state),
        forall|j: int|
            0 <= j < s.step(event).1.len() && s.step(event).1[j] is Notify ==> j == i,
{
    lemma_notices_of_step(s, event);
}

/// The same, said of two events in a row: where the second leaves the
/// state holding what the first made it hold, the second announces nothing.
pub proof fn law_same_state_is_announced_once(s: SessionView, first: EventView, second: EventView)
    requires
        s.step(first).0.step(second).0.state.same_content(s.step(first).0.state),
    ensures
        forall|j: int|
            0 <= j < s.step(first).0.step(second).1.len() ==> !(#[trigger] s.step(first).0.step(
                second,
            ).1[j] is Notify),
{
    let t = s.step(first).0;
    assert forall|j: int| 0 <= j < t.step(second).1.len() implies !(#[trigger] t.step(second).1[j]
        is Notify) by {
        if t.step(second).1[j] is Notify {
            law_only_changes_are_announced(t, second, j);
        }
    }
}

/// Where the actions of a step hold an announcement, the step is the
/// answer to a text frame and the announcement is that of `notices`.
proof fn lemma_notices_of_step(s: SessionView, event: EventView)
    ensures
        forall|i: int|
            0 <= i < s.step(event).1.len() && (#[trigger] s.step(event).1[i]) is Notify ==> {
                &&& s.step(event).1[i] == ActionView::Notify(s.step(event).0.state)
                &&& state_digest(s.step(event).0.state) != state_digest(s.state)
                &&& forall|j: int|
                    0 <= j < s.step(event).1.len() && s.step(event).1[j] is Notify ==> j == i
            },
{
    let (t, actions) = s.step(event);
    match event {
        EventView::Text(text) => {
            match crate::json::parsed_text(text) {
                Some(tree) => {
                    match frame_of(tree) {
                        Ok(f) => {
                            if s.phase.connected() {
                                let sent = crate::session::sends(packets_after(s.state, f));
                                let asked = crate::session::exchanges(
                                    crate::session::exchange_after(f),
                                );
                                let told = notices(s.state, t.state);
                                assert(actions == sent + asked + told);
                                assert forall|i: int|
                                    0 <= i < actions.len() && (#[trigger] actions[i])
                                        is Notify implies i == sent.len() + asked.len()
                                    && told.len() == 1 by {
                                    if i < sent.len() {
                                        assert(actions[i] == sent[i]);
                                    } else if i < sent.len() + asked.len() {
                                        assert(actions[i] == asked[i - sent.len()]);
                                    }
                                }
                            }
                        },
                        Err(_) => {},
                    }
                },
                None => {},
            }
        },
        EventView::Token(body) => {},
        _ => {},
    }
}

/// Every user with a voice state stays a known user, whatever frame comes.
pub proof fn law_frames_keep_consistency(s: ConnStateView, f: FrameView)
    requires
        s.consistent(),
    ensures
        state_after(s, f).consistent(),
{
    match f {
        FrameView::Channel { id, members } => {
            lemma_members_are_users(s.with_channel(id).users, s.voice_states, members);
        },
        _ => {},
    }
}

/// The order keeps listing the known users, each once, whatever frame comes.
pub proof fn law_frames_keep_order(s: ConnStateView, f: FrameView)
    requires
        s.ordered(),
    ensures
        state_after(s, f).ordered(),
{
    match f {
        FrameView::Channel { id, members } => {
            lemma_synced_order(s.order, s.users, members);
        },
        FrameView::VoiceStateUpdate(u) => {
            lemma_order_with(s.order, s.users, u.user.id, u.user);
        },
        _ => {},
    }
}

/// One more user keeps the order a list of the known users, each once.
proof fn lemma_order_with(
    order: Seq<Seq<char>>,
    users: Map<Seq<char>, crate::data::UserView>,
    id: Seq<char>,
    user: crate::data::UserView,
)
    requires
        order.no_duplicates(),
        forall|k: Seq<char>| users.contains_key(k) <==> order.contains(k),
    ensures
        order_with(order, users, id).no_duplicates(),
        forall|k: Seq<char>|
            users.insert(id, user).contains_key(k) <==> order_with(order, users, id).contains(k),
{
    let next = order_with(order, users, id);
    if !users.contains_key(id) {
        assert(next == order.push(id));
        assert forall|i: int, j: int| 0 <= i < next.len() && 0 <= j < next.len() && i != j implies next[i]
            != next[j] by {
            if i < order.len() && j < order.len() {
                assert(order[i] != order[j]);
            } else if i < order.len() {
                assert(order.contains(order[i]));
            } else {
                assert(order.contains(order[j]));
            }
        }
        assert forall|k: Seq<char>| users.insert(id, user).contains_key(k) <==> next.contains(
            k,
        ) by {
            if users.insert(id, user).contains_key(k) {
                if k == id {
                    assert(next[order.len() as int] == k);
                } else {
                    assert(users.contains_key(k));
                    assert(order.contains(k));
                    let i = choose|i: int| 0 <= i < order.len() && order[i] == k;
                    assert(next[i] == k);
                }
            }
            if next.contains(k) {
                let i = choose|i: int| 0 <= i < next.len() && next[i] == k;
                if i < order.len() {
                    assert(order[i] == k);
                    assert(order.contains(k));
                    assert(users.contains_key(k));
                }
            }
        }
    } else {
        assert forall|k: Seq<char>| users.insert(id, user).contains_key(k) <==> next.contains(
            k,
        ) by {
            assert(users.contains_key(k) <==> order.contains(k));
        }
    }
}

/// A membership list keeps the order a list of the known users, each once.
proof fn lemma_synced_order(
    order: Seq<Seq<char>>,
    users: Map<Seq<char>, crate::data::UserView>,
    members: Seq<VoiceUpdateView>,
)
    requires
        order.no_duplicates(),
        forall|k: Seq<char>| users.contains_key(k) <==> order.contains(k),
    ensures
        synced_order(order, users, members).no_duplicates(),
        forall|k: Seq<char>|
            synced_users(users, members).contains_key(k) <==> synced_order(
                order,
                users,
                members,
            ).contains(k),
    decreases members.len(),
{
    if members.len() > 0 {
        let front = members.drop_last();
        lemma_synced_order(order, users, front);
        lemma_order_with(
            synced_order(order, users, front),
            synced_users(users, front),
            members.last().user.id,
            members.last().user,
        );
    }
}

/// After a membership list was taken over, the users with a voice state
/// are the listed ones, and each of them is a known user.
pub proof fn lemma_members_are_users(
    users: Map<Seq<char>, crate::data::UserView>,
    before: Map<Seq<char>, crate::data::VoiceStateView>,
    members: Seq<VoiceUpdateView>,
)
    ensures
        forall|k: Seq<char>|
            synced_voice_states(before, members).contains_key(k) <==> exists|i: int|
                0 <= i < members.len() && #[trigger] members[i].user.id == k,
        forall|k: Seq<char>|
            synced_voice_states(before, members).contains_key(k) ==> synced_users(
                users,
                members,
            ).contains_key(k),
        forall|k: Seq<char>| users.contains_key(k) ==> synced_users(users, members).contains_key(k),
    decreases members.len(),
{
    if members.len() > 0 {
        let front = members.drop_last();
        let last = members.last();
        lemma_members_are_users(users, before, front);
        let vf = synced_voice_states(before, front);
        let vm = synced_voice_states(before, members);
        assert(vm == vf.insert(last.user.id, last.voice_state(talking_in(before, last.user.id))));
        assert(synced_users(users, members) == synced_users(users, front).insert(
            last.user.id,
            last.user,
        ));
        assert forall|k: Seq<char>|
            vm.contains_key(k) <==> exists|i: int|
                0 <= i < members.len() && #[trigger] members[i].user.id == k by {
            if vm.contains_key(k) {
                if k == last.user.id {
                    assert(members[members.len() - 1].user.id == k);
                } else {
                    assert(vf.contains_key(k));
                    let i = choose|i: int| 0 <= i < front.len() && #[trigger] front[i].user.id == k;
                    assert(members[i] == front[i]);
                    assert(members[i].user.id == k);
                }
            }
            if exists|i: int| 0 <= i < members.len() && #[trigger] members[i].user.id == k {
                let i = choose|i: int| 0 <= i < members.len() && #[trigger] members[i].user.id == k;
                if i < members.len() - 1 {
                    assert(front[i] == members[i]);
                    assert(front[i].user.id == k);
                    assert(vf.contains_key(k));
                }
            }
        }
    }
}

impl SessionView {
    /// What holds of every session that started fresh: without a socket
    /// nothing is known; the session stands in a channel exactly where a
    /// channel is tracked, once it is open; every user with a voice state is
    /// a known user; and the order lists the known users, each once.
    pub open spec fn coherent(self) -> bool {
        &&& !self.phase.connected() ==> self.state == ConnStateView::empty()
        &&& self.phase == Phase::InChannel ==> self.state.voice_channel is Some
        &&& self.phase == Phase::Subscribed ==> self.state.voice_channel is None
        &&& self.state.consistent()
        &&& self.state.ordered()
    }
}

/// A fresh session is coherent, and every event keeps a session so.
pub proof fn law_steps_keep_coherence(s: SessionView, event: EventView)
    requires
        s.coherent(),
    ensures
        SessionView::fresh().coherent(),
        s.step(event).0.coherent(),
{
    match event {
        EventView::Text(text) => {
            match crate::json::parsed_text(text) {
                Some(tree) => {
                    match frame_of(tree) {
                        Ok(f) => {
                            law_frames_keep_consistency(s.state, f);
                            law_frames_keep_order(s.state, f);
                            assert(phase_after(s.phase, s.state, f) == s.on_frame(f).0.phase
                                || !s.phase.connected());
                        },
                        Err(_) => {},
                    }
                },
                None => {},
            }
        },
        _ => {},
    }
}

} // verus!

//! The connection state: who the local user is, which voice channel is
//! tracked, and what is known of the users in it.

use std::collections::hash_map::DefaultHasher;
use std::hash::Hasher;
use vstd::prelude::*;
use crate::digest::{
    digest_of_writes, flag_byte, opt_text_writes, text_writes, write_byte, write_flag,
    write_opt_text, write_text,
};
use crate::table::{table_digest, Record, Table};
use crate::text::{copy_opt, opt_view, same_opt, same_text};

verus! {

/// A Discord account as the events describe it.
#[derive(Debug)]
pub struct DiscordUserData {
    /// The avatar's version token; `None` where the user has no avatar of their own.
    pub avatar: Option<String>,
    pub id: String,
    pub username: String,
}

/// The value of a [`DiscordUserData`].
pub struct UserView {
    pub avatar: Option<Seq<char>>,
    pub id: Seq<char>,
    pub username: Seq<char>,
}

impl View for DiscordUserData {
    type V = UserView;

    open spec fn view(&self) -> UserView {
        UserView { avatar: opt_view(self.avatar), id: self.id@, username: self.username@ }
    }
}

/// The voice state of one user in the tracked channel.
#[derive(Debug)]
pub struct VoiceStateData {
    pub mute: bool,
    pub self_mute: bool,
    pub deaf: bool,
    pub self_deaf: bool,
    pub suppress: bool,
    /// The name the user goes by in this guild, if they have one.
    pub nick: Option<String>,
    /// Set by the speaking events alone.
    pub talking: bool,
}

/// The value of a [`VoiceStateData`].
pub struct VoiceStateView {
    pub mute: bool,
    pub self_mute: bool,
    pub deaf: bool,
    pub self_deaf: bool,
    pub suppress: bool,
    pub nick: Option<Seq<char>>,
    pub talking: bool,
}

impl View for VoiceStateData {
    type V = VoiceStateView;

    open spec fn view(&self) -> VoiceStateView {
        VoiceStateView {
            mute: self.mute,
            self_mute: self.self_mute,
            deaf: self.deaf,
            self_deaf: self.self_deaf,
            suppress: self.suppress,
            nick: opt_view(self.nick),
            talking: self.talking,
        }
    }
}

/// The writes that make the digest of a user entry.
pub open spec fn user_writes(key: Seq<char>, u: UserView) -> Seq<Seq<u8>> {
    seq![seq![1u8]] + text_writes(key) + text_writes(u.id) + text_writes(u.username)
        + opt_text_writes(u.avatar)
}

/// The writes that make the digest of a voice state entry.
pub open spec fn voice_writes(key: Seq<char>, v: VoiceStateView) -> Seq<Seq<u8>> {
    seq![seq![2u8]] + text_writes(key) + seq![
        seq![flag_byte(v.mute)],
        seq![flag_byte(v.self_mute)],
        seq![flag_byte(v.deaf)],
        seq![flag_byte(v.self_deaf)],
        seq![flag_byte(v.suppress)],
        seq![flag_byte(v.talking)],
    ] + opt_text_writes(v.nick)
}

impl Record for DiscordUserData {
    open spec fn digest_of(key: Seq<char>, value: UserView) -> u64 {
        digest_of_writes(user_writes(key, value))
    }

    fn digest(&self, key: &str) -> (r: u64) {
        let mut h = DefaultHasher::new();
        write_byte(&mut h, 1u8);
        write_text(&mut h, key);
        write_text(&mut h, self.id.as_str());
        write_text(&mut h, self.username.as_str());
        write_opt_text(&mut h, &self.avatar);
        assert(h@ =~= user_writes(key@, self@));
        h.finish()
    }

    fn duplicate(&self) -> (r: Self) {
        DiscordUserData {
            avatar: copy_opt(&self.avatar),
            id: self.id.clone(),
            username: self.username.clone(),
        }
    }

    fn matches(&self, other: &Self) -> (r: bool) {
        same_opt(&self.avatar, &other.avatar) && same_text(self.id.as_str(), other.id.as_str())
            && same_text(self.username.as_str(), other.username.as_str())
    }
}

impl Record for VoiceStateData {
    open spec fn digest_of(key: Seq<char>, value: VoiceStateView) -> u64 {
        digest_of_writes(voice_writes(key, value))
    }

    fn digest(&self, key: &str) -> (r: u64) {
        let mut h = DefaultHasher::new();
        write_byte(&mut h, 2u8);
        write_text(&mut h, key);
        write_flag(&mut h, self.mute);
        write_flag(&mut h, self.self_mute);
        write_flag(&mut h, self.deaf);
        write_flag(&mut h, self.self_deaf);
        write_flag(&mut h, self.suppress);
        write_flag(&mut h, self.talking);
        write_opt_text(&mut h, &self.nick);
        assert(h@ =~= voice_writes(key@, self@));
        h.finish()
    }

    fn duplicate(&self) -> (r: Self) {
        VoiceStateData {
            mute: self.mute,
            self_mute: self.self_mute,
            deaf: self.deaf,
            self_deaf: self.self_deaf,
            suppress: self.suppress,
            nick: copy_opt(&self.nick),
            talking: self.talking,
        }
    }

    fn matches(&self, other: &Self) -> (r: bool) {
        self.mute == other.mute && self.self_mute == other.self_mute && self.deaf == other.deaf
            && self.self_deaf == other.self_deaf && self.suppress == other.suppress
            && self.talking == other.talking && same_opt(&self.nick, &other.nick)
    }
}

impl Clone for DiscordUserData {
    fn clone(&self) -> (r: Self)
        ensures
            r@ == self@,
    {
        self.duplicate()
    }
}

impl Clone for VoiceStateData {
    fn clone(&self) -> (r: Self)
        ensures
            r@ == self@,
    {
        self.duplicate()
    }
}

/// What a voice-state event says of one user: who they are and their flags
/// in the channel. Whether they are talking is not part of it.
#[derive(Debug)]
pub struct VoiceStateUpdate {
    pub user: DiscordUserData,
    pub nick: Option<String>,
    pub mute: bool,
    pub self_mute: bool,
    pub deaf: bool,
    pub self_deaf: bool,
    pub suppress: bool,
}

/// The value of a [`VoiceStateUpdate`].
pub struct VoiceUpdateView {
    pub user: UserView,
    pub nick: Option<Seq<char>>,
    pub mute: bool,
    pub self_mute: bool,
    pub deaf: bool,
    pub self_deaf: bool,
    pub suppress: bool,
}

impl View for VoiceStateUpdate {
    type V = VoiceUpdateView;

    open spec fn view(&self) -> VoiceUpdateView {
        VoiceUpdateView {
            user: self.user@,
            nick: opt_view(self.nick),
            mute: self.mute,
            self_mute: self.self_mute,
            deaf: self.deaf,
            self_deaf: self.self_deaf,
            suppress: self.suppress,
        }
    }
}

impl VoiceUpdateView {
    /// The voice state that the update gives a user, with the talking flag
    /// supplied from elsewhere.
    pub open spec fn voice_state(self, talking: bool) -> VoiceStateView {
        VoiceStateView {
            mute: self.mute,
            self_mute: self.self_mute,
            deaf: self.deaf,
            self_deaf: self.self_deaf,
            suppress: self.suppress,
            nick: self.nick,
            talking,
        }
    }
}

/// The values of a list of updates, in order.
pub open spec fn updates_view(updates: Seq<VoiceStateUpdate>) -> Seq<VoiceUpdateView> {
    updates.map_values(|u: VoiceStateUpdate| u@)
}

/// Whether a user is marked as talking in a map of voice states; `false`
/// for a user the map does not hold.
pub open spec fn talking_in(voice_states: Map<Seq<char>, VoiceStateView>, id: Seq<char>) -> bool {
    voice_states.contains_key(id) && voice_states[id].talking
}

/// The user map after a membership list was applied: each listed user is
/// put in, the last entry of a user winning; users not listed stay.
pub open spec fn synced_users(
    users: Map<Seq<char>, UserView>,
    members: Seq<VoiceUpdateView>,
) -> Map<Seq<char>, UserView>
    decreases members.len(),
{
    if members.len() == 0 {
        users
    } else {
        synced_users(users, members.drop_last()).insert(members.last().user.id, members.last().user)
    }
}

/// The voice states after a membership list replaced them: the listed
/// users and no others, each with the flags of their last entry and the
/// talking flag they had before.
pub open spec fn synced_voice_states(
    before: Map<Seq<char>, VoiceStateView>,
    members: Seq<VoiceUpdateView>,
) -> Map<Seq<char>, VoiceStateView>
    decreases members.len(),
{
    if members.len() == 0 {
        Map::empty()
    } else {
        synced_voice_states(before, members.drop_last()).insert(
            members.last().user.id,
            members.last().voice_state(talking_in(before, members.last().user.id)),
        )
    }
}

/// The order of the known users after one more became known: a user who
/// was known keeps their place, a new one goes to the end.
pub open spec fn order_with(
    order: Seq<Seq<char>>,
    users: Map<Seq<char>, UserView>,
    id: Seq<char>,
) -> Seq<Seq<char>> {
    if users.contains_key(id) {
        order
    } else {
        order.push(id)
    }
}

/// The order of the known users after a membership list was applied: the
/// new users follow the known ones, in the order of the list.
pub open spec fn synced_order(
    order: Seq<Seq<char>>,
    users: Map<Seq<char>, UserView>,
    members: Seq<VoiceUpdateView>,
) -> Seq<Seq<char>>
    decreases members.len(),
{
    if members.len() == 0 {
        order
    } else {
        order_with(
            synced_order(order, users, members.drop_last()),
            synced_users(users, members.drop_last()),
            members.last().user.id,
        )
    }
}

/// The value of a [`ConnState`].
pub struct ConnStateView {
    pub user_id: Option<Seq<char>>,
    pub voice_channel: Option<Seq<char>>,
    pub users: Map<Seq<char>, UserView>,
    pub voice_states: Map<Seq<char>, VoiceStateView>,
    /// The ids of the known users in the order in which they became known.
    /// It decides in which order the users are shown, and nothing else.
    pub order: Seq<Seq<char>>,
}

impl ConnStateView {
    /// The state of a fresh session: nobody known, no channel.
    pub open spec fn empty() -> ConnStateView {
        ConnStateView {
            user_id: None,
            voice_channel: None,
            users: Map::empty(),
            voice_states: Map::empty(),
            order: Seq::empty(),
        }
    }

    /// Every user with a voice state is a known user.
    pub open spec fn consistent(self) -> bool {
        forall|k: Seq<char>| self.voice_states.contains_key(k) ==> self.users.contains_key(k)
    }

    /// The order lists the known users, each once.
    pub open spec fn ordered(self) -> bool {
        &&& self.order.no_duplicates()
        &&& forall|k: Seq<char>| self.users.contains_key(k) <==> self.order.contains(k)
    }

    /// Whether two states hold the same: the same local user, the same
    /// channel, the same users and the same voice states, in whatever order
    /// the users became known.
    pub open spec fn same_content(self, other: ConnStateView) -> bool {
        &&& self.user_id == other.user_id
        &&& self.voice_channel == other.voice_channel
        &&& self.users == other.users
        &&& self.voice_states == other.voice_states
    }

    /// The state after the local user was recorded.
    pub open spec fn with_user_id(self, user_id: Option<Seq<char>>) -> ConnStateView {
        ConnStateView { user_id, ..self }
    }

    /// The state after the local user left the voice channel: no channel,
    /// no users, no voice states. Who the local user is stays.
    pub open spec fn left_channel(self) -> ConnStateView {
        ConnStateView {
            user_id: self.user_id,
            voice_channel: None,
            users: Map::empty(),
            voice_states: Map::empty(),
            order: Seq::empty(),
        }
    }

    /// The state after a speaking event for a user: their talking flag is
    /// set; a user without a voice state changes nothing.
    pub open spec fn with_talking(self, id: Seq<char>, talking: bool) -> ConnStateView {
        if self.voice_states.contains_key(id) {
            ConnStateView {
                voice_states: self.voice_states.insert(
                    id,
                    VoiceStateView { talking, ..self.voice_states[id] },
                ),
                ..self
            }
        } else {
            self
        }
    }

    /// The state after a voice-state update for one user: the user and
    /// their flags are stored, the talking flag stays as it was, or is
    /// `false` for a user who had no voice state.
    pub open spec fn with_update(self, update: VoiceUpdateView) -> ConnStateView {
        ConnStateView {
            users: self.users.insert(update.user.id, update.user),
            voice_states: self.voice_states.insert(
                update.user.id,
                update.voice_state(talking_in(self.voice_states, update.user.id)),
            ),
            order: order_with(self.order, self.users, update.user.id),
            ..self
        }
    }

    /// The state after a voice channel became the tracked one.
    pub open spec fn with_channel(self, channel: Seq<char>) -> ConnStateView {
        ConnStateView { voice_channel: Some(channel), ..self }
    }

    /// The state after the membership of the channel was received in full:
    /// the listed users are stored, and the voice states are those of the
    /// listed users alone, each with the talking flag they had before.
    pub open spec fn with_members(self, members: Seq<VoiceUpdateView>) -> ConnStateView {
        ConnStateView {
            users: synced_users(self.users, members),
            voice_states: synced_voice_states(self.voice_states, members),
            order: synced_order(self.order, self.users, members),
            ..self
        }
    }
}

/// One line of what a front end shows: a user in the channel, under the
/// name they go by, with what is to be shown of their state.
#[derive(Debug)]
pub struct RosterEntry {
    pub id: String,
    /// The nickname where the user has one, else the user name.
    pub name: String,
    pub avatar: Option<String>,
    /// Muted, by the server or by themselves.
    pub muted: bool,
    /// Deafened, by the server or by themselves.
    pub deafened: bool,
    pub talking: bool,
}

/// The value of a [`RosterEntry`].
pub struct RosterEntryView {
    pub id: Seq<char>,
    pub name: Seq<char>,
    pub avatar: Option<Seq<char>>,
    pub muted: bool,
    pub deafened: bool,
    pub talking: bool,
}

impl View for RosterEntry {
    type V = RosterEntryView;

    open spec fn view(&self) -> RosterEntryView {
        RosterEntryView {
            id: self.id@,
            name: self.name@,
            avatar: opt_view(self.avatar),
            muted: self.muted,
            deafened: self.deafened,
            talking: self.talking,
        }
    }
}

/// The values of a roster, in order.
pub open spec fn roster_view(roster: Seq<RosterEntry>) -> Seq<RosterEntryView> {
    roster.map_values(|e: RosterEntry| e@)
}

/// What is shown of a user with a voice state.
pub open spec fn roster_entry(u: UserView, v: VoiceStateView) -> RosterEntryView {
    RosterEntryView {
        id: u.id,
        name: match v.nick {
            Some(n) => n,
            None => u.username,
        },
        avatar: u.avatar,
        muted: v.mute || v.self_mute,
        deafened: v.deaf || v.self_deaf,
        talking: v.talking,
    }
}

/// The roster of a state along a list of user ids: the listed users that
/// have a voice state, in the order of the list.
pub open spec fn roster_along(order: Seq<Seq<char>>, s: ConnStateView) -> Seq<RosterEntryView>
    decreases order.len(),
{
    if order.len() == 0 {
        Seq::empty()
    } else {
        let front = roster_along(order.drop_last(), s);
        let k = order.last();
        if s.users.contains_key(k) && s.voice_states.contains_key(k) {
            front.push(roster_entry(s.users[k], s.voice_states[k]))
        } else {
            front
        }
    }
}

/// The roster of a state: the users that have a voice state, in the order
/// in which they became known.
pub open spec fn roster_of(s: ConnStateView) -> Seq<RosterEntryView> {
    roster_along(s.order, s)
}

/// The writes that make the digest of the two ids of a state.
pub open spec fn header_writes(s: ConnStateView) -> Seq<Seq<u8>> {
    seq![seq![0u8]] + opt_text_writes(s.user_id) + opt_text_writes(s.voice_channel)
}

/// The digest of a state. The order in which the users became known has no
/// part in it.
pub open spec fn state_digest(s: ConnStateView) -> u64 {
    digest_of_writes(header_writes(s)) ^ table_digest::<DiscordUserData>(s.users)
        ^ table_digest::<VoiceStateData>(s.voice_states)
}

/// The connection state.
#[derive(Debug)]
pub struct ConnState {
    user_id: Option<String>,
    voice_channel: Option<String>,
    users: Table<DiscordUserData>,
    voice_states: Table<VoiceStateData>,
}

impl View for ConnState {
    type V = ConnStateView;

    closed spec fn view(&self) -> ConnStateView {
        ConnStateView {
            user_id: opt_view(self.user_id),
            voice_channel: opt_view(self.voice_channel),
            users: self.users@,
            voice_states: self.voice_states@,
            order: self.users.order(),
        }
    }
}

impl ConnState {
    #[verifier::type_invariant]
    spec fn valid(self) -> bool {
        self@.consistent()
    }

    /// The state of a fresh session.
    pub fn new() -> (r: ConnState)
        ensures
            r@ == ConnStateView::empty(),
    {
        ConnState {
            user_id: None,
            voice_channel: None,
            users: Table::new(),
            voice_states: Table::new(),
        }
    }

    /// Replaces the whole state by another.
    pub fn replace_self(&mut self, new: ConnState)
        ensures
            final(self)@ == new@,
    {
        *self = new;
    }

    /// Forgets everything, the local user included.
    pub fn clear(&mut self)
        ensures
            final(self)@ == ConnStateView::empty(),
    {
        self.voice_states = Table::new();
        self.users = Table::new();
        self.user_id = None;
        self.voice_channel = None;
    }

    /// The local user's id, once authenticated.
    pub fn user_id(&self) -> (r: &Option<String>)
        ensures
            opt_view(*r) == self@.user_id,
    {
        &self.user_id
    }

    /// The id of the tracked voice channel; `None` outside a channel.
    pub fn voice_channel(&self) -> (r: &Option<String>)
        ensures
            opt_view(*r) == self@.voice_channel,
    {
        &self.voice_channel
    }

    /// The known users by id.
    pub fn users(&self) -> (r: &Table<DiscordUserData>)
        ensures
            r@ == self@.users,
            r.order() == self@.order,
            self@.consistent(),
            self@.ordered(),
    {
        proof {
            use_type_invariant(self);
        }
        let _ = self.users.entries();
        &self.users
    }

    /// The voice states of the users in the channel, by user id.
    pub fn voice_states(&self) -> (r: &Table<VoiceStateData>)
        ensures
            r@ == self@.voice_states,
            self@.consistent(),
    {
        proof {
            use_type_invariant(self);
        }
        &self.voice_states
    }

    /// Records who the local user is.
    pub fn set_user_id(&mut self, user_id: Option<String>)
        ensures
            final(self)@ == old(self)@.with_user_id(opt_view(user_id)),
    {
        proof {
            use_type_invariant(&*self);
        }
        self.user_id = user_id;
    }

    /// The local user left the voice channel.
    pub fn user_left_channel(&mut self)
        ensures
            final(self)@ == old(self)@.left_channel(),
    {
        self.voice_states = Table::new();
        self.users = Table::new();
        self.voice_channel = None;
    }

    /// Sets the talking flag of a user who has a voice state; for any other
    /// id nothing changes.
    pub fn set_user_talking(&mut self, user_id: &str, talking: bool)
        ensures
            final(self)@ == old(self)@.with_talking(user_id@, talking),
    {
        proof {
            use_type_invariant(&*self);
        }
        let changed = match self.voice_states.get(user_id) {
            Some(v) => {
                let mut w = v.duplicate();
                w.talking = talking;
                Some(w)
            },
            None => None,
        };
        if let Some(w) = changed {
            let mut voice: Table<VoiceStateData> = Table::new();
            std::mem::swap(&mut voice, &mut self.voice_states);
            voice.insert(user_id.to_string(), w);
            self.voice_states = voice;
        }
    }

    /// Stores what a voice-state update says of one user.
    pub fn update_state_from_voice_state(&mut self, update: &VoiceStateUpdate)
        ensures
            final(self)@ == old(self)@.with_update(update@),
    {
        proof {
            use_type_invariant(&*self);
        }
        let talking = match self.voice_states.get(update.user.id.as_str()) {
            Some(v) => v.talking,
            None => false,
        };
        let mut voice: Table<VoiceStateData> = Table::new();
        std::mem::swap(&mut voice, &mut self.voice_states);
        let mut users: Table<DiscordUserData> = Table::new();
        std::mem::swap(&mut users, &mut self.users);
        users.insert(update.user.id.clone(), update.user.duplicate());
        voice.insert(
            update.user.id.clone(),
            VoiceStateData {
                mute: update.mute,
                self_mute: update.self_mute,
                deaf: update.deaf,
                self_deaf: update.self_deaf,
                suppress: update.suppress,
                nick: copy_opt(&update.nick),
                talking,
            },
        );
        self.users = users;
        self.voice_states = voice;
    }

    /// Makes a voice channel the tracked one.
    pub fn set_voice_channel(&mut self, channel: String)
        ensures
            final(self)@ == old(self)@.with_channel(channel@),
    {
        proof {
            use_type_invariant(&*self);
        }
        self.voice_channel = Some(channel);
    }

    /// Takes over the membership of the channel received in full: the
    /// listed users are stored, and the voice states are those of the listed
    /// users alone. A user who was marked as talking before is still marked so.
    pub fn update_state_from_voice_state_list(&mut self, members: &Vec<VoiceStateUpdate>)
        ensures
            final(self)@ == old(self)@.with_members(updates_view(members@)),
    {
        proof {
            use_type_invariant(&*self);
        }
        let mut before: Table<VoiceStateData> = Table::new();
        std::mem::swap(&mut before, &mut self.voice_states);
        let mut users: Table<DiscordUserData> = Table::new();
        std::mem::swap(&mut users, &mut self.users);
        let ghost users0 = users@;
        let ghost order0 = users.order();
        let ghost all = updates_view(members@);
        let mut voice: Table<VoiceStateData> = Table::new();
        let n = members.len();
        let mut i: usize = 0;
        assert(all.take(0) =~= Seq::empty());
        while i < n
            invariant
                n == members@.len(),
                i <= n,
                all == updates_view(members@),
                users@ == synced_users(users0, all.take(i as int)),
                users.order() == synced_order(order0, users0, all.take(i as int)),
                voice@ == synced_voice_states(before@, all.take(i as int)),
                forall|k: Seq<char>| voice@.contains_key(k) ==> users@.contains_key(k),
            decreases n - i,
        {
            let m = &members[i];
            let talking = match before.get(m.user.id.as_str()) {
                Some(v) => v.talking,
                None => false,
            };
            users.insert(m.user.id.clone(), m.user.duplicate());
            voice.insert(
                m.user.id.clone(),
                VoiceStateData {
                    mute: m.mute,
                    self_mute: m.self_mute,
                    deaf: m.deaf,
                    self_deaf: m.self_deaf,
                    suppress: m.suppress,
                    nick: copy_opt(&m.nick),
                    talking,
                },
            );
            proof {
                assert(all.take(i + 1).drop_last() =~= all.take(i as int));
                assert(all.take(i + 1).last() == m@);
            }
            i += 1;
        }
        assert(all.take(n as int) =~= all);
        self.users = users;
        self.voice_states = voice;
    }

    /// The users in the channel as a front end shows them, in the order in
    /// which they became known.
    pub fn roster(&self) -> (r: Vec<RosterEntry>)
        ensures
            roster_view(r@) == roster_of(self@),
    {
        let entries = self.users.entries();
        let ghost order = self@.order;
        let mut roster: Vec<RosterEntry> = Vec::new();
        let n = entries.len();
        let mut i: usize = 0;
        assert(order.take(0) =~= Seq::empty());
        assert(roster_view(roster@) =~= Seq::empty());
        while i < n
            invariant
                n == entries@.len(),
                i <= n,
                order == self@.order,
                order.len() == n,
                forall|k: int| 0 <= k < n ==> (#[trigger] entries@[k]).0@ == order[k],
                forall|k: int|
                    0 <= k < n ==> self@.users.contains_key((#[trigger] entries@[k]).0@)
                        && self@.users[entries@[k].0@] == entries@[k].1@,
                roster_view(roster@) == roster_along(order.take(i as int), self@),
            decreases n - i,
        {
            let key = &entries[i].0;
            let user = &entries[i].1;
            proof {
                assert(order.take(i + 1).drop_last() =~= order.take(i as int));
                assert(order.take(i + 1).last() == key@);
            }
            let ghost before = roster@;
            match self.voice_states.get(key.as_str()) {
                Some(v) => {
                    let name = match &v.nick {
                        Some(n) => n.clone(),
                        None => user.username.clone(),
                    };
                    roster.push(
                        RosterEntry {
                            id: user.id.clone(),
                            name,
                            avatar: copy_opt(&user.avatar),
                            muted: v.mute || v.self_mute,
                            deafened: v.deaf || v.self_deaf,
                            talking: v.talking,
                        },
                    );
                    assert(roster_view(roster@) =~= roster_view(before).push(
                        roster_entry(user@, v@),
                    ));
                },
                None => {},
            }
            i += 1;
        }
        assert(order.take(n as int) =~= order);
        roster
    }

    /// Whether two states have the same value: the same local user, the
    /// same channel, the same users and the same voice states.
    pub fn same_as(&self, other: &ConnState) -> (r: bool)
        ensures
            r == self@.same_content(other@),
    {
        same_opt(&self.user_id, &other.user_id) && same_opt(
            &self.voice_channel,
            &other.voice_channel,
        ) && self.users.same_as(&other.users) && self.voice_states.same_as(&other.voice_states)
    }

    /// Takes over another state where its digest differs from that of this
    /// one, and says whether it did.
    pub fn replace_if_changed(&mut self, new: ConnState) -> (changed: bool)
        ensures
            changed == (state_digest(old(self)@) != state_digest(new@)),
            final(self)@ == if changed {
                new@
            } else {
                old(self)@
            },
    {
        let changed = calculate_hash(self) != calculate_hash(&new);
        if changed {
            self.replace_self(new);
        }
        changed
    }

    /// A copy of the state.
    pub fn duplicate(&self) -> (r: ConnState)
        ensures
            r@ == self@,
    {
        proof {
            use_type_invariant(self);
        }
        ConnState {
            user_id: copy_opt(&self.user_id),
            voice_channel: copy_opt(&self.voice_channel),
            users: self.users.duplicate(),
            voice_states: self.voice_states.duplicate(),
        }
    }
}

impl Clone for ConnState {
    fn clone(&self) -> (r: Self)
        ensures
            r@ == self@,
    {
        self.duplicate()
    }
}

/// The digest of a state, for telling whether a state has changed.
pub fn calculate_hash(t: &ConnState) -> (r: u64)
    ensures
        r == state_digest(t@),
{
    let mut h = DefaultHasher::new();
    write_byte(&mut h, 0u8);
    write_opt_text(&mut h, t.user_id());
    write_opt_text(&mut h, t.voice_channel());
    assert(h@ =~= header_writes(t@));
    let head = h.finish();
    head ^ t.users().digest() ^ t.voice_states().digest()
}

} // verus!

//! Which avatars are still to be fetched.
//!
//! An avatar is named by its user's id and its version token. The ledger
//! holds the names that were answered, so that none is asked for twice.

use vstd::prelude::*;
use vstd::string::StringExecFns;
use crate::data::{ConnState, UserView};
use crate::text::{holds, texts_view};

verus! {

/// The referer that the avatar requests name.
pub const AVATAR_REFERER: &'static str = "https://streamkit.discord.com/overlay/voice";

/// The user agent that the avatar requests name.
pub const AVATAR_USER_AGENT: &'static str = "Mozilla/5.0";

/// The name of an avatar: the user's id, a slash, the version token.
pub open spec fn avatar_key_of(id: Seq<char>, token: Seq<char>) -> Seq<char> {
    id + "/"@ + token
}

/// The address of the image of an avatar.
pub open spec fn avatar_url_of(key: Seq<char>) -> Seq<char> {
    "https://cdn.discordapp.com/avatars/"@ + key + ".png"@
}

/// The name of the avatar of a user.
pub fn avatar_key(id: &str, token: &str) -> (r: String)
    ensures
        r@ == avatar_key_of(id@, token@),
{
    let mut key = id.to_string();
    key.append("/");
    key.append(token);
    key
}

/// The address of the image of an avatar.
pub fn avatar_url(key: &str) -> (r: String)
    ensures
        r@ == avatar_url_of(key@),
{
    let mut url = "https://cdn.discordapp.com/avatars/".to_string();
    url.append(key);
    url.append(".png");
    url
}

/// The avatars to fetch for the users in the given order: each user's
/// avatar that was neither answered before nor named already, once.
pub open spec fn wanted_of(
    order: Seq<Seq<char>>,
    users: Map<Seq<char>, UserView>,
    done: Set<Seq<char>>,
) -> Seq<Seq<char>>
    decreases order.len(),
{
    if order.len() == 0 {
        Seq::empty()
    } else {
        let front = wanted_of(order.drop_last(), users, done);
        let k = order.last();
        if users.contains_key(k) && users[k].avatar is Some {
            let key = avatar_key_of(users[k].id, users[k].avatar->0);
            if done.contains(key) || front.contains(key) {
                front
            } else {
                front.push(key)
            }
        } else {
            front
        }
    }
}

/// The avatars that were answered, with an image or with a failure.
#[derive(Debug)]
pub struct AvatarLedger {
    done: Vec<String>,
}

impl View for AvatarLedger {
    type V = Set<Seq<char>>;

    closed spec fn view(&self) -> Set<Seq<char>> {
        texts_view(self.done@).to_set()
    }
}

impl AvatarLedger {
    /// A ledger without entries.
    pub fn new() -> (r: AvatarLedger)
        ensures
            r@ == Set::<Seq<char>>::empty(),
    {
        let r = AvatarLedger { done: Vec::new() };
        assert(r@ =~= Set::<Seq<char>>::empty());
        r
    }

    /// Whether an avatar was answered.
    pub fn is_done(&self, key: &str) -> (r: bool)
        ensures
            r == self@.contains(key@),
    {
        holds(&self.done, key)
    }

    /// Takes note that an avatar was answered.
    pub fn mark_done(&mut self, key: String)
        ensures
            final(self)@ == old(self)@.insert(key@),
    {
        if !holds(&self.done, key.as_str()) {
            let ghost before = texts_view(self.done@);
            self.done.push(key);
            assert(texts_view(self.done@) =~= before.push(key@));
            assert(self@ =~= old(self)@.insert(key@)) by {
                assert forall|k: Seq<char>| before.push(key@).contains(k) <==> before.contains(k)
                    || k == key@ by {
                    if before.contains(k) {
                        let i = choose|i: int| 0 <= i < before.len() && before[i] == k;
                        assert(before.push(key@)[i] == k);
                    }
                    if k == key@ {
                        assert(before.push(key@)[before.len() as int] == k);
                    }
                }
            }
        } else {
            assert(self@ =~= old(self)@.insert(key@));
        }
    }

    /// The avatars to fetch for a state: those of its users that were not
    /// answered yet, in the order in which the users became known.
    pub fn wanted(&self, state: &ConnState) -> (r: Vec<String>)
        ensures
            texts_view(r@) == wanted_of(state@.order, state@.users, self@),
    {
        let users = state.users();
        let entries = users.entries();
        let ghost order = state@.order;
        let mut keys: Vec<String> = Vec::new();
        let n = entries.len();
        let mut i: usize = 0;
        assert(order.take(0) =~= Seq::empty());
        assert(texts_view(keys@) =~= Seq::empty());
        while i < n
            invariant
                n == entries@.len(),
                i <= n,
                order.len() == n,
                forall|k: int| 0 <= k < n ==> (#[trigger] entries@[k]).0@ == order[k],
                forall|k: int|
                    0 <= k < n ==> state@.users.contains_key((#[trigger] entries@[k]).0@)
                        && state@.users[entries@[k].0@] == entries@[k].1@,
                texts_view(keys@) == wanted_of(order.take(i as int), state@.users, self@),
            decreases n - i,
        {
            let user = &entries[i].1;
            proof {
                assert(order.take(i + 1).drop_last() =~= order.take(i as int));
                assert(order.take(i + 1).last() == entries@[i as int].0@);
            }
            match &user.avatar {
                Some(token) => {
                    let key = avatar_key(user.id.as_str(), token.as_str());
                    if !self.is_done(key.as_str()) && !holds(&keys, key.as_str()) {
                        let ghost before = texts_view(keys@);
                        keys.push(key);
                        assert(texts_view(keys@) =~= before.push(key@));
                    }
                },
                None => {},
            }
            i += 1;
        }
        assert(order.take(n as int) =~= order);
        keys
    }
}

} // verus!

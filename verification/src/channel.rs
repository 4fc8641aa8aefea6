//! A channel's membership: who is on it, and how many of them are guests.
//!
//! The members of a channel are a list of distinct ids. An id that begins
//! with `guest_` belongs to a guest, any other id to a registered user. A
//! channel holds at most [`NUM_MAX_GUEST`] guests and [`NUM_MAX_USER`] users.

use vstd::prelude::*;
use vstd::string::StringExecFns;
use rand::Rng;
use crate::packet::LoginReq;
use crate::text::concat;
use crate::text::decimal;
use crate::text::lemma_decimal_injective;
use crate::text::to_decimal;
use crate::user::guest_prefix;
use crate::user::is_guest;
use crate::user::is_guest_id;
use crate::text::str_eq;

verus! {

/// The most guests a channel holds.
pub const NUM_MAX_GUEST: usize = 64;

/// The most registered users a channel holds.
pub const NUM_MAX_USER: usize = 128;

/// The number of guest ids in a list of ids.
pub open spec fn guest_count(ids: Seq<Seq<char>>) -> nat
    decreases ids.len(),
{
    if ids.len() == 0 {
        0
    } else {
        guest_count(ids.drop_last()) + if is_guest_id(ids.last()) {
            1nat
        } else {
            0nat
        }
    }
}

/// The number of ids of registered users in a list of ids.
pub open spec fn user_count(ids: Seq<Seq<char>>) -> nat {
    (ids.len() - guest_count(ids)) as nat
}

/// The ids of a list of names.
pub open spec fn ids_of(names: Seq<String>) -> Seq<Seq<char>> {
    Seq::new(names.len(), |i: int| names[i]@)
}

/// There are no more guest ids in a list than ids.
pub proof fn lemma_guest_count_bound(ids: Seq<Seq<char>>)
    ensures
        guest_count(ids) <= ids.len(),
    decreases ids.len(),
{
    if ids.len() > 0 {
        lemma_guest_count_bound(ids.drop_last());
    }
}

/// Adding an id adds one to the count of its kind.
pub proof fn lemma_guest_count_push(ids: Seq<Seq<char>>, id: Seq<char>)
    ensures
        guest_count(ids.push(id)) == guest_count(ids) + if is_guest_id(id) {
            1nat
        } else {
            0nat
        },
{
    assert(ids.push(id).drop_last() =~= ids);
}

/// Taking an id out takes one from the count of its kind.
pub proof fn lemma_guest_count_remove(ids: Seq<Seq<char>>, i: int)
    requires
        0 <= i < ids.len(),
    ensures
        guest_count(ids) == guest_count(ids.remove(i)) + if is_guest_id(ids[i]) {
            1nat
        } else {
            0nat
        },
    decreases ids.len(),
{
    if i == ids.len() - 1 {
        assert(ids.remove(i) =~= ids.drop_last());
    } else {
        lemma_guest_count_remove(ids.drop_last(), i);
        assert(ids.remove(i).drop_last() =~= ids.drop_last().remove(i));
        assert(ids.remove(i).last() == ids.last());
    }
}

/// Whether a list of ids has room for one more id of the kind of `id`.
pub open spec fn room_for(ids: Seq<Seq<char>>, id: Seq<char>) -> bool {
    if is_guest_id(id) {
        guest_count(ids) < NUM_MAX_GUEST
    } else {
        user_count(ids) < NUM_MAX_USER
    }
}

/// A list of ids after `id` has left it: without `id`.
pub open spec fn left(ids: Seq<Seq<char>>, id: Seq<char>) -> Seq<Seq<char>> {
    if ids.contains(id) {
        ids.remove(ids.index_of(id))
    } else {
        ids
    }
}

/// A list of ids after `id` has asked to join it: with `id` at its end where
/// `id` was not in it and there was room for it, else unchanged.
pub open spec fn joined(ids: Seq<Seq<char>>, id: Seq<char>) -> Seq<Seq<char>> {
    if !ids.contains(id) && room_for(ids, id) {
        ids.push(id)
    } else {
        ids
    }
}

/// The members of a channel and their numbers.
#[derive(Debug)]
pub struct State {
    names: Vec<String>,
    num_user: usize,
    num_guest: usize,
}

impl State {
    /// The ids of the members, in the order in which they are listed.
    pub closed spec fn ids(&self) -> Seq<Seq<char>> {
        ids_of(self.names@)
    }

    /// The recorded number of registered users.
    pub closed spec fn users(&self) -> nat {
        self.num_user as nat
    }

    /// The recorded number of guests.
    pub closed spec fn guests(&self) -> nat {
        self.num_guest as nat
    }

    /// What holds of every membership: no id is listed twice, the recorded
    /// numbers are the numbers of guest ids and of other ids among the
    /// members, and neither number is over its limit.
    pub open spec fn wf(&self) -> bool {
        &&& self.ids().no_duplicates()
        &&& self.guests() == guest_count(self.ids())
        &&& self.users() == user_count(self.ids())
        &&& self.guests() <= NUM_MAX_GUEST
        &&& self.users() <= NUM_MAX_USER
    }

    /// A membership without members.
    pub fn new() -> (state: State)
        ensures
            state.wf(),
            state.ids() == Seq::<Seq<char>>::empty(),
    {
        let state = State { names: Vec::new(), num_user: 0, num_guest: 0 };
        assert(state.ids() =~= Seq::<Seq<char>>::empty());
        state
    }

    /// The position of `name` among the members, if it is one of them.
    fn position(&self, name: &str) -> (r: Option<usize>)
        ensures
            match r {
                Some(i) => i < self.ids().len() && self.ids()[i as int] == name@,
                None => !self.ids().contains(name@),
            },
    {
        let mut i: usize = 0;
        while i < self.names.len()
            invariant
                i <= self.names.len(),
                forall|k: int| 0 <= k < i ==> self.ids()[k] != name@,
            decreases self.names.len() - i,
        {
            if str_eq(self.names[i].as_str(), name) {
                return Some(i);
            }
            i += 1;
        }
        None
    }
}

/// A chat channel: its members, and whether it is one of the channels that
/// the server sets up for itself.
#[derive(Debug)]
pub struct Channel {
    pub state: State,
    pub is_system: bool,
}

impl Channel {
    /// What holds of every channel: its membership is well formed.
    pub open spec fn wf(&self) -> bool {
        self.state.wf()
    }

    /// The ids of the members.
    pub open spec fn ids(&self) -> Seq<Seq<char>> {
        self.state.ids()
    }

    /// A channel without members.
    pub fn new(is_system: bool) -> (channel: Channel)
        ensures
            channel.wf(),
            channel.ids() == Seq::<Seq<char>>::empty(),
            channel.is_system == is_system,
    {
        Channel { state: State::new(), is_system }
    }

    /// The number of guests on the channel.
    pub fn num_guest(&self) -> (n: usize)
        ensures
            n == self.state.guests(),
            self.wf() ==> n == guest_count(self.ids()) && n <= NUM_MAX_GUEST,
    {
        self.state.num_guest
    }

    /// The number of registered users on the channel.
    pub fn num_user(&self) -> (n: usize)
        ensures
            n == self.state.users(),
            self.wf() ==> n == user_count(self.ids()) && n <= NUM_MAX_USER,
    {
        self.state.num_user
    }

    /// Whether `user_name` is on the channel.
    pub fn has_user(&self, user_name: &str) -> (r: bool)
        ensures
            r == self.ids().contains(user_name@),
    {
        self.state.position(user_name).is_some()
    }

    /// Whether the channel has room for one more member of the kind of
    /// `id`.
    pub open spec fn has_room_for(&self, id: Seq<char>) -> bool {
        if is_guest_id(id) {
            self.state.guests() < NUM_MAX_GUEST
        } else {
            self.state.users() < NUM_MAX_USER
        }
    }

    /// Takes `name` off the channel. Where `name` is not on the channel,
    /// nothing changes.
    pub fn leave_user(&mut self, name: &str)
        requires
            old(self).wf(),
        ensures
            final(self).wf(),
            final(self).is_system == old(self).is_system,
            !old(self).ids().contains(name@) ==> final(self).ids() == old(self).ids(),
            old(self).ids().contains(name@) ==> final(self).ids() == old(self).ids().remove(
                old(self).ids().index_of(name@),
            ),
            !final(self).ids().contains(name@),
            final(self).ids() == left(old(self).ids(), name@),
    {
        match self.state.position(name) {
            None => {},
            Some(i) => {
                let ghost before = self.state.ids();
                proof {
                    lemma_guest_count_remove(before, i as int);
                    lemma_guest_count_bound(before.remove(i as int));
                    let j = before.index_of(name@);
                    assert(before[j] == name@);
                    assert(j == i);
                }
                if is_guest(name) {
                    self.state.num_guest -= 1;
                } else {
                    self.state.num_user -= 1;
                }
                self.state.names.remove(i);
                proof {
                    assert(self.state.ids() =~= before.remove(i as int));
                    assert forall|k: int| 0 <= k < before.remove(i as int).len() implies before.remove(
                        i as int,
                    )[k] != name@ by {
                        if k < i {
                            assert(before.remove(i as int)[k] == before[k]);
                        } else {
                            assert(before.remove(i as int)[k] == before[k + 1]);
                        }
                    }
                }
            },
        }
    }

    /// Puts `user_name` on the channel. Gives `true` where it was added:
    /// where it was not on the channel and the channel had room for one more
    /// of its kind. Otherwise nothing changes.
    pub fn add_connection(&mut self, user_name: &str) -> (added: bool)
        requires
            old(self).wf(),
        ensures
            final(self).wf(),
            final(self).is_system == old(self).is_system,
            added == (!old(self).ids().contains(user_name@) && old(self).has_room_for(user_name@)),
            added ==> final(self).ids() == old(self).ids().push(user_name@),
            !added ==> final(self).ids() == old(self).ids(),
            final(self).ids() == joined(old(self).ids(), user_name@),
    {
        if self.has_user(user_name) {
            return false;
        }
        let ghost before = self.state.ids();
        proof {
            lemma_guest_count_push(before, user_name@);
        }
        if is_guest(user_name) {
            if self.state.num_guest >= NUM_MAX_GUEST {
                return false;
            }
            self.state.num_guest += 1;
        } else {
            if self.state.num_user >= NUM_MAX_USER {
                return false;
            }
            self.state.num_user += 1;
        }
        self.state.names.push(user_name.to_owned());
        proof {
            let after = before.push(user_name@);
            assert(self.state.ids() =~= after);
            lemma_guest_count_bound(before);
            assert forall|a: int, b: int| 0 <= a < after.len() && 0 <= b < after.len() && a != b implies after[a]
                != after[b] by {
                if a < before.len() {
                    assert(before.contains(after[a]));
                }
                if b < before.len() {
                    assert(before.contains(after[b]));
                }
            }
        }
        true
    }

    /// The ids of the members, in the order in which they are listed.
    pub fn user_list(&self) -> (list: Vec<String>)
        ensures
            ids_of(list@) == self.ids(),
    {
        let mut list: Vec<String> = Vec::new();
        let mut i: usize = 0;
        while i < self.state.names.len()
            invariant
                i <= self.state.names.len(),
                list@.len() == i,
                forall|k: int| 0 <= k < i ==> list@[k]@ == self.state.names@[k]@,
            decreases self.state.names.len() - i,
        {
            list.push(self.state.names[i].clone());
            i += 1;
        }
        assert(ids_of(list@) =~= self.ids());
        list
    }
}

/// The numbers of a well-formed channel add up: the guests are exactly the
/// members with a guest id, the users are the other members, and users and
/// guests together are all the members.
pub proof fn lemma_membership_consistent(channel: Channel)
    requires
        channel.wf(),
    ensures
        channel.state.users() + channel.state.guests() == channel.ids().len(),
        channel.state.guests() == guest_count(channel.ids()),
        channel.state.users() == user_count(channel.ids()),
{
    lemma_guest_count_bound(channel.ids());
}

/// No id is on a well-formed channel twice.
pub proof fn lemma_unique_identity(channel: Channel, i: int, j: int)
    requires
        channel.wf(),
        0 <= i < channel.ids().len(),
        0 <= j < channel.ids().len(),
        i != j,
    ensures
        channel.ids()[i] != channel.ids()[j],
{
}

/// A well-formed channel is within its limits: at most 64 guests and at
/// most 128 users.
pub proof fn lemma_capacity(channel: Channel)
    requires
        channel.wf(),
    ensures
        channel.state.guests() <= 64,
        channel.state.users() <= 128,
{
}

/// The id of the guest with number `n`.
pub open spec fn guest_id(n: nat) -> Seq<char> {
    guest_prefix() + decimal(n)
}

/// The `k`-th guest number that is tried from `seed` on: the numbers follow
/// one another and start again at zero after the largest.
pub open spec fn candidate(seed: u16, k: nat) -> nat {
    ((seed + k) % 0x1_0000) as nat
}

/// Every guest id is the id of a guest, and different numbers have different
/// ids.
pub proof fn lemma_guest_id(a: nat, b: nat)
    ensures
        is_guest_id(guest_id(a)),
        guest_id(a) == guest_id(b) ==> a == b,
{
    let p = guest_prefix();
    assert(guest_id(a).subrange(0, p.len() as int) =~= p);
    if guest_id(a) == guest_id(b) {
        assert(guest_id(a).subrange(p.len() as int, guest_id(a).len() as int) =~= decimal(a));
        assert(guest_id(b).subrange(p.len() as int, guest_id(b).len() as int) =~= decimal(b));
        lemma_decimal_injective(a, b);
    }
}

/// A finite set of guest ids that are all in a list has no more elements
/// than the list has guest ids.
pub proof fn lemma_guests_in_list(ids: Seq<Seq<char>>, t: Set<Seq<char>>)
    requires
        t.finite(),
        forall|x: Seq<char>| #[trigger] t.contains(x) ==> ids.contains(x) && is_guest_id(x),
    ensures
        t.len() <= guest_count(ids),
    decreases ids.len(),
{
    if ids.len() == 0 {
        assert forall|x: Seq<char>| !t.contains(x) by {
            if t.contains(x) {
                assert(ids.contains(x));
            }
        }
        assert(t =~= Set::<Seq<char>>::empty());
    } else {
        let e = ids.last();
        let rest = ids.drop_last();
        let t2 = if t.contains(e) {
            t.remove(e)
        } else {
            t
        };
        assert forall|x: Seq<char>| #[trigger] t2.contains(x) implies rest.contains(x) && is_guest_id(x) by {
            assert(t.contains(x));
            assert(ids.contains(x));
            let i = choose|i: int| 0 <= i < ids.len() && ids[i] == x;
            assert(x != e);
            assert(rest[i] == x);
        }
        lemma_guests_in_list(rest, t2);
    }
}

/// `rand::thread_rng().gen::<u16>()`: a number drawn at random. Nothing is
/// promised of it.
#[verifier::external_body]
fn random_u16() -> u16 {
    rand::thread_rng().gen::<u16>()
}

impl Channel {
    /// Whether a login may be handed to the credential store: `Ok` unless
    /// the channel is full of users (`"too many users"`) or the login lacks
    /// its id or its password hash (`"broken login packet"`); a full channel
    /// is reported first.
    pub fn check_user_login(&self, req: &LoginReq) -> (r: Result<(), String>)
        ensures
            match r {
                Ok(_) => self.state.users() < NUM_MAX_USER && req.login_info.id is Some
                    && req.login_info.password_hash is Some,
                Err(e) => if self.state.users() >= NUM_MAX_USER {
                    e@ == "too many users"@
                } else {
                    e@ == "broken login packet"@ && (req.login_info.id is None
                        || req.login_info.password_hash is None)
                },
            },
    {
        if self.num_user() >= NUM_MAX_USER {
            Err(String::from_str("too many users"))
        } else if req.login_info.id.is_none() || req.login_info.password_hash.is_none() {
            Err(String::from_str("broken login packet"))
        } else {
            Ok(())
        }
    }

    /// Logs a registered user in on this channel. `verified` is the
    /// credential store's answer to the login. The login fails as
    /// [`Channel::check_user_login`] says, and with the store's reason where
    /// the store refused; nothing changes then. Otherwise `cur_id` leaves the
    /// channel, the login's id joins it, and that id is returned.
    pub fn connect_user(&mut self, req: &LoginReq, cur_id: &str, verified: Result<String, String>) -> (r:
        Result<String, String>)
        requires
            old(self).wf(),
        ensures
            final(self).wf(),
            final(self).is_system == old(self).is_system,
            match r {
                Ok(id) => {
                    &&& old(self).state.users() < NUM_MAX_USER
                    &&& req.login_info.id is Some
                    &&& req.login_info.password_hash is Some
                    &&& verified is Ok
                    &&& id@ == req.login_info.id->0@
                    &&& final(self).ids() == joined(left(old(self).ids(), cur_id@), id@)
                },
                Err(e) => {
                    &&& final(self).ids() == old(self).ids()
                    &&& if old(self).state.users() >= NUM_MAX_USER {
                        e@ == "too many users"@
                    } else if req.login_info.id is None || req.login_info.password_hash is None {
                        e@ == "broken login packet"@
                    } else {
                        verified is Err && e@ == verified->Err_0@
                    }
                },
            },
    {
        match self.check_user_login(req) {
            Err(e) => Err(e),
            Ok(_) => match verified {
                Err(e) => Err(e),
                Ok(_) => match &req.login_info.id {
                    Some(id) => {
                        self.leave_user(cur_id);
                        self.add_connection(id.as_str());
                        Ok(id.clone())
                    },
                    None => Err(String::from_str("broken login packet")),
                },
            },
        }
    }

    /// Logs a guest in on this channel, trying guest numbers from `seed` on.
    /// Fails with `"too many guests"` exactly where the channel is full of
    /// guests. Otherwise the guest gets the first id from `seed` on that is
    /// not on the channel, and joins under it.
    pub fn connect_guest_from(&mut self, seed: u16) -> (r: Result<String, String>)
        requires
            old(self).wf(),
        ensures
            final(self).wf(),
            final(self).is_system == old(self).is_system,
            match r {
                Ok(id) => {
                    &&& old(self).state.guests() < NUM_MAX_GUEST
                    &&& exists|k: nat|
                        {
                            &&& k < NUM_MAX_GUEST
                            &&& id@ == guest_id(candidate(seed, k))
                            &&& forall|j: nat|
                                j < k ==> old(self).ids().contains(
                                    #[trigger] guest_id(candidate(seed, j)),
                                )
                        }
                    &&& !old(self).ids().contains(id@)
                    &&& final(self).ids() == old(self).ids().push(id@)
                },
                Err(e) => {
                    &&& old(self).state.guests() >= NUM_MAX_GUEST
                    &&& e@ == "too many guests"@
                    &&& final(self).ids() == old(self).ids()
                },
            },
    {
        if self.num_guest() >= NUM_MAX_GUEST {
            return Err(String::from_str("too many guests"));
        }
        let ghost ids = self.ids();
        let ghost mut tried: Set<Seq<char>> = Set::empty();
        let mut k: u32 = 0;
        loop
            invariant
                *self == *old(self),
                self.wf(),
                ids == self.ids(),
                self.state.guests() < NUM_MAX_GUEST,
                k < NUM_MAX_GUEST,
                tried.finite(),
                tried.len() == k,
                forall|x: Seq<char>| #[trigger] tried.contains(x) ==> ids.contains(x) && is_guest_id(x),
                forall|x: Seq<char>| #[trigger]
                    tried.contains(x) ==> exists|j: nat| j < k && x == guest_id(candidate(seed, j)),
                forall|j: nat| j < k ==> ids.contains(#[trigger] guest_id(candidate(seed, j))),
            decreases NUM_MAX_GUEST - k,
        {
            let n: u32 = (seed as u32 + k) % 0x1_0000;
            let id = concat("guest_", to_decimal(n as u64).as_str());
            proof {
                assert(n == candidate(seed, k as nat));
                assert(id@ == guest_id(candidate(seed, k as nat)));
                lemma_guest_id(n as nat, n as nat);
            }
            if !self.has_user(id.as_str()) {
                let added = self.add_connection(id.as_str());
                assert(added);
                return Ok(id);
            }
            proof {
                assert(!tried.contains(id@)) by {
                    if tried.contains(id@) {
                        let j = choose|j: nat| j < k && id@ == guest_id(candidate(seed, j));
                        lemma_guest_id(candidate(seed, j), candidate(seed, k as nat));
                    }
                }
                tried = tried.insert(id@);
                lemma_guests_in_list(ids, tried);
            }
            k += 1;
        }
    }

    /// Logs a guest in on this channel under a guest id that is not on the
    /// channel; the first number tried is drawn at random. Fails with
    /// `"too many guests"` exactly where the channel is full of guests.
    pub fn connect_guest(&mut self) -> (r: Result<String, String>)
        requires
            old(self).wf(),
        ensures
            final(self).wf(),
            final(self).is_system == old(self).is_system,
            match r {
                Ok(id) => {
                    &&& old(self).state.guests() < NUM_MAX_GUEST
                    &&& exists|n: nat| n < 0x1_0000 && id@ == guest_id(n)
                    &&& !old(self).ids().contains(id@)
                    &&& final(self).ids() == old(self).ids().push(id@)
                },
                Err(e) => {
                    &&& old(self).state.guests() >= NUM_MAX_GUEST
                    &&& e@ == "too many guests"@
                    &&& final(self).ids() == old(self).ids()
                },
            },
    {
        let seed = random_u16();
        let r = self.connect_guest_from(seed);
        proof {
            if r is Ok {
                let id = r->Ok_0;
                let k = choose|k: nat| k < NUM_MAX_GUEST && id@ == guest_id(candidate(seed, k));
                assert(candidate(seed, k) < 0x1_0000);
            }
        }
        r
    }
}

} // verus!

//! The registry of channels: every channel of the server under its name.

use vstd::prelude::*;
use vstd::string::StringExecFns;
use crate::channel::Channel;
use crate::text::chars_of;
use crate::text::str_eq;

verus! {

/// The shortest channel name, in characters.
pub const MINIMUM_LEN: usize = 3;

/// Whether `c` may begin a channel name: an ASCII letter or `_`.
pub open spec fn is_name_start(c: char) -> bool {
    ('a' <= c && c <= 'z') || ('A' <= c && c <= 'Z') || c == '_'
}

/// Whether `c` may stand in a channel name: an ASCII letter or digit, or `_`.
pub open spec fn is_name_char(c: char) -> bool {
    is_name_start(c) || ('0' <= c && c <= '9')
}

/// Whether `name` is valid as a channel name: at least [`MINIMUM_LEN`]
/// characters, the first a letter or `_`, all of them letters, digits or `_`.
pub open spec fn valid_name(name: Seq<char>) -> bool {
    &&& name.len() >= MINIMUM_LEN
    &&& is_name_start(name[0])
    &&& forall|i: int| 0 <= i < name.len() ==> is_name_char(#[trigger] name[i])
}

/// The name of the channel that a connection enters first.
pub open spec fn default_channel() -> Seq<char> {
    "public"@
}

/// The names of the channels that the server sets up for itself.
pub open spec fn system_channels() -> Seq<Seq<char>> {
    seq!["public"@, "main"@, "dev"@]
}

/// The channels of the server, each under its name.
#[derive(Debug)]
pub struct Channels {
    channels: Vec<(String, Channel)>,
}

impl Channels {
    /// The names of the channels, in the order in which they were made.
    pub closed spec fn names(&self) -> Seq<Seq<char>> {
        Seq::new(self.channels@.len(), |i: int| self.channels@[i].0@)
    }

    /// The channel at position `i`.
    pub closed spec fn channel_at(&self, i: int) -> Channel {
        self.channels@[i].1
    }

    /// Whether there is a channel called `name`.
    pub open spec fn has(&self, name: Seq<char>) -> bool {
        self.names().contains(name)
    }

    /// The channel called `name`.
    pub open spec fn channel(&self, name: Seq<char>) -> Channel
        recommends
            self.has(name),
    {
        self.channel_at(self.names().index_of(name))
    }

    /// What holds of every registry: no two channels have the same name,
    /// every name is valid, and every channel is well formed.
    pub open spec fn wf(&self) -> bool {
        &&& self.names().no_duplicates()
        &&& forall|i: int|
            0 <= i < self.names().len() ==> valid_name(#[trigger] self.names()[i])
                && self.channel_at(i).wf()
    }

    /// Whether `name` is valid as a channel name.
    pub fn is_valid(name: &str) -> (r: bool)
        ensures
            r == valid_name(name@),
    {
        let chars = chars_of(name);
        if chars.len() < MINIMUM_LEN {
            return false;
        }
        let first = chars[0];
        if !(first == '_' || (first >= 'a' && first <= 'z') || (first >= 'A' && first <= 'Z')) {
            return false;
        }
        let mut i: usize = 0;
        while i < chars.len()
            invariant
                i <= chars.len(),
                chars@ == name@,
                forall|k: int| 0 <= k < i ==> is_name_char(#[trigger] name@[k]),
            decreases chars.len() - i,
        {
            let c = chars[i];
            if !(c == '_' || (c >= 'a' && c <= 'z') || (c >= 'A' && c <= 'Z') || (c >= '0' && c
                <= '9')) {
                return false;
            }
            i += 1;
        }
        true
    }

    /// The position of the channel called `name`, if there is one.
    fn position(&self, name: &str) -> (r: Option<usize>)
        ensures
            match r {
                Some(i) => i < self.names().len() && self.names()[i as int] == name@,
                None => !self.has(name@),
            },
    {
        let mut i: usize = 0;
        while i < self.channels.len()
            invariant
                i <= self.channels.len(),
                forall|k: int| 0 <= k < i ==> self.names()[k] != name@,
            decreases self.channels.len() - i,
        {
            if str_eq(self.channels[i].0.as_str(), name) {
                return Some(i);
            }
            i += 1;
        }
        None
    }

    /// A registry without channels.
    pub fn new() -> (channels: Channels)
        ensures
            channels.wf(),
            channels.names() == Seq::<Seq<char>>::empty(),
    {
        let channels = Channels { channels: Vec::new() };
        assert(channels.names() =~= Seq::<Seq<char>>::empty());
        channels
    }

    /// Whether there is a channel called `name`.
    pub fn get_channel(&self, name: &str) -> (r: Option<&Channel>)
        ensures
            match r {
                Some(c) => self.has(name@) && (self.wf() ==> *c == self.channel(name@)),
                None => !self.has(name@),
            },
    {
        match self.position(name) {
            Some(i) => {
                proof {
                    let j = self.names().index_of(name@);
                    assert(self.names()[j] == name@);
                }
                Some(&self.channels[i].1)
            },
            None => None,
        }
    }
}

impl Channels {
    /// Makes a channel called `name` without members. Gives `true` where the
    /// channel was made: where `name` is valid and no channel had it.
    /// Otherwise nothing changes.
    pub fn create_channel(&mut self, name: &str, is_system: bool) -> (created: bool)
        requires
            old(self).wf(),
        ensures
            final(self).wf(),
            created == (valid_name(name@) && !old(self).has(name@)),
            created ==> {
                &&& final(self).names() == old(self).names().push(name@)
                &&& final(self).channel(name@).ids() == Seq::<Seq<char>>::empty()
                &&& final(self).channel(name@).is_system == is_system
                &&& forall|other: Seq<char>|
                    old(self).has(other) ==> final(self).channel(other) == old(self).channel(other)
            },
            !created ==> *final(self) == *old(self),
    {
        if !Channels::is_valid(name) || self.position(name).is_some() {
            return false;
        }
        let ghost before = *self;
        self.channels.push((String::from_str(name), Channel::new(is_system)));
        proof {
            let n = before.names().len() as int;
            assert(self.names() =~= before.names().push(name@));
            assert(self.names().index_of(name@) == n) by {
                let j = self.names().index_of(name@);
                assert(self.names()[n] == name@);
                assert(self.names()[j] == name@);
                if j < n {
                    assert(before.names()[j] == name@);
                }
            }
            assert forall|i: int| 0 <= i < n implies self.channel_at(i) == before.channel_at(i) by {}
            assert forall|other: Seq<char>| before.has(other) implies self.channel(other)
                == before.channel(other) by {
                let j = before.names().index_of(other);
                let k = self.names().index_of(other);
                assert(self.names()[j] == other);
                assert(self.names()[k] == other);
            }
        }
        true
    }

    /// A registry with the channels that the server sets up for itself:
    /// `public`, `main` and `dev`, without members.
    pub fn with_system_channels() -> (channels: Channels)
        ensures
            channels.wf(),
            channels.names() == system_channels(),
            forall|name: Seq<char>| #[trigger]
                channels.has(name) ==> channels.channel(name).is_system && channels.channel(
                    name,
                ).ids() == Seq::<Seq<char>>::empty(),
    {
        proof {
            reveal_strlit("public");
            reveal_strlit("main");
            reveal_strlit("dev");
        }
        let mut channels = Channels::new();
        let a = channels.create_channel("public", true);
        let b = channels.create_channel("main", true);
        let c = channels.create_channel("dev", true);
        proof {
            assert(a && b && c);
            assert(channels.names() =~= system_channels());
            assert forall|name: Seq<char>| #[trigger] channels.has(name) implies channels.channel(
                name,
            ).is_system && channels.channel(name).ids() == Seq::<Seq<char>>::empty() by {
                let i = channels.names().index_of(name);
                assert(channels.names()[i] == name);
            }
        }
        channels
    }
}

impl Channels {
    /// What holds where only the channel called `name` may have changed, and
    /// no channel has come or gone.
    pub open spec fn same_but(&self, before: &Channels, name: Seq<char>) -> bool {
        &&& self.names() == before.names()
        &&& forall|other: Seq<char>|
            before.has(other) && other != name ==> self.channel(other) == before.channel(other)
    }

    /// Takes `id` off the channel called `channel_name`. Gives `false`, and
    /// changes nothing, where there is no such channel.
    pub fn leave_user(&mut self, channel_name: &str, id: &str) -> (found: bool)
        requires
            old(self).wf(),
        ensures
            final(self).wf(),
            found == old(self).has(channel_name@),
            final(self).same_but(old(self), channel_name@),
            found ==> final(self).channel(channel_name@).ids() == crate::channel::left(
                old(self).channel(channel_name@).ids(),
                id@,
            ) && final(self).channel(channel_name@).is_system == old(self).channel(
                channel_name@,
            ).is_system,
    {
        match self.position(channel_name) {
            None => false,
            Some(i) => {
                let ghost before = *self;
                proof {
                    let j = before.names().index_of(channel_name@);
                    assert(before.names()[j] == channel_name@);
                    assert(before.names()[i as int] == channel_name@);
                }
                self.channels[i].1.leave_user(id);
                proof {
                    assert(self.names() =~= before.names());
                    assert forall|other: Seq<char>| before.has(other) && other != channel_name@ implies self.channel(
                        other,
                    ) == before.channel(other) by {
                        let k = before.names().index_of(other);
                        assert(before.names()[k] == other);
                    }
                }
                true
            },
        }
    }
}

impl Channels {
    /// Puts `id` on the channel called `channel_name`, as
    /// [`Channel::add_connection`] does. Gives `None`, and changes nothing,
    /// where there is no such channel.
    pub fn add_connection(&mut self, channel_name: &str, id: &str) -> (added: Option<bool>)
        requires
            old(self).wf(),
        ensures
            final(self).wf(),
            added is Some == old(self).has(channel_name@),
            final(self).same_but(old(self), channel_name@),
            added is Some ==> final(self).channel(channel_name@).ids() == crate::channel::joined(
                old(self).channel(channel_name@).ids(),
                id@,
            ) && final(self).channel(channel_name@).is_system == old(self).channel(
                channel_name@,
            ).is_system && added->0 == (final(self).channel(channel_name@).ids() != old(
                self,
            ).channel(channel_name@).ids()),
    {
        match self.position(channel_name) {
            None => None,
            Some(i) => {
                let ghost before = *self;
                proof {
                    let j = before.names().index_of(channel_name@);
                    assert(before.names()[j] == channel_name@);
                    assert(before.names()[i as int] == channel_name@);
                }
                let added = self.channels[i].1.add_connection(id);
                proof {
                    assert(self.names() =~= before.names());
                    assert forall|other: Seq<char>| before.has(other) && other != channel_name@ implies self.channel(
                        other,
                    ) == before.channel(other) by {
                        let k = before.names().index_of(other);
                        assert(before.names()[k] == other);
                    }
                    if added {
                        let ids = before.channel(channel_name@).ids();
                        assert(ids.push(id@).len() != ids.len());
                    }
                }
                Some(added)
            },
        }
    }

    /// Logs a guest in on the channel called `channel_name`, as
    /// [`Channel::connect_guest`] does. Fails with `"Channel not found"`, and
    /// changes nothing, where there is no such channel.
    pub fn connect_guest(&mut self, channel_name: &str) -> (r: Result<String, String>)
        requires
            old(self).wf(),
        ensures
            final(self).wf(),
            final(self).same_but(old(self), channel_name@),
            !old(self).has(channel_name@) ==> r is Err && r->Err_0@ == "Channel not found"@
                && *final(self) == *old(self),
            old(self).has(channel_name@) ==> {
                let before = old(self).channel(channel_name@);
                let after = final(self).channel(channel_name@);
                &&& after.is_system == before.is_system
                &&& match r {
                    Ok(id) => {
                        &&& before.state.guests() < crate::channel::NUM_MAX_GUEST
                        &&& exists|n: nat| n < 0x1_0000 && id@ == crate::channel::guest_id(n)
                        &&& !before.ids().contains(id@)
                        &&& after.ids() == before.ids().push(id@)
                    },
                    Err(e) => {
                        &&& before.state.guests() >= crate::channel::NUM_MAX_GUEST
                        &&& e@ == "too many guests"@
                        &&& after.ids() == before.ids()
                    },
                }
            },
    {
        match self.position(channel_name) {
            None => Err(String::from_str("Channel not found")),
            Some(i) => {
                let ghost before = *self;
                proof {
                    let j = before.names().index_of(channel_name@);
                    assert(before.names()[j] == channel_name@);
                    assert(before.names()[i as int] == channel_name@);
                }
                let r = self.channels[i].1.connect_guest();
                proof {
                    assert(self.names() =~= before.names());
                    assert forall|other: Seq<char>| before.has(other) && other != channel_name@ implies self.channel(
                        other,
                    ) == before.channel(other) by {
                        let k = before.names().index_of(other);
                        assert(before.names()[k] == other);
                    }
                }
                r
            },
        }
    }

    /// Logs a registered user in on the channel called `channel_name`, as
    /// [`Channel::connect_user`] does. Fails with `"Channel not found"`, and
    /// changes nothing, where there is no such channel.
    pub fn connect_user(
        &mut self,
        channel_name: &str,
        req: &crate::packet::LoginReq,
        cur_id: &str,
        verified: Result<String, String>,
    ) -> (r: Result<String, String>)
        requires
            old(self).wf(),
        ensures
            final(self).wf(),
            final(self).same_but(old(self), channel_name@),
            !old(self).has(channel_name@) ==> r is Err && r->Err_0@ == "Channel not found"@
                && *final(self) == *old(self),
            old(self).has(channel_name@) ==> {
                let before = old(self).channel(channel_name@);
                let after = final(self).channel(channel_name@);
                &&& after.is_system == before.is_system
                &&& match r {
                    Ok(id) => {
                        &&& before.state.users() < crate::channel::NUM_MAX_USER
                        &&& req.login_info.id is Some
                        &&& req.login_info.password_hash is Some
                        &&& verified is Ok
                        &&& id@ == req.login_info.id->0@
                        &&& after.ids() == crate::channel::joined(
                            crate::channel::left(before.ids(), cur_id@),
                            id@,
                        )
                    },
                    Err(e) => {
                        &&& after.ids() == before.ids()
                        &&& if before.state.users() >= crate::channel::NUM_MAX_USER {
                            e@ == "too many users"@
                        } else if req.login_info.id is None || req.login_info.password_hash
                            is None {
                            e@ == "broken login packet"@
                        } else {
                            verified is Err && e@ == verified->Err_0@
                        }
                    },
                }
            },
    {
        match self.position(channel_name) {
            None => Err(String::from_str("Channel not found")),
            Some(i) => {
                let ghost before = *self;
                proof {
                    let j = before.names().index_of(channel_name@);
                    assert(before.names()[j] == channel_name@);
                    assert(before.names()[i as int] == channel_name@);
                }
                let r = self.channels[i].1.connect_user(req, cur_id, verified);
                proof {
                    assert(self.names() =~= before.names());
                    assert forall|other: Seq<char>| before.has(other) && other != channel_name@ implies self.channel(
                        other,
                    ) == before.channel(other) by {
                        let k = before.names().index_of(other);
                        assert(before.names()[k] == other);
                    }
                }
                r
            },
        }
    }
}

} // verus!

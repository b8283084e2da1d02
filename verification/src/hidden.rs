//! The per-session set of channels the user cannot view.
//!
//! The effective permission mask of a channel is computed by the external
//! permission engine from the guild's sorted role list and the channel's
//! overwrites; the gateway only reads one bit of it.  A channel is hidden
//! exactly when that mask lacks `VIEW_CHANNEL` and the session user does
//! not own the guild — owners see everything.

use vstd::prelude::*;

verus! {

/// The view-permission bit of an effective permission mask.
pub const VIEW_CHANNEL: u64 = 1;

/// Does a channel with effective permissions `perms` stay hidden from a
/// user for whom `owner` says whether they own the guild?
pub open spec fn hides_channel(perms: u64, owner: bool) -> bool {
    !owner && (perms & VIEW_CHANNEL) == 0
}

/// One channel of a guild together with the user's effective permission
/// mask for it.
#[derive(Clone, Copy, PartialEq, Eq, Structural, Debug)]
pub struct ChannelPerm {
    pub channel_id: u64,
    pub perms: u64,
}

/// A guild as the filter reads it: its owner and the user's effective
/// permissions per channel.
pub struct GuildPerms {
    pub guild_id: u64,
    pub owner_id: u64,
    pub channels: Vec<ChannelPerm>,
}

/// No two channels of the guild share an id.
pub open spec fn distinct_channels(channels: Seq<ChannelPerm>) -> bool {
    forall|i: int, j: int|
        0 <= i < j < channels.len() ==> (#[trigger] channels[i]).channel_id
            != (#[trigger] channels[j]).channel_id
}

/// The set of channel ids hidden from one session's user.
pub struct HiddenChannels {
    ids: Vec<u64>,
}

impl HiddenChannels {
    /// The set holds no duplicates.
    pub closed spec fn wf(self) -> bool {
        forall|i: int, j: int|
            0 <= i < j < self.ids@.len() ==> self.ids@[i] != self.ids@[j]
    }

    /// Is `channel_id` hidden?
    pub closed spec fn hides(self, channel_id: u64) -> bool {
        self.ids@.contains(channel_id)
    }

    pub fn new() -> (r: HiddenChannels)
        ensures
            r.wf(),
            forall|c: u64| !(#[trigger] r.hides(c)),
    {
        HiddenChannels { ids: Vec::new() }
    }

    /// Is `channel_id` hidden?
    pub fn contains(&self, channel_id: u64) -> (r: bool)
        ensures
            r == self.hides(channel_id),
    {
        let mut i: usize = 0;
        while i < self.ids.len()
            invariant
                0 <= i <= self.ids@.len(),
                forall|k: int| 0 <= k < i ==> self.ids@[k] != channel_id,
            decreases self.ids@.len() - i,
        {
            if self.ids[i] == channel_id {
                assert(self.ids@.contains(channel_id));
                return true;
            }
            i = i + 1;
        }
        assert(!self.ids@.contains(channel_id));
        false
    }

    /// Mark a channel hidden.
    pub fn insert(&mut self, channel_id: u64) -> (r: ())
        requires
            old(self).wf(),
        ensures
            final (self).wf(),
            final (self).hides(channel_id),
            forall|c: u64|
                c != channel_id ==> #[trigger] final (self).hides(c) == old(self).hides(c),
    {
        if !self.contains(channel_id) {
            self.ids.push(channel_id);
            proof {
                assert(self.ids@.last() == channel_id);
                assert(self.ids@.contains(channel_id));
                assert forall|c: u64| c != channel_id implies #[trigger] final (self).hides(c)
                    == old(self).hides(c) by {
                    let s_old = old(self).ids@;
                    let s_new = self.ids@;
                    if s_old.contains(c) {
                        let w = choose|w: int| 0 <= w < s_old.len() && s_old[w] == c;
                        assert(s_new[w] == c);
                    } else if s_new.contains(c) {
                        let w = choose|w: int| 0 <= w < s_new.len() && s_new[w] == c;
                        assert(w < s_old.len());
                        assert(s_old[w] == c);
                    }
                }
            }
        }
    }

    /// Mark a channel visible again.
    pub fn remove(&mut self, channel_id: u64) -> (r: ())
        requires
            old(self).wf(),
        ensures
            final (self).wf(),
            !final (self).hides(channel_id),
            forall|c: u64|
                c != channel_id ==> #[trigger] final (self).hides(c) == old(self).hides(c),
    {
        let ghost s_old = self.ids@;
        let mut i: usize = 0;
        while i < self.ids.len()
            invariant
                0 <= i <= self.ids@.len(),
                self.ids@ == s_old,
                s_old == old(self).ids@,
                old(self).wf(),
                forall|k: int| 0 <= k < i ==> self.ids@[k] != channel_id,
            decreases self.ids@.len() - i,
        {
            if self.ids[i] == channel_id {
                self.ids.swap_remove(i);
                proof {
                    let s_new = self.ids@;
                    let last = s_old.len() - 1;
                    assert(s_old[i as int] == channel_id);
                    assert(forall|a: int, b: int|
                        0 <= a < b < s_old.len() ==> s_old[a] != s_old[b]);
                    assert(s_new.len() == last);
                    assert(forall|k: int| 0 <= k < last && k != i ==> s_new[k] == s_old[k]);
                    assert(i < last ==> s_new[i as int] == s_old[last]);
                    assert forall|c: u64| true implies #[trigger] s_new.contains(c) == (c
                        != channel_id && s_old.contains(c)) by {
                        if s_new.contains(c) {
                            let w = choose|w: int| 0 <= w < s_new.len() && s_new[w] == c;
                            if w == i {
                                assert(s_old[last] == c);
                                assert(i < last);
                                assert(s_old[last] != s_old[i as int]);
                            } else {
                                assert(s_old[w] == c);
                                assert(s_old[w] != s_old[i as int]);
                            }
                            assert(c != channel_id);
                            assert(s_old.contains(c));
                        } else if c != channel_id && s_old.contains(c) {
                            let w = choose|w: int| 0 <= w < s_old.len() && s_old[w] == c;
                            assert(w != i);
                            if w < last {
                                assert(s_new[w] == c);
                                assert(s_new.contains(c));
                            } else {
                                assert(w == last);
                                assert(i < last);
                                assert(s_new[i as int] == c);
                                assert(s_new.contains(c));
                            }
                        }
                    }
                }
                return ;
            }
            i = i + 1;
        }
        proof {
            assert(!self.ids@.contains(channel_id));
        }
    }

    /// Record the outcome of recomputing one channel's permissions: hidden
    /// channels enter the set, visible ones leave it.
    pub fn apply_channel_perm(&mut self, channel_id: u64, perms: u64, owner: bool) -> (r: ())
        requires
            old(self).wf(),
        ensures
            final (self).wf(),
            final (self).hides(channel_id) == hides_channel(perms, owner),
            forall|c: u64|
                c != channel_id ==> #[trigger] final (self).hides(c) == old(self).hides(c),
    {
        if !owner && (perms & VIEW_CHANNEL) == 0 {
            self.insert(channel_id);
        } else {
            self.remove(channel_id);
        }
    }

    /// Record the outcome of recomputing a whole guild: every channel of
    /// the guild is set hidden or visible from its fresh permissions;
    /// channels of other guilds keep their state.
    pub fn apply_guild_perms(&mut self, user_id: u64, guild: &GuildPerms) -> (r: ())
        requires
            old(self).wf(),
            distinct_channels(guild.channels@),
        ensures
            final (self).wf(),
            forall|k: int|
                0 <= k < guild.channels@.len() ==> final (self).hides(
                    (#[trigger] guild.channels@[k]).channel_id,
                ) == hides_channel(guild.channels@[k].perms, guild.owner_id == user_id),
            forall|c: u64|
                (forall|k: int|
                    0 <= k < guild.channels@.len() ==> (#[trigger] guild.channels@[k]).channel_id
                        != c) ==> #[trigger] final (self).hides(c) == old(self).hides(c),
    {
        let owner = guild.owner_id == user_id;
        let mut i: usize = 0;
        while i < guild.channels.len()
            invariant
                0 <= i <= guild.channels@.len(),
                self.wf(),
                distinct_channels(guild.channels@),
                owner == (guild.owner_id == user_id),
                forall|k: int|
                    0 <= k < i ==> self.hides((#[trigger] guild.channels@[k]).channel_id)
                        == hides_channel(guild.channels@[k].perms, owner),
                forall|c: u64|
                    (forall|k: int|
                        0 <= k < i ==> (#[trigger] guild.channels@[k]).channel_id != c)
                        ==> #[trigger] self.hides(c) == old(self).hides(c),
            decreases guild.channels@.len() - i,
        {
            let ch = guild.channels[i];
            self.apply_channel_perm(ch.channel_id, ch.perms, owner);
            i = i + 1;
        }
    }
}

/// Seed the hidden set at session start from every guild the user belongs
/// to.  Channel ids are unique across guilds.
pub fn seed_hidden_channels(user_id: u64, guilds: &Vec<GuildPerms>) -> (r: HiddenChannels)
    requires
        forall|g: int|
            0 <= g < guilds@.len() ==> distinct_channels((#[trigger] guilds@[g]).channels@),
        forall|g1: int, g2: int, k1: int, k2: int|
            0 <= g1 < guilds@.len() && 0 <= g2 < guilds@.len() && g1 != g2 && 0 <= k1
                < guilds@[g1].channels@.len() && 0 <= k2 < guilds@[g2].channels@.len() ==> (
            #[trigger] guilds@[g1].channels@[k1]).channel_id
                != (#[trigger] guilds@[g2].channels@[k2]).channel_id,
    ensures
        r.wf(),
        forall|g: int, k: int|
            0 <= g < guilds@.len() && 0 <= k < guilds@[g].channels@.len() ==> r.hides(
                (#[trigger] guilds@[g].channels@[k]).channel_id,
            ) == hides_channel(
                guilds@[g].channels@[k].perms,
                guilds@[g].owner_id == user_id,
            ),
        forall|c: u64|
            (forall|g: int, k: int|
                0 <= g < guilds@.len() && 0 <= k < guilds@[g].channels@.len() ==> (
                #[trigger] guilds@[g].channels@[k]).channel_id != c) ==> !(#[trigger] r.hides(c)),
{
    let mut r = HiddenChannels::new();
    let mut g: usize = 0;
    while g < guilds.len()
        invariant
            0 <= g <= guilds@.len(),
            r.wf(),
            forall|gi: int|
                0 <= gi < guilds@.len() ==> distinct_channels((#[trigger] guilds@[gi]).channels@),
            forall|g1: int, g2: int, k1: int, k2: int|
                0 <= g1 < guilds@.len() && 0 <= g2 < guilds@.len() && g1 != g2 && 0 <= k1
                    < guilds@[g1].channels@.len() && 0 <= k2 < guilds@[g2].channels@.len() ==> (
                #[trigger] guilds@[g1].channels@[k1]).channel_id
                    != (#[trigger] guilds@[g2].channels@[k2]).channel_id,
            forall|gi: int, k: int|
                0 <= gi < g && 0 <= k < guilds@[gi].channels@.len() ==> r.hides(
                    (#[trigger] guilds@[gi].channels@[k]).channel_id,
                ) == hides_channel(
                    guilds@[gi].channels@[k].perms,
                    guilds@[gi].owner_id == user_id,
                ),
            forall|c: u64|
                (forall|gi: int, k: int|
                    0 <= gi < g && 0 <= k < guilds@[gi].channels@.len() ==> (
                    #[trigger] guilds@[gi].channels@[k]).channel_id != c) ==> !(#[trigger] r.hides(
                    c,
                )),
        decreases guilds@.len() - g,
    {
        r.apply_guild_perms(user_id, &guilds[g]);
        g = g + 1;
    }
    r
}

} // verus!

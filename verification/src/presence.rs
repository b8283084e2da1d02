//! The presence protocol over the shared key-value store.
//!
//! `PresenceStore` is the gateway's model of the store's state: one ordered
//! session list per user (the `session-` keys) and one status per user (the
//! `presence-` keys).  A status key is present exactly when the status is
//! not `Offline`, so "status is `Offline`" and "key deleted" coincide in the
//! model.  The I/O shell mirrors every operation onto the real store.

use vstd::prelude::*;

use crate::assoc::{
    assoc, assoc_find, distinct_keys, lemma_assoc_at, lemma_assoc_none, lemma_assoc_push,
    lemma_assoc_remove, lemma_assoc_update,
};
use crate::model::{
    device_flag, devices_union, Devices, Presence, PresenceSession, PresenceSessionV, Status,
};

verus! {

/// `s` with the first record carrying `sid` removed; `s` itself when no
/// record matches.
pub open spec fn remove_first_sid(s: Seq<PresenceSessionV>, sid: Seq<char>) -> Seq<
    PresenceSessionV,
>
    decreases s.len(),
{
    if s.len() == 0 {
        s
    } else if s[0].session_id == sid {
        s.drop_first()
    } else {
        seq![s[0]] + remove_first_sid(s.drop_first(), sid)
    }
}

/// How many records of `s` carry `sid`.
pub open spec fn count_sid(s: Seq<PresenceSessionV>, sid: Seq<char>) -> nat
    decreases s.len(),
{
    if s.len() == 0 {
        0
    } else {
        count_sid(s.drop_first(), sid) + if s[0].session_id == sid {
            1nat
        } else {
            0nat
        }
    }
}

/// The gateway's model of the presence portion of the key-value store.
pub struct PresenceStore {
    sessions: Vec<(u64, Vec<PresenceSession>)>,
    statuses: Vec<(u64, Status)>,
}

impl PresenceStore {
    /// Internal shape: keys are unique, session lists are never stored
    /// empty, and `Offline` is never stored as a status.
    pub closed spec fn wf(self) -> bool {
        &&& distinct_keys(self.sessions@)
        &&& distinct_keys(self.statuses@)
        &&& forall|k: int|
            0 <= k < self.sessions@.len() ==> (#[trigger] self.sessions@[k]).1@.len() > 0
        &&& forall|k: int|
            0 <= k < self.statuses@.len() ==> (#[trigger] self.statuses@[k]).1 != Status::Offline
    }

    /// The ordered session list stored for `user_id`.
    pub closed spec fn sessions_of(self, user_id: u64) -> Seq<PresenceSessionV> {
        match assoc(self.sessions@, user_id) {
            Some(list) => list.deep_view(),
            None => Seq::empty(),
        }
    }

    /// The status stored for `user_id`; an absent key reads as `Offline`.
    pub closed spec fn status_of(self, user_id: u64) -> Status {
        match assoc(self.statuses@, user_id) {
            Some(s) => s,
            None => Status::Offline,
        }
    }

    /// An empty store: no sessions, everyone `Offline`.
    pub fn new() -> (r: PresenceStore)
        ensures
            r.wf(),
            forall|u: u64| #[trigger] r.sessions_of(u) == Seq::<PresenceSessionV>::empty(),
            forall|u: u64| #[trigger] r.status_of(u) == Status::Offline,
    {
        PresenceStore { sessions: Vec::new(), statuses: Vec::new() }
    }

    /// Drop every session list and every status.
    pub fn reset_all(&mut self) -> (r: ())
        ensures
            final (self).wf(),
            forall|u: u64|
                #[trigger] final (self).sessions_of(u) == Seq::<PresenceSessionV>::empty(),
            forall|u: u64| #[trigger] final (self).status_of(u) == Status::Offline,
    {
        self.sessions.clear();
        self.statuses.clear();
    }

    /// Append `record` to the user's session list.
    pub fn insert_session(&mut self, user_id: u64, record: PresenceSession) -> (r: ())
        requires
            old(self).wf(),
        ensures
            final (self).wf(),
            final (self).sessions_of(user_id) == old(self).sessions_of(user_id).push(record@),
            forall|u: u64|
                u != user_id ==> #[trigger] final (self).sessions_of(u) == old(self).sessions_of(
                    u,
                ),
            forall|u: u64| #[trigger] final (self).status_of(u) == old(self).status_of(u),
    {
        let ghost s_old = self.sessions@;
        match assoc_find(&self.sessions, user_id) {
            Some(i) => {
                let ghost list_old = self.sessions@[i as int].1;
                self.sessions[i].1.push(record);
                let ghost list_new = self.sessions@[i as int].1;
                proof {
                    assert(self.sessions@ =~= s_old.update(i as int, (user_id, list_new)));
                    assert(list_new.deep_view() =~= list_old.deep_view().push(record@));
                    lemma_assoc_at(s_old, user_id, i as int);
                    assert forall|u: u64| true implies #[trigger] assoc(self.sessions@, u)
                        == if u == user_id {
                        Some(list_new)
                    } else {
                        assoc(s_old, u)
                    } by {
                        lemma_assoc_update(s_old, i as int, list_new, u);
                    }
                }
            },
            None => {
                let mut list: Vec<PresenceSession> = Vec::new();
                list.push(record);
                let ghost list_v = list;
                self.sessions.push((user_id, list));
                proof {
                    assert(list_v.deep_view() =~= Seq::<PresenceSessionV>::empty().push(record@));
                    lemma_assoc_none(s_old, user_id);
                    assert forall|u: u64| true implies #[trigger] assoc(self.sessions@, u)
                        == if u == user_id {
                        Some(list_v)
                    } else {
                        assoc(s_old, u)
                    } by {
                        lemma_assoc_push(s_old, user_id, list_v, u);
                    }
                    assert(distinct_keys(self.sessions@)) by {
                        lemma_assoc_push(s_old, user_id, list_v, user_id);
                    }
                }
            },
        }
    }

    /// A copy of the user's session list, possibly empty.
    pub fn get_sessions(&self, user_id: u64) -> (r: Vec<PresenceSession>)
        requires
            self.wf(),
        ensures
            r.deep_view() == self.sessions_of(user_id),
    {
        match assoc_find(&self.sessions, user_id) {
            Some(i) => {
                let r = self.sessions[i].1.clone();
                proof {
                    lemma_assoc_at(self.sessions@, user_id, i as int);
                    assert(r.deep_view() =~= self.sessions@[i as int].1.deep_view());
                }
                r
            },
            None => {
                proof {
                    lemma_assoc_none(self.sessions@, user_id);
                }
                let r: Vec<PresenceSession> = Vec::new();
                proof {
                    assert(r.deep_view() =~= Seq::<PresenceSessionV>::empty());
                }
                r
            },
        }
    }

    /// The head of the user's session list, if any.
    pub fn get_first_session(&self, user_id: u64) -> (r: Option<PresenceSession>)
        requires
            self.wf(),
        ensures
            match r {
                Some(rec) => self.sessions_of(user_id).len() > 0 && rec@ == self.sessions_of(
                    user_id,
                )[0],
                None => self.sessions_of(user_id).len() == 0,
            },
    {
        match assoc_find(&self.sessions, user_id) {
            Some(i) => {
                proof {
                    lemma_assoc_at(self.sessions@, user_id, i as int);
                }
                let list = &self.sessions[i].1;
                Some(list[0].clone())
            },
            None => {
                proof {
                    lemma_assoc_none(self.sessions@, user_id);
                }
                None
            },
        }
    }

    /// Is at least one session recorded for the user?
    pub fn any_session_exists(&self, user_id: u64) -> (r: bool)
        requires
            self.wf(),
        ensures
            r == (self.sessions_of(user_id).len() > 0),
    {
        match assoc_find(&self.sessions, user_id) {
            Some(i) => {
                proof {
                    lemma_assoc_at(self.sessions@, user_id, i as int);
                }
                true
            },
            None => {
                proof {
                    lemma_assoc_none(self.sessions@, user_id);
                }
                false
            },
        }
    }

    /// Write the user's status; `Offline` deletes the key.
    pub fn update_presence(&mut self, user_id: u64, status: Status) -> (r: ())
        requires
            old(self).wf(),
        ensures
            final (self).wf(),
            final (self).status_of(user_id) == status,
            forall|u: u64|
                u != user_id ==> #[trigger] final (self).status_of(u) == old(self).status_of(u),
            forall|u: u64|
                #[trigger] final (self).sessions_of(u) == old(self).sessions_of(u),
    {
        let ghost s_old = self.statuses@;
        match assoc_find(&self.statuses, user_id) {
            Some(i) => {
                if status == Status::Offline {
                    self.statuses.remove(i);
                    proof {
                        assert forall|u: u64| true implies #[trigger] assoc(self.statuses@, u)
                            == if u == user_id {
                            None
                        } else {
                            assoc(s_old, u)
                        } by {
                            lemma_assoc_remove(s_old, i as int, u);
                        }
                        lemma_assoc_remove(s_old, i as int, user_id);
                    }
                } else {
                    self.statuses[i].1 = status;
                    proof {
                        assert(self.statuses@ =~= s_old.update(i as int, (user_id, status)));
                        assert forall|u: u64| true implies #[trigger] assoc(self.statuses@, u)
                            == if u == user_id {
                            Some(status)
                        } else {
                            assoc(s_old, u)
                        } by {
                            lemma_assoc_update(s_old, i as int, status, u);
                        }
                        lemma_assoc_update(s_old, i as int, status, user_id);
                    }
                }
            },
            None => {
                if status == Status::Offline {
                    proof {
                        lemma_assoc_none(s_old, user_id);
                    }
                } else {
                    self.statuses.push((user_id, status));
                    proof {
                        lemma_assoc_none(s_old, user_id);
                        assert forall|u: u64| true implies #[trigger] assoc(self.statuses@, u)
                            == if u == user_id {
                            Some(status)
                        } else {
                            assoc(s_old, u)
                        } by {
                            lemma_assoc_push(s_old, user_id, status, u);
                        }
                        lemma_assoc_push(s_old, user_id, status, user_id);
                    }
                }
            },
        }
    }

    /// Remove the record carrying `session_id` from the user's list,
    /// keeping the surviving records in order; delete the key when the
    /// list becomes empty.
    pub fn remove_session(&mut self, user_id: u64, session_id: &String) -> (r: ())
        requires
            old(self).wf(),
        ensures
            final (self).wf(),
            final (self).sessions_of(user_id) == remove_first_sid(
                old(self).sessions_of(user_id),
                session_id@,
            ),
            forall|u: u64|
                u != user_id ==> #[trigger] final (self).sessions_of(u) == old(self).sessions_of(
                    u,
                ),
            forall|u: u64| #[trigger] final (self).status_of(u) == old(self).status_of(u),
    {
        let ghost s_old = self.sessions@;
        match assoc_find(&self.sessions, user_id) {
            None => {
                proof {
                    lemma_assoc_none(s_old, user_id);
                }
            },
            Some(i) => {
                proof {
                    lemma_assoc_at(s_old, user_id, i as int);
                }
                match find_sid(&self.sessions[i].1, session_id) {
                    None => {
                        proof {
                            let dv = s_old[i as int].1.deep_view();
                            assert(forall|k: int|
                                0 <= k < dv.len() ==> (#[trigger] dv[k]).session_id
                                    != session_id@);
                            lemma_remove_first_no_match(dv, session_id@);
                        }
                    },
                    Some(j) => {
                        if self.sessions[i].1.len() == 1 {
                            self.sessions.remove(i);
                            proof {
                                let dv = s_old[i as int].1.deep_view();
                                assert(remove_first_sid(dv, session_id@) =~= Seq::<
                                    PresenceSessionV,
                                >::empty());
                                assert forall|u: u64| true implies #[trigger] assoc(
                                    self.sessions@,
                                    u,
                                ) == if u == user_id {
                                    None
                                } else {
                                    assoc(s_old, u)
                                } by {
                                    lemma_assoc_remove(s_old, i as int, u);
                                }
                                lemma_assoc_remove(s_old, i as int, user_id);
                            }
                        } else {
                            let ghost list_old = self.sessions@[i as int].1;
                            self.sessions[i].1.remove(j);
                            let ghost list_new = self.sessions@[i as int].1;
                            proof {
                                assert(self.sessions@ =~= s_old.update(
                                    i as int,
                                    (user_id, list_new),
                                ));
                                assert(list_new.deep_view() =~= list_old.deep_view().remove(
                                    j as int,
                                ));
                                lemma_remove_first_at(
                                    list_old.deep_view(),
                                    session_id@,
                                    j as int,
                                );
                                assert forall|u: u64| true implies #[trigger] assoc(
                                    self.sessions@,
                                    u,
                                ) == if u == user_id {
                                    Some(list_new)
                                } else {
                                    assoc(s_old, u)
                                } by {
                                    lemma_assoc_update(s_old, i as int, list_new, u);
                                }
                                lemma_assoc_update(s_old, i as int, list_new, user_id);
                            }
                        }
                    },
                }
            },
        }
    }

    /// The OR of the device flags over the user's session list.
    pub fn get_devices(&self, user_id: u64) -> (r: Devices)
        requires
            self.wf(),
        ensures
            r.bits == devices_union(self.sessions_of(user_id)),
    {
        match assoc_find(&self.sessions, user_id) {
            Some(i) => {
                proof {
                    lemma_assoc_at(self.sessions@, user_id, i as int);
                }
                devices_of_sessions(&self.sessions[i].1)
            },
            None => {
                proof {
                    lemma_assoc_none(self.sessions@, user_id);
                }
                Devices::empty()
            },
        }
    }

    /// The store side of Closing: drop the session record and, when it was
    /// the user's last one and the user was not already offline, mark the
    /// user offline.  Returns whether an offline presence change must be
    /// published.
    ///
    /// After this completes for a user's last session no session exists for
    /// the user and the status key is gone (reads as `Offline`).
    pub fn close_session(&mut self, user_id: u64, session_id: &String) -> (published: bool)
        requires
            old(self).wf(),
        ensures
            final (self).wf(),
            final (self).sessions_of(user_id) == remove_first_sid(
                old(self).sessions_of(user_id),
                session_id@,
            ),
            final (self).sessions_of(user_id).len() == 0 ==> final (self).status_of(user_id)
                == Status::Offline,
            published == (final (self).sessions_of(user_id).len() == 0 && old(self).status_of(
                user_id,
            ) != Status::Offline),
            forall|u: u64|
                u != user_id ==> #[trigger] final (self).sessions_of(u) == old(self).sessions_of(
                    u,
                ),
            forall|u: u64|
                u != user_id ==> #[trigger] final (self).status_of(u) == old(self).status_of(u),
    {
        self.remove_session(user_id, session_id);
        if !self.any_session_exists(user_id) {
            let was = self.get_presence(user_id);
            if was != Status::Offline {
                self.update_presence(user_id, Status::Offline);
                return true;
            }
        }
        false
    }

    /// The user's presence as carried in a presence-change event: the given
    /// status, the OR of the session devices, and — unless the status is
    /// `Offline` — the first session's start time.
    pub fn derived_presence(&self, user_id: u64, status: Status) -> (r: Presence)
        requires
            self.wf(),
        ensures
            r.user_id == user_id,
            r.status == status,
            r.custom_status is None,
            r.devices.bits == devices_union(self.sessions_of(user_id)),
            r.online_since == if status != Status::Offline && self.sessions_of(user_id).len()
                > 0 {
                Some(self.sessions_of(user_id)[0].online_since)
            } else {
                None::<u64>
            },
    {
        let online_since: Option<u64> = if status != Status::Offline {
            match self.get_first_session(user_id) {
                Some(rec) => Some(rec.online_since),
                None => None,
            }
        } else {
            None
        };
        Presence {
            user_id,
            status,
            custom_status: None,
            devices: self.get_devices(user_id),
            online_since,
        }
    }

    /// The presence snapshot of another user, as included in the Ready
    /// event: stored status, device union, first session's start time.
    pub fn observer_presence(&self, observer_id: u64) -> (r: Presence)
        requires
            self.wf(),
        ensures
            r.user_id == observer_id,
            r.status == self.status_of(observer_id),
            r.custom_status is None,
            r.devices.bits == devices_union(self.sessions_of(observer_id)),
            r.online_since == if self.sessions_of(observer_id).len() > 0 {
                Some(self.sessions_of(observer_id)[0].online_since)
            } else {
                None::<u64>
            },
    {
        let online_since: Option<u64> = match self.get_first_session(observer_id) {
            Some(rec) => Some(rec.online_since),
            None => None,
        };
        Presence {
            user_id: observer_id,
            status: self.get_presence(observer_id),
            custom_status: None,
            devices: self.get_devices(observer_id),
            online_since,
        }
    }

    /// The user's status; absent keys read as `Offline`.
    pub fn get_presence(&self, user_id: u64) -> (r: Status)
        requires
            self.wf(),
        ensures
            r == self.status_of(user_id),
    {
        match assoc_find(&self.statuses, user_id) {
            Some(i) => {
                proof {
                    lemma_assoc_at(self.statuses@, user_id, i as int);
                }
                self.statuses[i].1
            },
            None => {
                proof {
                    lemma_assoc_none(self.statuses@, user_id);
                }
                Status::Offline
            },
        }
    }
}

/// The index of the first record carrying `sid`, if any.
fn find_sid(list: &Vec<PresenceSession>, sid: &String) -> (r: Option<usize>)
    ensures
        match r {
            Some(j) => j < list@.len() && list@[j as int]@.session_id == sid@ && forall|k: int|
                0 <= k < j ==> (#[trigger] list@[k])@.session_id != sid@,
            None => forall|k: int|
                0 <= k < list@.len() ==> (#[trigger] list@[k])@.session_id != sid@,
        },
{
    let mut j: usize = 0;
    while j < list.len()
        invariant
            0 <= j <= list@.len(),
            forall|k: int| 0 <= k < j ==> (#[trigger] list@[k])@.session_id != sid@,
        decreases list@.len() - j,
    {
        if list[j].session_id == *sid {
            return Some(j);
        }
        j = j + 1;
    }
    None
}

/// The OR of the device flags over a session list, stopping early once all
/// three flags are present.
pub fn devices_of_sessions(list: &Vec<PresenceSession>) -> (r: Devices)
    ensures
        r.bits == devices_union(list.deep_view()),
{
    let ghost dv = list.deep_view();
    let mut acc = Devices::empty();
    let mut j: usize = 0;
    proof {
        assert(dv.take(0) =~= Seq::<PresenceSessionV>::empty());
    }
    loop
        invariant_except_break
            0 <= j <= list@.len(),
            dv == list.deep_view(),
            acc.bits == devices_union(dv.take(j as int)),
        ensures
            acc.bits == devices_union(dv),
        decreases list@.len() - j,
    {
        if j == list.len() {
            proof {
                assert(dv.take(list@.len() as int) =~= dv);
            }
            break ;
        }
        if acc.is_all() {
            proof {
                lemma_devices_union_saturated(dv, j as int);
            }
            break ;
        }
        acc.insert(list[j].device);
        proof {
            lemma_devices_union_take_step(dv, j as int);
        }
        j = j + 1;
    }
    acc
}

proof fn lemma_devices_union_take_step(s: Seq<PresenceSessionV>, j: int)
    requires
        0 <= j < s.len(),
    ensures
        devices_union(s.take(j + 1)) == devices_union(s.take(j)) | device_flag(s[j].device),
{
    assert(s.take(j + 1).drop_last() =~= s.take(j));
    assert(s.take(j + 1).last() == s[j]);
}

proof fn lemma_devices_union_saturated(s: Seq<PresenceSessionV>, i: int)
    requires
        0 <= i <= s.len(),
        devices_union(s.take(i)) == 7,
    ensures
        devices_union(s) == 7,
    decreases s.len() - i,
{
    if i == s.len() {
        assert(s.take(i) =~= s);
    } else {
        lemma_devices_union_take_step(s, i);
        let f = device_flag(s[i].device);
        assert((f == 1 || f == 2 || f == 4) ==> (7u8 | f) == 7) by (bit_vector);
        lemma_devices_union_saturated(s, i + 1);
    }
}

proof fn lemma_remove_first_no_match(s: Seq<PresenceSessionV>, sid: Seq<char>)
    requires
        forall|k: int| 0 <= k < s.len() ==> (#[trigger] s[k]).session_id != sid,
    ensures
        remove_first_sid(s, sid) == s,
    decreases s.len(),
{
    if s.len() > 0 {
        assert(s[0].session_id != sid);
        assert(forall|k: int|
            0 <= k < s.drop_first().len() ==> (#[trigger] s.drop_first()[k]).session_id != sid);
        lemma_remove_first_no_match(s.drop_first(), sid);
        assert(seq![s[0]] + s.drop_first() =~= s);
    }
}

proof fn lemma_remove_first_at(s: Seq<PresenceSessionV>, sid: Seq<char>, j: int)
    requires
        0 <= j < s.len(),
        s[j].session_id == sid,
        forall|k: int| 0 <= k < j ==> (#[trigger] s[k]).session_id != sid,
    ensures
        remove_first_sid(s, sid) == s.remove(j),
    decreases s.len(),
{
    if j == 0 {
        assert(remove_first_sid(s, sid) =~= s.remove(0));
    } else {
        assert(s[0].session_id != sid);
        assert(s.drop_first()[j - 1] == s[j]);
        assert(forall|k: int|
            0 <= k < j - 1 ==> (#[trigger] s.drop_first()[k]).session_id != sid);
        lemma_remove_first_at(s.drop_first(), sid, j - 1);
        assert(seq![s[0]] + s.drop_first().remove(j - 1) =~= s.remove(j));
    }
}

/// How appending a record changes the number of records with a given id.
pub proof fn lemma_count_sid_push(s: Seq<PresenceSessionV>, r: PresenceSessionV, sid: Seq<char>)
    ensures
        count_sid(s.push(r), sid) == count_sid(s, sid) + if r.session_id == sid {
            1nat
        } else {
            0nat
        },
    decreases s.len(),
{
    if s.len() == 0 {
        assert(s.push(r).drop_first() =~= s);
    } else {
        assert(s.push(r)[0] == s[0]);
        assert(s.push(r).drop_first() =~= s.drop_first().push(r));
        lemma_count_sid_push(s.drop_first(), r, sid);
    }
}

/// Removing the first record with `sid` lowers the count of `sid` by one
/// (when present) and leaves the count of every other id unchanged.
pub proof fn lemma_count_sid_remove_first(
    s: Seq<PresenceSessionV>,
    sid: Seq<char>,
    other: Seq<char>,
)
    ensures
        count_sid(remove_first_sid(s, sid), sid) == if count_sid(s, sid) > 0 {
            (count_sid(s, sid) - 1) as nat
        } else {
            0nat
        },
        other != sid ==> count_sid(remove_first_sid(s, sid), other) == count_sid(s, other),
    decreases s.len(),
{
    if s.len() > 0 {
        if s[0].session_id == sid {
        } else {
            lemma_count_sid_remove_first(s.drop_first(), sid, other);
            let t = seq![s[0]] + remove_first_sid(s.drop_first(), sid);
            assert(t.drop_first() =~= remove_first_sid(s.drop_first(), sid));
            assert(t[0] == s[0]);
        }
    }
}

/// A freshly inserted session id is recorded exactly once, and removing it
/// again leaves no record of it.  Together with the exact contracts of
/// `insert_session` and `remove_session` this pins the lifetime of one
/// session record in the store: present exactly once from just after the
/// insert until just after the remove.
pub proof fn lemma_session_record_unique(s: Seq<PresenceSessionV>, r: PresenceSessionV)
    requires
        count_sid(s, r.session_id) == 0,
    ensures
        count_sid(s.push(r), r.session_id) == 1,
        count_sid(remove_first_sid(s.push(r), r.session_id), r.session_id) == 0,
{
    lemma_count_sid_push(s, r, r.session_id);
    lemma_count_sid_remove_first(s.push(r), r.session_id, r.session_id);
}

/// Law: a session record is in the store exactly once from just after its
/// insert until just after its remove.  `before`, `inserted` and `removed`
/// are the store around the two operations, related as the contracts of
/// `insert_session` and `remove_session` (or `close_session`) state; the
/// operations on other session ids and other users in between keep the
/// count, by `lemma_count_sid_push` and `lemma_count_sid_remove_first`.
pub proof fn lemma_store_session_lifetime(
    before: PresenceStore,
    inserted: PresenceStore,
    removed: PresenceStore,
    user_id: u64,
    rec: PresenceSessionV,
)
    requires
        count_sid(before.sessions_of(user_id), rec.session_id) == 0,
        inserted.sessions_of(user_id) == before.sessions_of(user_id).push(rec),
        removed.sessions_of(user_id) == remove_first_sid(
            inserted.sessions_of(user_id),
            rec.session_id,
        ),
    ensures
        count_sid(inserted.sessions_of(user_id), rec.session_id) == 1,
        count_sid(removed.sessions_of(user_id), rec.session_id) == 0,
{
    lemma_session_record_unique(before.sessions_of(user_id), rec);
}

} // verus!

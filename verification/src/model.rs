//! Plain data carried through the gateway: devices, statuses, presence
//! records and derived presence values.

use vstd::prelude::*;

verus! {

/// The flavor of client a session runs on.
#[derive(Clone, Copy, PartialEq, Eq, Structural, Debug)]
pub enum Device {
    Desktop,
    Mobile,
    Web,
}

/// A user's chosen availability.
#[derive(Clone, Copy, PartialEq, Eq, Structural, Debug)]
pub enum Status {
    Online,
    Idle,
    DoNotDisturb,
    Offline,
}

/// The bit that one device contributes to a device mask.
pub open spec fn device_flag(d: Device) -> u8 {
    match d {
        Device::Desktop => 1,
        Device::Mobile => 2,
        Device::Web => 4,
    }
}

/// The flag bits of every device of the current session list, OR'd.
pub open spec fn devices_union(s: Seq<PresenceSessionV>) -> u8
    decreases s.len(),
{
    if s.len() == 0 {
        0
    } else {
        devices_union(s.drop_last()) | device_flag(s.last().device)
    }
}

/// A set of device flavors, stored as a bitmask.
#[derive(Clone, Copy, PartialEq, Eq, Structural, Debug)]
pub struct Devices {
    pub bits: u8,
}

impl Devices {
    pub fn empty() -> (r: Devices)
        ensures
            r.bits == 0,
    {
        Devices { bits: 0 }
    }

    pub fn insert(&mut self, d: Device) -> (r: ())
        ensures
            final(self).bits == old(self).bits | device_flag(d),
    {
        match d {
            Device::Desktop => {
                self.bits = self.bits | 1u8;
            },
            Device::Mobile => {
                self.bits = self.bits | 2u8;
            },
            Device::Web => {
                self.bits = self.bits | 4u8;
            },
        }
    }

    pub fn contains(&self, d: Device) -> (r: bool)
        ensures
            r == ((self.bits & device_flag(d)) != 0),
    {
        match d {
            Device::Desktop => self.bits & 1u8 != 0,
            Device::Mobile => self.bits & 2u8 != 0,
            Device::Web => self.bits & 4u8 != 0,
        }
    }

    /// All three flavors present.
    pub fn is_all(&self) -> (r: bool)
        ensures
            r == (self.bits == 7),
    {
        self.bits == 7
    }
}

/// One active connection's contribution to a user's presence, as stored in
/// the per-user session list.
#[derive(Debug)]
pub struct PresenceSession {
    pub session_id: String,
    /// Milliseconds since the Unix epoch at which the session came online.
    pub online_since: u64,
    pub device: Device,
}

/// The mathematical value of a presence session record.
pub struct PresenceSessionV {
    pub session_id: Seq<char>,
    pub online_since: u64,
    pub device: Device,
}

impl View for PresenceSession {
    type V = PresenceSessionV;

    open spec fn view(&self) -> PresenceSessionV {
        PresenceSessionV {
            session_id: self.session_id@,
            online_since: self.online_since,
            device: self.device,
        }
    }
}

impl DeepView for PresenceSession {
    type V = PresenceSessionV;

    open spec fn deep_view(&self) -> PresenceSessionV {
        self.view()
    }
}

impl Clone for PresenceSession {
    fn clone(&self) -> (r: Self)
        ensures
            r@ == self@,
    {
        PresenceSession {
            session_id: self.session_id.clone(),
            online_since: self.online_since,
            device: self.device,
        }
    }
}

/// A user's visible presence, derived from the session list and the stored
/// status.
#[derive(Debug)]
pub struct Presence {
    pub user_id: u64,
    pub status: Status,
    pub custom_status: Option<String>,
    pub devices: Devices,
    /// Milliseconds since the Unix epoch of the earliest session, if any.
    pub online_since: Option<u64>,
}

impl Clone for Presence {
    fn clone(&self) -> (r: Self)
        ensures
            r@ == self@,
    {
        Presence {
            user_id: self.user_id,
            status: self.status,
            custom_status: match &self.custom_status {
                Some(s) => Some(s.clone()),
                None => None,
            },
            devices: self.devices,
            online_since: self.online_since,
        }
    }
}

/// The mathematical value of a presence.
pub struct PresenceV {
    pub user_id: u64,
    pub status: Status,
    pub custom_status: Option<Seq<char>>,
    pub devices: u8,
    pub online_since: Option<u64>,
}

impl View for Presence {
    type V = PresenceV;

    open spec fn view(&self) -> PresenceV {
        PresenceV {
            user_id: self.user_id,
            status: self.status,
            custom_status: match self.custom_status {
                Some(s) => Some(s@),
                None => None,
            },
            devices: self.devices.bits,
            online_since: self.online_since,
        }
    }
}

impl DeepView for Presence {
    type V = PresenceV;

    open spec fn deep_view(&self) -> PresenceV {
        self.view()
    }
}

} // verus!

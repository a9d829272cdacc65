use vstd::prelude::*;

verus! {

/// Raw OpenThread role code: the Thread stack is disabled.
pub const OT_DEVICE_ROLE_DISABLED: u32 = 0;
/// Raw OpenThread role code: not attached to a Thread partition.
pub const OT_DEVICE_ROLE_DETACHED: u32 = 1;
/// Raw OpenThread role code: attached as a child.
pub const OT_DEVICE_ROLE_CHILD: u32 = 2;
/// Raw OpenThread role code: attached as a router.
pub const OT_DEVICE_ROLE_ROUTER: u32 = 3;
/// Raw OpenThread role code: attached as the leader.
pub const OT_DEVICE_ROLE_LEADER: u32 = 4;

/// Role of the device in the Thread network.
#[derive(Debug, PartialEq, Eq, Structural, Clone, Copy)]
pub enum ThreadDeviceRole {
    Disabled,
    Detached,
    Child,
    Router,
    Leader,
    Unknown,
}

/// The role that a raw OpenThread role code stands for; codes that
/// OpenThread does not define are `Unknown`.
pub open spec fn spec_role_from_raw(role: u32) -> ThreadDeviceRole {
    if role == OT_DEVICE_ROLE_DISABLED {
        ThreadDeviceRole::Disabled
    } else if role == OT_DEVICE_ROLE_DETACHED {
        ThreadDeviceRole::Detached
    } else if role == OT_DEVICE_ROLE_CHILD {
        ThreadDeviceRole::Child
    } else if role == OT_DEVICE_ROLE_ROUTER {
        ThreadDeviceRole::Router
    } else if role == OT_DEVICE_ROLE_LEADER {
        ThreadDeviceRole::Leader
    } else {
        ThreadDeviceRole::Unknown
    }
}

impl ThreadDeviceRole {
    /// The role's name as it is displayed.
    pub open spec fn spec_label(self) -> Seq<char> {
        match self {
            ThreadDeviceRole::Disabled => "Disabled"@,
            ThreadDeviceRole::Detached => "Detached"@,
            ThreadDeviceRole::Child => "Child"@,
            ThreadDeviceRole::Router => "Router"@,
            ThreadDeviceRole::Leader => "Leader"@,
            ThreadDeviceRole::Unknown => "Unknown"@,
        }
    }

    /// Maps a raw OpenThread role code to a role.
    pub fn from_raw(role: u32) -> (r: ThreadDeviceRole)
        ensures
            r == spec_role_from_raw(role),
    {
        if role == OT_DEVICE_ROLE_DISABLED {
            ThreadDeviceRole::Disabled
        } else if role == OT_DEVICE_ROLE_DETACHED {
            ThreadDeviceRole::Detached
        } else if role == OT_DEVICE_ROLE_CHILD {
            ThreadDeviceRole::Child
        } else if role == OT_DEVICE_ROLE_ROUTER {
            ThreadDeviceRole::Router
        } else if role == OT_DEVICE_ROLE_LEADER {
            ThreadDeviceRole::Leader
        } else {
            ThreadDeviceRole::Unknown
        }
    }

    /// The role's name as it is displayed.
    pub fn to_string(&self) -> (r: String)
        ensures
            r@ == self.spec_label(),
    {
        match self {
            ThreadDeviceRole::Disabled => "Disabled".to_owned(),
            ThreadDeviceRole::Detached => "Detached".to_owned(),
            ThreadDeviceRole::Child => "Child".to_owned(),
            ThreadDeviceRole::Router => "Router".to_owned(),
            ThreadDeviceRole::Leader => "Leader".to_owned(),
            ThreadDeviceRole::Unknown => "Unknown".to_owned(),
        }
    }
}

impl From<u32> for ThreadDeviceRole {
    fn from(role: u32) -> (r: Self) {
        ThreadDeviceRole::from_raw(role)
    }
}

impl vstd::std_specs::convert::FromSpecImpl<u32> for ThreadDeviceRole {
    open spec fn obeys_from_spec() -> bool {
        true
    }

    open spec fn from_spec(v: u32) -> Self {
        spec_role_from_raw(v)
    }
}

} // verus!

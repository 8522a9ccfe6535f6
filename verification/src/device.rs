//! The kinds of device: sockets and thermostats.

use crate::device_info::DeviceInfo;
use vstd::prelude::*;
use vstd::std_specs::convert::FromSpecImpl;

verus! {

/// A device of one of the known kinds.
#[derive(Debug, Clone, PartialEq)]
pub enum DeviceKind {
    Socket(Socket),
    Thermo(Thermo),
}

/// A power socket.
#[derive(Debug, Clone, PartialEq)]
pub struct Socket {
    name: String,
    state: bool,
}

impl Socket {
    /// A socket with the given name and initial state. Any name is taken,
    /// the empty one too.
    pub fn new(name: &str, state: bool) -> (r: Self)
        ensures
            r.spec_name() == name@,
            r.spec_state() == state,
    {
        Self { name: name.to_owned(), state }
    }
}

/// A thermostat.
#[derive(Debug, Clone, PartialEq)]
pub struct Thermo {
    name: String,
    state: bool,
}

impl Thermo {
    /// A thermostat with the given name and initial state. Any name is
    /// taken, the empty one too.
    pub fn new(name: &str, state: bool) -> (r: Self)
        ensures
            r.spec_name() == name@,
            r.spec_state() == state,
    {
        Self { name: name.to_owned(), state }
    }
}

impl From<Socket> for DeviceKind {
    fn from(socket: Socket) -> (r: Self) {
        DeviceKind::Socket(socket)
    }
}

impl FromSpecImpl<Socket> for DeviceKind {
    open spec fn obeys_from_spec() -> bool {
        true
    }

    open spec fn from_spec(socket: Socket) -> Self {
        DeviceKind::Socket(socket)
    }
}

impl From<Thermo> for DeviceKind {
    fn from(thermo: Thermo) -> (r: Self) {
        DeviceKind::Thermo(thermo)
    }
}

impl FromSpecImpl<Thermo> for DeviceKind {
    open spec fn obeys_from_spec() -> bool {
        true
    }

    open spec fn from_spec(thermo: Thermo) -> Self {
        DeviceKind::Thermo(thermo)
    }
}

impl DeviceInfo for Socket {
    closed spec fn spec_name(&self) -> Seq<char> {
        self.name@
    }

    closed spec fn spec_state(&self) -> bool {
        self.state
    }

    fn name(&self) -> (r: &str) {
        self.name.as_str()
    }

    fn state(&self) -> (r: bool) {
        self.state
    }
}

impl DeviceInfo for Thermo {
    closed spec fn spec_name(&self) -> Seq<char> {
        self.name@
    }

    closed spec fn spec_state(&self) -> bool {
        self.state
    }

    fn name(&self) -> (r: &str) {
        self.name.as_str()
    }

    fn state(&self) -> (r: bool) {
        self.state
    }
}

impl DeviceInfo for DeviceKind {
    open spec fn spec_name(&self) -> Seq<char> {
        match self {
            DeviceKind::Socket(s) => s.spec_name(),
            DeviceKind::Thermo(t) => t.spec_name(),
        }
    }

    open spec fn spec_state(&self) -> bool {
        match self {
            DeviceKind::Socket(s) => s.spec_state(),
            DeviceKind::Thermo(t) => t.spec_state(),
        }
    }

    fn name(&self) -> (r: &str) {
        match self {
            DeviceKind::Socket(s) => s.name(),
            DeviceKind::Thermo(t) => t.name(),
        }
    }

    fn state(&self) -> (r: bool) {
        match self {
            DeviceKind::Socket(s) => s.state(),
            DeviceKind::Thermo(t) => t.state(),
        }
    }
}

} // verus!

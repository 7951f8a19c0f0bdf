//! Admission: how many connections the server takes on at one time.

use crate::utils::config::ServerConfig;
use vstd::prelude::*;

verus! {

/// The supervisor's count of the connections that it serves. It lets a new
/// connection in only while fewer than the allowed number are being served.
pub struct ConnectionSupervisor {
    max_connections: usize,
    active: usize,
    failed: u64,
}

impl ConnectionSupervisor {
    /// Never more connections than allowed.
    #[verifier::type_invariant]
    spec fn within_limit(&self) -> bool {
        self.active <= self.max_connections
    }

    /// The most connections served at one time.
    pub closed spec fn limit(&self) -> nat {
        self.max_connections as nat
    }

    /// The connections served at this moment.
    pub closed spec fn active(&self) -> nat {
        self.active as nat
    }

    /// The connections that ended with an error so far. The count stops at
    /// the end of its range.
    pub closed spec fn failed(&self) -> nat {
        self.failed as nat
    }

    /// A supervisor that serves nobody yet and lets in at most
    /// `max_connections` at one time.
    pub fn new(max_connections: usize) -> (supervisor: Self)
        ensures
            supervisor.limit() == max_connections,
            supervisor.active() == 0,
            supervisor.failed() == 0,
    {
        ConnectionSupervisor { max_connections, active: 0, failed: 0 }
    }

    /// A supervisor with the limit that the settings give.
    pub fn from_config(config: &ServerConfig) -> (supervisor: Self)
        ensures
            supervisor.limit() == config.max_connections,
            supervisor.active() == 0,
            supervisor.failed() == 0,
    {
        Self::new(config.max_connections)
    }

    /// The connections that ended with an error so far.
    pub fn failed_connections(&self) -> (count: u64)
        ensures
            count == self.failed(),
    {
        self.failed
    }

    /// The connections served at this moment.
    pub fn active_connections(&self) -> (count: usize)
        ensures
            count == self.active(),
            count <= self.limit(),
    {
        proof {
            use_type_invariant(self);
        }
        self.active
    }

    /// Asks to serve one more connection. Below the limit the connection is
    /// let in and counted; at the limit it is turned away and nothing changes.
    pub fn try_admit(&mut self) -> (admitted: bool)
        ensures
            admitted == (old(self).active() < old(self).limit()),
            final(self).limit() == old(self).limit(),
            final(self).failed() == old(self).failed(),
            final(self).active() == old(self).active() + if admitted {
                1nat
            } else {
                0nat
            },
    {
        proof {
            use_type_invariant(&*self);
        }
        if self.active < self.max_connections {
            self.active = self.active + 1;
            true
        } else {
            false
        }
    }

    /// One connection has ended. Its place is free again, and where it ended
    /// with an error, the error is counted. The failure of one connection
    /// changes nothing else.
    pub fn release(&mut self, failed: bool)
        ensures
            final(self).limit() == old(self).limit(),
            final(self).active() == if old(self).active() > 0 {
                (old(self).active() - 1) as nat
            } else {
                0nat
            },
            final(self).failed() == if failed && old(self).failed() < u64::MAX {
                old(self).failed() + 1
            } else {
                old(self).failed()
            },
    {
        proof {
            use_type_invariant(&*self);
        }
        if self.active > 0 {
            self.active = self.active - 1;
        }
        if failed && self.failed < u64::MAX {
            self.failed = self.failed + 1;
        }
    }
}

} // verus!

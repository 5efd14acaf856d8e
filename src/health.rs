use vstd::prelude::*;

verus! {

/// Classification of the worker's health, as last observed.
///
/// A closed set: every classification and presentation site matches on all
/// three variants.
#[derive(Debug, Clone, Copy, PartialEq, Eq, Structural)]
pub enum HealthState {
    Running,
    Waiting,
    Stopped,
}

/// The result of one successful poll of the health endpoint.
///
/// Only `status` and `plugin_connected` take part in classification; the other
/// fields are carried along as metadata.
#[derive(Debug, Clone)]
pub struct HealthSample {
    pub status: String,
    pub plugin_connected: bool,
    pub pending_commands: u32,
    pub server_version: Option<String>,
    pub protocol_version: Option<u32>,
}

/// The status marker that a healthy worker reports.
pub open spec fn ok_marker() -> Seq<char> {
    seq!['o', 'k']
}

/// The state that a response with the given status and connection flag stands for.
pub open spec fn state_of(status: Seq<char>, connected: bool) -> HealthState {
    if status == ok_marker() {
        if connected {
            HealthState::Running
        } else {
            HealthState::Waiting
        }
    } else {
        HealthState::Stopped
    }
}

/// The state that one poll stands for; `None` is a poll that got no usable
/// response (transport error, timeout, malformed body).
pub open spec fn poll_state(poll: Option<HealthSample>) -> HealthState {
    match poll {
        Some(s) => state_of(s.status@, s.plugin_connected),
        None => HealthState::Stopped,
    }
}

impl HealthSample {
    /// A sample with the given status and connection flag and every optional
    /// field at its default.
    pub fn new(status: String, plugin_connected: bool) -> (r: HealthSample)
        ensures
            r.status@ == status@,
            r.plugin_connected == plugin_connected,
            r.pending_commands == 0,
            r.server_version.is_none(),
            r.protocol_version.is_none(),
    {
        HealthSample {
            status,
            plugin_connected,
            pending_commands: 0,
            server_version: None,
            protocol_version: None,
        }
    }

    /// The state that this response stands for.
    pub fn state(&self) -> (r: HealthState)
        ensures
            r == state_of(self.status@, self.plugin_connected),
    {
        if is_ok_status(self.status.as_str()) {
            if self.plugin_connected {
                HealthState::Running
            } else {
                HealthState::Waiting
            }
        } else {
            HealthState::Stopped
        }
    }
}

/// Whether a status string is the success marker.
pub fn is_ok_status(status: &str) -> (r: bool)
    ensures
        r == (status@ == ok_marker()),
{
    let n = status.unicode_len();
    if n != 2 {
        return false;
    }
    let a = status.get_char(0);
    let b = status.get_char(1);
    proof {
        if a == 'o' && b == 'k' {
            assert(status@ =~= ok_marker());
        }
    }
    a == 'o' && b == 'k'
}

/// Classifies one poll: no response is `Stopped`, a response is classified by
/// its status and connection flag.
pub fn classify(poll: &Option<HealthSample>) -> (r: HealthState)
    ensures
        r == poll_state(*poll),
{
    match poll {
        Some(s) => s.state(),
        None => HealthState::Stopped,
    }
}

} // verus!

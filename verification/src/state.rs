//! The synchronization state machine: the persisted record and the
//! transition that combines it with the remote and local revisions.

use vstd::prelude::*;

verus! {

/// Mathematical model of an [`UpdateState`]: the missed-update count as a
/// machine integer and the last remote revision seen as a character sequence.
pub enum RecordModel {
    Synced,
    Unsynced { missed: u32, last_seen: Seq<char> },
}

impl RecordModel {
    /// A record never persists a zero missed-update count: the `Unsynced`
    /// variant starts at one and only grows.
    pub open spec fn wf(self) -> bool {
        match self {
            RecordModel::Synced => true,
            RecordModel::Unsynced { missed, .. } => missed >= 1,
        }
    }
}

/// The persisted synchronization record. Either the system runs the latest
/// channel revision, or it has missed `missed` consecutive remote revisions,
/// the most recent of which is remembered.
#[derive(Debug, PartialEq, Eq)]
pub enum UpdateState {
    Synced,
    Unsynced(u32, String),
}

impl View for UpdateState {
    type V = RecordModel;

    open spec fn view(&self) -> RecordModel {
        match self {
            UpdateState::Synced => RecordModel::Synced,
            UpdateState::Unsynced(missed, last_seen) => RecordModel::Unsynced {
                missed: *missed,
                last_seen: last_seen@,
            },
        }
    }
}

impl Default for UpdateState {
    /// With no prior record the system is assumed synced.
    fn default() -> (r: Self)
        ensures
            r@ == RecordModel::Synced,
    {
        UpdateState::Synced
    }
}

impl UpdateState {
    /// One synchronization check. Combines the previous record (`self`) with
    /// the latest remote revision of the channel and the revision the system
    /// currently runs, and returns the successor record together with whether
    /// it differs from the previous one and must be written back.
    ///
    /// The missed-update count grows only when the remote revision itself
    /// advances while the system stays out of sync; repeated checks against
    /// one unreleased remote revision do not inflate it. Catching up resets
    /// the record to `Synced` unconditionally.
    pub fn determine_system_state(self, remote_rev: &String, local_rev: &String) -> (r: (
        Self,
        bool,
    ))
        requires
            self@ matches RecordModel::Unsynced { missed, .. } ==> missed < u32::MAX,
        ensures
            self@ == RecordModel::Synced && remote_rev@ == local_rev@ ==> r.0@
                == RecordModel::Synced && !r.1,
            self@ == RecordModel::Synced && remote_rev@ != local_rev@ ==> r.0@
                == (RecordModel::Unsynced { missed: 1u32, last_seen: remote_rev@ }) && r.1,
            self@ matches RecordModel::Unsynced { missed, last_seen } ==> ({
                &&& remote_rev@ == local_rev@ ==> r.0@ == RecordModel::Synced && r.1
                &&& remote_rev@ != local_rev@ && remote_rev@ != last_seen ==> r.0@
                    == (RecordModel::Unsynced {
                    missed: (missed + 1) as u32,
                    last_seen: remote_rev@,
                }) && r.1
                &&& remote_rev@ != local_rev@ && remote_rev@ == last_seen ==> r.0@ == self@ && !r.1
            }),
            r.1 == (r.0@ != self@),
            self@.wf() ==> r.0@.wf(),
    {
        let synced_now = *remote_rev == *local_rev;
        match self {
            UpdateState::Synced => {
                if synced_now {
                    (UpdateState::Synced, false)
                } else {
                    (UpdateState::Unsynced(1, remote_rev.clone()), true)
                }
            },
            UpdateState::Unsynced(missed, last_seen) => {
                if synced_now {
                    (UpdateState::Synced, true)
                } else if !(*remote_rev == last_seen) {
                    (UpdateState::Unsynced(missed + 1, remote_rev.clone()), true)
                } else {
                    (UpdateState::Unsynced(missed, last_seen), false)
                }
            },
        }
    }
}

} // verus!

//! The local activity audit log: an append-only record of every activity
//! sent or accepted, for audit and replay protection. Insertion is the last
//! step of every successful dispatch and every successful inbound
//! acceptance; entries are never mutated.

use vstd::prelude::*;

verus! {

/// Mathematical model of one log entry.
pub ghost struct ActivityRecordView {
    pub user_id: i32,
    pub data: Seq<char>,
    pub local: bool,
}

/// One log entry: the acting user's local id, the serialized activity
/// payload, and whether this server was the origin.
pub struct ActivityRecord {
    pub user_id: i32,
    pub data: String,
    pub local: bool,
}

impl View for ActivityRecord {
    type V = ActivityRecordView;

    open spec fn view(&self) -> ActivityRecordView {
        ActivityRecordView { user_id: self.user_id, data: self.data@, local: self.local }
    }
}

/// The activity log. Owns its entries exclusively; the only operation is
/// the append.
pub struct ActivityLog {
    entries: Vec<ActivityRecord>,
}

impl View for ActivityLog {
    type V = Seq<ActivityRecordView>;

    closed spec fn view(&self) -> Seq<ActivityRecordView> {
        Seq::new(self.entries@.len(), |i: int| self.entries@[i]@)
    }
}

impl ActivityLog {
    /// An empty log.
    pub fn new() -> (r: ActivityLog)
        ensures
            r@ == Seq::<ActivityRecordView>::empty(),
    {
        let r = ActivityLog { entries: Vec::new() };
        assert(r@ =~= Seq::<ActivityRecordView>::empty());
        r
    }

    pub fn len(&self) -> (r: usize)
        ensures
            r == self@.len(),
    {
        self.entries.len()
    }

    /// Read one entry back, for audit.
    pub fn entry(&self, i: usize) -> (r: &ActivityRecord)
        requires
            i < self@.len(),
        ensures
            r@ == self@[i as int],
    {
        &self.entries[i]
    }
}

/// Append one record; nothing already logged moves or changes.
pub fn insert_activity(log: &mut ActivityLog, user_id: i32, data: String, local: bool)
    ensures
        final(log)@ == old(log)@.push(ActivityRecordView { user_id, data: data@, local }),
{
    let ghost before = log@;
    log.entries.push(ActivityRecord { user_id, data, local });
    assert(log@ =~= before.push(ActivityRecordView { user_id, data: data@, local }));
}

} // verus!

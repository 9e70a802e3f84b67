//! The activity log: the most recent messages first, never more than ten.

use vstd::prelude::*;

verus! {

/// The largest number of messages that the log keeps.
pub const LOG_CAPACITY: usize = 10;

/// The log of recent activity, newest message first.
#[derive(Debug)]
pub struct ActivityLog {
    pub entries: Vec<String>,
}

impl View for ActivityLog {
    type V = Seq<Seq<char>>;

    /// The messages as texts, newest first.
    open spec fn view(&self) -> Seq<Seq<char>> {
        self.entries@.map_values(|s: String| s@)
    }
}

/// The log after `message` was recorded: the message in front, and the
/// oldest message dropped where that makes more than ten.
pub open spec fn with_entry(log: Seq<Seq<char>>, message: Seq<char>) -> Seq<Seq<char>> {
    let all = seq![message] + log;
    if all.len() > 10 {
        all.take(10)
    } else {
        all
    }
}

impl ActivityLog {
    /// Whether the log is within its capacity.
    pub open spec fn wf(&self) -> bool {
        self.entries@.len() <= 10
    }

    /// An empty log.
    pub fn new() -> (log: ActivityLog)
        ensures
            log@ == Seq::<Seq<char>>::empty(),
            log.wf(),
    {
        let log = ActivityLog { entries: Vec::new() };
        assert(log@ =~= Seq::<Seq<char>>::empty());
        log
    }

    /// Records a message as the newest; beyond ten messages the oldest are
    /// dropped.
    pub fn record(&mut self, message: String)
        ensures
            final(self)@ == with_entry(old(self)@, message@),
            final(self).wf(),
    {
        self.entries.insert(0, message);
        if self.entries.len() > LOG_CAPACITY {
            self.entries.truncate(LOG_CAPACITY);
        }
        assert(self@ =~= with_entry(old(self)@, message@));
    }

    /// The number of messages.
    pub fn len(&self) -> (n: usize)
        ensures
            n == self@.len(),
    {
        self.entries.len()
    }

    /// Whether the log holds no message.
    pub fn is_empty(&self) -> (empty: bool)
        ensures
            empty == (self@.len() == 0),
    {
        self.entries.len() == 0
    }

    /// Whether the log is within its capacity.
    pub fn is_valid(&self) -> (valid: bool)
        ensures
            valid == self.wf(),
    {
        self.entries.len() <= LOG_CAPACITY
    }
}

} // verus!

//! The log panel: messages, grouped by the part of the program that wrote
//! them.

use vstd::prelude::*;

verus! {

/// The messages of one part of the program, oldest first.
#[derive(Debug)]
pub struct LogGroup {
    pub id: String,
    pub lines: Vec<String>,
}

/// The log panel. No two groups have the same id; groups stand in the order
/// in which they were first written to. The panel changes through its
/// operations only, which keep that promise.
#[derive(Debug)]
pub struct LoggerPanel {
    logger_status: bool,
    logger_message: Vec<LogGroup>,
}

impl View for LoggerPanel {
    type V = Seq<LogGroup>;

    closed spec fn view(&self) -> Seq<LogGroup> {
        self.logger_message@
    }
}

/// The position of the first group at or after `from` with the given id;
/// the number of groups if there is none.
pub open spec fn position_of_group(groups: Seq<LogGroup>, id: Seq<char>, from: int) -> int
    decreases groups.len() - from,
{
    if from < 0 || from >= groups.len() {
        groups.len() as int
    } else if groups[from].id@ == id {
        from
    } else {
        position_of_group(groups, id, from + 1)
    }
}

/// No two groups have the same id.
pub open spec fn distinct_ids(groups: Seq<LogGroup>) -> bool {
    forall|i: int, j: int|
        0 <= i < j < groups.len() ==> (#[trigger] groups[i]).id@ != (#[trigger] groups[j]).id@
}

/// `position_of_group` finds the first group with the id, within the list.
pub proof fn position_of_group_bounds(groups: Seq<LogGroup>, id: Seq<char>, from: int)
    requires
        0 <= from <= groups.len(),
    ensures
        from <= position_of_group(groups, id, from) <= groups.len(),
        position_of_group(groups, id, from) < groups.len() ==> groups[position_of_group(
            groups,
            id,
            from,
        )].id@ == id,
        forall|k: int| from <= k < position_of_group(groups, id, from) ==> groups[k].id@ != id,
    decreases groups.len() - from,
{
    if from < groups.len() && groups[from].id@ != id {
        position_of_group_bounds(groups, id, from + 1);
    }
}

impl LoggerPanel {
    /// The panel keeps its promise about ids.
    pub open spec fn well_formed(&self) -> bool {
        distinct_ids(self@)
    }

    /// Whether the log is switched on.
    pub closed spec fn shown(&self) -> bool {
        self.logger_status
    }

    /// Whether the log is switched on.
    pub fn status(&self) -> (r: bool)
        ensures
            r == self.shown(),
    {
        self.logger_status
    }

    /// An empty log, switched off.
    pub fn new() -> (r: Self)
        ensures
            r@.len() == 0,
            !r.shown(),
            r.well_formed(),
    {
        LoggerPanel { logger_status: false, logger_message: Vec::new() }
    }

    /// The groups of the log, in the order in which they were first written
    /// to.
    pub fn groups(&self) -> (r: &Vec<LogGroup>)
        ensures
            r@ == self@,
    {
        &self.logger_message
    }

    /// Appends a message to the group of the given id; a group that does
    /// not exist yet is added after the others.
    pub fn add_log(&mut self, log_id: String, log_message: String)
        requires
            old(self).well_formed(),
        ensures
            final(self).well_formed(),
            final(self).shown() == old(self).shown(),
            ({
                let before = old(self)@;
                let after = final(self)@;
                let at = position_of_group(before, log_id@, 0);
                &&& at == position_of_group(after, log_id@, 0)
                &&& after[at].id@ == log_id@
                &&& forall|k: int| 0 <= k < before.len() && k != at ==> after[k] == before[k]
                &&& if at < before.len() {
                    after.len() == before.len() && after[at].lines@ == before[at].lines@.push(
                        log_message,
                    )
                } else {
                    after.len() == before.len() + 1 && after[at].lines@ == seq![log_message]
                }
            }),
    {
        let mut i: usize = 0;
        while i < self.logger_message.len()
            invariant
                i <= self.logger_message.len(),
                self.logger_message@ == old(self).logger_message@,
                self.logger_status == old(self).logger_status,
                distinct_ids(self.logger_message@),
                position_of_group(self.logger_message@, log_id@, 0) == position_of_group(
                    self.logger_message@,
                    log_id@,
                    i as int,
                ),
            decreases self.logger_message.len() - i,
        {
            if self.logger_message[i].id == log_id {
                let mut group = self.logger_message.remove(i);
                group.lines.push(log_message);
                self.logger_message.insert(i, group);
                proof {
                    let before = old(self).logger_message@;
                    let after = self.logger_message@;
                    position_of_group_bounds(before, log_id@, 0);
                    assert forall|k: int| 0 <= k < after.len() implies (#[trigger] after[k]).id@
                        == before[k].id@ by {}
                    assert(position_of_group(after, log_id@, 0) == i) by {
                        same_ids_same_position(before, after, log_id@, 0);
                    }
                    assert forall|a: int, b: int| 0 <= a < b < after.len() implies (
                    #[trigger] after[a]).id@ != (#[trigger] after[b]).id@ by {
                        assert(before[a].id@ != before[b].id@);
                    }
                }
                return ;
            }
            i += 1;
        }
        proof {
            let before = old(self).logger_message@;
            position_of_group_bounds(before, log_id@, 0);
        }
        let mut lines: Vec<String> = Vec::new();
        lines.push(log_message);
        self.logger_message.push(LogGroup { id: log_id, lines });
        proof {
            let before = old(self).logger_message@;
            let after = self.logger_message@;
            appended_group_position(before, after, log_id@, 0);
            assert forall|a: int, b: int| 0 <= a < b < after.len() implies (#[trigger] after[a]).id@
                != (#[trigger] after[b]).id@ by {
                if b < before.len() {
                    assert(before[a].id@ != before[b].id@);
                } else {
                    assert(before[a].id@ != log_id@);
                }
            }
        }
    }

    /// The messages of a group, oldest first; none where the group does not
    /// exist.
    pub fn logs_of(&self, log_id: &str) -> (r: Option<&Vec<String>>)
        ensures
            match r {
                Some(lines) => position_of_group(self@, log_id@, 0) < self@.len() && *lines
                    == self@[position_of_group(self@, log_id@, 0)].lines,
                None => position_of_group(self@, log_id@, 0) == self@.len(),
            },
    {
        let mut i: usize = 0;
        while i < self.logger_message.len()
            invariant
                i <= self.logger_message.len(),
                position_of_group(self.logger_message@, log_id@, 0) == position_of_group(
                    self.logger_message@,
                    log_id@,
                    i as int,
                ),
            decreases self.logger_message.len() - i,
        {
            if crate::text::is_word(self.logger_message[i].id.as_str(), log_id) {
                return Some(&self.logger_message[i].lines);
            }
            i += 1;
        }
        None
    }
}

/// Two lists with the same ids, position by position, find an id at the
/// same position.
pub proof fn same_ids_same_position(a: Seq<LogGroup>, b: Seq<LogGroup>, id: Seq<char>, from: int)
    requires
        a.len() == b.len(),
        0 <= from <= a.len(),
        forall|k: int| 0 <= k < a.len() ==> (#[trigger] b[k]).id@ == a[k].id@,
    ensures
        position_of_group(a, id, from) == position_of_group(b, id, from),
    decreases a.len() - from,
{
    if from < a.len() {
        assert(b[from].id@ == a[from].id@);
        if a[from].id@ != id {
            same_ids_same_position(a, b, id, from + 1);
        }
    }
}

/// A group appended to a list that lacks its id is found at the end.
pub proof fn appended_group_position(a: Seq<LogGroup>, b: Seq<LogGroup>, id: Seq<char>, from: int)
    requires
        b.len() == a.len() + 1,
        0 <= from <= a.len(),
        forall|k: int| 0 <= k < a.len() ==> b[k] == a[k],
        b[a.len() as int].id@ == id,
        position_of_group(a, id, from) == a.len(),
    ensures
        position_of_group(b, id, from) == a.len(),
    decreases a.len() - from,
{
    if from < a.len() {
        assert(b[from] == a[from]);
        appended_group_position(a, b, id, from + 1);
    }
}

} // verus!

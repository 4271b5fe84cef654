use vstd::prelude::*;

verus! {

/// A single-assignment slot for the instance's exit record: a status code and
/// a millisecond timestamp. Once a value is stored, later stores are no-ops:
/// the first writer wins, and every reader observes that same value.
pub struct ExitCell {
    value: Option<(u32, i64)>,
}

impl View for ExitCell {
    type V = Option<(u32, i64)>;

    closed spec fn view(&self) -> Option<(u32, i64)> {
        self.value
    }
}

impl ExitCell {
    /// What one store leaves in a slot: the old record if one is present,
    /// otherwise the stored record.
    pub open spec fn store_result(cur: Option<(u32, i64)>, v: (u32, i64)) -> Option<(u32, i64)> {
        match cur {
            Some(_) => cur,
            None => Some(v),
        }
    }

    pub fn new() -> (c: ExitCell)
        ensures
            c@ is None,
    {
        ExitCell { value: None }
    }

    /// Records `(status, at)` if the cell is still empty; a later call keeps
    /// the first record. Returns whether this call was the winning writer.
    pub fn set(&mut self, status: u32, at: i64) -> (won: bool)
        ensures
            final(self)@ == Self::store_result(old(self)@, (status, at)),
            won == (old(self)@ is None),
    {
        match self.value {
            Some(_) => false,
            None => {
                self.value = Some((status, at));
                true
            },
        }
    }

    /// The recorded exit, or `None` while no writer has arrived.
    pub fn get(&self) -> (r: Option<(u32, i64)>)
        ensures
            r == self@,
    {
        self.value
    }
}

/// A scoped token handed out by `start` and moved into the monitoring task:
/// released while still armed, it forces an empty cell to the fallback
/// status, so the instance always ends up with an exit record even when the
/// task never commits one. A successful store elsewhere makes the release a
/// no-op, which is how a commit disarms the guard implicitly.
pub struct ExitGuard {
    fallback_status: u32,
    armed: bool,
}

impl ExitGuard {
    pub closed spec fn is_armed(&self) -> bool {
        self.armed
    }

    pub closed spec fn fallback(&self) -> u32 {
        self.fallback_status
    }

    pub fn new(fallback_status: u32) -> (g: ExitGuard)
        ensures
            g.is_armed(),
            g.fallback() == fallback_status,
    {
        ExitGuard { fallback_status, armed: true }
    }

    /// Puts the guard out of action: a later release writes nothing.
    pub fn disarm(&mut self)
        ensures
            !final(self).is_armed(),
            final(self).fallback() == old(self).fallback(),
    {
        self.armed = false;
    }

    /// Consumes the guard. If it is still armed and the cell is still empty,
    /// the cell is set to the fallback status, stamped with the current time;
    /// in every other case the cell is left as it was.
    pub fn release(self, cell: &mut ExitCell)
        ensures
            old(cell)@ is Some ==> final(cell)@ == old(cell)@,
            !self.is_armed() ==> final(cell)@ == old(cell)@,
            self.is_armed() && old(cell)@ is None ==> (final(cell)@ matches Some(p)
                && p.0 == self.fallback()),
    {
        if self.armed {
            let at = crate::clock::now_millis();
            let _ = cell.set(self.fallback_status, at);
        }
    }
}

/// Once set, never overwritten: a store against a filled cell changes
/// nothing, so every reader — however late it arrives relative to the
/// stores — observes the one recorded value.
pub proof fn lemma_store_keeps_value(cur: Option<(u32, i64)>, v: (u32, i64))
    requires
        cur is Some,
    ensures
        ExitCell::store_result(cur, v) == cur,
{
}

/// The record left in an initially empty cell after a sequence of stores,
/// applied in order.
pub open spec fn store_all(ops: Seq<(u32, i64)>) -> Option<(u32, i64)>
    decreases ops.len(),
{
    if ops.len() == 0 {
        None
    } else {
        ExitCell::store_result(store_all(ops.drop_last()), ops.last())
    }
}

/// First writer wins: however many stores run against an initially empty
/// cell, the cell ends up holding exactly the first one, so every waiter
/// observes that same record.
pub proof fn lemma_first_store_wins(ops: Seq<(u32, i64)>)
    requires
        ops.len() > 0,
    ensures
        store_all(ops) == Some(ops[0]),
    decreases ops.len(),
{
    if ops.len() == 1 {
        assert(ops.drop_last().len() == 0);
        assert(store_all(ops.drop_last()) is None);
    } else {
        lemma_first_store_wins(ops.drop_last());
        assert(ops.drop_last()[0] == ops[0]);
    }
}

} // verus!

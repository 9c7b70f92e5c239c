//! A fault channel: code deep inside an operation, whose own return type
//! cannot carry a failure, deposits a diagnostic, and the caller that opened
//! the extent around the operation gets it back as an `Err`.
//!
//! The channel is a stack of slots, one for each open extent, the innermost
//! last. Each slot holds at most one diagnostic, and the first one deposited
//! into it is the one that is kept.
use vstd::prelude::*;
use crate::error::Error;

verus! {

/// The slots of the open extents, the innermost last.
pub struct FaultChannel {
    slots: Vec<Option<Error>>,
}

impl View for FaultChannel {
    type V = Seq<Option<Error>>;

    closed spec fn view(&self) -> Seq<Option<Error>> {
        self.slots@
    }
}

/// The slots after `d` was deposited: the innermost slot takes it when it
/// is empty, and everything stays as it was otherwise.
pub open spec fn deposited(slots: Seq<Option<Error>>, d: Error) -> Seq<Option<Error>> {
    if slots.last() is None {
        slots.update(slots.len() - 1, Some(d))
    } else {
        slots
    }
}

/// What an extent returns, from what its slot held when it closed and what
/// the operation returned: the diagnostic, when there is one, wins.
pub open spec fn settle<T>(slot: Option<Error>, outcome: Result<T, Error>) -> Result<T, Error> {
    match slot {
        Some(e) => Err(e),
        None => outcome,
    }
}

/// What an operation inside the innermost extent may do to the channel:
/// the extents below are untouched, and the innermost slot is either left
/// as it was or, when it was empty, filled.
pub open spec fn steps(before: Seq<Option<Error>>, after: Seq<Option<Error>>) -> bool {
    &&& before.len() > 0
    &&& after.len() == before.len()
    &&& after.drop_last() == before.drop_last()
    &&& (before.last() is Some ==> after.last() == before.last())
}

impl FaultChannel {
    /// A channel with no open extent.
    pub fn new() -> (r: FaultChannel)
        ensures
            r@ == Seq::<Option<Error>>::empty(),
    {
        FaultChannel { slots: Vec::new() }
    }

    /// How many extents are open.
    pub fn depth(&self) -> (r: usize)
        ensures
            r == self@.len(),
    {
        self.slots.len()
    }

    /// Opens an extent: a new, empty slot becomes the innermost one.
    pub fn open_extent(&mut self)
        ensures
            final(self)@ == old(self)@.push(None),
    {
        self.slots.push(None);
    }

    /// Deposits `d` into the innermost open slot, unless that slot already
    /// holds a diagnostic, in which case `d` is dropped.
    pub fn deposit(&mut self, d: Error)
        requires
            old(self)@.len() > 0,
        ensures
            final(self)@ == deposited(old(self)@, d),
    {
        let last = self.slots.len() - 1;
        if self.slots[last].is_none() {
            self.slots.set(last, Some(d));
        }
    }

    /// Whether the innermost open slot holds a diagnostic.
    pub fn is_populated(&self) -> (r: bool)
        requires
            self@.len() > 0,
        ensures
            r == self@.last() is Some,
    {
        self.slots[self.slots.len() - 1].is_some()
    }

    /// Closes the innermost extent, whose operation returned `outcome`: the
    /// diagnostic in its slot, when there is one, is returned in place of it.
    pub fn close_extent<T>(&mut self, outcome: Result<T, Error>) -> (r: Result<T, Error>)
        requires
            old(self)@.len() > 0,
        ensures
            final(self)@ == old(self)@.drop_last(),
            r == settle(old(self)@.last(), outcome),
    {
        let slot = self.slots.pop();
        match slot {
            Some(Some(e)) => Err(e),
            _ => outcome,
        }
    }
}

/// Runs `op` inside a new extent of `channel` and returns what it returned,
/// unless a diagnostic was deposited meanwhile, which is then returned instead.
///
/// `op` receives the channel with the new extent innermost and hands it back;
/// it may deposit into that extent and open and close extents of its own.
///
/// While `op` runs, `channel` itself is left with no open extent: the
/// extents are moved into `op` and moved back when it returns. If `op`
/// unwinds and the caller catches the panic, `channel` stays empty and the
/// extents that were open before are lost. Code that must survive an unwind
/// keeps one channel per extent, as a scoped thread-local does.
pub fn capture<T, F>(channel: &mut FaultChannel, op: F) -> (r: Result<T, Error>) where
    F: FnOnce(FaultChannel) -> (FaultChannel, Result<T, Error>),

    requires
        forall|inner: FaultChannel|
            inner@ == old(channel)@.push(None) ==> #[trigger] op.requires((inner,)),
        forall|inner: FaultChannel, out: (FaultChannel, Result<T, Error>)|
            inner@ == old(channel)@.push(None) && #[trigger] op.ensures((inner,), out) ==> steps(
                inner@,
                out.0@,
            ),
    ensures
        final(channel)@ == old(channel)@,
        exists|inner: FaultChannel, out: (FaultChannel, Result<T, Error>)|
            inner@ == old(channel)@.push(None) && #[trigger] op.ensures((inner,), out) && r
                == settle(out.0@.last(), out.1),
{
    let mut inner = FaultChannel::new();
    std::mem::swap(channel, &mut inner);
    inner.open_extent();
    let ghost opened = inner;
    let (mut back, outcome) = op(inner);
    let ghost returned = back;
    let r = back.close_extent(outcome);
    proof {
        assert(steps(opened@, returned@));
        assert(back@ =~= old(channel)@);
    }
    std::mem::swap(channel, &mut back);
    r
}

/// An extent into which nothing was deposited returns exactly what its
/// operation returned.
pub proof fn quiet_extent_returns_outcome<T>(outer: Seq<Option<Error>>, outcome: Result<T, Error>)
    ensures
        settle(outer.push(None).last(), outcome) == outcome,
{
}

/// Of two diagnostics deposited one after the other into the same extent, the
/// extent returns the first; so it does after whatever else the operation
/// goes on to do.
pub proof fn first_deposit_wins<T>(
    outer: Seq<Option<Error>>,
    d1: Error,
    d2: Error,
    outcome: Result<T, Error>,
)
    ensures
        forall|after: Seq<Option<Error>>|
            #[trigger] steps(deposited(outer.push(None), d1), after) ==> settle(
                after.last(),
                outcome,
            ) == Err::<T, Error>(d1),
        settle(deposited(deposited(outer.push(None), d1), d2).last(), outcome) == Err::<T, Error>(
            d1,
        ),
        deposited(deposited(outer.push(None), d1), d2).drop_last() == outer,
{
    let s = outer.push(None);
    assert(deposited(s, d1) =~= outer.push(Some(d1)));
}

/// Once an inner extent has closed, whatever was deposited into it is gone:
/// the outer extents, and what the innermost of them would return, are as
/// they were before it opened.
pub proof fn closed_extent_leaves_outer<T>(
    outer: Seq<Option<Error>>,
    after: Seq<Option<Error>>,
    outcome: Result<T, Error>,
)
    requires
        outer.len() > 0,
        steps(outer.push(None), after),
    ensures
        after.drop_last() == outer,
        settle(after.drop_last().last(), outcome) == settle(outer.last(), outcome),
{
    assert(outer.push(None).drop_last() =~= outer);
}

} // verus!

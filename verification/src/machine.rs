//! The traversal state machine: the core of the walk.
//!
//! A depth-first directory walk is presented as a single flat lazy
//! sequence by an explicit stack of open directory cursors plus a step
//! function.  The machine here is that step function, made pure: it never
//! touches the filesystem itself.  Instead it tells its driver which unit
//! of work to perform next ([`Action`]), the driver performs it (possibly
//! suspending without blocking its scheduler) and feeds the outcome back
//! in, and the machine answers with what the consumer should see
//! ([`Step`]).  All traversal policy — pre-order descent, which failures
//! are fatal and which are not, when the walk is over — lives in the
//! machine and is verified.
//!
//! The machine is generic over `E`, the driver's raw-entry type, which it
//! carries through without inspecting.  Alongside the control state it
//! keeps a ghost account of every entry the cursors ever delivered and of
//! how each was resolved, which is what the laws at the bottom of this
//! module are stated over.

use vstd::multiset::Multiset;
use vstd::prelude::*;

use crate::error::Error;

verus! {

broadcast use vstd::multiset::group_multiset_axioms;

/// The control state of one traversal.
///
/// `depth` is the number of open directory cursors: the root's cursor
/// plus one per ancestor directory paused mid-iteration.  The cursors
/// themselves (open handles) are owned by the driver; the machine tracks
/// only their number and the single raw entry currently being classified.
pub enum WalkState<E> {
    /// The walk has not begun: no directory has been opened yet.
    Start,
    /// `depth` cursors are open and the next unit of work is to read one
    /// raw entry from the top (deepest) cursor.
    Reading { depth: usize },
    /// A raw entry has been read from the top cursor and awaits its
    /// file-type probe.
    Probing { depth: usize, entry: E },
    /// The pending entry was probed as a directory; the next unit of work
    /// is to open a cursor on it.
    Opening { depth: usize, entry: E },
    /// Terminal: every cursor is released and no further item will ever
    /// be produced.
    Done,
}

/// The unit of work the machine asks its driver to perform.
pub enum Action {
    /// Open a directory listing at the traversal root, then report the
    /// outcome with `on_root_open`.
    OpenRoot,
    /// Read one raw entry from the top-of-stack cursor — releasing that
    /// cursor if it is exhausted — then report with `on_entry`.
    ReadTop,
    /// Probe the pending entry's file type, then report with `on_probe`.
    Probe,
    /// Open a directory listing at the pending entry's path — keeping the
    /// new cursor on success — then report with `on_subdir_open`.
    OpenSubdir,
    /// The traversal is over: there is nothing left to do.
    Finish,
}

/// The visible outcome of feeding one event to the machine.
pub enum Step<E> {
    /// Hand this item — an entry, or an error — to the consumer.
    Emit(Result<E, Error>),
    /// No item this time: ask `next_action` again and keep going.
    Continue,
    /// The lazy sequence has ended; nothing more will come.
    Finished,
}

/// The unit of work that a traversal in state `s` needs next.
pub open spec fn action_of<E>(s: WalkState<E>) -> Action {
    match s {
        WalkState::Start => Action::OpenRoot,
        WalkState::Reading { .. } => Action::ReadTop,
        WalkState::Probing { .. } => Action::Probe,
        WalkState::Opening { .. } => Action::OpenSubdir,
        WalkState::Done => Action::Finish,
    }
}

/// The traversal state machine.
///
/// Besides the control state it carries a ghost account of the walk so
/// far: `delivered` is every raw entry the cursors handed in, `yielded`
/// every entry emitted to the consumer as a success, and `dropped` every
/// entry that was read but replaced by an error item because its probe or
/// its directory open failed.  The well-formedness invariant [`Self::wf`]
/// says these books always balance, which is where the once-and-only-once
/// laws below come from.
pub struct Machine<E> {
    state: WalkState<E>,
    delivered: Ghost<Multiset<E>>,
    yielded: Ghost<Multiset<E>>,
    dropped: Ghost<Multiset<E>>,
}

impl<E> Machine<E> {
    /// The control state, as the model the contracts speak of.
    pub closed spec fn st(&self) -> WalkState<E> {
        self.state
    }

    /// Every raw entry a cursor has delivered so far.  The root itself is
    /// opened, never delivered, so it is never in this account.
    pub closed spec fn delivered(&self) -> Multiset<E> {
        self.delivered@
    }

    /// Every entry emitted to the consumer as a success so far.
    pub closed spec fn yielded(&self) -> Multiset<E> {
        self.yielded@
    }

    /// Every entry read but resolved into an error item instead, because
    /// its file-type probe or its directory open failed.
    pub closed spec fn dropped(&self) -> Multiset<E> {
        self.dropped@
    }

    /// The entry read but not yet resolved, if any.
    pub open spec fn pending(&self) -> Multiset<E> {
        match self.st() {
            WalkState::Probing { entry, .. } => Multiset::singleton(entry),
            WalkState::Opening { entry, .. } => Multiset::singleton(entry),
            _ => Multiset::empty(),
        }
    }

    /// Well-formedness: the ghost books balance — each delivered entry is
    /// accounted for exactly once, as yielded, dropped or still pending —
    /// and an active walk has at least the root's cursor open.
    pub open spec fn wf(&self) -> bool {
        &&& self.delivered() == self.yielded().add(self.dropped()).add(self.pending())
        &&& (self.st() matches WalkState::Reading { depth } ==> depth >= 1)
        &&& (self.st() matches WalkState::Probing { depth, .. } ==> depth >= 1)
        &&& (self.st() matches WalkState::Opening { depth, .. } ==> depth >= 1)
    }

    /// A fresh traversal.  No work is performed: failure to open the root
    /// is deferred to the first pull, per the lazy contract.
    pub fn new() -> (m: Machine<E>)
        ensures
            m.wf(),
            m.st() is Start,
            m.delivered() == Multiset::<E>::empty(),
            m.yielded() == Multiset::<E>::empty(),
            m.dropped() == Multiset::<E>::empty(),
    {
        let m = Machine {
            state: WalkState::Start,
            delivered: Ghost(Multiset::empty()),
            yielded: Ghost(Multiset::empty()),
            dropped: Ghost(Multiset::empty()),
        };
        proof {
            assert(m.delivered() =~= m.yielded().add(m.dropped()).add(m.pending()));
        }
        m
    }

    /// The unit of work the driver must perform next.
    pub fn next_action(&self) -> (a: Action)
        ensures
            a == action_of(self.st()),
    {
        match &self.state {
            WalkState::Start => Action::OpenRoot,
            WalkState::Reading { .. } => Action::ReadTop,
            WalkState::Probing { .. } => Action::Probe,
            WalkState::Opening { .. } => Action::OpenSubdir,
            WalkState::Done => Action::Finish,
        }
    }

    /// Borrows the entry awaiting its file-type probe or its directory
    /// open, so the driver can perform that operation on it.
    pub fn pending_entry(&self) -> (r: &E)
        requires
            self.st() is Probing || self.st() is Opening,
        ensures
            self.pending() == Multiset::singleton(*r),
    {
        match &self.state {
            WalkState::Probing { entry, .. } => entry,
            WalkState::Opening { entry, .. } => entry,
            _ => vstd::pervasive::unreached(),
        }
    }

    /// The outcome of opening the root directory listing.
    ///
    /// Success opens the walk at depth one and produces no item — the
    /// root itself is never yielded.  Failure is terminal: the error is
    /// emitted exactly once and the machine is done.
    pub fn on_root_open(&mut self, r: Result<(), Error>) -> (out: Step<E>)
        requires
            old(self).wf(),
            old(self).st() is Start,
        ensures
            final(self).wf(),
            final(self).delivered() == old(self).delivered(),
            final(self).yielded() == old(self).yielded(),
            final(self).dropped() == old(self).dropped(),
            match r {
                Ok(_) => {
                    &&& final(self).st() == (WalkState::<E>::Reading { depth: 1 })
                    &&& out is Continue
                },
                Err(e) => {
                    &&& final(self).st() is Done
                    &&& out == Step::<E>::Emit(Err(e))
                },
            },
    {
        match r {
            Ok(_) => {
                self.state = WalkState::Reading { depth: 1 };
                Step::Continue
            },
            Err(e) => {
                self.state = WalkState::Done;
                Step::Emit(Err(e))
            },
        }
    }

    /// The outcome of reading one raw entry from the top cursor.
    ///
    /// An entry becomes pending for its probe and produces no item yet.
    /// A read error is emitted as one item and the same cursor stays
    /// current: a failed read does not exhaust it.  Cursor exhaustion
    /// (`None`) resumes the parent exactly where it left off, or ends the
    /// walk when the exhausted cursor was the root's.
    pub fn on_entry(&mut self, r: Option<Result<E, Error>>) -> (out: Step<E>)
        requires
            old(self).wf(),
            old(self).st() is Reading,
        ensures
            final(self).wf(),
            final(self).yielded() == old(self).yielded(),
            final(self).dropped() == old(self).dropped(),
            match r {
                Some(Ok(e)) => {
                    &&& final(self).delivered() == old(self).delivered().insert(e)
                    &&& final(self).st() == (WalkState::Probing {
                        depth: old(self).st()->Reading_depth,
                        entry: e,
                    })
                    &&& out is Continue
                },
                Some(Err(err)) => {
                    &&& final(self).delivered() == old(self).delivered()
                    &&& final(self).st() == old(self).st()
                    &&& out == Step::<E>::Emit(Err(err))
                },
                None => {
                    &&& final(self).delivered() == old(self).delivered()
                    &&& if old(self).st()->Reading_depth > 1 {
                        final(self).st() == (WalkState::<E>::Reading {
                            depth: (old(self).st()->Reading_depth - 1) as usize,
                        }) && out is Continue
                    } else {
                        final(self).st() is Done && out is Finished
                    }
                },
            },
    {
        let depth: usize = match &self.state {
            WalkState::Reading { depth } => *depth,
            _ => vstd::pervasive::unreached(),
        };
        match r {
            Some(res) => match res {
                Ok(e) => {
                    self.delivered = Ghost(self.delivered@.insert(e));
                    self.state = WalkState::Probing { depth, entry: e };
                    proof {
                        assert(self.delivered() =~= self.yielded().add(self.dropped()).add(
                            self.pending(),
                        ));
                    }
                    Step::Continue
                },
                Err(err) => Step::Emit(Err(err)),
            },
            None => {
                if depth > 1 {
                    self.state = WalkState::Reading { depth: depth - 1 };
                    Step::Continue
                } else {
                    self.state = WalkState::Done;
                    Step::Finished
                }
            },
        }
    }

    /// The outcome of probing the pending entry's file type.
    ///
    /// A non-directory is emitted at once.  A directory is not emitted
    /// yet: the machine first asks for a cursor on it, so that descent is
    /// pre-order.  A probe failure is emitted as one error item and the
    /// walk goes on with the next sibling: one entry's metadata failure
    /// is not fatal to the whole walk.
    pub fn on_probe(&mut self, r: Result<bool, Error>) -> (out: Step<E>)
        requires
            old(self).wf(),
            old(self).st() is Probing,
        ensures
            final(self).wf(),
            final(self).delivered() == old(self).delivered(),
            match r {
                Ok(is_dir) => if is_dir {
                    &&& final(self).st() == (WalkState::Opening {
                        depth: old(self).st()->Probing_depth,
                        entry: old(self).st()->Probing_entry,
                    })
                    &&& out is Continue
                    &&& final(self).yielded() == old(self).yielded()
                    &&& final(self).dropped() == old(self).dropped()
                } else {
                    &&& final(self).st() == (WalkState::<E>::Reading {
                        depth: old(self).st()->Probing_depth,
                    })
                    &&& out == Step::Emit(Ok(old(self).st()->Probing_entry))
                    &&& final(self).yielded() == old(self).yielded().insert(
                        old(self).st()->Probing_entry,
                    )
                    &&& final(self).dropped() == old(self).dropped()
                },
                Err(e) => {
                    &&& final(self).st() == (WalkState::<E>::Reading {
                        depth: old(self).st()->Probing_depth,
                    })
                    &&& out == Step::<E>::Emit(Err(e))
                    &&& final(self).dropped() == old(self).dropped().insert(
                        old(self).st()->Probing_entry,
                    )
                    &&& final(self).yielded() == old(self).yielded()
                },
            },
    {
        let mut st = WalkState::Done;
        core::mem::swap(&mut self.state, &mut st);
        match st {
            WalkState::Probing { depth, entry } => match r {
                Ok(true) => {
                    self.state = WalkState::Opening { depth, entry };
                    Step::Continue
                },
                Ok(false) => {
                    self.yielded = Ghost(self.yielded@.insert(entry));
                    self.state = WalkState::Reading { depth };
                    proof {
                        assert(self.delivered() =~= self.yielded().add(self.dropped()).add(
                            self.pending(),
                        ));
                    }
                    Step::Emit(Ok(entry))
                },
                Err(e) => {
                    self.dropped = Ghost(self.dropped@.insert(entry));
                    self.state = WalkState::Reading { depth };
                    proof {
                        assert(self.delivered() =~= self.yielded().add(self.dropped()).add(
                            self.pending(),
                        ));
                    }
                    Step::Emit(Err(e))
                },
            },
            _ => vstd::pervasive::unreached(),
        }
    }

    /// The outcome of opening a cursor on the pending directory entry.
    ///
    /// On success the new cursor becomes current — descent — and the
    /// directory entry itself is emitted.  Failure is terminal for the
    /// whole traversal, unlike a probe failure: the error is emitted
    /// exactly once and the machine is done.
    pub fn on_subdir_open(&mut self, r: Result<(), Error>) -> (out: Step<E>)
        requires
            old(self).wf(),
            old(self).st() is Opening,
            old(self).st()->Opening_depth < usize::MAX,
        ensures
            final(self).wf(),
            final(self).delivered() == old(self).delivered(),
            match r {
                Ok(_) => {
                    &&& final(self).st() == (WalkState::<E>::Reading {
                        depth: (old(self).st()->Opening_depth + 1) as usize,
                    })
                    &&& out == Step::Emit(Ok(old(self).st()->Opening_entry))
                    &&& final(self).yielded() == old(self).yielded().insert(
                        old(self).st()->Opening_entry,
                    )
                    &&& final(self).dropped() == old(self).dropped()
                },
                Err(e) => {
                    &&& final(self).st() is Done
                    &&& out == Step::<E>::Emit(Err(e))
                    &&& final(self).dropped() == old(self).dropped().insert(
                        old(self).st()->Opening_entry,
                    )
                    &&& final(self).yielded() == old(self).yielded()
                },
            },
    {
        let mut st = WalkState::Done;
        core::mem::swap(&mut self.state, &mut st);
        match st {
            WalkState::Opening { depth, entry } => match r {
                Ok(_) => {
                    self.yielded = Ghost(self.yielded@.insert(entry));
                    self.state = WalkState::Reading { depth: depth + 1 };
                    proof {
                        assert(self.delivered() =~= self.yielded().add(self.dropped()).add(
                            self.pending(),
                        ));
                    }
                    Step::Emit(Ok(entry))
                },
                Err(e) => {
                    self.dropped = Ghost(self.dropped@.insert(entry));
                    self.state = WalkState::Done;
                    proof {
                        assert(self.delivered() =~= self.yielded().add(self.dropped()).add(
                            self.pending(),
                        ));
                    }
                    Step::Emit(Err(e))
                },
            },
            _ => vstd::pervasive::unreached(),
        }
    }
}

/// Law: the machine invents no entries.  Anything it has yielded was
/// first delivered by a cursor read — in particular the root, which is
/// opened but never delivered, is never yielded.
pub proof fn lemma_yielded_was_delivered<E>(m: &Machine<E>, x: E)
    requires
        m.wf(),
        m.yielded().contains(x),
    ensures
        m.delivered().contains(x),
{
    assert(m.delivered().count(x) >= m.yielded().count(x));
}

/// Law: once no entry is pending — between any two pulls, and in
/// particular once the walk is done — every entry the cursors ever
/// delivered has been resolved exactly once: emitted as a success, or
/// replaced by exactly one error item after a failed probe or directory
/// open.  Nothing is duplicated and nothing is lost.
pub proof fn lemma_every_delivery_resolved_once<E>(m: &Machine<E>)
    requires
        m.wf(),
        !(m.st() is Probing),
        !(m.st() is Opening),
    ensures
        m.delivered() == m.yielded().add(m.dropped()),
        forall|x: E|
            #![trigger m.delivered().count(x)]
            m.delivered().count(x) == m.yielded().count(x) + m.dropped().count(x),
{
    assert(m.delivered() =~= m.yielded().add(m.dropped()));
}

/// Law: a walk whose cursors delivered nothing — an empty root — yields
/// nothing and drops nothing: the produced sequence is empty.
pub proof fn lemma_nothing_from_nothing<E>(m: &Machine<E>)
    requires
        m.wf(),
        m.delivered() == Multiset::<E>::empty(),
    ensures
        m.yielded() == Multiset::<E>::empty(),
        m.dropped() == Multiset::<E>::empty(),
{
    assert forall|x: E| m.yielded().count(x) == 0 && m.dropped().count(x) == 0 by {
        assert(m.delivered().count(x) == 0);
    }
    assert(m.yielded() =~= Multiset::<E>::empty());
    assert(m.dropped() =~= Multiset::<E>::empty());
}

/// Law: `Done` is terminal.  The machine asks for no further work, so —
/// the driver's part being to perform exactly the action asked — no
/// item follows the one emitted with the transition to `Done`.  This is
/// what makes a root-open or subdirectory-open failure end the whole
/// traversal after surfacing its error exactly once.
pub proof fn lemma_done_is_terminal<E>(m: &Machine<E>)
    requires
        m.st() is Done,
    ensures
        action_of(m.st()) is Finish,
{
}

} // verus!

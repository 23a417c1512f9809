//! The single notification slot of a chess clock.

use vstd::prelude::*;

verus! {

/// Something a clock can tell that a player's time is up.
///
/// `delivered` is the history of the notifications handed to this hook, oldest
/// first. It exists only in proofs; it is how a clock's contracts say which
/// notifications were sent. `brings_about` is what a notification achieves:
/// it is how a clock's contracts say whose code the hook runs.
pub(crate) trait ExpiryHook {
    /// Whether the hook may be called with the index of any supported player.
    spec fn accepts_players(&self) -> bool;

    /// The players this hook has been notified about, oldest first.
    spec fn delivered(&self) -> Seq<usize>;

    /// What being notified about `player` can bring about: for a hook that
    /// runs a closure, whatever a call of that closure with `player` promises.
    spec fn brings_about(&self, player: usize) -> bool;

    /// Tells the hook that `player`'s time is up.
    fn notify(&mut self, player: usize)
        requires
            old(self).accepts_players(),
            player < crate::timer::SUPPORTED_PLAYERS,
        ensures
            final(self).accepts_players(),
            final(self).delivered() == old(self).delivered().push(player),
            final(self).brings_about(player),
            forall|any: usize| final(self).brings_about(any) == old(self).brings_about(any),
    ;
}

/// The hook of a clock nobody listens to: it records the notification and does nothing.
pub(crate) struct SilentHook {
    log: Ghost<Seq<usize>>,
}

impl SilentHook {
    pub(crate) fn new() -> (hook: SilentHook)
        ensures
            hook.accepts_players(),
            hook.delivered() == Seq::<usize>::empty(),
            forall|player: usize| hook.brings_about(player),
    {
        SilentHook { log: Ghost(Seq::empty()) }
    }
}

impl ExpiryHook for SilentHook {
    closed spec fn accepts_players(&self) -> bool {
        true
    }

    closed spec fn delivered(&self) -> Seq<usize> {
        self.log@
    }

    closed spec fn brings_about(&self, player: usize) -> bool {
        true
    }

    fn notify(&mut self, player: usize) {
        proof {
            self.log@ = self.log@.push(player);
        }
    }
}

/// A hook that forwards every notification to a closure.
pub(crate) struct ClosureHook<F: FnMut(usize)> {
    f: F,
    log: Ghost<Seq<usize>>,
}

impl<F: FnMut(usize)> ClosureHook<F> {
    pub(crate) fn new(f: F) -> (hook: ClosureHook<F>)
        requires
            forall|player: usize|
                player < crate::timer::SUPPORTED_PLAYERS ==> call_requires(f, (player,)),
        ensures
            hook.accepts_players(),
            hook.delivered() == Seq::<usize>::empty(),
            forall|player: usize| hook.brings_about(player) == call_ensures(f, (player,), ()),
    {
        ClosureHook { f, log: Ghost(Seq::empty()) }
    }
}

impl<F: FnMut(usize)> ExpiryHook for ClosureHook<F> {
    closed spec fn accepts_players(&self) -> bool {
        forall|player: usize|
            player < crate::timer::SUPPORTED_PLAYERS ==> call_requires(self.f, (player,))
    }

    closed spec fn delivered(&self) -> Seq<usize> {
        self.log@
    }

    closed spec fn brings_about(&self, player: usize) -> bool {
        call_ensures(self.f, (player,), ())
    }

    fn notify(&mut self, player: usize) {
        (self.f)(player);
        proof {
            self.log@ = self.log@.push(player);
        }
    }
}

} // verus!

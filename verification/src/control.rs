//! The state that the integrator and its display share.
//!
//! The integrator ends every tick by publishing a snapshot of its bodies,
//! counting the tick and looking for a reseed request. The display reads the
//! snapshot and the count, toggles the pause flag and files reseed requests.
//! The two run on different threads: the owner of a [`Control`] keeps it behind
//! a lock, so that each call below is one indivisible step.

use vstd::prelude::*;

verus! {

/// Seed of the simulation that runs before any reseed is requested.
pub const START_SEED: u64 = 3;

/// Milliseconds the integrator sleeps between two looks at the pause flag
/// while it is paused.
pub const PAUSE_POLL_MILLIS: u64 = 16;

/// The shared state as mathematics.
pub struct ControlView<B> {
    /// Ticks counted since the start or the last reseed request.
    pub tick: int,
    /// Whether the integrator has been asked to idle.
    pub paused: bool,
    /// The reseed request that waits to be served, if any.
    pub pending: Option<u64>,
    /// The bodies as of the last published tick, if any was published.
    pub snapshot: Option<Seq<B>>,
}

impl<B> ControlView<B> {
    /// The state before the first tick: nothing counted, running, no request,
    /// no snapshot.
    pub open spec fn initial() -> Self {
        ControlView { tick: 0, paused: false, pending: None, snapshot: None }
    }

    /// The state after `bodies` has replaced the snapshot.
    pub open spec fn published(self, bodies: Seq<B>) -> Self {
        ControlView { snapshot: Some(bodies), ..self }
    }

    /// The state after one more tick was counted. The count is a 32-bit signed
    /// number and wraps from its largest value to its smallest.
    pub open spec fn counted(self) -> Self {
        ControlView {
            tick: if self.tick == i32::MAX {
                i32::MIN as int
            } else {
                self.tick + 1
            },
            ..self
        }
    }

    /// The state after the display asked for a restart from `seed`: the count
    /// starts over and the request replaces any that still waited.
    pub open spec fn requested(self, seed: u64) -> Self {
        ControlView { tick: 0, pending: Some(seed), ..self }
    }

    /// The state after the integrator picked up whatever request waited.
    pub open spec fn served(self) -> Self {
        ControlView { pending: None, ..self }
    }

    /// The state after the pause flag was flipped.
    pub open spec fn toggled(self) -> Self {
        ControlView { paused: !self.paused, ..self }
    }

    /// The state after the integrator finished a tick that left `bodies`:
    /// snapshot published, tick counted, request picked up.
    pub open spec fn tick_ended(self, bodies: Seq<B>) -> Self {
        self.published(bodies).counted().served()
    }
}

/// The state that the integrator and its display share. `B` is the type of a
/// body; this module never looks inside one.
pub struct Control<B> {
    tick: i32,
    paused: bool,
    seed: Option<u64>,
    bodies: Option<Vec<B>>,
}

impl<B> View for Control<B> {
    type V = ControlView<B>;

    closed spec fn view(&self) -> ControlView<B> {
        ControlView {
            tick: self.tick as int,
            paused: self.paused,
            pending: self.seed,
            snapshot: match self.bodies {
                Some(bodies) => Some(bodies@),
                None => None,
            },
        }
    }
}

/// Draws a number from `fastrand`'s thread-local generator by `fastrand::u64`
/// over the full range, which cannot be empty. The value depends on what the
/// generator was seeded with and on every draw before this one, so nothing is
/// claimed of it.
#[verifier::external_body]
fn random_seed() -> u64 {
    fastrand::u64(..)
}

impl<B> Control<B> {
    /// The state before the first tick.
    pub fn new() -> (control: Self)
        ensures
            control@ == ControlView::<B>::initial(),
    {
        Control { tick: 0, paused: false, seed: None, bodies: None }
    }

    /// Ends a tick of the integrator that left `bodies`. Publishes them as the
    /// new snapshot, counts the tick and picks up the reseed request that
    /// waited, if any: on `Some(seed)` the integrator replaces its simulation
    /// by one built from `seed` before the next tick.
    pub fn end_tick(&mut self, bodies: Vec<B>) -> (reseed: Option<u64>)
        ensures
            reseed == old(self)@.pending,
            final(self)@ == old(self)@.tick_ended(bodies@),
    {
        self.publish(bodies);
        self.count_tick();
        self.take_seed()
    }

    /// Replaces the snapshot by `bodies`.
    pub fn publish(&mut self, bodies: Vec<B>)
        ensures
            final(self)@ == old(self)@.published(bodies@),
    {
        self.bodies = Some(bodies);
    }

    /// Counts one tick.
    pub fn count_tick(&mut self)
        ensures
            final(self)@ == old(self)@.counted(),
    {
        self.tick = self.tick.wrapping_add(1);
    }

    /// Picks up the reseed request that waits, if any. A request is handed out
    /// once: right after this call none waits.
    pub fn take_seed(&mut self) -> (seed: Option<u64>)
        ensures
            seed == old(self)@.pending,
            final(self)@ == old(self)@.served(),
    {
        self.seed.take()
    }

    /// Asks for a restart from `seed`. The tick count starts over at zero,
    /// whatever it was, and the request replaces one that still waited.
    pub fn request_reseed(&mut self, seed: u64)
        ensures
            final(self)@ == old(self)@.requested(seed),
            final(self)@.tick == 0,
            final(self)@.pending == Some(seed),
    {
        self.tick = 0;
        self.seed = Some(seed);
    }

    /// Asks for a restart from a seed drawn at random, and returns the seed.
    pub fn request_random_reseed(&mut self) -> (seed: u64)
        ensures
            final(self)@ == old(self)@.requested(seed),
    {
        let seed = random_seed();
        self.request_reseed(seed);
        seed
    }

    /// Flips the pause flag.
    pub fn toggle_pause(&mut self)
        ensures
            final(self)@ == old(self)@.toggled(),
    {
        self.paused = !self.paused;
    }

    /// Whether the integrator has been asked to idle. It looks after each tick
    /// and sleeps for as long as this holds.
    pub fn is_paused(&self) -> (paused: bool)
        ensures
            paused == self@.paused,
    {
        self.paused
    }

    /// Ticks counted since the start or the last reseed request.
    pub fn tick(&self) -> (tick: i32)
        ensures
            tick == self@.tick,
    {
        self.tick
    }

    /// The reseed request that waits, if any. Looking does not pick it up.
    pub fn pending_seed(&self) -> (seed: Option<u64>)
        ensures
            seed == self@.pending,
    {
        self.seed
    }

    /// The bodies as of the last published tick, or `None` before the first.
    pub fn snapshot(&self) -> (bodies: Option<&Vec<B>>)
        ensures
            match bodies {
                Some(bodies) => self@.snapshot == Some(bodies@),
                None => self@.snapshot is None,
            },
    {
        self.bodies.as_ref()
    }
}

/// A reseed request is neither lost nor served twice: the next pick-up hands
/// out its seed, and the one after that finds nothing.
pub proof fn lemma_request_is_served_once<B>(v: ControlView<B>, seed: u64)
    ensures
        v.requested(seed).pending == Some(seed),
        v.requested(seed).served().pending.is_none(),
{
}

/// Of two requests filed before a pick-up, the later one is served.
pub proof fn lemma_latest_request_wins<B>(v: ControlView<B>, first: u64, second: u64)
    ensures
        v.requested(first).requested(second) == v.requested(second),
{
}

/// A reseed request sets the tick count to zero from every state, and the
/// count of the ticks that end after it goes on from there.
pub proof fn lemma_request_restarts_count<B>(v: ControlView<B>, seed: u64, bodies: Seq<B>)
    ensures
        v.requested(seed).tick == 0,
        v.requested(seed).tick_ended(bodies).tick == 1,
        v.requested(seed).tick_ended(bodies).pending.is_none(),
{
}

/// The tick count grows by one with every tick that ends, until it has
/// reached the largest 32-bit signed number; from there it wraps.
pub proof fn lemma_count_grows_until_it_wraps<B>(v: ControlView<B>, bodies: Seq<B>)
    ensures
        v.tick < i32::MAX ==> v.tick_ended(bodies).tick == v.tick + 1,
        v.tick == i32::MAX ==> v.tick_ended(bodies).tick == i32::MIN,
{
}

} // verus!

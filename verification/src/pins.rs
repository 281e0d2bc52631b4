//! Independent atomic pin cells.

use vstd::prelude::*;

use core::sync::atomic::{AtomicUsize, Ordering};
use std::sync::Arc;

verus! {

/// A digital pin state: logical high, logical low, or floating
/// (not connected / high impedance).
#[derive(Clone, Copy, Debug, PartialEq, Eq, Structural)]
pub enum PinState {
    High,
    Low,
    Floating,
}

/// The word encoding of a pin state inside an atomic cell.
pub open spec fn state_code(s: PinState) -> usize {
    match s {
        PinState::High => 1usize,
        PinState::Low => 2usize,
        PinState::Floating => 3usize,
    }
}

/// Encodes a pin state as the word stored in an atomic cell.
fn encode_state(s: PinState) -> (code: usize)
    ensures
        code == state_code(s),
{
    match s {
        PinState::High => 1,
        PinState::Low => 2,
        PinState::Floating => 3,
    }
}

/// Decodes a stored word back to a pin state; words that no pin state
/// encodes to decode to `Floating`.
fn decode_state(code: usize) -> (s: PinState)
    ensures
        forall|p: PinState| code == state_code(p) ==> s == p,
        s == PinState::Floating || code == state_code(s),
{
    if code == 1 {
        PinState::High
    } else if code == 2 {
        PinState::Low
    } else {
        PinState::Floating
    }
}

/// The memory-ordering strength of an atomic pin-state update: relaxed or
/// sequentially consistent. Only these two strengths are offered because
/// std accepts both on the store side and on the load side of a
/// read-modify-write, so no caller's choice can make an update fail.
#[derive(Clone, Copy, Debug, PartialEq, Eq, Structural)]
pub enum UpdateOrdering {
    Relaxed,
    SeqCst,
}

/// Relies on `core::sync::atomic::AtomicUsize::fetch_update`: it loads the
/// current word, applies `f`, and when `f` returns a new word it attempts
/// to replace the cell with it by a compare-exchange, retrying from the
/// freshly observed word whenever the exchange races with a concurrent
/// write; when `f` returns `None` the cell is left untouched. The two
/// orderings are converted from [`UpdateOrdering`], whose strengths
/// (`Relaxed`, `SeqCst`) std accepts on both sides of the operation, so
/// the call cannot panic.
#[verifier::external_body]
fn fetch_update_word<F: Fn(usize) -> Option<usize>>(
    state: &AtomicUsize,
    set_order: UpdateOrdering,
    fetch_order: UpdateOrdering,
    f: F,
)
    requires
        forall|w: usize| #[trigger] f.requires((w,)),
{
    let set = match set_order {
        UpdateOrdering::Relaxed => Ordering::Relaxed,
        UpdateOrdering::SeqCst => Ordering::SeqCst,
    };
    let fetch = match fetch_order {
        UpdateOrdering::Relaxed => Ordering::Relaxed,
        UpdateOrdering::SeqCst => Ordering::SeqCst,
    };
    let _ = state.fetch_update(set, fetch, f);
}

/// A pin state that can be shared safely between threads, held in a
/// single atomic word.
#[derive(Debug)]
pub struct AtomicPinState {
    state: AtomicUsize,
}

impl AtomicPinState {
    /// Creates a new atomic pin state holding `Floating`.
    pub fn new() -> Self {
        Self::new_with_state(PinState::Floating)
    }

    /// Creates a new atomic pin state holding the given state.
    pub fn new_with_state(state: PinState) -> Self {
        AtomicPinState { state: AtomicUsize::new(encode_state(state)) }
    }

    /// Loads the current pin state with the given memory ordering.
    pub fn load(&self, order: Ordering) -> PinState {
        decode_state(self.state.load(order))
    }

    /// Stores a pin state with the given memory ordering.
    pub fn store(&self, state: PinState, order: Ordering) {
        self.state.store(encode_state(state), order);
    }

    /// Atomically updates the pin state: reads the current state, applies
    /// `f`, and if `f` returns a new state, replaces the cell with it as one
    /// atomic compare-and-swap, retrying from the freshly observed value
    /// whenever the swap races with a concurrent write. If `f` returns
    /// `None`, the cell is left untouched. The orderings are the library's
    /// own [`UpdateOrdering`], so no choice of strength can make the
    /// update fail.
    pub fn fetch_update<F: Fn(PinState) -> Option<PinState>>(
        &self,
        set_order: UpdateOrdering,
        fetch_order: UpdateOrdering,
        f: F,
    )
        requires
            forall|s: PinState| #[trigger] f.requires((s,)),
    {
        fetch_update_word(
            &self.state,
            set_order,
            fetch_order,
            (|word: usize| -> (r: Option<usize>)
                {
                    match f(decode_state(word)) {
                        Some(next) => Some(encode_state(next)),
                        None => None,
                    }
                }),
        );
    }
}

impl Default for AtomicPinState {
    /// The default atomic pin state holds `Floating`.
    fn default() -> Self {
        Self::new()
    }
}

/// What one toggle of a push-pull pin writes, given the pin's current
/// state: `High` and `Low` swap, and a `Floating` pin is driven `Low`.
pub open spec fn push_pull_toggled(s: PinState) -> PinState {
    match s {
        PinState::Low => PinState::High,
        PinState::High => PinState::Low,
        PinState::Floating => PinState::Low,
    }
}

/// What one toggle of an open-drain pin writes, given the pin's current
/// state: the pin alternates between pulling `Low` and `Floating`, and it
/// never asserts `High`, so from `High` it releases to `Floating`.
pub open spec fn open_drain_toggled(s: PinState) -> PinState {
    match s {
        PinState::Floating => PinState::Low,
        PinState::Low => PinState::Floating,
        PinState::High => PinState::Floating,
    }
}

/// Law: toggling a push-pull pin twice returns it to its starting state
/// when it was driven (`Low` or `High`), and takes a `Floating` pin through
/// `Low` to `High`.
pub proof fn lemma_push_pull_toggle_twice(s: PinState)
    ensures
        s !== PinState::Floating ==> push_pull_toggled(push_pull_toggled(s)) == s,
        s === PinState::Floating ==> push_pull_toggled(push_pull_toggled(s)) == PinState::High,
{
}

/// Law: toggling an open-drain pin twice returns it to its starting state
/// when it was `Low` or `Floating`; from `High` — a state the pin itself
/// never produces — two toggles end at `Low`.
pub proof fn lemma_open_drain_toggle_twice(s: PinState)
    ensures
        s !== PinState::High ==> open_drain_toggled(open_drain_toggled(s)) == s,
        s === PinState::High ==> open_drain_toggled(open_drain_toggled(s)) == PinState::Low,
{
}

/// Whether a cell value reads as logical high: the answer every pin's
/// `is_high` gives for that loaded value.
pub fn reads_high(s: PinState) -> (b: bool)
    ensures
        b == (s == PinState::High),
{
    s == PinState::High
}

/// Whether a cell value reads as logical low: the answer every pin's
/// `is_low` gives for that loaded value.
pub fn reads_low(s: PinState) -> (b: bool)
    ensures
        b == (s == PinState::Low),
{
    s == PinState::Low
}

/// The cell value a push-pull pin writes for a command: commanded high
/// (`true`) it asserts `High`, commanded low (`false`) it asserts `Low`.
pub fn push_pull_command(high: bool) -> (s: PinState)
    ensures
        s == (if high {
            PinState::High
        } else {
            PinState::Low
        }),
{
    if high {
        PinState::High
    } else {
        PinState::Low
    }
}

/// The cell value an open-drain pin writes for a command: commanded high
/// (`true`) it pulls the line `Low`, commanded low (`false`) it releases
/// the line to `Floating`; it never asserts `High`.
pub fn open_drain_command(high: bool) -> (s: PinState)
    ensures
        s == (if high {
            PinState::Low
        } else {
            PinState::Floating
        }),
{
    if high {
        PinState::Low
    } else {
        PinState::Floating
    }
}

/// Whether an open-drain pin's cell value records a high command, which
/// the pin encodes as `Low`.
pub fn open_drain_commanded_high(s: PinState) -> (b: bool)
    ensures
        b == (s == PinState::Low),
{
    s == PinState::Low
}

/// Whether an open-drain pin's cell value records a low command, which
/// the pin encodes as `Floating`.
pub fn open_drain_commanded_low(s: PinState) -> (b: bool)
    ensures
        b == (s == PinState::Floating),
{
    s == PinState::Floating
}

/// An input pin that reads a shared atomic pin state.
#[derive(Clone, Debug)]
pub struct InputPin {
    state: Arc<AtomicPinState>,
}

impl InputPin {
    /// Whether this pin reads the given shared cell.
    pub closed spec fn uses_cell(&self, cell: &Arc<AtomicPinState>) -> bool {
        self.state == *cell
    }

    /// Creates a new input pin reading the given shared state.
    pub fn new(state: Arc<AtomicPinState>) -> (r: Self)
        ensures
            r.uses_cell(&state),
    {
        InputPin { state }
    }

    /// Reports whether the shared state currently reads `High`.
    pub fn is_high(&self) -> (r: Result<bool, core::convert::Infallible>)
        ensures
            r is Ok,
    {
        Ok(reads_high(self.state.load(Ordering::SeqCst)))
    }

    /// Reports whether the shared state currently reads `Low`.
    pub fn is_low(&self) -> (r: Result<bool, core::convert::Infallible>)
        ensures
            r is Ok,
    {
        Ok(reads_low(self.state.load(Ordering::SeqCst)))
    }
}

/// An output pin in push-pull configuration over a shared atomic pin
/// state: it can actively drive the state both `High` and `Low`.
#[derive(Clone, Debug)]
pub struct PushPullPin {
    state: Arc<AtomicPinState>,
}

impl PushPullPin {
    /// Whether this pin reads and drives the given shared cell.
    pub closed spec fn uses_cell(&self, cell: &Arc<AtomicPinState>) -> bool {
        self.state == *cell
    }

    /// Creates a new push-pull pin driving the given shared state.
    pub fn new(state: Arc<AtomicPinState>) -> (r: Self)
        ensures
            r.uses_cell(&state),
    {
        PushPullPin { state }
    }

    /// Drives the shared state `High` ([`push_pull_command`]); never
    /// fails, and the handle itself is unchanged.
    pub fn set_high(&mut self) -> (r: Result<(), core::convert::Infallible>)
        ensures
            r is Ok,
            *final(self) == *old(self),
    {
        self.state.store(push_pull_command(true), Ordering::SeqCst);
        Ok(())
    }

    /// Drives the shared state `Low` ([`push_pull_command`]); never fails,
    /// and the handle itself is unchanged.
    pub fn set_low(&mut self) -> (r: Result<(), core::convert::Infallible>)
        ensures
            r is Ok,
            *final(self) == *old(self),
    {
        self.state.store(push_pull_command(false), Ordering::SeqCst);
        Ok(())
    }

    /// Reports whether the pin's last commanded state reads `High`.
    pub fn is_set_high(&self) -> (r: Result<bool, core::convert::Infallible>)
        ensures
            r is Ok,
    {
        Ok(reads_high(self.state.load(Ordering::SeqCst)))
    }

    /// Reports whether the pin's last commanded state reads `Low`.
    pub fn is_set_low(&self) -> (r: Result<bool, core::convert::Infallible>)
        ensures
            r is Ok,
    {
        Ok(reads_low(self.state.load(Ordering::SeqCst)))
    }

    /// Atomically replaces the shared state with its push-pull toggle
    /// ([`push_pull_toggled`]); never fails, and the handle itself is
    /// unchanged.
    pub fn toggle(&mut self) -> (r: Result<(), core::convert::Infallible>)
        ensures
            r is Ok,
            *final(self) == *old(self),
    {
        self.state.fetch_update(
            UpdateOrdering::SeqCst,
            UpdateOrdering::SeqCst,
            (|x: PinState| -> (t: Option<PinState>)
                ensures
                    t == Some(push_pull_toggled(x)),
                {
                    match x {
                        PinState::Low => Some(PinState::High),
                        PinState::High => Some(PinState::Low),
                        PinState::Floating => Some(PinState::Low),
                    }
                }),
        );
        Ok(())
    }

    /// Reports whether the shared state currently reads `High`.
    pub fn is_high(&self) -> (r: Result<bool, core::convert::Infallible>)
        ensures
            r is Ok,
    {
        Ok(reads_high(self.state.load(Ordering::SeqCst)))
    }

    /// Reports whether the shared state currently reads `Low`.
    pub fn is_low(&self) -> (r: Result<bool, core::convert::Infallible>)
        ensures
            r is Ok,
    {
        Ok(reads_low(self.state.load(Ordering::SeqCst)))
    }
}

/// An output pin in open-drain configuration over a shared atomic pin
/// state: commanding it high pulls the state `Low`, and commanding it low
/// releases the state to `Floating`; it never asserts `High` itself.
#[derive(Clone, Debug)]
pub struct OpenDrainPin {
    state: Arc<AtomicPinState>,
}

impl OpenDrainPin {
    /// Whether this pin reads and drives the given shared cell.
    pub closed spec fn uses_cell(&self, cell: &Arc<AtomicPinState>) -> bool {
        self.state == *cell
    }

    /// Creates a new open-drain pin driving the given shared state.
    pub fn new(state: Arc<AtomicPinState>) -> (r: Self)
        ensures
            r.uses_cell(&state),
    {
        OpenDrainPin { state }
    }

    /// Commands the pin high, which pulls the shared state `Low`
    /// ([`open_drain_command`]); never fails, and the handle itself is
    /// unchanged.
    pub fn set_high(&mut self) -> (r: Result<(), core::convert::Infallible>)
        ensures
            r is Ok,
            *final(self) == *old(self),
    {
        self.state.store(open_drain_command(true), Ordering::SeqCst);
        Ok(())
    }

    /// Commands the pin low, which releases the shared state to
    /// `Floating` ([`open_drain_command`]); never fails, and the handle
    /// itself is unchanged.
    pub fn set_low(&mut self) -> (r: Result<(), core::convert::Infallible>)
        ensures
            r is Ok,
            *final(self) == *old(self),
    {
        self.state.store(open_drain_command(false), Ordering::SeqCst);
        Ok(())
    }

    /// Reports whether the pin's last command was high, that is, whether
    /// the shared state reads `Low` ([`open_drain_commanded_high`]).
    pub fn is_set_high(&self) -> (r: Result<bool, core::convert::Infallible>)
        ensures
            r is Ok,
    {
        Ok(open_drain_commanded_high(self.state.load(Ordering::SeqCst)))
    }

    /// Reports whether the pin's last command was low, that is, whether
    /// the shared state reads `Floating` ([`open_drain_commanded_low`]).
    pub fn is_set_low(&self) -> (r: Result<bool, core::convert::Infallible>)
        ensures
            r is Ok,
    {
        Ok(open_drain_commanded_low(self.state.load(Ordering::SeqCst)))
    }

    /// Atomically replaces the shared state with its open-drain toggle
    /// ([`open_drain_toggled`]); never fails, and the handle itself is
    /// unchanged.
    pub fn toggle(&mut self) -> (r: Result<(), core::convert::Infallible>)
        ensures
            r is Ok,
            *final(self) == *old(self),
    {
        self.state.fetch_update(
            UpdateOrdering::SeqCst,
            UpdateOrdering::SeqCst,
            (|x: PinState| -> (t: Option<PinState>)
                ensures
                    t == Some(open_drain_toggled(x)),
                {
                    match x {
                        PinState::Floating => Some(PinState::Low),
                        PinState::Low => Some(PinState::Floating),
                        PinState::High => Some(PinState::Floating),
                    }
                }),
        );
        Ok(())
    }

    /// Reports whether the shared state currently reads `High`.
    pub fn is_high(&self) -> (r: Result<bool, core::convert::Infallible>)
        ensures
            r is Ok,
    {
        Ok(reads_high(self.state.load(Ordering::SeqCst)))
    }

    /// Reports whether the shared state currently reads `Low`.
    pub fn is_low(&self) -> (r: Result<bool, core::convert::Infallible>)
        ensures
            r is Ok,
    {
        Ok(reads_low(self.state.load(Ordering::SeqCst)))
    }
}

} // verus!

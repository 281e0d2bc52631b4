//! A shared electrical node ("wire") with multiple attached pin drivers.
//!
//! Every attached driver owns one slot of the node; the node's externally
//! observable level is resolved from all slots plus a configured pull bias.
//! Two drivers asserting conflicting levels are a short circuit. The
//! simulated wire never aborts: a mutation that would short-circuit the
//! node is refused and reported as a distinguished, non-recoverable error
//! value, and the node keeps its previous state.

use vstd::prelude::*;

use std::sync::Arc;
use vstd::rwlock::{RwLock, RwLockPredicate};

verus! {

/// The index of a driver's slot on a wire, assigned at attachment.
pub type PinId = usize;

/// The logical level of a wire or of one driver's slot.
#[derive(Clone, Copy, Debug, PartialEq, Eq, Structural)]
pub enum WireState {
    Low,
    High,
    Floating,
}

/// The unrecoverable faults of wire operations. Both mark a broken test
/// setup, not a condition the simulated circuit could recover from.
#[derive(Clone, Copy, Debug, PartialEq, Eq, Structural)]
pub enum WireError {
    /// Two drivers assert conflicting levels on the same wire.
    ShortCircuit,
    /// A slot index that no driver of this wire was ever assigned.
    NoSuchPin,
}

/// Whether some slot actively drives the wire `High`.
pub open spec fn drives_high(slots: Seq<WireState>) -> bool {
    exists|i: int| 0 <= i < slots.len() && slots[i] == WireState::High
}

/// Whether some slot actively drives the wire `Low`.
pub open spec fn drives_low(slots: Seq<WireState>) -> bool {
    exists|i: int| 0 <= i < slots.len() && slots[i] == WireState::Low
}

/// A short circuit: one slot drives the wire `High` while another drives
/// it `Low`.
pub open spec fn has_conflict(slots: Seq<WireState>) -> bool {
    drives_high(slots) && drives_low(slots)
}

/// The level a conflict-free wire presents: the level asserted by its
/// drivers, or the pull bias when every slot is `Floating`.
pub open spec fn resolved(slots: Seq<WireState>, pull: WireState) -> WireState {
    if drives_high(slots) {
        WireState::High
    } else if drives_low(slots) {
        WireState::Low
    } else {
        pull
    }
}

/// One electrical node: the per-driver slots and the configured pull bias.
/// This is the state every handle of one [`Wire`] shares.
#[derive(Debug)]
pub struct WireWrapper {
    state: Vec<WireState>,
    pull: WireState,
}

impl WireWrapper {
    /// The per-driver slots, in attachment order.
    pub closed spec fn slots(&self) -> Seq<WireState> {
        self.state@
    }

    /// The pull bias the node was created with.
    pub closed spec fn pull_level(&self) -> WireState {
        self.pull
    }

    /// Creates a node with no slots and a `Floating` pull bias.
    pub fn new() -> (w: Self)
        ensures
            w.slots() == Seq::<WireState>::empty(),
            w.pull_level() == WireState::Floating,
    {
        Self::new_with_pull(WireState::Floating)
    }

    /// Creates a node with no slots and the given pull bias.
    pub fn new_with_pull(pull: WireState) -> (w: Self)
        ensures
            w.slots() == Seq::<WireState>::empty(),
            w.pull_level() == pull,
    {
        WireWrapper { state: Vec::new(), pull }
    }

    /// Appends one `Floating` slot for a newly attached driver and returns
    /// its index: the next index in attachment order, never one already
    /// handed out.
    pub fn attach_driver(&mut self) -> (id: PinId)
        ensures
            id == old(self).slots().len(),
            final(self).slots() == old(self).slots().push(WireState::Floating),
            final(self).pull_level() == old(self).pull_level(),
    {
        let id = self.state.len();
        self.state.push(WireState::Floating);
        id
    }

    /// Returns the level that the driver of slot `id` currently asserts
    /// (not the resolved level of the node).
    pub fn get_pin_state(&self, id: PinId) -> (r: Result<WireState, WireError>)
        ensures
            id < self.slots().len() ==> r == Ok::<WireState, WireError>(self.slots()[id as int]),
            id >= self.slots().len() ==> r == Err::<WireState, WireError>(WireError::NoSuchPin),
    {
        if id < self.state.len() {
            Ok(self.state[id])
        } else {
            Err(WireError::NoSuchPin)
        }
    }

    /// Resolves the node's externally observable level: scans all slots in
    /// attachment order, ignoring `Floating` ones; two disagreeing driven
    /// slots are a short circuit; otherwise the driven level — or, with no
    /// driver asserting anything, the pull bias — is the result.
    pub fn resolve(&self) -> (r: Result<WireState, WireError>)
        ensures
            !has_conflict(self.slots()) ==> r == Ok::<WireState, WireError>(
                resolved(self.slots(), self.pull_level()),
            ),
            has_conflict(self.slots()) ==> r == Err::<WireState, WireError>(
                WireError::ShortCircuit,
            ),
    {
        let n = self.state.len();
        let mut s = WireState::Floating;
        let mut i: usize = 0;
        while i < n
            invariant
                n == self.slots().len(),
                i <= n,
                s == WireState::Floating ==> forall|j: int|
                    0 <= j < i ==> self.slots()[j] == WireState::Floating,
                s != WireState::Floating ==> exists|j: int| 0 <= j < i && self.slots()[j] == s,
                forall|j: int|
                    0 <= j < i ==> (self.slots()[j] == WireState::Floating || self.slots()[j]
                        == s),
            decreases n - i,
        {
            let cur = self.state[i];
            if cur != WireState::Floating {
                if s != WireState::Floating && cur != s {
                    proof {
                        assert(s == WireState::High || s == WireState::Low);
                        assert(cur == WireState::High || cur == WireState::Low);
                        assert(self.slots()[i as int] == cur);
                        assert(drives_high(self.slots()));
                        assert(drives_low(self.slots()));
                    }
                    return Err(WireError::ShortCircuit);
                }
                s = cur;
            }
            i = i + 1;
        }
        if s == WireState::Floating {
            proof {
                assert(!drives_high(self.slots()));
                assert(!drives_low(self.slots()));
            }
            Ok(self.pull)
        } else {
            Ok(s)
        }
    }

    /// Replaces slot `id` with `state` if `id` was attached and the new
    /// slot values short-circuit nowhere; a write that would make two
    /// driven slots disagree is refused with `ShortCircuit` and leaves the
    /// node unchanged, exactly when the updated slots would conflict.
    pub fn set_pin_state(&mut self, id: PinId, state: WireState) -> (r: Result<(), WireError>)
        ensures
            final(self).pull_level() == old(self).pull_level(),
            id >= old(self).slots().len() ==> r == Err::<(), WireError>(WireError::NoSuchPin)
                && final(self).slots() == old(self).slots(),
            id < old(self).slots().len() && has_conflict(
                old(self).slots().update(id as int, state),
            ) ==> r == Err::<(), WireError>(WireError::ShortCircuit) && final(self).slots() == old(
                self,
            ).slots(),
            id < old(self).slots().len() && !has_conflict(
                old(self).slots().update(id as int, state),
            ) ==> r == Ok::<(), WireError>(()) && final(self).slots() == old(self).slots().update(
                id as int,
                state,
            ),
    {
        if id >= self.state.len() {
            return Err(WireError::NoSuchPin);
        }
        let prev = self.state[id];
        self.state[id] = state;
        match self.resolve() {
            Ok(_) => Ok(()),
            Err(e) => {
                self.state[id] = prev;
                proof {
                    assert(self.slots() =~= old(self).slots());
                }
                Err(e)
            },
        }
    }
}

impl Default for WireWrapper {
    /// The default node has no slots and a `Floating` pull bias.
    fn default() -> (w: Self)
        ensures
            w.slots() == Seq::<WireState>::empty(),
            w.pull_level() == WireState::Floating,
    {
        Self::new()
    }
}

/// The slots of a node after `n` further driver attachments: each
/// attachment appends one `Floating` slot (see
/// [`WireWrapper::attach_driver`]).
pub open spec fn after_attaches(slots: Seq<WireState>, n: nat) -> Seq<WireState>
    decreases n,
{
    if n == 0 {
        slots
    } else {
        after_attaches(slots, (n - 1) as nat).push(WireState::Floating)
    }
}

/// Law: each attachment is assigned the node's slot count at that moment,
/// so on a node holding `slots` the id handed out by attachment number `k`
/// (counting from zero) is `slots.len() + k`. Hence ids are assigned in
/// strictly increasing order, never reused, and start at 0 on a fresh
/// node.
pub proof fn lemma_attach_ids(slots: Seq<WireState>, k: nat)
    ensures
        after_attaches(slots, k).len() == slots.len() + k,
    decreases k,
{
    if k > 0 {
        lemma_attach_ids(slots, (k - 1) as nat);
    }
}

/// Law: a node with no slots, or with every slot `Floating`, resolves to
/// its pull bias.
pub proof fn lemma_resolve_pull(slots: Seq<WireState>, pull: WireState)
    requires
        forall|i: int| 0 <= i < slots.len() ==> slots[i] == WireState::Floating,
    ensures
        !has_conflict(slots),
        resolved(slots, pull) == pull,
{
}

/// Law: a node with exactly one driven slot resolves to that slot's value,
/// whatever the pull bias.
pub proof fn lemma_resolve_single_driver(
    slots: Seq<WireState>,
    pull: WireState,
    i: int,
)
    requires
        0 <= i < slots.len(),
        slots[i] != WireState::Floating,
        forall|j: int| 0 <= j < slots.len() && j != i ==> slots[j] == WireState::Floating,
    ensures
        !has_conflict(slots),
        resolved(slots, pull) == slots[i],
{
}

/// Law: when every driven slot of a node asserts the same value, the node
/// resolves to that value.
pub proof fn lemma_resolve_agreeing_drivers(
    slots: Seq<WireState>,
    pull: WireState,
    v: WireState,
    i: int,
)
    requires
        v != WireState::Floating,
        0 <= i < slots.len(),
        slots[i] == v,
        forall|j: int|
            0 <= j < slots.len() && slots[j] != WireState::Floating ==> slots[j] == v,
    ensures
        !has_conflict(slots),
        resolved(slots, pull) == v,
{
}

/// Law: any two slots driven to disagreeing levels are a short circuit,
/// wherever they sit; so a write that leaves the slots in such a state is
/// exactly the write [`WireWrapper::set_pin_state`] refuses.
pub proof fn lemma_disagreeing_drivers_conflict(slots: Seq<WireState>, i: int, j: int)
    requires
        0 <= i < slots.len(),
        0 <= j < slots.len(),
        slots[i] == WireState::High,
        slots[j] == WireState::Low,
    ensures
        has_conflict(slots),
{
}

/// Releasing a slot — overwriting it with `Floating` — cannot introduce a
/// short circuit.
pub proof fn lemma_release_preserves_conflict_freedom(slots: Seq<WireState>, i: int)
    requires
        !has_conflict(slots),
        0 <= i < slots.len(),
    ensures
        !has_conflict(slots.update(i, WireState::Floating)),
{
    let t = slots.update(i, WireState::Floating);
    if drives_high(t) {
        let j = choose|j: int| 0 <= j < t.len() && t[j] == WireState::High;
        assert(t[j] == slots[j]);
        assert(drives_high(slots));
    }
    if drives_low(t) {
        let j = choose|j: int| 0 <= j < t.len() && t[j] == WireState::Low;
        assert(t[j] == slots[j]);
        assert(drives_low(slots));
    }
}

/// Attaching a driver appends a `Floating` slot, which cannot introduce a
/// short circuit.
pub proof fn lemma_attach_preserves_conflict_freedom(slots: Seq<WireState>)
    requires
        !has_conflict(slots),
    ensures
        !has_conflict(slots.push(WireState::Floating)),
{
    let t = slots.push(WireState::Floating);
    if drives_high(t) {
        let j = choose|j: int| 0 <= j < t.len() && t[j] == WireState::High;
        assert(t[j] == slots[j]);
        assert(drives_high(slots));
    }
    if drives_low(t) {
        let j = choose|j: int| 0 <= j < t.len() && t[j] == WireState::Low;
        assert(t[j] == slots[j]);
        assert(drives_low(slots));
    }
}

/// The lock predicate of a wire's shared node: the stored slots never hold
/// a short circuit, and the pull bias stays the one the wire was created
/// with.
pub struct WirePred {
    /// The wire's fixed pull bias.
    pub pull: WireState,
}

impl RwLockPredicate<WireWrapper> for WirePred {
    open spec fn inv(self, w: WireWrapper) -> bool {
        !has_conflict(w.slots()) && w.pull_level() == self.pull
    }
}

/// Relies on `alloc::sync::Arc::clone`: the clone is a second
/// reference-counted handle to the same allocation, so it holds the same
/// value as the original.
#[verifier::external_body]
fn clone_arc<T>(a: &Arc<T>) -> (res: Arc<T>)
    ensures
        res == *a,
{
    Arc::clone(a)
}

/// One shared electrical line. The node's slots and pull bias live behind
/// a per-node reader-writer lock inside a reference-counted handle: every
/// pin attached to the wire holds one such handle, mutations are
/// serialized by the lock, and the lock's invariant is that the stored
/// slots are short-circuit free and the pull bias never changes.
pub struct Wire {
    wire: Arc<RwLock<WireWrapper, WirePred>>,
}

impl Wire {
    /// The pull bias this wire was created with: the level the wire
    /// settles to while no driver asserts anything.
    pub closed spec fn pull_bias(&self) -> WireState {
        (*self.wire).pred().pull
    }

    /// Creates a wire with no attached drivers and a `Floating` pull bias.
    pub fn new() -> (r: Self)
        ensures
            r.pull_bias() == WireState::Floating,
    {
        Self::new_with_pull(WireState::Floating)
    }

    /// Creates a wire with no attached drivers and the given pull bias.
    pub fn new_with_pull(pull: WireState) -> (r: Self)
        ensures
            r.pull_bias() == pull,
    {
        let w = WireWrapper::new_with_pull(pull);
        proof {
            lemma_resolve_pull(w.slots(), pull);
        }
        Wire { wire: Arc::new(RwLock::new(w, Ghost(WirePred { pull }))) }
    }

    /// Replaces the slot of driver `id` with `state`. A write that would
    /// make two driven slots disagree is refused with `ShortCircuit`, and
    /// an `id` this wire never assigned with `NoSuchPin`; either way the
    /// node is left unchanged. Releasing a slot (writing `Floating`) can
    /// never short-circuit the wire.
    pub fn set_state(&mut self, id: PinId, state: WireState) -> (r: Result<(), WireError>)
        ensures
            state is Floating ==> r != Err::<(), WireError>(WireError::ShortCircuit),
            *final(self) == *old(self),
    {
        let (mut w, handle) = self.wire.acquire_write();
        proof {
            if state is Floating && id < w.slots().len() {
                lemma_release_preserves_conflict_freedom(w.slots(), id as int);
            }
        }
        let r = w.set_pin_state(id, state);
        handle.release_write(w);
        r
    }

    /// Returns the level that the driver of slot `id` currently asserts
    /// (not the wire's resolved level), or `NoSuchPin` for an `id` this
    /// wire never assigned.
    pub fn get_pin_state(&self, id: PinId) -> (r: Result<WireState, WireError>)
        ensures
            r is Err ==> r == Err::<WireState, WireError>(WireError::NoSuchPin),
    {
        let read_handle = self.wire.acquire_read();
        let r = read_handle.borrow().get_pin_state(id);
        read_handle.release_read();
        r
    }

    /// Atomically replaces the slot of driver `id` with `f` of its current
    /// value: no other operation on this wire can run between the read and
    /// the write. The write is validated as in [`Wire::set_state`].
    pub fn update_pin_state<F: Fn(WireState) -> WireState>(
        &mut self,
        id: PinId,
        f: F,
    ) -> (r: Result<(), WireError>)
        requires
            forall|s: WireState| #[trigger] f.requires((s,)),
        ensures
            *final(self) == *old(self),
    {
        let (mut w, handle) = self.wire.acquire_write();
        let r = match w.get_pin_state(id) {
            Ok(cur) => w.set_pin_state(id, f(cur)),
            Err(e) => Err(e),
        };
        handle.release_write(w);
        r
    }

    /// Returns the wire's resolved level: the level its drivers assert, or
    /// the pull bias when no driver asserts anything. The lock invariant
    /// rules a short circuit out of the stored node, so resolution cannot
    /// fail here.
    pub fn get_state(&self) -> (r: WireState)
        ensures
            r == WireState::High || r == WireState::Low || r == self.pull_bias(),
    {
        let read_handle = self.wire.acquire_read();
        let r = Self::wire_state(read_handle.borrow());
        read_handle.release_read();
        r
    }

    /// Resolution of a conflict-free node, as [`Wire::get_state`] uses it.
    fn wire_state(wire: &WireWrapper) -> (r: WireState)
        requires
            !has_conflict(wire.slots()),
        ensures
            r == resolved(wire.slots(), wire.pull_level()),
    {
        match wire.resolve() {
            Ok(s) => s,
            // dead arm: conflict-free slots always resolve
            Err(_) => WireState::Floating,
        }
    }

    /// Attaches a push-pull driver: allocates the next slot, initially
    /// `Floating`, and returns a handle bound to this wire.
    pub fn connect_push_pull_pin(&self) -> (r: PushPullPin)
        ensures
            r.attached_to(self),
    {
        let (mut w, handle) = self.wire.acquire_write();
        proof {
            lemma_attach_preserves_conflict_freedom(w.slots());
        }
        let id = w.attach_driver();
        handle.release_write(w);
        PushPullPin { id, wire: self.clone() }
    }

    /// Attaches an open-drain driver: allocates the next slot, initially
    /// `Floating`, and returns a handle bound to this wire.
    pub fn connect_open_drain_pin(&self) -> (r: OpenDrainPin)
        ensures
            r.attached_to(self),
    {
        let (mut w, handle) = self.wire.acquire_write();
        proof {
            lemma_attach_preserves_conflict_freedom(w.slots());
        }
        let id = w.attach_driver();
        handle.release_write(w);
        OpenDrainPin { id, wire: self.clone() }
    }

    /// Attaches an input-only handle: it can read the wire's resolved
    /// level but owns no slot.
    pub fn connect_input_pin(&self) -> (r: InputOnlyPin)
        ensures
            r.attached_to(self),
    {
        InputOnlyPin { wire: self.clone() }
    }
}

impl Clone for Wire {
    /// The clone is another handle to the same shared node.
    fn clone(&self) -> (r: Self)
        ensures
            r == *self,
    {
        Wire { wire: clone_arc(&self.wire) }
    }
}

impl Default for Wire {
    /// The default wire has no attached drivers and a `Floating` pull
    /// bias.
    fn default() -> Self {
        Self::new()
    }
}

/// A handle that can only read a wire's resolved level; it owns no slot.
pub struct InputOnlyPin {
    wire: Wire,
}

impl InputOnlyPin {
    /// Whether this handle reads the given wire.
    pub closed spec fn attached_to(&self, wire: &Wire) -> bool {
        self.wire == *wire
    }

    /// Reports whether the wire's resolved level is `High`; never fails.
    pub fn is_high(&self) -> (r: Result<bool, core::convert::Infallible>)
        ensures
            r is Ok,
    {
        Ok(reads_high(self.wire.get_state()))
    }

    /// Reports whether the wire's resolved level is `Low`; never fails.
    pub fn is_low(&self) -> (r: Result<bool, core::convert::Infallible>)
        ensures
            r is Ok,
    {
        Ok(reads_low(self.wire.get_state()))
    }
}

/// What one toggle of a push-pull driver writes to its slot, given the
/// slot's current value: `High` and `Low` swap, and a `Floating` slot is
/// driven `Low`.
pub open spec fn push_pull_toggled(s: WireState) -> WireState {
    match s {
        WireState::Low => WireState::High,
        WireState::High => WireState::Low,
        WireState::Floating => WireState::Low,
    }
}

/// What one toggle of an open-drain driver writes to its slot, given the
/// slot's current value: the driver alternates between pulling `Low` and
/// releasing to `Floating`, and it never asserts `High`, so from `High` it
/// releases to `Floating`.
pub open spec fn open_drain_toggled(s: WireState) -> WireState {
    match s {
        WireState::Floating => WireState::Low,
        WireState::Low => WireState::Floating,
        WireState::High => WireState::Floating,
    }
}

/// Law: toggling a push-pull driver twice returns its slot to the starting
/// value when it was driven (`Low` or `High`), and takes a `Floating` slot
/// through `Low` to `High`.
pub proof fn lemma_push_pull_toggle_twice(s: WireState)
    ensures
        s !== WireState::Floating ==> push_pull_toggled(push_pull_toggled(s)) == s,
        s === WireState::Floating ==> push_pull_toggled(push_pull_toggled(s)) == WireState::High,
{
}

/// Law: toggling an open-drain driver twice returns its slot to the
/// starting value when it was `Low` or `Floating`; from `High` — a value
/// the driver itself never writes — two toggles end at `Low`.
pub proof fn lemma_open_drain_toggle_twice(s: WireState)
    ensures
        s !== WireState::High ==> open_drain_toggled(open_drain_toggled(s)) == s,
        s === WireState::High ==> open_drain_toggled(open_drain_toggled(s)) == WireState::Low,
{
}

/// Whether a wire level reads as logical high: the answer every handle's
/// `is_high` gives for that resolved level.
pub fn reads_high(s: WireState) -> (b: bool)
    ensures
        b == (s == WireState::High),
{
    s == WireState::High
}

/// Whether a wire level reads as logical low: the answer every handle's
/// `is_low` gives for that resolved level.
pub fn reads_low(s: WireState) -> (b: bool)
    ensures
        b == (s == WireState::Low),
{
    s == WireState::Low
}

/// The slot value a push-pull driver asserts for a command: commanded
/// high (`true`) it drives `High`, commanded low (`false`) it drives
/// `Low`.
pub fn push_pull_command(high: bool) -> (s: WireState)
    ensures
        s == (if high {
            WireState::High
        } else {
            WireState::Low
        }),
{
    if high {
        WireState::High
    } else {
        WireState::Low
    }
}

/// The slot value an open-drain driver asserts for a command: commanded
/// high (`true`) it pulls its slot `Low`, commanded low (`false`) it
/// releases the slot to `Floating`; it never asserts `High`.
pub fn open_drain_command(high: bool) -> (s: WireState)
    ensures
        s == (if high {
            WireState::Low
        } else {
            WireState::Floating
        }),
{
    if high {
        WireState::Low
    } else {
        WireState::Floating
    }
}

/// Whether an open-drain driver's slot records a high command, which the
/// driver encodes as `Low`.
pub fn open_drain_commanded_high(s: WireState) -> (b: bool)
    ensures
        b == (s == WireState::Low),
{
    s == WireState::Low
}

/// Whether an open-drain driver's slot records a low command, which the
/// driver encodes as `Floating`.
pub fn open_drain_commanded_low(s: WireState) -> (b: bool)
    ensures
        b == (s == WireState::Floating),
{
    s == WireState::Floating
}

/// A push-pull driver attached to a wire: it can assert both `High` and
/// `Low` on its slot.
pub struct PushPullPin {
    wire: Wire,
    id: PinId,
}

impl PushPullPin {
    /// Whether this handle drives the given wire.
    pub closed spec fn attached_to(&self, wire: &Wire) -> bool {
        self.wire == *wire
    }

    /// Reports whether the wire's resolved level is `High`; never fails.
    pub fn is_high(&self) -> (r: Result<bool, core::convert::Infallible>)
        ensures
            r is Ok,
    {
        Ok(reads_high(self.wire.get_state()))
    }

    /// Reports whether the wire's resolved level is `Low`; never fails.
    pub fn is_low(&self) -> (r: Result<bool, core::convert::Infallible>)
        ensures
            r is Ok,
    {
        Ok(reads_low(self.wire.get_state()))
    }

    /// Asserts `Low` on this driver's slot ([`push_pull_command`]);
    /// refused with `ShortCircuit` if another driver asserts `High`. The
    /// handle itself is unchanged.
    pub fn set_low(&mut self) -> (r: Result<(), WireError>)
        ensures
            *final(self) == *old(self),
    {
        self.wire.set_state(self.id, push_pull_command(false))
    }

    /// Asserts `High` on this driver's slot ([`push_pull_command`]);
    /// refused with `ShortCircuit` if another driver asserts `Low`. The
    /// handle itself is unchanged.
    pub fn set_high(&mut self) -> (r: Result<(), WireError>)
        ensures
            *final(self) == *old(self),
    {
        self.wire.set_state(self.id, push_pull_command(true))
    }

    /// Reports whether this driver's own slot — its last accepted command,
    /// not the wire's resolved level — is `High`.
    pub fn is_set_high(&self) -> (r: Result<bool, WireError>)
        ensures
            r is Err ==> r == Err::<bool, WireError>(WireError::NoSuchPin),
    {
        match self.wire.get_pin_state(self.id) {
            Ok(s) => Ok(reads_high(s)),
            Err(e) => Err(e),
        }
    }

    /// Reports whether this driver's own slot is `Low`.
    pub fn is_set_low(&self) -> (r: Result<bool, WireError>)
        ensures
            r is Err ==> r == Err::<bool, WireError>(WireError::NoSuchPin),
    {
        match self.wire.get_pin_state(self.id) {
            Ok(s) => Ok(reads_low(s)),
            Err(e) => Err(e),
        }
    }

    /// Atomically replaces this driver's slot with its push-pull toggle
    /// ([`push_pull_toggled`]); the write is validated as in
    /// [`Wire::set_state`]. The handle itself is unchanged.
    pub fn toggle(&mut self) -> (r: Result<(), WireError>)
        ensures
            *final(self) == *old(self),
    {
        self.wire.update_pin_state(
            self.id,
            (|x: WireState| -> (t: WireState)
                ensures
                    t == push_pull_toggled(x),
                {
                    match x {
                        WireState::Low => WireState::High,
                        WireState::High => WireState::Low,
                        WireState::Floating => WireState::Low,
                    }
                }),
        )
    }
}

/// An open-drain driver attached to a wire: commanding it high pulls its
/// slot `Low`, and commanding it low releases the slot to `Floating`; it
/// never asserts `High` itself.
pub struct OpenDrainPin {
    wire: Wire,
    id: PinId,
}

impl OpenDrainPin {
    /// Whether this handle drives the given wire.
    pub closed spec fn attached_to(&self, wire: &Wire) -> bool {
        self.wire == *wire
    }

    /// Reports whether the wire's resolved level is `High`; never fails.
    pub fn is_high(&self) -> (r: Result<bool, core::convert::Infallible>)
        ensures
            r is Ok,
    {
        Ok(reads_high(self.wire.get_state()))
    }

    /// Reports whether the wire's resolved level is `Low`; never fails.
    pub fn is_low(&self) -> (r: Result<bool, core::convert::Infallible>)
        ensures
            r is Ok,
    {
        Ok(reads_low(self.wire.get_state()))
    }

    /// Commands the driver low, which releases its slot to `Floating`
    /// ([`open_drain_command`]); releasing a slot can never short-circuit
    /// the wire. The handle itself is unchanged.
    pub fn set_low(&mut self) -> (r: Result<(), WireError>)
        ensures
            r != Err::<(), WireError>(WireError::ShortCircuit),
            *final(self) == *old(self),
    {
        self.wire.set_state(self.id, open_drain_command(false))
    }

    /// Commands the driver high, which pulls its slot `Low`
    /// ([`open_drain_command`]); refused with `ShortCircuit` if another
    /// driver asserts `High`. The handle itself is unchanged.
    pub fn set_high(&mut self) -> (r: Result<(), WireError>)
        ensures
            *final(self) == *old(self),
    {
        self.wire.set_state(self.id, open_drain_command(true))
    }

    /// Reports whether this driver's last accepted command was high, that
    /// is, whether its own slot is `Low`.
    pub fn is_set_high(&self) -> (r: Result<bool, WireError>)
        ensures
            r is Err ==> r == Err::<bool, WireError>(WireError::NoSuchPin),
    {
        match self.wire.get_pin_state(self.id) {
            Ok(s) => Ok(open_drain_commanded_high(s)),
            Err(e) => Err(e),
        }
    }

    /// Reports whether this driver's last accepted command was low, that
    /// is, whether its own slot is `Floating`.
    pub fn is_set_low(&self) -> (r: Result<bool, WireError>)
        ensures
            r is Err ==> r == Err::<bool, WireError>(WireError::NoSuchPin),
    {
        match self.wire.get_pin_state(self.id) {
            Ok(s) => Ok(open_drain_commanded_low(s)),
            Err(e) => Err(e),
        }
    }

    /// Atomically replaces this driver's slot with its open-drain toggle
    /// ([`open_drain_toggled`]); the write is validated as in
    /// [`Wire::set_state`]. The handle itself is unchanged.
    pub fn toggle(&mut self) -> (r: Result<(), WireError>)
        ensures
            *final(self) == *old(self),
    {
        self.wire.update_pin_state(
            self.id,
            (|x: WireState| -> (t: WireState)
                ensures
                    t == open_drain_toggled(x),
                {
                    match x {
                        WireState::Floating => WireState::Low,
                        WireState::Low => WireState::Floating,
                        WireState::High => WireState::Floating,
                    }
                }),
        )
    }
}

} // verus!

use vstd::prelude::*;

verus! {

/// No registration nor wake in progress.
pub const WAITING: usize = 0;
/// A registration is in progress.
pub const REGISTERING: usize = 0b01;
/// A wake is in progress.
pub const WAKING: usize = 0b10;
/// A wake happened during a registration, which is still in progress.
pub const REGISTERING_WAKING: usize = 0b11;

/// Outcome of the start of a registration.
#[derive(Debug, Copy, Clone, PartialEq, Eq, Structural)]
pub enum RegisterStart {
    /// The registration owns the waker slot: it stores its waker, then finishes.
    Registering,
    /// A wake is in progress: the registering operation is woken right away.
    WakeNow,
    /// Another registration is in progress: nothing to do.
    Busy,
}

/// Abstract state of an [`AtomicWaker`].
pub struct AtomicWakerView<W> {
    /// Flags of the registrations and wakes in progress.
    pub state: nat,
    /// The registered waker.
    pub waker: Option<W>,
}

/// Single waker slot shared by one registering operation and waking operations, each step of
/// which is one atomic operation on a state word in a concurrent setting.
///
/// A registration is [`register_start`](AtomicWaker::register_start), then, if it owns the
/// slot, [`register_store`](AtomicWaker::register_store) and
/// [`register_finish`](AtomicWaker::register_finish). A wake is
/// [`wake_start`](AtomicWaker::wake_start), then, if it owns the slot,
/// [`wake_take`](AtomicWaker::wake_take).
#[derive(Debug)]
pub struct AtomicWaker<W> {
    state: usize,
    waker: Option<W>,
}

/// State after the start of a registration from `state`.
pub open spec fn register_start_state(state: nat) -> nat {
    if state == WAITING { REGISTERING as nat } else { state }
}

/// Outcome of the start of a registration from `state`.
pub open spec fn register_start_outcome(state: nat) -> RegisterStart {
    if state == WAITING {
        RegisterStart::Registering
    } else if state == WAKING {
        RegisterStart::WakeNow
    } else {
        RegisterStart::Busy
    }
}

/// State after the start of a wake from `state`.
pub open spec fn wake_start_state(state: nat) -> nat {
    if state < WAKING { (state + WAKING) as nat } else { state }
}

impl<W> View for AtomicWaker<W> {
    type V = AtomicWakerView<W>;

    closed spec fn view(&self) -> AtomicWakerView<W> {
        AtomicWakerView { state: self.state as nat, waker: self.waker }
    }
}

impl<W> AtomicWaker<W> {
    /// Internal consistency: only the two flags can be set.
    pub closed spec fn wf(&self) -> bool {
        self.state <= REGISTERING_WAKING
    }

    /// Creates a slot without waker.
    pub fn new() -> (r: Self)
        ensures
            r.wf(),
            r@.state == WAITING,
            r@.waker is None,
    {
        AtomicWaker { state: WAITING, waker: None }
    }

    /// Starts a registration: `compare_exchange(WAITING, REGISTERING)`.
    pub fn register_start(&mut self) -> (r: RegisterStart)
        requires
            old(self).wf(),
        ensures
            final(self).wf(),
            final(self)@.state == register_start_state(old(self)@.state),
            final(self)@.waker == old(self)@.waker,
            r == register_start_outcome(old(self)@.state),
    {
        let state = self.state;
        if state == WAITING {
            self.state = REGISTERING;
            RegisterStart::Registering
        } else if state == WAKING {
            RegisterStart::WakeNow
        } else {
            RegisterStart::Busy
        }
    }

    /// Returns the registered waker; the registration owning the slot reads it to know whether
    /// it wakes the same operation as the new one.
    pub fn current_waker(&self) -> (r: &Option<W>)
        ensures
            *r == self@.waker,
    {
        &self.waker
    }

    /// Stores the waker of the registration owning the slot, unless the registered one wakes the
    /// same operation (`will_wake`).
    pub fn register_store(&mut self, waker: W, will_wake: bool)
        requires
            old(self).wf(),
        ensures
            final(self).wf(),
            final(self)@.state == old(self)@.state,
            final(self)@.waker == if will_wake && old(self)@.waker is Some {
                old(self)@.waker
            } else {
                Some(waker)
            },
    {
        if !(will_wake && self.waker.is_some()) {
            self.waker = Some(waker);
        }
    }

    /// Finishes a registration: `compare_exchange(REGISTERING, WAITING)`; if a wake happened
    /// meanwhile, the registered waker is taken to be woken.
    pub fn register_finish(&mut self) -> (r: Option<W>)
        requires
            old(self).wf(),
            old(self)@.state == REGISTERING || old(self)@.state == REGISTERING_WAKING,
        ensures
            final(self).wf(),
            final(self)@.state == WAITING,
            old(self)@.state == REGISTERING ==> r is None && final(self)@.waker == old(self)@.waker,
            old(self)@.state != REGISTERING ==> r == old(self)@.waker && final(self)@.waker is None,
    {
        if self.state == REGISTERING {
            self.state = WAITING;
            None
        } else {
            let waker = self.waker.take();
            self.state = WAITING;
            waker
        }
    }

    /// Starts a wake: `fetch_or(WAKING)`; returns whether the wake owns the slot.
    pub fn wake_start(&mut self) -> (r: bool)
        requires
            old(self).wf(),
        ensures
            final(self).wf(),
            final(self)@.state == wake_start_state(old(self)@.state),
            final(self)@.waker == old(self)@.waker,
            r == (old(self)@.state == WAITING),
    {
        let previous = self.state;
        proof {
            assert(previous < 2 ==> previous | 2 == previous + 2) by (bit_vector)
                requires previous <= 3usize;
            assert(previous >= 2 ==> previous | 2 == previous) by (bit_vector)
                requires previous <= 3usize;
        }
        self.state = self.state | WAKING;
        previous == WAITING
    }

    /// Finishes a wake owning the slot: takes the registered waker to wake it, then
    /// `fetch_and(!WAKING)`.
    pub fn wake_take(&mut self) -> (r: Option<W>)
        requires
            old(self).wf(),
            old(self)@.state == WAKING,
        ensures
            final(self).wf(),
            final(self)@.state == WAITING,
            r == old(self)@.waker,
            final(self)@.waker is None,
    {
        let waker = self.waker.take();
        proof {
            let s = self.state;
            assert(s & !2usize == 0) by (bit_vector)
                requires s == 2usize;
        }
        self.state = self.state & !WAKING;
        waker
    }
}

impl<W> AtomicWaker<W> {
    /// Registers `waker`, unless a registration is in progress, and returns the waker to wake
    /// right away, if any. `will_wake` tells whether the registered waker wakes the same
    /// operation as `waker`, in which case it is kept.
    ///
    /// While a wake is in progress, `waker` is returned to be woken at once; a wake happening
    /// during the registration makes it return the registered waker.
    pub fn register(&mut self, waker: W, will_wake: bool) -> (r: Option<W>)
        requires
            old(self).wf(),
        ensures
            final(self).wf(),
            old(self)@.state == WAITING ==> {
                &&& r is None
                &&& final(self)@.state == WAITING
                &&& final(self)@.waker == if will_wake && old(self)@.waker is Some {
                    old(self)@.waker
                } else {
                    Some(waker)
                }
            },
            old(self)@.state == WAKING ==> r == Some(waker) && final(self)@ == old(self)@,
            old(self)@.state == REGISTERING || old(self)@.state == REGISTERING_WAKING ==> r is None
                && final(self)@ == old(self)@,
    {
        match self.register_start() {
            RegisterStart::Registering => {
                self.register_store(waker, will_wake);
                self.register_finish()
            },
            RegisterStart::WakeNow => Some(waker),
            RegisterStart::Busy => None,
        }
    }

    /// Wakes the registered waker: returns it, to be woken, unless a registration or another
    /// wake is in progress, which then delivers the wake.
    pub fn wake(&mut self) -> (r: Option<W>)
        requires
            old(self).wf(),
        ensures
            final(self).wf(),
            old(self)@.state == WAITING ==> r == old(self)@.waker && final(self)@.waker is None
                && final(self)@.state == WAITING,
            old(self)@.state != WAITING ==> r is None && final(self)@.waker == old(self)@.waker
                && final(self)@.state == wake_start_state(old(self)@.state),
    {
        if self.wake_start() {
            self.wake_take()
        } else {
            None
        }
    }
}

impl<W> Default for AtomicWaker<W> {
    fn default() -> (r: Self)
        ensures
            r.wf(),
            r@.state == WAITING,
            r@.waker is None,
    {
        Self::new()
    }
}

/// A wake racing with a registration is not lost: if it starts after the registration started,
/// it does not own the slot, and the registration finishes by taking its waker to wake it.
pub proof fn law_wake_during_registration_is_delivered()
    ensures
        register_start_outcome(WAITING as nat) == RegisterStart::Registering,
        register_start_state(WAITING as nat) == REGISTERING,
        wake_start_state(REGISTERING as nat) == REGISTERING_WAKING,
        REGISTERING as nat != WAITING,
{
}

/// A wake starting while no registration is in progress owns the slot and takes the registered
/// waker; a registration starting during that wake wakes its operation right away.
pub proof fn law_wake_owns_idle_slot()
    ensures
        wake_start_state(WAITING as nat) == WAKING,
        register_start_outcome(WAKING as nat) == RegisterStart::WakeNow,
        register_start_state(WAKING as nat) == WAKING,
        wake_start_state(WAKING as nat) == WAKING,
{
}

/// No wake is lost, whatever the interleaving of the steps: a wake starting in any state either
/// owns the slot (nothing in progress) and takes the registered waker, or leaves the waking flag
/// set. A registration in progress then finishes by taking the waker to wake it, and a
/// registration starting while the flag is set wakes its operation right away.
pub proof fn law_wake_is_never_lost(state: nat)
    requires
        state <= REGISTERING_WAKING,
    ensures
        state == WAITING ==> wake_start_state(state) == WAKING,
        state == REGISTERING || state == REGISTERING_WAKING ==> wake_start_state(state)
            == REGISTERING_WAKING,
        state == WAKING ==> wake_start_state(state) == WAKING,
        register_start_outcome(WAKING as nat) == RegisterStart::WakeNow,
        state != WAITING ==> register_start_outcome(state) != RegisterStart::Registering
            && register_start_state(state) == state,
{
}

/// A run of a consumer waiting for two notifications on an [`AtomicWaker`]: each notifier
/// increments a counter, then wakes the slot; the consumer registers its waker, then checks the
/// counter, and waits when it has not reached 2, until it is woken and polls again.
pub struct NotificationRun {
    /// Flags of the slot.
    pub state: nat,
    /// Whether the consumer's waker is registered in the slot.
    pub registered: bool,
    /// The counter.
    pub num: nat,
    /// Steps of the first notifier: 0 before incrementing, 1 before waking, 2 owning the slot,
    /// 3 done.
    pub first: nat,
    /// Steps of the second notifier.
    pub second: nat,
    /// Steps of the consumer: 0 polling, 1 storing its waker, 2 finishing its registration,
    /// 3 checking the counter, 4 waiting, 5 done.
    pub consumer: nat,
    /// Whether the consumer has been woken since it last started polling.
    pub woken: bool,
    /// Value of the counter at the consumer's last check.
    pub seen: nat,
}

/// An atomic step of a [`NotificationRun`].
pub enum RunStep {
    /// A notifier (the second one if `true`) increments the counter.
    Increment(bool),
    /// A notifier starts waking the slot.
    WakeStart(bool),
    /// A notifier owning the slot takes the registered waker and wakes it.
    WakeTake(bool),
    /// The consumer starts its registration.
    RegisterStart,
    /// The consumer stores its waker.
    RegisterStore,
    /// The consumer finishes its registration.
    RegisterFinish,
    /// The consumer checks the counter.
    Check,
    /// A woken waiting consumer polls again.
    Repoll,
}

/// The start of a run: nothing registered, no notification yet.
pub open spec fn run_start() -> NotificationRun {
    NotificationRun {
        state: WAITING as nat,
        registered: false,
        num: 0,
        first: 0,
        second: 0,
        consumer: 0,
        woken: false,
        seen: 0,
    }
}

/// Step of the notifier `second` (the first one if `false`).
pub open spec fn notifier(run: NotificationRun, second: bool) -> nat {
    if second { run.second } else { run.first }
}

/// `run` with the notifier `second` at step `pc`.
pub open spec fn with_notifier(run: NotificationRun, second: bool, pc: nat) -> NotificationRun {
    if second { NotificationRun { second: pc, ..run } } else { NotificationRun { first: pc, ..run } }
}

/// The run after `step`, or the same run if `step` cannot be taken. Each step of the slot is
/// the one of the corresponding method of [`AtomicWaker`].
pub open spec fn run_step(run: NotificationRun, step: RunStep) -> NotificationRun {
    match step {
        RunStep::Increment(n) => if notifier(run, n) == 0 {
            NotificationRun { num: run.num + 1, ..with_notifier(run, n, 1) }
        } else {
            run
        },
        RunStep::WakeStart(n) => if notifier(run, n) == 1 {
            NotificationRun {
                state: wake_start_state(run.state),
                ..with_notifier(run, n, if run.state == WAITING { 2 } else { 3 })
            }
        } else {
            run
        },
        RunStep::WakeTake(n) => if notifier(run, n) == 2 && run.state == WAKING {
            NotificationRun {
                state: WAITING as nat,
                registered: false,
                woken: run.woken || run.registered,
                ..with_notifier(run, n, 3)
            }
        } else {
            run
        },
        RunStep::RegisterStart => if run.consumer == 0 {
            match register_start_outcome(run.state) {
                RegisterStart::Registering => NotificationRun {
                    state: register_start_state(run.state),
                    consumer: 1,
                    ..run
                },
                RegisterStart::WakeNow => NotificationRun { consumer: 3, woken: true, ..run },
                RegisterStart::Busy => NotificationRun { consumer: 3, ..run },
            }
        } else {
            run
        },
        RunStep::RegisterStore => if run.consumer == 1 {
            NotificationRun { registered: true, consumer: 2, ..run }
        } else {
            run
        },
        RunStep::RegisterFinish => if run.consumer == 2 && (run.state == REGISTERING || run.state
            == REGISTERING_WAKING) {
            if run.state == REGISTERING {
                NotificationRun { state: WAITING as nat, consumer: 3, ..run }
            } else {
                NotificationRun {
                    state: WAITING as nat,
                    registered: false,
                    woken: run.woken || run.registered,
                    consumer: 3,
                    ..run
                }
            }
        } else {
            run
        },
        RunStep::Check => if run.consumer == 3 {
            NotificationRun { seen: run.num, consumer: if run.num == 2 { 5 } else { 4 }, ..run }
        } else {
            run
        },
        RunStep::Repoll => if run.consumer == 4 && run.woken {
            NotificationRun { consumer: 0, woken: false, ..run }
        } else {
            run
        },
    }
}

/// What holds of every run reachable from [`run_start`].
pub open spec fn run_inv(run: NotificationRun) -> bool {
    let a = run.first;
    let b = run.second;
    let t = run.consumer;
    &&& a <= 3 && b <= 3 && t <= 5 && run.state <= REGISTERING_WAKING
    &&& run.num == (if a >= 1 { 1nat } else { 0 }) + (if b >= 1 { 1nat } else { 0 })
    &&& !(a == 2 && b == 2)
    &&& (run.state == REGISTERING || run.state == REGISTERING_WAKING) <==> (t == 1 || t == 2)
    &&& (run.state == WAKING) <==> (a == 2 || b == 2)
    &&& t == 2 ==> run.registered
    &&& (t == 3 || t == 4) && !run.woken ==> run.registered
    &&& t == 4 && !run.woken ==> run.seen < 2 && (run.num == run.seen || a == 1 || a == 2 || b == 1
        || b == 2)
}

/// No notification is lost, whatever the interleaving of the steps of the notifiers and of the
/// consumer: every run reachable from the start keeps [`run_inv`], under which a consumer waiting
/// after both notifiers are done has been woken, and then polls again and sees both
/// notifications.
pub proof fn law_no_notification_is_lost(run: NotificationRun, step: RunStep)
    ensures
        run_inv(run_start()),
        run_inv(run) ==> run_inv(run_step(run, step)),
        run_inv(run) && run.first == 3 && run.second == 3 && run.consumer == 4 ==> run.woken,
        run_inv(run) && run.first == 3 && run.second == 3 && run.consumer == 4 ==> run_step(
            run_step(run_step(run_step(run_step(run, RunStep::Repoll), RunStep::RegisterStart), RunStep::RegisterStore),
            RunStep::RegisterFinish),
            RunStep::Check,
        ).consumer == 5,
{
}

} // verus!

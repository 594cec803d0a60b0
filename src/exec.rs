//! Executor references: owning handles held by the caller, weak ones held by
//! options, and the background drivers spawned onto each executor.
use vstd::prelude::*;

verus! {

/// The reference counts and the spawned background work of one executor.
#[derive(Debug, Clone, Copy, PartialEq, Eq, Structural)]
pub struct ExecSlot {
    /// Owning references; the executor is alive while this is positive.
    pub strong: u64,
    /// Non-owning references, which never keep the executor alive.
    pub weak: u64,
    /// Connection drivers spawned onto the executor and still running.
    pub drivers: u64,
}

impl ExecSlot {
    pub open spec fn alive(self) -> bool {
        self.strong > 0
    }
}

/// A non-owning reference to an executor of an `Executors` table, or to none.
#[derive(Debug, Clone, Copy, PartialEq, Eq, Structural)]
pub struct WeakExec {
    pub slot: Option<usize>,
}

impl WeakExec {
    /// A weak reference that refers to no executor; it never upgrades.
    pub fn new() -> (w: WeakExec)
        ensures
            w.slot is None,
    {
        WeakExec { slot: None }
    }

    /// The reference names an executor of the table, if any.
    pub open spec fn valid_in(self, t: Seq<ExecSlot>) -> bool {
        self.slot matches Some(i) ==> i < t.len()
    }

    /// Upgrading the reference in table `t` yields an owning one.
    pub open spec fn upgrades_in(self, t: Seq<ExecSlot>) -> bool {
        self.slot matches Some(i) && i < t.len() && t[i as int].alive()
    }
}

/// Every executor that the caller has created, with its reference counts.
///
/// An executor is named by its index in the table; its slot stays in place
/// after it is released, so stale weak references keep failing to upgrade.
pub struct Executors {
    slots: Vec<ExecSlot>,
}

impl View for Executors {
    type V = Seq<ExecSlot>;

    closed spec fn view(&self) -> Seq<ExecSlot> {
        self.slots@
    }
}

impl Executors {
    /// A table with no executors.
    pub fn new() -> (t: Executors)
        ensures
            t@ == Seq::<ExecSlot>::empty(),
    {
        Executors { slots: Vec::new() }
    }

    /// The number of executors ever created in the table.
    pub fn len(&self) -> (n: usize)
        ensures
            n == self@.len(),
    {
        self.slots.len()
    }

    /// The counts of executor `id`.
    pub fn slot(&self, id: usize) -> (s: ExecSlot)
        requires
            id < self@.len(),
        ensures
            s == self@[id as int],
    {
        self.slots[id]
    }

    /// Creates an executor; the caller holds its one owning reference.
    pub fn hyper_executor_new(&mut self) -> (id: usize)
        ensures
            id == old(self)@.len(),
            final(self)@ == old(self)@.push(ExecSlot { strong: 1, weak: 0, drivers: 0 }),
    {
        let id = self.slots.len();
        self.slots.push(ExecSlot { strong: 1, weak: 0, drivers: 0 });
        id
    }

    /// Releases the caller's owning reference to executor `id`.
    ///
    /// When the last owning reference goes, the executor is torn down and the
    /// background work spawned onto it is reclaimed with it. Releasing an
    /// executor that is already gone changes nothing.
    pub fn hyper_executor_free(&mut self, id: usize)
        requires
            id < old(self)@.len(),
        ensures
            final(self)@ == old(self)@.update(id as int, released(old(self)@[id as int])),
    {
        let s = self.slots[id];
        self.slots.set(id, if s.strong == 0 {
            s
        } else if s.strong == 1 {
            ExecSlot { strong: 0, weak: s.weak, drivers: 0 }
        } else {
            ExecSlot { strong: s.strong - 1, weak: s.weak, drivers: s.drivers }
        });
    }

    /// Makes a weak reference to executor `id` from the caller's owning one,
    /// which stays with the caller. An executor that is gone gives a weak
    /// reference to nothing.
    pub fn downgrade(&mut self, id: usize) -> (w: WeakExec)
        requires
            id < old(self)@.len(),
            old(self)@[id as int].weak < u64::MAX,
        ensures
            w == downgraded_ref(old(self)@, id),
            final(self)@ == downgraded(old(self)@, id),
    {
        let s = self.slots[id];
        if s.strong == 0 {
            WeakExec::new()
        } else {
            self.slots.set(id, ExecSlot { strong: s.strong, weak: s.weak + 1, drivers: s.drivers });
            WeakExec { slot: Some(id) }
        }
    }

    /// Gives up a weak reference.
    pub fn drop_weak(&mut self, w: WeakExec)
        requires
            w.valid_in(old(self)@),
        ensures
            final(self)@ == weak_dropped(old(self)@, w),
    {
        if let Some(i) = w.slot {
            let s = self.slots[i];
            if s.weak > 0 {
                self.slots.set(i, ExecSlot { strong: s.strong, weak: s.weak - 1, drivers: s.drivers });
            }
        }
    }

    /// Whether the weak reference can be upgraded to an owning one.
    pub fn upgrade(&self, w: &WeakExec) -> (r: bool)
        ensures
            r == w.upgrades_in(self@),
    {
        match w.slot {
            Some(i) => i < self.slots.len() && self.slots[i].strong > 0,
            None => false,
        }
    }

    /// Spawns a connection driver onto the executor that `w` refers to, if it
    /// is still alive; otherwise nothing is spawned.
    pub fn spawn_driver(&mut self, w: &WeakExec) -> (spawned: bool)
        requires
            w.valid_in(old(self)@),
            w.slot matches Some(i) ==> old(self)@[i as int].drivers < u64::MAX,
        ensures
            spawned == w.upgrades_in(old(self)@),
            final(self)@ == driver_spawned(old(self)@, *w),
    {
        if self.upgrade(w) {
            let i = w.slot.unwrap();
            let s = self.slots[i];
            self.slots.set(i, ExecSlot { strong: s.strong, weak: s.weak, drivers: s.drivers + 1 });
            true
        } else {
            false
        }
    }

    /// Records that a driver spawned onto executor `id` ran to its end.
    pub fn driver_finished(&mut self, id: usize)
        requires
            id < old(self)@.len(),
        ensures
            final(self)@ == old(self)@.update(id as int, ExecSlot {
                drivers: if old(self)@[id as int].drivers > 0 {
                    (old(self)@[id as int].drivers - 1) as u64
                } else {
                    0
                },
                ..old(self)@[id as int]
            }),
    {
        let s = self.slots[id];
        if s.drivers > 0 {
            self.slots.set(id, ExecSlot { strong: s.strong, weak: s.weak, drivers: s.drivers - 1 });
        }
    }
}

/// The slot after one owning reference is released.
pub open spec fn released(s: ExecSlot) -> ExecSlot {
    if s.strong == 0 {
        s
    } else if s.strong == 1 {
        ExecSlot { strong: 0, weak: s.weak, drivers: 0 }
    } else {
        ExecSlot { strong: (s.strong - 1) as u64, ..s }
    }
}

/// The weak reference that downgrading executor `id` gives: one to it while
/// it is alive, one to nothing after it is gone.
pub open spec fn downgraded_ref(t: Seq<ExecSlot>, id: usize) -> WeakExec {
    if t[id as int].alive() {
        WeakExec { slot: Some(id) }
    } else {
        WeakExec { slot: None }
    }
}

/// The table after executor `id` is downgraded: one weak reference more,
/// where it is alive.
pub open spec fn downgraded(t: Seq<ExecSlot>, id: usize) -> Seq<ExecSlot> {
    if t[id as int].alive() {
        t.update(id as int, ExecSlot { weak: (t[id as int].weak + 1) as u64, ..t[id as int] })
    } else {
        t
    }
}

/// The table after the weak reference `w` is given up.
pub open spec fn weak_dropped(t: Seq<ExecSlot>, w: WeakExec) -> Seq<ExecSlot> {
    match w.slot {
        Some(i) => if t[i as int].weak > 0 {
            t.update(i as int, ExecSlot { weak: (t[i as int].weak - 1) as u64, ..t[i as int] })
        } else {
            t
        },
        None => t,
    }
}

/// The table after a driver is spawned through `w`, where it upgrades.
pub open spec fn driver_spawned(t: Seq<ExecSlot>, w: WeakExec) -> Seq<ExecSlot> {
    if w.upgrades_in(t) {
        let i = w.slot.unwrap() as int;
        t.update(i, ExecSlot { drivers: (t[i].drivers + 1) as u64, ..t[i] })
    } else {
        t
    }
}

} // verus!

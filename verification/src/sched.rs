//! The static task/resource wiring and the priority-ceiling claim primitive.
//!
//! Two interrupt tasks contend for three shared resources. Each resource
//! carries a fixed priority ceiling, the highest base priority of any task
//! that touches it. A claim raises the claiming context's effective priority
//! to the resource's ceiling for the duration of the access, which excludes
//! every other task that could touch the resource without ever blocking.

use vstd::prelude::*;

verus! {

/// The two interrupt tasks of the firmware, with fixed base priorities.
#[derive(Clone, Copy, PartialEq, Eq, Structural, Debug)]
pub enum TaskId {
    /// Periodic blink task, driven by the timer tick interrupt.
    Blink,
    /// Debounce / interval-toggle task, driven by the button edge interrupt.
    Debounce,
}

/// The three shared resources.
#[derive(Clone, Copy, PartialEq, Eq, Structural, Debug)]
pub enum ResourceId {
    /// The LED on/off flag.
    Led,
    /// The elapsed-tick counter of the current blink half-period.
    Count,
    /// The blink interval, in ticks per half-period.
    Interval,
}

/// Static base priority of each task: the blink task preempts the debounce
/// task.
pub open spec fn priority_spec(t: TaskId) -> int {
    match t {
        TaskId::Blink => 2,
        TaskId::Debounce => 1,
    }
}

/// Exec mirror of [`priority_spec`].
pub fn priority(t: TaskId) -> (p: u8)
    ensures
        p as int == priority_spec(t),
{
    match t {
        TaskId::Blink => 2,
        TaskId::Debounce => 1,
    }
}

/// Which task touches which resource; fixed at configuration time. The blink
/// task uses all three resources, the debounce task polls the LED and writes
/// the interval.
pub open spec fn accesses_spec(t: TaskId, r: ResourceId) -> bool {
    match (t, r) {
        (TaskId::Blink, _) => true,
        (TaskId::Debounce, ResourceId::Led) => true,
        (TaskId::Debounce, ResourceId::Interval) => true,
        (TaskId::Debounce, ResourceId::Count) => false,
    }
}

/// Exec mirror of [`accesses_spec`].
pub fn accesses(t: TaskId, r: ResourceId) -> (b: bool)
    ensures
        b == accesses_spec(t, r),
{
    match (t, r) {
        (TaskId::Blink, _) => true,
        (TaskId::Debounce, ResourceId::Led) => true,
        (TaskId::Debounce, ResourceId::Interval) => true,
        (TaskId::Debounce, ResourceId::Count) => false,
    }
}

/// Priority ceiling of each resource. Every resource is touched by the blink
/// task, so every ceiling equals the blink task's priority.
pub open spec fn ceiling_spec(r: ResourceId) -> int {
    match r {
        ResourceId::Led => 2,
        ResourceId::Count => 2,
        ResourceId::Interval => 2,
    }
}

/// Exec mirror of [`ceiling_spec`].
pub fn ceiling(r: ResourceId) -> (c: u8)
    ensures
        c as int == ceiling_spec(r),
{
    match r {
        ResourceId::Led => 2,
        ResourceId::Count => 2,
        ResourceId::Interval => 2,
    }
}

/// A configuration is valid when no resource's ceiling lies below the
/// priority of a task that accesses it. A ceiling below an accessor's
/// priority is a design-time defect and must be rejected during setup.
pub open spec fn config_valid_spec() -> bool {
    forall|t: TaskId, r: ResourceId| accesses_spec(t, r) ==> priority_spec(t) <= ceiling_spec(r)
}

/// This wiring is valid: every ceiling dominates every accessor's priority.
pub proof fn lemma_config_valid()
    ensures
        config_valid_spec(),
{
    assert forall|t: TaskId, r: ResourceId| accesses_spec(t, r) implies priority_spec(t)
        <= ceiling_spec(r) by {
        match t {
            TaskId::Blink => {}
            TaskId::Debounce => {}
        }
    }
}

/// Setup validation: accepts the wiring exactly when every accessed
/// resource's ceiling dominates the accessor's priority.
pub fn validate_config() -> (ok: bool)
    ensures
        ok == config_valid_spec(),
{
    let ok = priority(TaskId::Blink) <= ceiling(ResourceId::Led) && priority(TaskId::Blink)
        <= ceiling(ResourceId::Count) && priority(TaskId::Blink) <= ceiling(ResourceId::Interval)
        && priority(TaskId::Debounce) <= ceiling(ResourceId::Led) && priority(TaskId::Debounce)
        <= ceiling(ResourceId::Interval);
    proof {
        lemma_config_valid();
    }
    ok
}

/// Highest ceiling among a stack of claimed resources; zero for an empty
/// stack, which lies below every task priority.
pub open spec fn stack_ceiling(claims: Seq<ResourceId>) -> int
    decreases claims.len(),
{
    if claims.len() == 0 {
        0
    } else {
        let rest = stack_ceiling(claims.drop_last());
        let top = ceiling_spec(claims.last());
        if top > rest {
            top
        } else {
            rest
        }
    }
}

/// Execution context of one task: its identity plus the stack of resources it
/// currently has claimed, innermost claim last. On the hardware this lives as
/// a priority threshold register; here the claim stack itself is the model
/// and the effective priority is derived from it.
pub struct Threshold {
    /// The task this context executes.
    pub task: TaskId,
    /// Currently open claims, outermost first.
    pub claims: Vec<ResourceId>,
}

impl Threshold {
    /// Effective priority: the base priority, raised to the highest ceiling
    /// among the open claims.
    pub open spec fn effective(self) -> int {
        let base = priority_spec(self.task);
        let raised = stack_ceiling(self.claims@);
        if raised > base {
            raised
        } else {
            base
        }
    }

    /// The context currently has a claim open on `r`.
    pub open spec fn holds_claim_on(self, r: ResourceId) -> bool {
        self.claims@.contains(r)
    }

    /// The context holds no claim at all.
    pub open spec fn no_claims(self) -> bool {
        self.claims@.len() == 0
    }

    /// A fresh context for a task outside any claim: its effective priority
    /// is its base priority.
    pub fn new(task: TaskId) -> (t: Threshold)
        ensures
            t.task == task,
            t.no_claims(),
            t.effective() == priority_spec(task),
    {
        Threshold { task, claims: Vec::new() }
    }

    /// Exec computation of the effective priority.
    pub fn effective_priority(&self) -> (p: u8)
        ensures
            p as int == self.effective(),
    {
        let mut p = priority(self.task);
        let mut i: usize = 0;
        while i < self.claims.len()
            invariant
                i <= self.claims@.len(),
                p as int == (Threshold { task: self.task, claims: self.claims }).partial_effective(
                    i as nat,
                ),
            decreases self.claims@.len() - i,
        {
            let c = ceiling(self.claims[i]);
            if c > p {
                p = c;
            }
            proof {
                lemma_stack_ceiling_take_step(self.claims@, i as nat);
            }
            i = i + 1;
        }
        proof {
            assert(self.claims@.take(self.claims@.len() as int) =~= self.claims@);
        }
        p
    }

    /// Effective priority counting only the first `i` claims of the stack.
    pub open spec fn partial_effective(self, i: nat) -> int {
        let base = priority_spec(self.task);
        let raised = stack_ceiling(self.claims@.take(i as int));
        if raised > base {
            raised
        } else {
            base
        }
    }

    /// Opens a claim on `r`: pushes it on the claim stack, which raises the
    /// effective priority to at least `r`'s ceiling. The claim never blocks:
    /// the raised priority alone excludes every task that could touch `r`.
    pub fn claim_enter(&mut self, r: ResourceId)
        requires
            accesses_spec(old(self).task, r),
        ensures
            final(self).task == old(self).task,
            final(self).claims@ == old(self).claims@.push(r),
            final(self).holds_claim_on(r),
            final(self).effective() == if ceiling_spec(r) > old(self).effective() {
                ceiling_spec(r)
            } else {
                old(self).effective()
            },
            final(self).effective() >= ceiling_spec(r),
    {
        self.claims.push(r);
        proof {
            assert(self.claims@.drop_last() =~= old(self).claims@);
            assert(self.claims@[old(self).claims@.len() as int] == r);
        }
    }

    /// Closes the innermost claim: pops the stack, restoring the effective
    /// priority the context had when that claim was opened.
    pub fn claim_exit(&mut self)
        requires
            old(self).claims@.len() > 0,
        ensures
            final(self).task == old(self).task,
            final(self).claims@ == old(self).claims@.drop_last(),
    {
        let _popped = self.claims.pop();
        proof {
            assert(self.claims@ =~= old(self).claims@.drop_last());
        }
    }
}

/// Stepping the running ceiling maximum over one more claim of the stack.
pub proof fn lemma_stack_ceiling_take_step(claims: Seq<ResourceId>, i: nat)
    requires
        i < claims.len(),
    ensures
        stack_ceiling(claims.take(i + 1 as int)) == if ceiling_spec(claims[i as int]) > stack_ceiling(
            claims.take(i as int),
        ) {
            ceiling_spec(claims[i as int])
        } else {
            stack_ceiling(claims.take(i as int))
        },
{
    let pre = claims.take(i + 1 as int);
    assert(pre.drop_last() =~= claims.take(i as int));
    assert(pre.last() == claims[i as int]);
}

/// Releasing a claim restores the stack, and with it the effective priority,
/// to what it was when the claim was opened.
pub proof fn lemma_claim_release_restores(stack: Seq<ResourceId>, r: ResourceId)
    ensures
        stack.push(r).drop_last() == stack,
{
    assert(stack.push(r).drop_last() =~= stack);
}

/// A claimed resource's ceiling bounds the whole stack's ceiling from below.
pub proof fn lemma_stack_ceiling_bounds_member(claims: Seq<ResourceId>, r: ResourceId)
    requires
        claims.contains(r),
    ensures
        stack_ceiling(claims) >= ceiling_spec(r),
    decreases claims.len(),
{
    let i = choose|i: int| 0 <= i < claims.len() && claims[i] == r;
    if i == claims.len() - 1 {
        assert(claims.last() == r);
    } else {
        assert(claims.drop_last()[i] == r);
        assert(claims.drop_last().contains(r));
        lemma_stack_ceiling_bounds_member(claims.drop_last(), r);
    }
}

/// Preemption rule of the scheduler: an arriving task preempts only when its
/// priority is strictly above the running context's effective priority.
pub open spec fn can_preempt_spec(incoming: TaskId, current_effective: int) -> bool {
    priority_spec(incoming) > current_effective
}

/// Dispatch decision: whether the task behind an arriving interrupt preempts
/// the running context now or stays pending until that context's effective
/// priority drops below the task's priority.
pub fn can_preempt(incoming: TaskId, current: &Threshold) -> (b: bool)
    ensures
        b == can_preempt_spec(incoming, current.effective()),
{
    priority(incoming) > current.effective_priority()
}

/// Priority-ceiling exclusion: while any context holds a claim on a resource,
/// every other task that accesses that resource has priority at most the
/// holder's effective priority, so it cannot preempt. On a single core no
/// second claim on the resource can therefore be open concurrently, and no
/// observer ever sees the resource mid-write.
pub proof fn lemma_claim_exclusion(holder: Threshold, r: ResourceId, other: TaskId)
    requires
        holder.holds_claim_on(r),
        accesses_spec(other, r),
    ensures
        !can_preempt_spec(other, holder.effective()),
{
    lemma_stack_ceiling_bounds_member(holder.claims@, r);
    lemma_config_valid();
}

/// While the debounce task holds no claim, its effective priority is its base
/// priority, strictly below the blink task's, so the blink task can always
/// preempt it and run a complete tick-and-possibly-toggle cycle (the tick
/// handler is straight-line code) without being blocked.
pub proof fn lemma_blink_preempts_unclaimed_debounce(t: Threshold)
    requires
        t.task == TaskId::Debounce,
        t.no_claims(),
    ensures
        can_preempt_spec(TaskId::Blink, t.effective()),
{
}

} // verus!

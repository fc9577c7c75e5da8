//! The crash-safe teardown hook, modeled as an explicit termination-hook
//! registry: on abnormal termination the steps run front to back, so an
//! installation chains onto — never replaces — whatever hook behavior was
//! registered before it. Installation is guarded per handle: asking again
//! for a manifest whose teardown is already registered changes nothing, so
//! the hook fires `down()` at most once per handle's stack, however many
//! runs ask for it.
use vstd::prelude::*;

use crate::DockerCompose;

verus! {

/// One entry of the termination-hook chain.
pub enum HookStep {
    /// Whatever hook behavior was registered before this library's own:
    /// crash reporting, diagnostic output. It keeps running first.
    PriorBehavior,
    /// Invoke `down()` for this handle.
    Teardown(DockerCompose),
}

/// How many teardowns for the given manifest the chain would fire.
pub open spec fn teardown_count(steps: Seq<HookStep>, manifest: Seq<char>) -> nat
    decreases steps.len(),
{
    if steps.len() == 0 {
        0
    } else {
        teardown_count(steps.drop_last(), manifest) + (if steps.last() matches HookStep::Teardown(
            h,
        ) && h.file@ == manifest {
            1nat
        } else {
            0nat
        })
    }
}

/// A chain never tears one manifest's stack down twice.
pub open spec fn chain_wf(steps: Seq<HookStep>) -> bool {
    forall|manifest: Seq<char>| teardown_count(steps, manifest) <= 1
}

/// Appending one step raises the count for its own manifest by one and
/// changes no other manifest's count.
pub proof fn lemma_teardown_count_push(steps: Seq<HookStep>, step: HookStep, manifest: Seq<char>)
    ensures
        teardown_count(steps.push(step), manifest) == teardown_count(steps, manifest) + (
        if step matches HookStep::Teardown(h) && h.file@ == manifest {
            1nat
        } else {
            0nat
        }),
{
    assert(steps.push(step).drop_last() =~= steps);
    assert(steps.push(step).last() == step);
}

/// Single teardown per handle: in any chain the registry can produce, the
/// abnormal-termination hook fires `down()` at most once for a manifest,
/// however many times its teardown was asked for.
pub proof fn lemma_down_fired_at_most_once(steps: Seq<HookStep>, manifest: Seq<char>)
    requires
        chain_wf(steps),
    ensures
        teardown_count(steps, manifest) <= 1,
{
}

/// The process-wide abnormal-termination hook registry. The host
/// application keeps one per process and, when the runtime signals an
/// unrecoverable error, executes the steps in order, front to back.
pub struct HookChain {
    steps: Vec<HookStep>,
}

impl View for HookChain {
    type V = Seq<HookStep>;

    closed spec fn view(&self) -> Seq<HookStep> {
        self.steps@
    }
}

impl HookChain {
    /// A fresh registry holds exactly the pre-existing default behavior,
    /// and so no teardown yet.
    pub fn new() -> (r: HookChain)
        ensures
            r@ =~= seq![HookStep::PriorBehavior],
            chain_wf(r@),
    {
        let mut steps: Vec<HookStep> = Vec::new();
        steps.push(HookStep::PriorBehavior);
        proof {
            assert forall|manifest: Seq<char>| teardown_count(steps@, manifest) <= 1 by {
                assert(steps@ =~= Seq::<HookStep>::empty().push(HookStep::PriorBehavior));
                lemma_teardown_count_push(
                    Seq::<HookStep>::empty(),
                    HookStep::PriorBehavior,
                    manifest,
                );
            }
        }
        HookChain { steps }
    }

    /// Whether a teardown for this manifest is already registered.
    fn contains_teardown_for(&self, manifest: &String) -> (r: bool)
        ensures
            r == (teardown_count(self@, manifest@) > 0),
    {
        let n: usize = self.steps.len();
        let mut found: bool = false;
        let mut i: usize = 0;
        while i < n
            invariant
                i <= n,
                n == self.steps@.len(),
                found == (teardown_count(self.steps@.take(i as int), manifest@) > 0),
            decreases n - i,
        {
            proof {
                assert(self.steps@.take(i + 1int).drop_last() =~= self.steps@.take(i as int));
                assert(self.steps@.take(i + 1int).last() == self.steps@[i as int]);
            }
            match &self.steps[i] {
                HookStep::Teardown(h) => {
                    if h.file == *manifest {
                        found = true;
                    }
                },
                HookStep::PriorBehavior => {},
            }
            i = i + 1;
        }
        proof {
            assert(self.steps@.take(n as int) =~= self.steps@);
        }
        found
    }

    /// Register a crash-safe teardown for `handle`, at most once per
    /// manifest: the first installation appends the teardown — every
    /// previously registered step keeps its place and still runs, first,
    /// on a captured copy of the handle — and any later installation for
    /// the same manifest leaves the chain unchanged. Either way the chain
    /// ends up holding exactly one teardown for the handle.
    pub fn install_teardown(&mut self, handle: &DockerCompose)
        requires
            chain_wf(old(self)@),
        ensures
            chain_wf(final(self)@),
            forall|i: int| 0 <= i < old(self)@.len() ==> final(self)@[i] == old(self)@[i],
            teardown_count(old(self)@, handle.file@) == 0 ==> final(self)@.len() == old(
                self,
            )@.len() + 1,
            teardown_count(old(self)@, handle.file@) == 0 ==> (final(self)@.last() matches
                HookStep::Teardown(h) && h.file@ == handle.file@ && h.logs_dir@
                == handle.logs_dir@),
            teardown_count(old(self)@, handle.file@) > 0 ==> final(self)@ == old(self)@,
            teardown_count(final(self)@, handle.file@) == 1,
            forall|manifest: Seq<char>|
                manifest != handle.file@ ==> teardown_count(final(self)@, manifest)
                    == teardown_count(old(self)@, manifest),
    {
        if !self.contains_teardown_for(&handle.file) {
            let step = HookStep::Teardown(handle.clone());
            proof {
                assert forall|manifest: Seq<char>|
                    teardown_count(old(self)@.push(step), manifest) <= 1 by {
                    lemma_teardown_count_push(old(self)@, step, manifest);
                }
            }
            self.steps.push(step);
            proof {
                assert(self.steps@ =~= old(self)@.push(step));
                lemma_teardown_count_push(old(self)@, step, handle.file@);
                assert forall|manifest: Seq<char>| manifest != handle.file@ implies teardown_count(
                    self.steps@,
                    manifest,
                ) == teardown_count(old(self)@, manifest) by {
                    lemma_teardown_count_push(old(self)@, step, manifest);
                }
            }
        }
    }

    /// How many steps an abnormal termination runs.
    pub fn len(&self) -> (r: usize)
        ensures
            r == self@.len(),
    {
        self.steps.len()
    }

    /// The step at position `i` of the firing order.
    pub fn step_at(&self, i: usize) -> (r: &HookStep)
        requires
            i < self@.len(),
        ensures
            *r == self@[i as int],
    {
        &self.steps[i]
    }
}

} // verus!

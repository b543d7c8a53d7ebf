use vstd::prelude::*;
use vstd::seq_lib::lemma_multiset_commutative;
use rand::rngs::SmallRng;
use rand::seq::SliceRandom;
use crate::neutrons::Neutron;

verus! {

/// `rand::rngs::SmallRng`, the generator that the shuffles draw from. The
/// library hands it on and knows nothing of its state.
#[verifier::external_type_specification]
#[verifier::external_body]
pub struct ExSmallRng(SmallRng);

/// Stores the neutrons and schedules their runs.
///
/// There are two queues, and `queue_selector` says which of them is being
/// consumed: queue B when it is set, queue A when it is not. Neutrons that are
/// added go to the other queue. When the queue being consumed runs out the
/// two change roles, and the generation that arrived is brought to
/// `specified_neutron_count` neutrons if `variance_reduction` is on.
pub struct NeutronScheduler {
    pub neutron_queue_a: Vec<Neutron>,
    pub neutron_queue_b: Vec<Neutron>,
    pub neutron_generation_history: Vec<i64>,
    pub queue_selector: bool,
    pub specified_neutron_count: i64,
    pub variance_reduction: bool,
}

/// Every neutron of `kept` is one of `arrived`.
pub open spec fn drawn_from(kept: Seq<Neutron>, arrived: Seq<Neutron>) -> bool {
    forall|i: int| 0 <= i < kept.len() ==> arrived.contains(#[trigger] kept[i])
}

/// The least power of two by which a generation of `length` neutrons has to
/// be multiplied to reach `target`: the generation is doubled until it does.
pub open spec fn doublings(length: int, target: int) -> int
    decreases
        (if target > length {
            target - length
        } else {
            0
        }),
{
    if length <= 0 || length >= target {
        1
    } else {
        2 * doublings(2 * length, target)
    }
}

/// No neutron occurs in `kept` more than `factor` times as often as it
/// occurs in `arrived`.
pub open spec fn multiplied_within(kept: Seq<Neutron>, arrived: Seq<Neutron>, factor: int) -> bool {
    forall|x: Neutron|
        #[trigger] kept.to_multiset().count(x) <= factor * arrived.to_multiset().count(x)
}

/// What population control makes of the generation that arrived.
///
/// A generation above the target loses neutrons until the target is met (a
/// negative target removes none). A generation below it, unless it is empty,
/// gains copies of its own neutrons until the target is met: in every round
/// each neutron is copied once at most, so that no neutron is multiplied by
/// more than the generation had to be. Otherwise the generation stays as it
/// arrived, in the same order.
pub open spec fn population_controlled(
    arrived: Seq<Neutron>,
    kept: Seq<Neutron>,
    target: i64,
) -> bool {
    if arrived.len() > target {
        &&& kept.len() == if target < 0 { arrived.len() as int } else { target as int }
        &&& kept.to_multiset().subset_of(arrived.to_multiset())
        &&& drawn_from(kept, arrived)
    } else if 0 < arrived.len() < target {
        &&& kept.len() == target
        &&& arrived.to_multiset().subset_of(kept.to_multiset())
        &&& drawn_from(kept, arrived)
        &&& multiplied_within(kept, arrived, doublings(arrived.len() as int, target as int))
    } else {
        kept == arrived
    }
}

impl NeutronScheduler {
    /// The queue that is being consumed.
    pub open spec fn current(self) -> Seq<Neutron> {
        if self.queue_selector {
            self.neutron_queue_b@
        } else {
            self.neutron_queue_a@
        }
    }

    /// The queue that receives the next generation.
    pub open spec fn next(self) -> Seq<Neutron> {
        if self.queue_selector {
            self.neutron_queue_a@
        } else {
            self.neutron_queue_b@
        }
    }

    /// The number of neutrons in both queues fits the signed count that the
    /// scheduler reports.
    pub open spec fn well_formed(self) -> bool {
        self.neutron_queue_a.len() + self.neutron_queue_b.len() <= i64::MAX
    }

    /// Whether a generation that arrives is cut down to no neutron at all:
    /// variance reduction is on and the target is zero.
    pub open spec fn cuts_to_nothing(self) -> bool {
        self.variance_reduction && self.specified_neutron_count == 0
    }

    /// The target population and the choice of variance reduction are those
    /// of `other`.
    pub open spec fn same_settings(self, other: NeutronScheduler) -> bool {
        &&& self.specified_neutron_count == other.specified_neutron_count
        &&& self.variance_reduction == other.variance_reduction
    }

    /// The queue being consumed holds generation `generation` only, and the
    /// other queue the generation after it.
    pub open spec fn holds_generation(self, generation: int) -> bool {
        &&& forall|i: int|
            0 <= i < self.current().len() ==> (#[trigger] self.current()[i]).generation_number
                == generation
        &&& forall|i: int|
            0 <= i < self.next().len() ==> (#[trigger] self.next()[i]).generation_number
                == generation + 1
    }

    /// `after` is `before` with one neutron added to the next generation.
    pub open spec fn adds(before: NeutronScheduler, after: NeutronScheduler, neutron: Neutron) -> bool {
        &&& after.current() == before.current()
        &&& after.next() == before.next().push(neutron)
        &&& after.queue_selector == before.queue_selector
        &&& after.neutron_generation_history@ == before.neutron_generation_history@
        &&& after.same_settings(before)
    }

    /// `after` is `before` without the neutron at `index` of the queue being
    /// consumed; the last neutron of that queue has taken its place.
    pub open spec fn removes(before: NeutronScheduler, after: NeutronScheduler, index: int) -> bool {
        &&& after.current() == before.current().update(index, before.current().last()).drop_last()
        &&& after.next() == before.next()
        &&& after.queue_selector == before.queue_selector
        &&& after.neutron_generation_history@ == before.neutron_generation_history@
        &&& after.same_settings(before)
    }

    /// `after` is `before` once the queues have been given the chance to
    /// change roles.
    ///
    /// Nothing changes while the queue being consumed holds a neutron. When it
    /// is empty the queues change roles, the size of the generation that
    /// arrived is recorded, and with variance reduction the population of that
    /// generation is controlled.
    pub open spec fn flips(before: NeutronScheduler, after: NeutronScheduler) -> bool {
        if before.current().len() > 0 {
            &&& after.neutron_queue_a@ == before.neutron_queue_a@
            &&& after.neutron_queue_b@ == before.neutron_queue_b@
            &&& after.queue_selector == before.queue_selector
            &&& after.neutron_generation_history@ == before.neutron_generation_history@
            &&& after.same_settings(before)
        } else {
            &&& after.queue_selector == !before.queue_selector
            &&& after.next() == before.current()
            &&& after.neutron_generation_history@ == before.neutron_generation_history@.push(
                before.next().len() as i64,
            )
            &&& after.same_settings(before)
            &&& if before.variance_reduction {
                population_controlled(
                    before.next(),
                    after.current(),
                    before.specified_neutron_count,
                )
            } else {
                after.current() == before.next()
            }
        }
    }

    /// Adds a neutron to the next generation, that is, to the queue that is
    /// not being consumed.
    pub fn add_neutron(&mut self, neutron: Neutron)
        ensures
            Self::adds(*old(self), *final(self), neutron),
    {
        if self.queue_selector {
            self.neutron_queue_a.push(neutron);
        } else {
            self.neutron_queue_b.push(neutron);
        }
    }

    /// Removes the neutron at `neutron_index` from the queue being consumed,
    /// moving the last neutron of that queue into its place.
    pub fn remove_neutron(&mut self, neutron_index: usize)
        requires
            neutron_index < old(self).current().len(),
        ensures
            Self::removes(*old(self), *final(self), neutron_index as int),
    {
        if self.queue_selector {
            self.neutron_queue_b.swap_remove(neutron_index);
        } else {
            self.neutron_queue_a.swap_remove(neutron_index);
        }
    }

    /// Whether neither queue holds a neutron.
    pub fn is_empty(&self) -> (empty: bool)
        ensures
            empty == (self.current().len() == 0 && self.next().len() == 0),
    {
        self.neutron_queue_a.is_empty() && self.neutron_queue_b.is_empty()
    }

    /// The number of neutrons in the queue being consumed.
    pub fn current_neutron_count(&self) -> (count: i64)
        requires
            self.well_formed(),
        ensures
            count == self.current().len(),
    {
        if self.queue_selector {
            self.neutron_queue_b.len() as i64
        } else {
            self.neutron_queue_a.len() as i64
        }
    }

    /// The number of neutrons in both queues.
    pub fn total_neutron_count(&self) -> (count: i64)
        requires
            self.well_formed(),
        ensures
            count == self.current().len() + self.next().len(),
    {
        self.neutron_queue_a.len() as i64 + self.neutron_queue_b.len() as i64
    }
}

/// Calls `rand::seq::SliceRandom::shuffle` on the queue. The shuffle only
/// swaps elements of the slice, so the queue afterwards holds the same
/// neutrons, each as often as before; nothing is claimed of their order.
#[verifier::external_body]
fn shuffle_queue(queue: &mut Vec<Neutron>, rng: &mut SmallRng)
    ensures
        final(queue)@.to_multiset() == old(queue)@.to_multiset(),
{
    queue.shuffle(rng);
}

/// Every neutron that occurs in `kept` occurs in `arrived`.
spec fn support_within(kept: Seq<Neutron>, arrived: Seq<Neutron>) -> bool {
    forall|x: Neutron| kept.to_multiset().count(x) > 0 ==> arrived.to_multiset().count(x) > 0
}

proof fn lemma_support_drawn(kept: Seq<Neutron>, arrived: Seq<Neutron>)
    requires
        support_within(kept, arrived),
    ensures
        drawn_from(kept, arrived),
{
    kept.to_multiset_ensures();
    arrived.to_multiset_ensures();
    assert forall|i: int| 0 <= i < kept.len() implies arrived.contains(#[trigger] kept[i]) by {
        assert(kept.contains(kept[i]));
        assert(kept.to_multiset().count(kept[i]) > 0);
        assert(arrived.to_multiset().count(kept[i]) > 0);
    }
}

proof fn lemma_prefix_multiset(queue: Seq<Neutron>, length: int)
    requires
        0 <= length <= queue.len(),
    ensures
        queue.subrange(0, length).to_multiset().subset_of(queue.to_multiset()),
{
    let head = queue.subrange(0, length);
    let tail = queue.subrange(length, queue.len() as int);
    assert(queue =~= head + tail);
    lemma_multiset_commutative(head, tail);
}

/// Shuffles the queue and cuts it down to `target` neutrons; a negative
/// target cuts nothing.
fn truncate_queue(queue: &mut Vec<Neutron>, target: i64, rng: &mut SmallRng)
    requires
        old(queue).len() > target,
    ensures
        population_controlled(old(queue)@, final(queue)@, target),
{
    let ghost arrived = queue@;
    shuffle_queue(queue, rng);
    let ghost shuffled = queue@;
    proof {
        arrived.to_multiset_ensures();
        shuffled.to_multiset_ensures();
    }
    if target >= 0 {
        queue.truncate(target as usize);
        proof {
            lemma_prefix_multiset(shuffled, target as int);
            assert(support_within(queue@, arrived));
        }
    }
    proof {
        lemma_support_drawn(queue@, arrived);
    }
}

/// Shuffles the queue and appends copies of its own first neutrons, again and
/// again, until it holds `target` neutrons.
fn duplicate_queue(queue: &mut Vec<Neutron>, target: i64, rng: &mut SmallRng)
    requires
        0 < old(queue).len() < target,
    ensures
        population_controlled(old(queue)@, final(queue)@, target),
{
    let ghost arrived = queue@;
    let ghost goal = doublings(arrived.len() as int, target as int);
    let ghost mut factor: int = 1;
    let mut neutrons_to_add: u64 = (target - queue.len() as i64) as u64;

    proof {
        assert(multiplied_within(queue@, arrived, 1));
    }
    while neutrons_to_add > 0
        invariant
            queue.len() + neutrons_to_add == target,
            queue.len() > 0,
            arrived.to_multiset().subset_of(queue@.to_multiset()),
            support_within(queue@, arrived),
            factor >= 1,
            multiplied_within(queue@, arrived, factor),
            factor * doublings(queue.len() as int, target as int) == goal,
        decreases neutrons_to_add,
    {
        let ghost before_shuffle = queue@;
        shuffle_queue(queue, rng);
        let ghost base = queue@;
        proof {
            before_shuffle.to_multiset_ensures();
            base.to_multiset_ensures();
        }
        let current_queue_length = queue.len();
        let chunk_size: usize = if (current_queue_length as u64) < neutrons_to_add {
            current_queue_length
        } else {
            neutrons_to_add as usize
        };

        let mut copied: usize = 0;
        while copied < chunk_size
            invariant
                copied <= chunk_size <= current_queue_length,
                chunk_size <= neutrons_to_add,
                current_queue_length == base.len(),
                queue.len() + neutrons_to_add == target + copied,
                queue@ == base + base.subrange(0, copied as int),
            decreases chunk_size - copied,
        {
            let neutron = queue[copied];
            queue.push(neutron);
            proof {
                assert(queue@ =~= base + base.subrange(0, copied + 1));
            }
            copied += 1;
        }
        proof {
            let prefix = base.subrange(0, chunk_size as int);
            lemma_multiset_commutative(base, prefix);
            lemma_prefix_multiset(base, chunk_size as int);
            assert forall|x: Neutron|
                #[trigger] queue@.to_multiset().count(x) <= (2 * factor)
                    * arrived.to_multiset().count(x) by {
                assert(prefix.to_multiset().count(x) <= base.to_multiset().count(x));
                assert(base.to_multiset().count(x) <= factor * arrived.to_multiset().count(x));
                assert(2 * (factor * arrived.to_multiset().count(x)) == (2 * factor)
                    * arrived.to_multiset().count(x)) by (nonlinear_arith);
            }
            assert forall|x: Neutron| queue@.to_multiset().count(x) > 0 implies arrived.to_multiset().count(
                x,
            ) > 0 by {
                assert(prefix.to_multiset().count(x) <= base.to_multiset().count(x));
            }
            let length = base.len() as int;
            let rest = doublings(2 * length, target as int);
            assert(doublings(length, target as int) == 2 * rest);
            if chunk_size < current_queue_length {
                assert(rest == 1);
            }
            assert((2 * factor) * doublings(queue.len() as int, target as int) == goal)
                by (nonlinear_arith)
                requires
                    factor * (2 * rest) == goal,
                    doublings(queue.len() as int, target as int) == rest,
            ;
            factor = 2 * factor;
        }
        neutrons_to_add -= chunk_size as u64;
    }
    proof {
        lemma_support_drawn(queue@, arrived);
        assert(doublings(target as int, target as int) == 1);
    }
}

impl NeutronScheduler {
    /// With more neutrons than specified in the queue being consumed:
    /// shuffles that queue and cuts it down to the specified count.
    fn shuffle_and_truncate(&mut self, rng: &mut SmallRng)
        requires
            old(self).current().len() > old(self).specified_neutron_count,
        ensures
            population_controlled(
                old(self).current(),
                final(self).current(),
                old(self).specified_neutron_count,
            ),
            final(self).next() == old(self).next(),
            final(self).queue_selector == old(self).queue_selector,
            final(self).neutron_generation_history@ == old(self).neutron_generation_history@,
            final(self).same_settings(*old(self)),
    {
        if self.queue_selector {
            truncate_queue(&mut self.neutron_queue_b, self.specified_neutron_count, rng);
        } else {
            truncate_queue(&mut self.neutron_queue_a, self.specified_neutron_count, rng);
        }
    }

    /// With fewer neutrons than specified in the queue being consumed, and at
    /// least one: shuffles that queue and fills it with copies of its own
    /// neutrons up to the specified count.
    fn shuffle_and_duplicate(&mut self, rng: &mut SmallRng)
        requires
            0 < old(self).current().len() < old(self).specified_neutron_count,
        ensures
            population_controlled(
                old(self).current(),
                final(self).current(),
                old(self).specified_neutron_count,
            ),
            final(self).next() == old(self).next(),
            final(self).queue_selector == old(self).queue_selector,
            final(self).neutron_generation_history@ == old(self).neutron_generation_history@,
            final(self).same_settings(*old(self)),
    {
        if self.queue_selector {
            duplicate_queue(&mut self.neutron_queue_b, self.specified_neutron_count, rng);
        } else {
            duplicate_queue(&mut self.neutron_queue_a, self.specified_neutron_count, rng);
        }
    }

    /// Records the number of neutrons in both queues as the size of the
    /// generation that starts.
    fn track_neutron_population_history(&mut self)
        requires
            old(self).well_formed(),
        ensures
            final(self).neutron_generation_history@ == old(self).neutron_generation_history@.push(
                (old(self).current().len() + old(self).next().len()) as i64,
            ),
            final(self).neutron_queue_a@ == old(self).neutron_queue_a@,
            final(self).neutron_queue_b@ == old(self).neutron_queue_b@,
            final(self).queue_selector == old(self).queue_selector,
            final(self).same_settings(*old(self)),
    {
        let current_neutron_count = self.total_neutron_count();
        self.neutron_generation_history.push(current_neutron_count);
    }

    /// Lets the queues change roles if the one being consumed is empty.
    pub fn check_queue_flip(&mut self, rng: &mut SmallRng)
        requires
            old(self).well_formed(),
        ensures
            Self::flips(*old(self), *final(self)),
            final(self).well_formed(),
    {
        let neutron_count_current_queue = if self.queue_selector {
            self.neutron_queue_b.len()
        } else {
            self.neutron_queue_a.len()
        };

        if neutron_count_current_queue == 0 {
            self.queue_selector = !self.queue_selector;

            self.track_neutron_population_history();

            if self.variance_reduction {
                let arrived_count = self.current_neutron_count();
                if arrived_count > self.specified_neutron_count {
                    self.shuffle_and_truncate(rng);
                } else if 0 < arrived_count && arrived_count < self.specified_neutron_count {
                    self.shuffle_and_duplicate(rng);
                }
            }
        }
    }

    /// Gives the neutron at the head of the generation being consumed, after
    /// the queues had the chance to change roles.
    pub fn get_neutron(&mut self, rng: &mut SmallRng) -> (neutron: Neutron)
        requires
            old(self).well_formed(),
            old(self).current().len() + old(self).next().len() > 0,
            old(self).cuts_to_nothing() ==> old(self).current().len() > 0 || old(self).next().len() == 0,
        ensures
            Self::flips(*old(self), *final(self)),
            final(self).well_formed(),
            final(self).current().len() > 0,
            neutron == final(self).current()[0],
    {
        self.check_queue_flip(rng);

        if self.queue_selector {
            self.neutron_queue_b[0]
        } else {
            self.neutron_queue_a[0]
        }
    }
}

/// A neutron that is added waits in the next generation: the queue being
/// consumed is untouched, and the two queues still hold one generation each.
pub proof fn lemma_add_keeps_generations(
    before: NeutronScheduler,
    after: NeutronScheduler,
    neutron: Neutron,
    generation: int,
)
    requires
        NeutronScheduler::adds(before, after, neutron),
        before.holds_generation(generation),
        neutron.generation_number == generation + 1,
    ensures
        after.holds_generation(generation),
        after.current() == before.current(),
        after.next().last() == neutron,
{
    assert forall|i: int| 0 <= i < after.next().len() implies (#[trigger] after.next()[i]).generation_number
        == generation + 1 by {
        if i < before.next().len() {
            assert(after.next()[i] == before.next()[i]);
        }
    }
}

/// Removing a neutron from the queue being consumed leaves one generation in
/// each queue.
pub proof fn lemma_remove_keeps_generations(
    before: NeutronScheduler,
    after: NeutronScheduler,
    index: int,
    generation: int,
)
    requires
        NeutronScheduler::removes(before, after, index),
        0 <= index < before.current().len(),
        before.holds_generation(generation),
    ensures
        after.holds_generation(generation),
        after.current().len() == before.current().len() - 1,
{
    assert forall|i: int| 0 <= i < after.current().len() implies (
    #[trigger] after.current()[i]).generation_number == generation by {
        if i == index {
            assert(after.current()[i] == before.current().last());
        } else {
            assert(after.current()[i] == before.current()[i]);
        }
    }
}

/// The queues change roles only when the generation being consumed is used
/// up. Until then nothing moves; at that moment the generation that waited
/// becomes the one being consumed, and the other queue is empty. So the two
/// queues never hold neutrons of one generation both.
pub proof fn lemma_flip_advances_generation(
    before: NeutronScheduler,
    after: NeutronScheduler,
    generation: int,
)
    requires
        NeutronScheduler::flips(before, after),
        before.holds_generation(generation),
    ensures
        before.current().len() > 0 ==> after.holds_generation(generation) && after.current()
            == before.current() && after.next() == before.next(),
        before.current().len() == 0 ==> after.holds_generation(generation + 1)
            && after.next().len() == 0,
{
    if before.current().len() == 0 {
        let arrived = before.next();
        assert(drawn_from(after.current(), arrived));
        assert forall|i: int| 0 <= i < after.current().len() implies (
        #[trigger] after.current()[i]).generation_number == generation + 1 by {
            let neutron = after.current()[i];
            assert(arrived.contains(neutron));
            let j = choose|j: int| 0 <= j < arrived.len() && arrived[j] == neutron;
            assert(arrived[j].generation_number == generation + 1);
        }
    } else {
        assert(after.current() == before.current());
        assert(after.next() == before.next());
    }
}

/// After the queues changed roles with variance reduction on, the generation
/// being consumed has exactly the specified number of neutrons, unless none
/// arrived.
pub proof fn lemma_flip_meets_target(before: NeutronScheduler, after: NeutronScheduler)
    requires
        NeutronScheduler::flips(before, after),
        before.current().len() == 0,
        before.variance_reduction,
        before.specified_neutron_count >= 0,
    ensures
        before.next().len() > 0 ==> after.current().len() == before.specified_neutron_count,
        before.next().len() == 0 ==> after.current().len() == 0,
{
}

impl Default for NeutronScheduler {
    fn default() -> (scheduler: NeutronScheduler)
        ensures
            scheduler.neutron_queue_a@.len() == 0,
            scheduler.neutron_queue_b@.len() == 0,
            scheduler.neutron_generation_history@.len() == 0,
            !scheduler.queue_selector,
            scheduler.specified_neutron_count == 0,
            !scheduler.variance_reduction,
    {
        NeutronScheduler {
            neutron_queue_a: Vec::new(),
            neutron_queue_b: Vec::new(),
            neutron_generation_history: Vec::new(),
            queue_selector: false,
            specified_neutron_count: 0,
            variance_reduction: false,
        }
    }
}

} // verus!

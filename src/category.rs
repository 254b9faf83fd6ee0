//! Thread categories and the validated plan of worker threads per category.
use vstd::prelude::*;

verus! {

/// A semantic partition of the worker threads. Each value has a stable index
/// that tells it apart from the other values of its type.
pub trait ThreadCategory: Copy {
    /// The stable index of this category.
    spec fn spec_index(&self) -> usize;

    /// The stable index of this category.
    fn index(&self) -> (r: usize)
        ensures
            r == self.spec_index(),
    ;
}

/// The engine's categories: one for the logger, one for game-object logic.
#[derive(Clone, Copy, PartialEq, Eq, Structural, Debug, Hash)]
pub enum EngineThreadCategory {
    Logger,
    GameObject,
}

impl ThreadCategory for EngineThreadCategory {
    open spec fn spec_index(&self) -> usize {
        match self {
            EngineThreadCategory::Logger => 0,
            EngineThreadCategory::GameObject => 1,
        }
    }

    fn index(&self) -> (r: usize) {
        match self {
            EngineThreadCategory::Logger => 0,
            EngineThreadCategory::GameObject => 1,
        }
    }
}

/// Declares how many worker threads a category gets.
pub struct ThreadCategoryDescriptor<T> {
    thread_category: T,
    number_of_threads: usize,
}

impl<T: ThreadCategory> ThreadCategoryDescriptor<T> {
    pub closed spec fn spec_thread_category(&self) -> T {
        self.thread_category
    }

    pub closed spec fn spec_number_of_threads(&self) -> usize {
        self.number_of_threads
    }

    pub fn new(thread_category: T, number_of_threads: usize) -> (r: Self)
        ensures
            r.spec_thread_category() == thread_category,
            r.spec_number_of_threads() == number_of_threads,
    {
        ThreadCategoryDescriptor { thread_category, number_of_threads }
    }

    pub fn thread_category(&self) -> (r: T)
        ensures
            r == self.spec_thread_category(),
    {
        self.thread_category
    }

    pub fn number_of_threads(&self) -> (r: usize)
        ensures
            r == self.spec_number_of_threads(),
    {
        self.number_of_threads
    }
}

/// The set of categories of a thread pool, each with its thread count.
pub trait ThreadPoolDescriptor<T: ThreadCategory> {
    fn thread_category_descriptors(&self) -> Vec<ThreadCategoryDescriptor<T>>;
}

/// The entries that a list of descriptors declares: each category by its
/// index, with its thread count, in the order given.
pub open spec fn slots_of<T: ThreadCategory>(descriptors: Seq<ThreadCategoryDescriptor<T>>) -> Seq<
    CategorySlot,
> {
    Seq::new(
        descriptors.len(),
        |i: int|
            CategorySlot {
                category: descriptors[i].spec_thread_category().spec_index(),
                threads: descriptors[i].spec_number_of_threads(),
            },
    )
}

/// One category of a pool plan, by its index, with its thread count.
#[derive(Clone, Copy, PartialEq, Eq, Structural, Debug)]
pub struct CategorySlot {
    pub category: usize,
    pub threads: usize,
}

/// Why a set of category descriptors was refused.
#[derive(Clone, Copy, PartialEq, Eq, Structural, Debug)]
pub enum ConfigError {
    /// The category was declared with zero threads.
    NoThreads { category: usize },
    /// The category was declared a second time.
    DuplicateCategory { category: usize },
}

/// Whether the category at `i` was declared before position `i`.
pub open spec fn declared_before(slots: Seq<CategorySlot>, i: int) -> bool {
    exists|j: int| 0 <= j < i && #[trigger] slots[j].category == slots[i].category
}

/// The error for the entry at `i` alone, judged against the entries before it.
pub open spec fn entry_error(slots: Seq<CategorySlot>, i: int) -> Option<ConfigError> {
    if slots[i].threads == 0 {
        Some(ConfigError::NoThreads { category: slots[i].category })
    } else if declared_before(slots, i) {
        Some(ConfigError::DuplicateCategory { category: slots[i].category })
    } else {
        None
    }
}

/// The error of the first malformed entry, if any.
pub open spec fn first_error(slots: Seq<CategorySlot>) -> Option<ConfigError>
    decreases slots.len(),
{
    if slots.len() == 0 {
        None
    } else {
        match first_error(slots.drop_last()) {
            Some(e) => Some(e),
            None => entry_error(slots, slots.len() - 1),
        }
    }
}

/// Every category has at least one thread and appears once.
pub open spec fn valid_slots(slots: Seq<CategorySlot>) -> bool {
    &&& forall|i: int| 0 <= i < slots.len() ==> #[trigger] slots[i].threads > 0
    &&& forall|i: int, j: int|
        0 <= i < j < slots.len() ==> #[trigger] slots[i].category != #[trigger] slots[j].category
}

proof fn lemma_first_error_none(slots: Seq<CategorySlot>)
    ensures
        first_error(slots) is None <==> valid_slots(slots),
    decreases slots.len(),
{
    if slots.len() > 0 {
        let init = slots.drop_last();
        lemma_first_error_none(init);
        let n = slots.len() - 1;
        if valid_slots(slots) {
            assert forall|i: int| 0 <= i < init.len() implies #[trigger] init[i].threads > 0 by {
                assert(slots[i].threads > 0);
            }
            assert forall|i: int, j: int| 0 <= i < j < init.len() implies #[trigger] init[i].category
                != #[trigger] init[j].category by {
                assert(slots[i].category != slots[j].category);
            }
            assert(slots[n].threads > 0);
            assert(!declared_before(slots, n)) by {
                assert forall|j: int| 0 <= j < n implies #[trigger] slots[j].category
                    != slots[n].category by {
                    assert(slots[j].category != slots[n].category);
                }
            }
        }
        if first_error(slots) is None {
            assert(first_error(init) is None);
            assert(entry_error(slots, n) is None);
            assert forall|i: int| 0 <= i < slots.len() implies #[trigger] slots[i].threads > 0 by {
                if i < n {
                    assert(init[i].threads > 0);
                }
            }
            assert forall|i: int, j: int| 0 <= i < j < slots.len() implies #[trigger] slots[i].category
                != #[trigger] slots[j].category by {
                if j < n {
                    assert(init[i].category != init[j].category);
                } else {
                    if slots[i].category == slots[j].category {
                        assert(declared_before(slots, n));
                    }
                }
            }
        }
    }
}

/// A validated pool: the categories in order of declaration, each with at
/// least one thread and each declared once. Keeping the order of declaration
/// makes the error for a malformed list well defined: that of its first bad
/// entry.
pub struct PoolPlan {
    slots: Vec<CategorySlot>,
}

impl PoolPlan {
    pub closed spec fn slots(&self) -> Seq<CategorySlot> {
        self.slots@
    }

    pub open spec fn wf(&self) -> bool {
        valid_slots(self.slots())
    }

    /// Validates the declared categories: each needs at least one thread and
    /// may be declared once. The first malformed entry gives the error.
    pub fn new(slots: Vec<CategorySlot>) -> (r: Result<PoolPlan, ConfigError>)
        ensures
            match r {
                Ok(plan) => plan.wf() && plan.slots() == slots@,
                Err(e) => first_error(slots@) == Some(e),
            },
            r is Ok <==> valid_slots(slots@),
    {
        let n = slots.len();
        let mut i: usize = 0;
        while i < n
            invariant
                n == slots@.len(),
                0 <= i <= n,
                first_error(slots@.take(i as int)) is None,
            decreases n - i,
        {
            proof {
                assert(slots@.take(i as int + 1).drop_last() =~= slots@.take(i as int));
            }
            let entry = slots[i];
            if entry.threads == 0 {
                proof {
                    assert(entry_error(slots@.take(i as int + 1), i as int) == Some(
                        ConfigError::NoThreads { category: entry.category },
                    ));
                    lemma_first_error_prefix(slots@, i as int + 1);
                    lemma_first_error_none(slots@);
                }
                return Err(ConfigError::NoThreads { category: entry.category });
            }
            let mut j: usize = 0;
            while j < i
                invariant
                    n == slots@.len(),
                    0 <= j <= i < n,
                    entry == slots@[i as int],
                    entry.threads > 0,
                    first_error(slots@.take(i as int)) is None,
                    forall|k: int| 0 <= k < j ==> #[trigger] slots@[k].category != entry.category,
                decreases i - j,
            {
                if slots[j].category == entry.category {
                    proof {
                        let pre = slots@.take(i as int + 1);
                        assert(pre.drop_last() =~= slots@.take(i as int));
                        assert(pre[j as int].category == pre[i as int].category);
                        assert(declared_before(pre, i as int));
                        lemma_first_error_prefix(slots@, i as int + 1);
                        lemma_first_error_none(slots@);
                    }
                    return Err(ConfigError::DuplicateCategory { category: entry.category });
                }
                j = j + 1;
            }
            proof {
                let pre = slots@.take(i as int + 1);
                assert(!declared_before(pre, i as int)) by {
                    assert forall|k: int| 0 <= k < i implies #[trigger] pre[k].category
                        != pre[i as int].category by {
                        assert(slots@[k].category != entry.category);
                    }
                }
            }
            i = i + 1;
        }
        proof {
            assert(slots@.take(n as int) =~= slots@);
            lemma_first_error_none(slots@);
        }
        Ok(PoolPlan { slots })
    }

    /// Validates the categories that a pool descriptor declares, in the
    /// order given.
    pub fn from_descriptors<T: ThreadCategory>(descriptors: &Vec<ThreadCategoryDescriptor<T>>) -> (r:
        Result<PoolPlan, ConfigError>)
        ensures
            match r {
                Ok(plan) => plan.wf() && plan.slots() == slots_of(descriptors@),
                Err(e) => first_error(slots_of(descriptors@)) == Some(e),
            },
            r is Ok <==> valid_slots(slots_of(descriptors@)),
    {
        let mut slots: Vec<CategorySlot> = Vec::new();
        let mut i: usize = 0;
        while i < descriptors.len()
            invariant
                0 <= i <= descriptors@.len(),
                slots@ == slots_of(descriptors@).take(i as int),
            decreases descriptors@.len() - i,
        {
            let d = &descriptors[i];
            slots.push(CategorySlot { category: d.thread_category().index(), threads: d.number_of_threads() });
            i = i + 1;
            proof {
                assert(slots@ =~= slots_of(descriptors@).take(i as int));
            }
        }
        proof {
            assert(slots@ =~= slots_of(descriptors@));
        }
        PoolPlan::new(slots)
    }

    /// Number of categories.
    pub fn len(&self) -> (r: usize)
        ensures
            r == self.slots().len(),
    {
        self.slots.len()
    }

    /// The category declared at position `i`.
    pub fn slot(&self, i: usize) -> (r: CategorySlot)
        requires
            i < self.slots().len(),
        ensures
            r == self.slots()[i as int],
    {
        self.slots[i]
    }

    /// Position of the queue that serves `category`, if it was declared.
    pub fn slot_of(&self, category: usize) -> (r: Option<usize>)
        ensures
            match r {
                Some(i) => i < self.slots().len() && self.slots()[i as int].category == category,
                None => forall|i: int|
                    0 <= i < self.slots().len() ==> #[trigger] self.slots()[i].category != category,
            },
    {
        let mut i: usize = 0;
        while i < self.slots.len()
            invariant
                0 <= i <= self.slots().len(),
                forall|k: int| 0 <= k < i ==> #[trigger] self.slots()[k].category != category,
            decreases self.slots().len() - i,
        {
            if self.slots[i].category == category {
                return Some(i);
            }
            i = i + 1;
        }
        None
    }
}

/// In a valid plan each category is served by exactly one queue, and two
/// different categories never share a queue: work of one category is never
/// queued behind work of another.
pub proof fn lemma_categories_have_own_queues(plan: PoolPlan, a: usize, b: usize, i: int, j: int)
    requires
        plan.wf(),
        0 <= i < plan.slots().len(),
        0 <= j < plan.slots().len(),
        plan.slots()[i].category == a,
        plan.slots()[j].category == b,
    ensures
        a == b <==> i == j,
{
    if i < j {
        assert(plan.slots()[i].category != plan.slots()[j].category);
    } else if j < i {
        assert(plan.slots()[j].category != plan.slots()[i].category);
    }
}

/// An error found in a prefix of the entries is the error of the whole list.
proof fn lemma_first_error_prefix(slots: Seq<CategorySlot>, n: int)
    requires
        0 <= n <= slots.len(),
        first_error(slots.take(n)) is Some,
    ensures
        first_error(slots) == first_error(slots.take(n)),
    decreases slots.len() - n,
{
    if n < slots.len() {
        assert(slots.take(n + 1).drop_last() =~= slots.take(n));
        lemma_first_error_prefix(slots, n + 1);
    } else {
        assert(slots.take(n) =~= slots);
    }
}

} // verus!

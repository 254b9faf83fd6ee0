use engine::category::CategorySlot;
use engine::category::ConfigError;
use engine::category::EngineThreadCategory;
use engine::category::PoolPlan;
use engine::category::ThreadCategory;
use engine::category::ThreadCategoryDescriptor;
use engine::category::ThreadPoolDescriptor;

#[derive(Clone, Copy, PartialEq, Eq, Debug)]
enum TestThreadCategory {
    Category1,
    Category2,
    Category3,
}

impl ThreadCategory for TestThreadCategory {
    fn spec_index(&self) -> usize {
        *self as usize
    }

    fn index(&self) -> usize {
        *self as usize
    }
}

struct TestPool;

impl ThreadPoolDescriptor<TestThreadCategory> for TestPool {
    fn thread_category_descriptors(&self) -> Vec<ThreadCategoryDescriptor<TestThreadCategory>> {
        vec![
            ThreadCategoryDescriptor::new(TestThreadCategory::Category1, 3),
            ThreadCategoryDescriptor::new(TestThreadCategory::Category2, 3),
            ThreadCategoryDescriptor::new(TestThreadCategory::Category3, 3),
        ]
    }
}

fn slot(category: usize, threads: usize) -> CategorySlot {
    CategorySlot { category, threads }
}

#[test]
fn valid_pool_routes_each_category_to_its_own_queue() {
    let plan = PoolPlan::from_descriptors(&TestPool.thread_category_descriptors()).unwrap();
    assert_eq!(3, plan.len());
    assert_eq!(Some(0), plan.slot_of(TestThreadCategory::Category1.index()));
    assert_eq!(Some(1), plan.slot_of(TestThreadCategory::Category2.index()));
    assert_eq!(Some(2), plan.slot_of(TestThreadCategory::Category3.index()));
    assert_eq!(None, plan.slot_of(9));
    assert_eq!(slot(1, 3), plan.slot(1));
}

#[test]
fn zero_threads_is_refused() {
    let r = PoolPlan::new(vec![slot(0, 1), slot(1, 0)]);
    assert_eq!(Some(ConfigError::NoThreads { category: 1 }), r.err());
}

#[test]
fn duplicate_category_is_refused() {
    let r = PoolPlan::new(vec![slot(4, 1), slot(2, 2), slot(4, 3)]);
    assert_eq!(Some(ConfigError::DuplicateCategory { category: 4 }), r.err());
}

#[test]
fn first_malformed_entry_decides_the_error() {
    let r = PoolPlan::new(vec![slot(1, 1), slot(1, 1), slot(2, 0)]);
    assert_eq!(Some(ConfigError::DuplicateCategory { category: 1 }), r.err());
    let r = PoolPlan::new(vec![slot(1, 1), slot(2, 0), slot(1, 1)]);
    assert_eq!(Some(ConfigError::NoThreads { category: 2 }), r.err());
}

#[test]
fn empty_pool_is_valid() {
    let plan = PoolPlan::new(Vec::new()).unwrap();
    assert_eq!(0, plan.len());
    assert_eq!(None, plan.slot_of(0));
}

#[test]
fn descriptor_with_zero_threads_is_refused() {
    let descriptors = vec![
        ThreadCategoryDescriptor::new(EngineThreadCategory::Logger, 1),
        ThreadCategoryDescriptor::new(EngineThreadCategory::GameObject, 0),
    ];
    assert_eq!(Some(ConfigError::NoThreads { category: 1 }), PoolPlan::from_descriptors(&descriptors).err());
}

#[test]
fn descriptor_keeps_category_and_thread_count() {
    let d = ThreadCategoryDescriptor::new(EngineThreadCategory::GameObject, 4);
    assert_eq!(EngineThreadCategory::GameObject, d.thread_category());
    assert_eq!(4, d.number_of_threads());
    assert_eq!(0, EngineThreadCategory::Logger.index());
    assert_eq!(1, EngineThreadCategory::GameObject.index());
}

#[test]
fn single_descriptor_with_threads_is_valid() {
    let descriptors = vec![ThreadCategoryDescriptor::new(TestThreadCategory::Category2, 1)];
    let plan = PoolPlan::from_descriptors(&descriptors).unwrap();
    assert_eq!(slot(1, 1), plan.slot(0));
}

#[test]
fn descriptor_declared_twice_is_refused() {
    let descriptors = vec![
        ThreadCategoryDescriptor::new(TestThreadCategory::Category3, 2),
        ThreadCategoryDescriptor::new(TestThreadCategory::Category3, 2),
    ];
    assert_eq!(
        Some(ConfigError::DuplicateCategory { category: 2 }),
        PoolPlan::from_descriptors(&descriptors).err()
    );
}

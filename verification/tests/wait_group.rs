use quartz::wait_group::WaitGroup;

#[test]
fn barrier_opens_when_all_work_is_done() {
    let mut wg = WaitGroup::new();
    wg.add(1);
    wg.add(1);
    wg.done();
    wg.done();
    wg.wait();
}

#[test]
fn barrier_is_reusable_after_reaching_zero() {
    let mut wg = WaitGroup::new();
    wg.add(2);
    wg.done();
    wg.done();
    wg.wait();

    wg.add(1);
    wg.done();
    wg.wait();
}

#[test]
fn barrier_carries_the_largest_counter() {
    let mut wg = WaitGroup::new();
    wg.add(i32::MAX);
    wg.add(-i32::MAX);
    wg.wait();
}

#[test]
fn barrier_accepts_a_negative_delta_down_to_zero() {
    let mut wg = WaitGroup::new();
    wg.add(3);
    wg.add(-3);
    wg.wait();
}

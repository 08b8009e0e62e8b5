use boot_echo::scheduler::RoundRobin;

#[test]
fn polls_every_task_in_order_each_round() {
    let mut rr = RoundRobin::new(4);
    let polled: Vec<usize> = (0..8).map(|_| rr.poll_next()).collect();
    assert_eq!(polled, vec![0, 1, 2, 3, 0, 1, 2, 3]);
}

#[test]
fn single_task_is_polled_forever() {
    let mut rr = RoundRobin::new(1);
    for _ in 0..5 {
        assert_eq!(rr.poll_next(), 0);
    }
}

#[test]
fn no_task_starves_within_one_round() {
    let mut rr = RoundRobin::new(3);
    rr.poll_next();
    // From any standing of the cursor, one full round polls every task.
    let mut seen = [false; 3];
    for _ in 0..3 {
        seen[rr.poll_next()] = true;
    }
    assert_eq!(seen, [true, true, true]);
}

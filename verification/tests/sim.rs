use sdop_game::sim::sim_steps;

#[test]
fn whole_steps_and_carried_time() {
    assert_eq!(sim_steps(2500, 1000, 0), (2, 500));
    assert_eq!(sim_steps(2500, 1000, 600), (3, 100));
    // Exactly one step carried is kept, not run.
    assert_eq!(sim_steps(1000, 1000, 1000), (1, 1000));
    assert_eq!(sim_steps(0, 1000, 2001), (2, 1));
    assert_eq!(sim_steps(0, 1000, 0), (0, 0));
}

#[test]
fn no_time_is_lost() {
    let step = 1000;
    let mut extra = 0;
    let mut total_runs = 0;
    let mut total = 0;
    for delta in [16_667u64, 33_333, 999, 1, 250_000] {
        let (runs, e) = sim_steps(delta, step, extra);
        total_runs += runs;
        total += delta;
        extra = e;
        assert!(extra <= step);
    }
    assert_eq!(total_runs * step + extra, total);
}

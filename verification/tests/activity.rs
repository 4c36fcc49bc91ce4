use sdop_game::activity::{
    activity_plan, reset_wonder_end, wonder_end, Activity, ActivityConditions, ActivityPlan,
};
use sdop_game::tv::TvKind;

#[test]
fn plans_draw_times_in_their_ranges() {
    let mut rng = fastrand::Rng::with_seed(11);
    for _ in 0..50 {
        match activity_plan(&mut rng, Activity::GoOut, false, false) {
            ActivityPlan::GoneOut { outing_end_time } => {
                assert!((300_000..600_000).contains(&outing_end_time))
            }
            _ => panic!("expected going out"),
        }
        match activity_plan(&mut rng, Activity::Telescope, false, false) {
            ActivityPlan::Telescope { end_time } => {
                assert_eq!(end_time % 1000, 0);
                assert!((5..20).contains(&(end_time / 60_000)));
                assert!((end_time % 60_000) / 1000 >= 1);
                assert!((301_000..=1_199_000).contains(&end_time));
            }
            _ => panic!("expected the telescope"),
        }
        match activity_plan(&mut rng, Activity::WatchTv, false, true) {
            ActivityPlan::WatchingTv { tv, watch_end } => {
                assert_eq!(tv, TvKind::CRT);
                assert!(watch_end < 300_000);
            }
            _ => panic!("expected television"),
        }
        match activity_plan(&mut rng, Activity::PlayingComputer, false, false) {
            ActivityPlan::PlayingComputer { program_end_time, .. } => {
                assert!((30_000..180_000).contains(&program_end_time))
            }
            _ => panic!("expected the computer"),
        }
        let w = reset_wonder_end(&mut rng);
        assert!(w < 300_000 && w % 1000 == 0);
    }
    assert_eq!(activity_plan(&mut rng, Activity::Wonder, false, false), ActivityPlan::Wondering);
}

#[test]
fn wonder_end_picks_and_plans() {
    let mut rng = fastrand::Rng::with_seed(5);
    let conditions = ActivityConditions {
        playing_computer: false,
        watch_tv: false,
        read_book: false,
        listen_music: true,
        go_out: false,
        telescope: false,
    };
    let mut history = [0u64; 7];
    // Wandering about was just done; listening to music is off its cooldown.
    history[Activity::Wonder.index()] = 5_000_000;
    let (plan, next) = wonder_end(&mut rng, &conditions, &mut history, 5_000_000, false, false);
    assert!(next < 300_000);
    match plan {
        Some(ActivityPlan::PlayingMp3 { jam_end_time }) => {
            assert!((60_000..300_000).contains(&jam_end_time));
            assert_eq!(history[Activity::ListenMusic.index()], 5_000_000);
        }
        _ => panic!("expected music"),
    }
}

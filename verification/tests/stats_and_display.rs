use cube_marathon::display::{describe_app, describe_stats};
use cube_marathon::numfmt::{secs_to_string, time_to_string, two_digit_string, u128_to_string, u64_to_string};
use cube_marathon::session::{App, Key, MARATHON_SOLVES};
use cube_marathon::stats::{
    calculate_average, calculate_fastest, calculate_slowest, predict_marathon_time,
    predict_total_time,
};

fn session_with_durations(target_adjust_down: u8, durations: &[u64]) -> App {
    let mut app = App::default();
    for _ in 0..target_adjust_down {
        app.handle_key_event(Key::Left, 0);
    }
    app.handle_key_event(Key::Space, 0);
    let mut now = 0u64;
    for d in durations {
        now += d;
        app.handle_key_event(Key::Other, now);
    }
    app
}

#[test]
fn average_fastest_slowest_of_one_two_three_seconds() {
    let app = session_with_durations(0, &[1000, 2000, 3000]);
    assert_eq!(calculate_average(&app), Some(2000));
    assert_eq!(calculate_fastest(&app), Some(1000));
    assert_eq!(calculate_slowest(&app), Some(3000));
}

#[test]
fn statistics_are_absent_on_an_empty_session() {
    let mut app = App::default();
    assert_eq!(calculate_average(&app), None);
    assert_eq!(calculate_fastest(&app), None);
    assert_eq!(calculate_slowest(&app), None);
    assert_eq!(predict_total_time(&app), None);
    // still absent right after begin, before the first solve
    app.handle_key_event(Key::Space, 0);
    assert_eq!(calculate_average(&app), None);
    assert_eq!(calculate_fastest(&app), None);
    assert_eq!(calculate_slowest(&app), None);
}

#[test]
fn average_rounds_down() {
    let app = session_with_durations(0, &[1000, 1001]);
    assert_eq!(calculate_average(&app), Some(1000));
}

#[test]
fn predictions_scale_the_average() {
    let app = session_with_durations(0, &[1000, 3000]);
    // average 2000 ms, target still the marathon distance
    assert_eq!(
        predict_total_time(&app),
        Some(2000u128 * MARATHON_SOLVES as u128)
    );
    assert_eq!(predict_marathon_time(&app), 2000u128 * 42);
}

#[test]
fn decimal_rendering_is_exact() {
    assert_eq!(u64_to_string(0), "0");
    assert_eq!(u64_to_string(7), "7");
    assert_eq!(u64_to_string(42), "42");
    assert_eq!(u64_to_string(1234567890), "1234567890");
    assert_eq!(u128_to_string(340282366920938463463374607431768211455), "340282366920938463463374607431768211455");
    assert_eq!(two_digit_string(0), "00");
    assert_eq!(two_digit_string(9), "09");
    assert_eq!(two_digit_string(99), "99");
}

#[test]
fn seconds_rendering_keeps_two_decimals() {
    assert_eq!(secs_to_string(0), "0.00");
    assert_eq!(secs_to_string(1000), "1.00");
    assert_eq!(secs_to_string(9460), "9.46");
    assert_eq!(secs_to_string(999), "0.99");
    // truncated, not rounded
    assert_eq!(secs_to_string(1999), "1.99");
}

#[test]
fn minute_rendering_matches_formula() {
    assert_eq!(time_to_string(0), "0:0.00");
    assert_eq!(time_to_string(83_460), "1:23.46");
    assert_eq!(time_to_string(65_900), "1:5.90");
    assert_eq!(time_to_string(3_600_000), "60:0.00");
}

#[test]
fn setup_panel_prompts_for_the_target() {
    let app = App::default();
    let p = describe_app(&app);
    assert_eq!(p.title, " Cube Marathon Timer ");
    assert_eq!(
        p.instructions,
        vec![
            " Decrease ", "<Left>", " Increase ", "<Right>", " Begin ", "<Space>", " Quit ",
            "<Q> "
        ]
    );
    assert_eq!(p.lines, vec!["", "", "Cubes to solve: 42"]);
    assert!(p.centered);
}

#[test]
fn running_panel_lists_each_solve() {
    let app = session_with_durations(0, &[1000, 2460]);
    let p = describe_app(&app);
    assert_eq!(p.title, " Session in Progress! Times: ");
    assert_eq!(
        p.instructions,
        vec![" Current cube solved ", "<Any key>", " Quit ", "<Q> "]
    );
    assert_eq!(
        p.lines,
        vec![
            "Cube 1 solved in 1.00 sec ",
            "Cube 2 solved in 2.46 sec "
        ]
    );
    assert!(!p.centered);
}

#[test]
fn running_stats_show_placeholders_before_any_solve() {
    let mut app = App::default();
    app.handle_key_event(Key::Space, 0);
    let p = describe_stats(&app, 90_000);
    assert_eq!(p.title, " Statistics ");
    assert_eq!(
        p.lines,
        vec![
            "Current cube: 1 of 42",
            "Average: N/A sec",
            "Fastest solve: N/A sec",
            "Slowest solve: N/A sec",
            "Total time so far: 1:30.00 min",
            "Predicted total time: N/A min",
        ]
    );
}

#[test]
fn running_stats_report_live_numbers() {
    let app = session_with_durations(0, &[1000, 3000]);
    let p = describe_stats(&app, 5_000);
    assert_eq!(
        p.lines,
        vec![
            "Current cube: 3 of 42",
            "Average: 2.00 sec",
            "Fastest solve: 1.00 sec",
            "Slowest solve: 3.00 sec",
            "Total time so far: 0:5.00 min",
            "Predicted total time: 1:24.00 min",
        ]
    );
}

#[test]
fn finished_stats_project_a_marathon_for_other_targets() {
    // target 2: the session completes and differs from the marathon
    let app = session_with_durations(40, &[60_000, 120_000]);
    let p = describe_stats(&app, 999_999_999);
    assert_eq!(
        p.lines,
        vec![
            "Current cube: All 2 cubes solved!",
            "Average: 90.00 sec",
            "Fastest solve: 60.00 sec",
            "Slowest solve: 120.00 sec",
            "Total time: 3:0.00 min",
            // 90 s over 42 solves: 3780 s = 63 min
            "Estimated marathon time: 63:0.00 min",
        ]
    );
}

#[test]
fn finished_panel_keeps_the_solve_list_and_offers_restart() {
    let app = session_with_durations(40, &[1000, 2000]);
    let p = describe_app(&app);
    assert_eq!(p.title, " Session done! Times: ");
    assert_eq!(p.instructions, vec![" Restart ", "<R>", " Quit ", "<Q> "]);
    assert_eq!(
        p.lines,
        vec!["Cube 1 solved in 1.00 sec ", "Cube 2 solved in 2.00 sec "]
    );
    assert!(!p.centered);
}

#[test]
fn finished_stats_omit_the_projection_at_marathon_distance() {
    let durations = vec![1000u64; MARATHON_SOLVES as usize];
    let app = session_with_durations(0, &durations);
    let p = describe_stats(&app, 0);
    assert_eq!(p.lines.len(), 6);
    assert_eq!(p.lines[4], "Total time: 0:42.00 min");
    assert_eq!(p.lines[5], "");
}

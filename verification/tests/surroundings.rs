use productivity_timer::clock::Clock;
use productivity_timer::database::{
    bar_values, format_tags_pane, LifetimeOverview, Tag, TimeGained, TotalTimeAsSeconds,
};
use productivity_timer::error::TimerError;
use productivity_timer::instants::{
    convert_vec_to_vec_of_tuples, get_duration_from_vec_of_tupled_instants, report_time_gained,
};
use productivity_timer::oauth::{get_token, TokenStep};
use productivity_timer::paths::{
    database_filename, database_filename_in, filepath_in, get_filepath, names_timer_file,
    working_directory, working_directory_in,
};

#[test]
fn the_clock_does_not_go_backward() {
    let clock = Clock::new();
    let first = clock.now().unwrap();
    let mut spin: u64 = 0;
    while spin < 100_000 {
        spin += 1;
    }
    let second = clock.now().unwrap();
    assert!(first <= second);
    assert!(second < 3_600_000_000_000);
}

#[test]
fn the_files_of_the_timer_have_their_paths() {
    let home = Some("/home/alice".to_string());
    assert_eq!(filepath_in(home.clone(), "in"), Ok("/home/alice/.productivity-timer/in".to_string()));
    assert_eq!(
        filepath_in(home.clone(), "durations-average"),
        Ok("/home/alice/.productivity-timer/durations-average".to_string())
    );
    for name in ["in", "out", "err", "misc", "tag", "timer.pid", "time-gained", "durations-count"] {
        assert!(names_timer_file(name));
        assert_eq!(
            filepath_in(home.clone(), name),
            Ok(format!("/home/alice/.productivity-timer/{}", name))
        );
    }
}

#[test]
fn another_file_name_is_turned_away() {
    let home = Some("/home/alice".to_string());
    assert_eq!(filepath_in(home.clone(), "token"), Err(TimerError::InvalidFileName));
    assert_eq!(filepath_in(home, ""), Err(TimerError::InvalidFileName));
    assert_eq!(filepath_in(None, "nothing"), Err(TimerError::InvalidFileName));
    assert_eq!(get_filepath("nothing"), Err(TimerError::InvalidFileName));
    assert!(!names_timer_file("IN"));
}

#[test]
fn without_a_home_directory_there_is_no_path() {
    assert_eq!(filepath_in(None, "in"), Err(TimerError::NoHomeDirectory));
}

#[test]
fn the_directory_and_the_database_lie_below_home() {
    assert_eq!(working_directory_in("/home/alice"), "/home/alice/.productivity-timer");
    assert_eq!(
        database_filename_in("/home/alice"),
        "/home/alice/.productivity-timer/time_gained"
    );
}

#[test]
fn the_paths_of_this_user_agree_with_each_other() {
    match working_directory() {
        Ok(directory) => {
            assert!(directory.ends_with("/.productivity-timer"));
            assert!(directory.len() > "/.productivity-timer".len());
            assert_eq!(get_filepath("misc"), Ok(format!("{}/misc", directory)));
            assert_eq!(database_filename(), Ok(format!("{}/time_gained", directory)));
        }
        Err(e) => {
            assert_eq!(e, TimerError::NoHomeDirectory);
            assert_eq!(get_filepath("misc"), Err(TimerError::NoHomeDirectory));
            assert_eq!(database_filename(), Err(TimerError::NoHomeDirectory));
        }
    }
}

#[test]
fn an_overview_reads_as_two_lines() {
    let overview = LifetimeOverview {
        lifetime_total_time_avg: "01:02:03".to_string(),
        lifetime_durations_avg: "00:10:00".to_string(),
    };
    assert_eq!(
        overview.to_text(),
        "average total time: 01:02:03\n average duration: 00:10:00"
    );
}

#[test]
fn the_pane_of_tags_has_a_line_for_each_tag() {
    let tags = vec![
        Tag { value: "read".to_string(), duration: "01:00:00".to_string() },
        Tag { value: "write".to_string(), duration: "00:30:00".to_string() },
    ];
    assert_eq!(format_tags_pane(&tags), "read :: 01:00:00\nwrite :: 00:30:00\n");
    assert_eq!(format_tags_pane(&vec![]), "");
}

#[test]
fn the_bars_of_a_chart_are_the_totals() {
    let times = vec![
        TotalTimeAsSeconds { total_time: 3600 },
        TotalTimeAsSeconds { total_time: 0 },
        TotalTimeAsSeconds { total_time: i32::MAX },
    ];
    assert_eq!(bar_values(&times), Ok(vec![3600, 0, 2147483647]));
    assert_eq!(bar_values(&vec![]), Ok(vec![]));
    let times = vec![TotalTimeAsSeconds { total_time: 5 }, TotalTimeAsSeconds { total_time: -1 }];
    assert_eq!(bar_values(&times), Err(TimerError::NegativeTotal));
}

#[test]
fn a_listed_session_holds_what_the_store_gave() {
    let row = TimeGained {
        id: 3,
        total_time: 602,
        durations_count: 1,
        durations_avg: "00:10:02".to_string(),
    };
    assert_eq!(row.id, 3);
    assert_eq!(row.total_time, 602);
    assert_eq!(row.durations_count, 1);
    assert_eq!(row.durations_avg, "00:10:02");
}

#[test]
fn readings_are_paired_in_order() {
    assert_eq!(convert_vec_to_vec_of_tuples(vec![1, 4, 10, 12]), Ok(vec![(1, 4), (10, 12)]));
    assert_eq!(convert_vec_to_vec_of_tuples(vec![]), Ok(vec![]));
}

#[test]
fn an_odd_number_of_readings_is_turned_away() {
    assert_eq!(convert_vec_to_vec_of_tuples(vec![1, 4, 10]), Err(TimerError::UnpairedInstant));
    assert_eq!(report_time_gained(vec![1], vec![5]), Err(TimerError::UnpairedInstant));
}

#[test]
fn pairs_and_additions_add_up() {
    assert_eq!(
        get_duration_from_vec_of_tupled_instants(vec![(1, 4), (10, 12)], vec![100, 1000]),
        Ok(1105)
    );
    assert_eq!(report_time_gained(vec![1, 4, 10, 12], vec![100]), Ok(105));
    assert_eq!(report_time_gained(vec![], vec![]), Ok(0));
}

#[test]
fn a_pair_that_ends_before_it_starts_is_an_error() {
    assert_eq!(
        get_duration_from_vec_of_tupled_instants(vec![(1, 4), (12, 10)], vec![]),
        Err(TimerError::ClockWentBackward)
    );
    assert_eq!(
        get_duration_from_vec_of_tupled_instants(vec![(12, 10)], vec![u128::MAX, 1]),
        Err(TimerError::ClockWentBackward)
    );
}

#[test]
fn a_sum_of_spans_beyond_the_range_is_an_error() {
    assert_eq!(
        get_duration_from_vec_of_tupled_instants(vec![(0, 1)], vec![u128::MAX]),
        Err(TimerError::Overflow)
    );
    assert_eq!(
        get_duration_from_vec_of_tupled_instants(vec![(0, u128::MAX), (0, 1)], vec![]),
        Err(TimerError::Overflow)
    );
    assert_eq!(
        get_duration_from_vec_of_tupled_instants(vec![], vec![u128::MAX]),
        Ok(u128::MAX)
    );
}

#[test]
fn a_stored_token_is_used() {
    assert!(matches!(get_token(Some("abc".to_string()), false), TokenStep::Use(t) if t == "abc"));
    assert!(matches!(get_token(Some("abc".to_string()), true), TokenStep::Use(t) if t == "abc"));
}

#[test]
fn the_authorization_runs_once() {
    assert!(matches!(get_token(None, false), TokenStep::Authorize));
    assert!(matches!(get_token(None, true), TokenStep::Missing));
}

#[test]
fn a_span_from_the_machine_is_the_reading() {
    assert_eq!(Clock::reading(Some(0)), Ok(0));
    assert_eq!(Clock::reading(Some(1_500_000_000)), Ok(1_500_000_000));
    assert_eq!(Clock::reading(Some(u128::MAX)), Ok(u128::MAX));
}

#[test]
fn no_span_from_the_machine_is_no_reading() {
    assert_eq!(Clock::reading(None), Err(TimerError::ClockUnavailable));
}

use frame_video::timing::{is_in_order, plan, FrameTiming, TimingError};

#[test]
fn plan_gives_durations_and_presentation_times() {
    let out = plan(0, &vec![100, 250, 400]).unwrap();
    assert_eq!(
        out,
        vec![
            FrameTiming { duration: 100, cumulative: 0, sync: true },
            FrameTiming { duration: 150, cumulative: 100, sync: false },
            FrameTiming { duration: 150, cumulative: 250, sync: false },
        ]
    );
}

#[test]
fn plan_measures_the_first_frame_from_the_start() {
    let out = plan(40, &vec![100, 130]).unwrap();
    assert_eq!(out[0], FrameTiming { duration: 60, cumulative: 0, sync: true });
    assert_eq!(out[1], FrameTiming { duration: 30, cumulative: 60, sync: false });
}

#[test]
fn plan_of_no_frame_is_empty() {
    assert_eq!(plan(7, &Vec::new()), Ok(Vec::new()));
}

#[test]
fn plan_accepts_equal_timestamps() {
    let out = plan(5, &vec![5, 5, 9]).unwrap();
    assert_eq!(
        out,
        vec![
            FrameTiming { duration: 0, cumulative: 0, sync: true },
            FrameTiming { duration: 0, cumulative: 0, sync: false },
            FrameTiming { duration: 4, cumulative: 0, sync: false },
        ]
    );
}

#[test]
fn plan_names_the_first_frame_out_of_order() {
    assert_eq!(plan(0, &vec![10, 30, 20, 5]), Err(TimingError { index: 2 }));
}

#[test]
fn plan_refuses_a_frame_before_the_start() {
    assert_eq!(plan(11, &vec![10, 30]), Err(TimingError { index: 0 }));
}

#[test]
fn plan_takes_the_whole_range_of_timestamps() {
    let out = plan(0, &vec![u64::MAX]).unwrap();
    assert_eq!(out, vec![FrameTiming { duration: u64::MAX, cumulative: 0, sync: true }]);
    let out = plan(1, &vec![2, u64::MAX]).unwrap();
    assert_eq!(out[1], FrameTiming { duration: u64::MAX - 2, cumulative: 1, sync: false });
}

#[test]
fn presentation_times_are_sums_of_earlier_durations() {
    let stamps: Vec<u64> = vec![3, 3, 10, 11, 40, 40, 41, 1000];
    let out = plan(1, &stamps).unwrap();
    let mut sum: u64 = 0;
    for i in 0..out.len() {
        assert_eq!(out[i].cumulative, sum);
        if i + 1 < out.len() {
            assert!(out[i].cumulative <= out[i + 1].cumulative);
            if out[i].duration > 0 {
                assert!(out[i].cumulative < out[i + 1].cumulative);
            }
        }
        sum += out[i].duration;
    }
    assert_eq!(out[0].cumulative, 0);
}

#[test]
fn only_the_first_frame_is_sync() {
    let out = plan(0, &vec![0, 0, 0, 7]).unwrap();
    for i in 0..out.len() {
        assert_eq!(out[i].sync, i == 0);
    }
}

#[test]
fn order_check_agrees_with_plan() {
    assert!(is_in_order(0, &vec![]));
    assert!(is_in_order(0, &vec![0, 0, 1]));
    assert!(!is_in_order(1, &vec![0, 2]));
    assert!(!is_in_order(0, &vec![4, 3]));
    assert!(is_in_order(3, &vec![3]));
}

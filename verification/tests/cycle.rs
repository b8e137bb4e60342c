use monochord::cycle::{locate, CyclePosition};

/// The distance of a position from the reference, in whole cents.
fn offset(pos: CyclePosition, cents: &[i64]) -> i64 {
    let period = cents.last().copied().unwrap_or(0);
    match pos {
        CyclePosition::Origin => 0,
        CyclePosition::Boundary { periods } => periods as i64 * period,
        CyclePosition::Above { periods, degree } => periods as i64 * period + cents[degree],
        CyclePosition::Below { periods, degree } => {
            periods as i64 * period + (cents[degree] - period)
        }
    }
}

/// The distance of a step from the reference, found by walking there one
/// step at a time through the cycle laid end to end.
fn walked(cents: &[i64], step: i32) -> i64 {
    let len = cents.len() as i32;
    if len == 0 {
        return 0;
    }
    let rise = |place: i32| -> i64 {
        // What one step up from `place` in the cycle adds.
        let here = if place == 0 { 0 } else { cents[place as usize - 1] };
        cents[place as usize] - here
    };
    let mut at: i64 = 0;
    let mut place: i32 = 0;
    let mut done: i32 = 0;
    while done < step {
        at += rise(place);
        place = (place + 1) % len;
        done += 1;
    }
    while done > step {
        place = (place + len - 1) % len;
        at -= rise(place);
        done -= 1;
    }
    at
}

#[test]
fn locate_in_empty_cycle_is_origin() {
    assert_eq!(locate(0, 0), CyclePosition::Origin);
    assert_eq!(locate(0, 5), CyclePosition::Origin);
    assert_eq!(locate(0, -5), CyclePosition::Origin);
    assert_eq!(locate(0, i32::MIN), CyclePosition::Origin);
}

#[test]
fn locate_step_zero_is_the_reference() {
    for len in 1..10usize {
        assert_eq!(locate(len, 0), CyclePosition::Boundary { periods: 0 });
    }
}

#[test]
fn locate_in_cycle_of_two() {
    assert_eq!(locate(2, 1), CyclePosition::Above { periods: 0, degree: 0 });
    assert_eq!(locate(2, 2), CyclePosition::Boundary { periods: 1 });
    assert_eq!(locate(2, 3), CyclePosition::Above { periods: 1, degree: 0 });
    assert_eq!(locate(2, -1), CyclePosition::Below { periods: 0, degree: 0 });
    assert_eq!(locate(2, -2), CyclePosition::Boundary { periods: -1 });
    assert_eq!(locate(2, -3), CyclePosition::Below { periods: -1, degree: 0 });
    assert_eq!(locate(2, -4), CyclePosition::Boundary { periods: -2 });
}

#[test]
fn locate_in_cycle_of_three() {
    assert_eq!(locate(3, 1), CyclePosition::Above { periods: 0, degree: 0 });
    assert_eq!(locate(3, 2), CyclePosition::Above { periods: 0, degree: 1 });
    assert_eq!(locate(3, 3), CyclePosition::Boundary { periods: 1 });
    assert_eq!(locate(3, 4), CyclePosition::Above { periods: 1, degree: 0 });
    assert_eq!(locate(3, -1), CyclePosition::Below { periods: 0, degree: 1 });
    assert_eq!(locate(3, -2), CyclePosition::Below { periods: 0, degree: 0 });
    assert_eq!(locate(3, -3), CyclePosition::Boundary { periods: -1 });
    assert_eq!(locate(3, -4), CyclePosition::Below { periods: -1, degree: 1 });
    assert_eq!(locate(3, -7), CyclePosition::Below { periods: -2, degree: 1 });
}

#[test]
fn locate_in_cycle_of_one() {
    assert_eq!(locate(1, 7), CyclePosition::Boundary { periods: 7 });
    assert_eq!(locate(1, -7), CyclePosition::Boundary { periods: -7 });
    assert_eq!(locate(1, i32::MAX), CyclePosition::Boundary { periods: i32::MAX });
    assert_eq!(locate(1, i32::MIN), CyclePosition::Boundary { periods: i32::MIN });
}

#[test]
fn locate_at_the_ends_of_the_step_range() {
    assert_eq!(locate(12, i32::MAX), CyclePosition::Above { periods: 178956970, degree: 6 });
    assert_eq!(locate(12, i32::MIN), CyclePosition::Below { periods: -178956970, degree: 3 });
    assert_eq!(locate(2, i32::MIN), CyclePosition::Boundary { periods: -1073741824 });
}

#[test]
fn locate_in_cycle_longer_than_any_step() {
    let len = 0x8000_0000usize;
    assert_eq!(locate(len, i32::MAX), CyclePosition::Above { periods: 0, degree: len - 2 });
    assert_eq!(locate(len, -1), CyclePosition::Below { periods: 0, degree: len - 2 });
    assert_eq!(locate(len, i32::MIN), CyclePosition::Boundary { periods: -1 });
    assert_eq!(
        locate(usize::MAX, -1),
        CyclePosition::Below { periods: 0, degree: usize::MAX - 2 }
    );
    assert_eq!(locate(usize::MAX, 1), CyclePosition::Above { periods: 0, degree: 0 });
}

#[test]
fn located_degree_lies_in_the_cycle() {
    for len in 1..9usize {
        for step in -50..50 {
            match locate(len, step) {
                CyclePosition::Origin => panic!("a cycle of {len} is not empty"),
                CyclePosition::Boundary { .. } => assert_eq!(step.rem_euclid(len as i32), 0),
                CyclePosition::Above { degree, .. } => {
                    assert!(step > 0);
                    assert!(degree < len);
                }
                CyclePosition::Below { degree, .. } => {
                    assert!(step < 0);
                    assert!(degree < len);
                }
            }
        }
    }
}

#[test]
fn located_offset_is_the_walked_offset() {
    let cycles: [&[i64]; 5] = [
        &[1200],
        &[702, 1200],
        &[386, 702, 1200],
        &[204, 386, 498, 702, 884, 1088, 1200],
        &[100, 1902],
    ];
    for cents in cycles {
        for step in -60..60 {
            assert_eq!(
                offset(locate(cents.len(), step), cents),
                walked(cents, step),
                "step {step} of {cents:?}"
            );
        }
    }
}

#[test]
fn located_offset_is_periodic() {
    let cents: [i64; 3] = [386, 702, 1200];
    for step in -40..40 {
        let here = offset(locate(3, step), &cents);
        let next_lap = offset(locate(3, step + 3), &cents);
        assert_eq!(next_lap, here + 1200, "step {step}");
    }
    assert_eq!(offset(locate(3, -1), &cents), 702 - 1200);
    assert_eq!(offset(locate(3, 2), &cents), 702);
    assert_eq!(offset(locate(3, 5), &cents), 702 + 1200);
}

use imap_sec::bisect::{Bisect, ConvergenceError};

#[test]
fn test_api() {
    for expected_maximum in 0..=100 {
        println!("Expected {}", expected_maximum);

        let mut bisect = Bisect::new(0, u64::MAX);

        loop {
            println!("BEFORE {:?}", bisect);

            if let Some(current) = bisect.next() {
                println!("current {}", current);

                // Our test.
                if current <= expected_maximum {
                    println!("accept");
                    bisect.accept();
                } else {
                    println!("reject");
                    bisect.reject();
                }
            } else {
                break;
            }

            println!("AFTER {:?}", bisect);
        }

        let got = bisect.finish().unwrap();

        println!("Got {got}");
        assert_eq!(expected_maximum, got);
    }
}

#[test]
fn next_is_none_iff_bracket_collapsed() {
    let converged = Bisect::new(7, 7);
    assert_eq!(converged.next(), None);

    let open = Bisect::new(7, 8);
    assert!(open.next().is_some());
}

#[test]
fn finish_before_convergence_is_refused() {
    let open = Bisect::new(3, 4);
    assert_eq!(open.finish(), Err(ConvergenceError));

    let converged = Bisect::new(3, 3);
    assert_eq!(converged.finish(), Ok(3));
}

#[test]
fn midpoint_of_full_domain_does_not_overflow() {
    let bisect = Bisect::new(0, u64::MAX);
    assert_eq!(bisect.next(), Some(u64::MAX / 2));
}

#[test]
fn one_wide_bracket_tests_the_upper_edge() {
    // With a 1-wide gap the searcher jumps straight to the upper edge
    // instead of a true midpoint.
    let bisect = Bisect::new(10, 11);
    assert_eq!(bisect.next(), Some(11));
}

#[test]
fn converges_to_42_over_0_to_100() {
    let mut bisect = Bisect::new(0, 100);
    while let Some(current) = bisect.next() {
        if current <= 42 {
            bisect.accept();
        } else {
            bisect.reject();
        }
    }
    assert_eq!(bisect.finish(), Ok(42));
}

#[test]
fn single_point_interval_converges_without_testing() {
    // The predicate is false everywhere, but over [5, 5] no candidate is
    // ever proposed: the search is converged from the start.
    let mut candidates_tested = 0u32;
    let bisect = Bisect::new(5, 5);
    while let Some(_current) = bisect.next() {
        candidates_tested += 1;
        break;
    }
    assert_eq!(candidates_tested, 0);
    assert_eq!(bisect.finish(), Ok(5));
}

#[test]
fn getters_track_the_bracket() {
    let mut bisect = Bisect::new(0, 100);
    assert_eq!(bisect.min(), 0);
    assert_eq!(bisect.max(), 100);

    assert_eq!(bisect.next(), Some(50));
    bisect.accept();
    assert_eq!(bisect.min(), 50);
    assert_eq!(bisect.max(), 100);

    assert_eq!(bisect.next(), Some(75));
    bisect.reject();
    assert_eq!(bisect.min(), 50);
    assert_eq!(bisect.max(), 74);
}

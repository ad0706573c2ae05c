use balls::sweep_pairs;

#[test]
fn no_balls_visit_no_pairs() {
    assert!(sweep_pairs(0).is_empty());
}

#[test]
fn one_ball_visits_no_pairs() {
    assert!(sweep_pairs(1).is_empty());
}

#[test]
fn two_balls_visit_one_pair() {
    assert_eq!(sweep_pairs(2), vec![(0, 1)]);
}

#[test]
fn four_balls_visit_pairs_in_ascending_order() {
    assert_eq!(
        sweep_pairs(4),
        vec![(0, 1), (0, 2), (0, 3), (1, 2), (1, 3), (2, 3)]
    );
}

#[test]
fn twenty_balls_visit_each_pair_once() {
    let pairs = sweep_pairs(20);
    assert_eq!(pairs.len(), 190);
    for i in 0..20usize {
        for j in 0..20usize {
            let seen = pairs.iter().filter(|p| **p == (i, j)).count();
            assert_eq!(seen, if i < j { 1 } else { 0 });
        }
    }
    for w in pairs.windows(2) {
        assert!(w[0] < w[1]);
    }
}

use interval::interval::Bound;
use interval::interval::Interval;

// The fixture set of the interval ordering tests, drawn on the value line:
//
// unbounded           <----------------------->
//
// open_unb_a              (------------------->
// open_unb_b                  (--------------->
//
// closed_unb_a            [------------------->
// closed_unb_b                [--------------->
//
// unb_open_a          <---------------)
// unb_open_b          <-------------------)
//
// unb_closed_a        <---------------]
// unb_closed_b        <-------------------]
//
// open_open_a             (---------------)
// open_open_b                 (-------)
// open_open_c             (-------)
// open_open_d                     (-------)
//
// closed_closed_a         [---------------]
// closed_closed_b             [-------]
// closed_closed_c         [-------]
// closed_closed_d                 [-------]
//
// open_closed_a           (---------------]
// open_closed_b               (-------]
// open_closed_c           (-------]
// open_closed_d                   (-------]
//
// closed_open_a           [---------------)
// closed_open_b               [-------)
// closed_open_c           [-------)
// closed_open_d                   [-------)
//
//                         0   1   2   3   4

fn unbounded() -> Interval<i64> {
    Interval(Bound::Unbounded, Bound::Unbounded)
}

fn open_unb_a() -> Interval<i64> {
    Interval(Bound::Open(0), Bound::Unbounded)
}

fn open_unb_b() -> Interval<i64> {
    Interval(Bound::Open(1), Bound::Unbounded)
}

fn closed_unb_a() -> Interval<i64> {
    Interval(Bound::Closed(0), Bound::Unbounded)
}

fn closed_unb_b() -> Interval<i64> {
    Interval(Bound::Closed(1), Bound::Unbounded)
}

fn all_intervals() -> Vec<Interval<i64>> {
    vec![
        unbounded(),
        open_unb_a(),
        open_unb_b(),
        closed_unb_a(),
        closed_unb_b(),
        Interval(Bound::Unbounded, Bound::Open(3)),
        Interval(Bound::Unbounded, Bound::Open(4)),
        Interval(Bound::Unbounded, Bound::Closed(3)),
        Interval(Bound::Unbounded, Bound::Closed(4)),
        Interval(Bound::Open(0), Bound::Open(4)),
        Interval(Bound::Open(1), Bound::Open(3)),
        Interval(Bound::Open(0), Bound::Open(2)),
        Interval(Bound::Open(2), Bound::Open(4)),
        Interval(Bound::Closed(0), Bound::Closed(4)),
        Interval(Bound::Closed(1), Bound::Closed(3)),
        Interval(Bound::Closed(0), Bound::Closed(2)),
        Interval(Bound::Closed(2), Bound::Closed(4)),
        Interval(Bound::Closed(0), Bound::Open(4)),
        Interval(Bound::Closed(1), Bound::Open(3)),
        Interval(Bound::Closed(0), Bound::Open(2)),
        Interval(Bound::Closed(2), Bound::Open(4)),
        Interval(Bound::Open(0), Bound::Closed(4)),
        Interval(Bound::Open(1), Bound::Closed(3)),
        Interval(Bound::Open(0), Bound::Closed(2)),
        Interval(Bound::Open(2), Bound::Closed(4)),
    ]
}

// The intervals whose left bound falls on 1.
fn left_1_intervals() -> Vec<Interval<i64>> {
    vec![
        open_unb_b(),
        closed_unb_b(),
        Interval(Bound::Open(1), Bound::Open(3)),
        Interval(Bound::Closed(1), Bound::Closed(3)),
        Interval(Bound::Open(1), Bound::Closed(3)),
        Interval(Bound::Closed(1), Bound::Open(3)),
    ]
}

// The intervals whose left bound falls on 2.
fn left_2_intervals() -> Vec<Interval<i64>> {
    vec![
        Interval(Bound::Open(2), Bound::Open(4)),
        Interval(Bound::Closed(2), Bound::Closed(4)),
        Interval(Bound::Open(2), Bound::Closed(4)),
        Interval(Bound::Closed(2), Bound::Open(4)),
    ]
}

#[test]
fn identity_lt() {
    for interval in all_intervals().iter() {
        assert!(!(interval < interval));
    }
}

#[test]
fn identity_lte() {
    for interval in all_intervals().iter() {
        assert!(interval <= interval);
    }
}

#[test]
fn unbounded_lt() {
    assert!(unbounded() < open_unb_a());
    assert!(unbounded() < closed_unb_a());
}

#[test]
fn unbounded_lte() {
    for interval in all_intervals().iter() {
        assert!(unbounded() <= *interval);
    }
}

#[test]
fn interval_open_lt() {
    // The intervals with a left open 0 bound.
    let left_open_0_intervals: Vec<Interval<i64>> = vec![
        open_unb_a(),
        Interval(Bound::Open(0), Bound::Open(4)),
        Interval(Bound::Open(0), Bound::Open(2)),
        Interval(Bound::Open(0), Bound::Closed(4)),
        Interval(Bound::Open(0), Bound::Closed(2)),
    ];

    for open_interval in left_open_0_intervals.iter() {
        for interval in left_1_intervals().iter() {
            assert!(open_interval < interval);
        }
        for interval in left_2_intervals().iter() {
            assert!(open_interval < interval);
        }
    }
}

#[test]
fn open_lt() {
    assert!(open_unb_a() < open_unb_b());
    assert!(open_unb_a() < closed_unb_b());
    assert!(open_unb_a() < Interval(Bound::Open(1), Bound::Open(3)));
    assert!(open_unb_a() < Interval(Bound::Closed(1), Bound::Closed(3)));
    assert!(open_unb_a() < Interval(Bound::Open(1), Bound::Closed(3)));
    assert!(open_unb_a() < Interval(Bound::Closed(1), Bound::Open(3)));
}

#[test]
fn open_lte() {
    assert!(open_unb_a() <= open_unb_b());
    assert!(open_unb_a() <= closed_unb_b());
}

#[test]
fn closed_lt() {
    assert!(closed_unb_a() < closed_unb_b());
    assert!(closed_unb_a() < open_unb_a());
    assert!(closed_unb_a() < open_unb_b());
}

#[test]
fn unbounded_not_below_itself() {
    assert!(!(unbounded() < unbounded()));
    assert!(unbounded() <= unbounded());
}

#[test]
fn closed_open_tie_break_at_equal_value() {
    // At the same boundary value a closed lower edge comes strictly before
    // an open one, never the other way round.
    assert!(Interval(Bound::Closed(1), Bound::Unbounded) < Interval(Bound::Open(1), Bound::Unbounded));
    assert!(Interval(Bound::Closed(1), Bound::Unbounded) <= Interval(Bound::Open(1), Bound::Unbounded));
    assert!(!(Interval(Bound::Open(1), Bound::Unbounded) < Interval(Bound::Closed(1), Bound::Unbounded)));
}

#[test]
fn closed_lte_open_at_equal_value() {
    let closed_0 = Interval(Bound::Closed(0), Bound::Unbounded);
    let open_0 = Interval(Bound::Open(0), Bound::Unbounded);
    assert!(closed_0 <= open_0);
    assert!(!(open_0 < closed_0));
    // The two tie in the order without being structurally equal.
    assert!(closed_0 != open_0);
}

#[test]
fn order_ignores_right_edge() {
    // Equal left edges are order-equal whatever the right edges are.
    let narrow = Interval(Bound::Open(1), Bound::Open(2));
    let wide = Interval(Bound::Open(1), Bound::Closed(9));
    assert!(!(narrow < wide));
    assert!(!(wide < narrow));
    assert!(narrow <= wide);
    assert!(wide <= narrow);
    assert!(narrow != wide);
}

#[test]
fn interval_structural_equality() {
    let a = Interval(Bound::Open(1), Bound::Closed(3));
    let b = Interval(Bound::Open(1), Bound::Closed(3));
    assert_eq!(a, b);
    assert!(a != Interval(Bound::Closed(1), Bound::Closed(3)));
    assert!(a != Interval(Bound::Open(1), Bound::Open(3)));
}

#[test]
fn pairwise_comparability() {
    // Any two fixture intervals are comparable under the non-strict order.
    for x in all_intervals().iter() {
        for y in all_intervals().iter() {
            assert!(x <= y || y <= x);
        }
    }
}

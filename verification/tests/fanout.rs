use cluster_net::fanout::{fan_out, flags, in_flight, join, mark_ready, Dispatch};

#[test]
fn fan_out_lists_every_gateway_in_order() {
    let dispatches = fan_out(7u32, 3);
    assert_eq!(
        dispatches,
        vec![
            Dispatch { gateway: 0, message: 7u32 },
            Dispatch { gateway: 1, message: 7u32 },
            Dispatch { gateway: 2, message: 7u32 },
        ]
    );
}

#[test]
fn fan_out_without_gateways_is_empty() {
    assert!(fan_out(7u32, 0).is_empty());
}

#[test]
fn join_is_the_conjunction() {
    assert_eq!(join(&vec![]), None);
    assert_eq!(join(&vec![true]), Some(true));
    assert_eq!(join(&vec![false]), Some(false));
    assert_eq!(join(&vec![true, true, true]), Some(true));
    assert_eq!(join(&vec![true, false, true]), Some(false));
    assert_eq!(join(&vec![false, true, true]), Some(false));
    assert_eq!(join(&vec![true, true, false]), Some(false));
}

#[test]
fn nothing_is_in_flight_without_gateways() {
    assert!(!in_flight(&vec![]));
    assert!(!in_flight(&vec![true, true]));
    assert!(in_flight(&vec![true, false]));
}

#[test]
fn flags_are_all_alike() {
    assert_eq!(flags(0, true), Vec::<bool>::new());
    assert_eq!(flags(3, true), vec![true, true, true]);
    assert_eq!(flags(2, false), vec![false, false]);
}

#[test]
fn mark_ready_sets_one_flag() {
    let mut ready = vec![false, false, false];
    mark_ready(&mut ready, 1);
    assert_eq!(ready, vec![false, true, false]);
    mark_ready(&mut ready, 1);
    assert_eq!(ready, vec![false, true, false]);
    mark_ready(&mut ready, 3);
    assert_eq!(ready, vec![false, true, false]);
    mark_ready(&mut ready, usize::MAX);
    assert_eq!(ready, vec![false, true, false]);
}

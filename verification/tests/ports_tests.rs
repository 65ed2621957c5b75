use loopback_auth::ports::bind_step;
use loopback_auth::ports::candidate_ports;
use loopback_auth::ports::shuffled_candidates;
use loopback_auth::ports::BindDecision;
use loopback_auth::ports::BindEvent;
use loopback_auth::ports::PortScan;

#[test]
fn the_shuffled_candidates_are_a_permutation() {
    for _ in 0..16 {
        let mut shuffled = shuffled_candidates();
        shuffled.sort();
        assert_eq!(shuffled, vec![3003u16, 17465, 22496]);
    }
}

#[test]
fn the_candidates_are_the_registered_ports() {
    assert_eq!(candidate_ports(), vec![3003u16, 17465, 22496]);
}

#[test]
fn a_scan_hands_out_each_candidate_once_in_order() {
    let mut scan = PortScan::new(vec![3003u16, 17465, 22496]);
    assert_eq!(scan.next_candidate(), Some(3003));
    assert_eq!(scan.next_candidate(), Some(17465));
    assert_eq!(scan.next_candidate(), Some(22496));
    assert_eq!(scan.next_candidate(), None);
    assert_eq!(scan.next_candidate(), None);
}

#[test]
fn only_a_port_in_use_is_worth_another_try() {
    assert_eq!(bind_step(&BindEvent::Bound), BindDecision::UsePort);
    assert_eq!(bind_step(&BindEvent::AddrInUse), BindDecision::TryNext);
    assert_eq!(bind_step(&BindEvent::OtherError), BindDecision::AbortFlow);
}

#[test]
fn two_occupied_candidates_still_lead_to_the_free_one() {
    // ports A and B answer "in use"; the scan settles on C, whatever
    // the order it walks them in
    for order in [
        [3003u16, 17465, 22496],
        [17465, 3003, 22496],
        [22496, 3003, 17465],
        [22496, 17465, 3003],
        [3003, 22496, 17465],
        [17465, 22496, 3003],
    ] {
        let occupied = |p: u16| p == 3003 || p == 17465;
        let mut scan = PortScan::new(order.to_vec());
        let mut settled = None;
        while let Some(port) = scan.next_candidate() {
            let ev = if occupied(port) { BindEvent::AddrInUse } else { BindEvent::Bound };
            match bind_step(&ev) {
                BindDecision::UsePort => {
                    settled = Some(port);
                    break;
                }
                BindDecision::TryNext => continue,
                BindDecision::AbortFlow => panic!("no systemic failure was reported"),
            }
        }
        assert_eq!(settled, Some(22496));
    }
}

#[test]
fn all_candidates_occupied_exhausts_the_scan() {
    let mut scan = PortScan::new(vec![3003u16, 17465, 22496]);
    let mut settled = None;
    while let Some(_port) = scan.next_candidate() {
        match bind_step(&BindEvent::AddrInUse) {
            BindDecision::UsePort => panic!("an occupied port cannot be used"),
            BindDecision::TryNext => continue,
            BindDecision::AbortFlow => panic!("in-use is not systemic"),
        }
    }
    assert_eq!(settled.take(), None::<u16>);
}

#[test]
fn a_systemic_bind_failure_aborts_at_once() {
    let mut scan = PortScan::new(vec![3003u16, 17465, 22496]);
    let first = scan.next_candidate().unwrap();
    assert_eq!(first, 3003);
    assert_eq!(bind_step(&BindEvent::OtherError), BindDecision::AbortFlow);
}

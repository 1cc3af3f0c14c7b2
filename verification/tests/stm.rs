use oxdz::format::stm::StmEvent;

#[test]
fn test_event() {
    let e = StmEvent::from_slice(&[255, 1, 128, 0]);
    assert_eq!(e.to_string(), "--- -- -- .00");

    let e = StmEvent::from_slice(&[34, 113, 128, 0]);
    assert_eq!(e.to_string(), "D 5 0E -- .00");

    let e = StmEvent::from_slice(&[52, 50, 100, 204]);
    assert_eq!(e.to_string(), "E 6 06 32 DCC");

    let e = StmEvent::from_slice(&[50, 49, 128, 0]);
    assert_eq!(e.to_string(), "D 6 06 -- .00");
}

use seer::utils::SimpleRng;

#[test]
fn rng() {
    let mut rng = SimpleRng::new();

    assert_eq!(rng.gen(), 64934999470316615);
    assert_eq!(rng.gen(), 15459456780870779090);
    assert_eq!(rng.gen(), 13715484424881807779);
    assert_eq!(rng.gen(), 17718572936700675021);
    assert_eq!(rng.gen(), 14587996314750246637);
}

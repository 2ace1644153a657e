use tock_boards::memory::Region;

#[test]
fn region_runs_up_to_its_end() {
    assert_eq!(Region::between(0x3_0000, 0x8_0000), Region { start: 0x3_0000, len: 0x5_0000 });
}

#[test]
fn region_may_be_empty() {
    assert_eq!(Region::between(0x2000_0000, 0x2000_0000), Region { start: 0x2000_0000, len: 0 });
}

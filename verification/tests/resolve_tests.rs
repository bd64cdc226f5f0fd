use st_fifo_tool::profile::{Device, bdr_get_index};

#[test]
fn resolver_picks_nearest_rate() {
    let d = Device::profile(0);
    // 100 Hz requested: 104 Hz (index 4) is nearest in the legacy table.
    assert_eq!(bdr_get_index(&d.bdr_acc, 100_000), 4);
    // 0 requested: entry 0 matches exactly.
    assert_eq!(bdr_get_index(&d.bdr_acc, 0), 0);
    // far beyond the table: the largest rate, 6666 Hz at index 10.
    assert_eq!(bdr_get_index(&d.bdr_acc, 99_999_999), 10);
}

#[test]
fn resolver_breaks_ties_toward_the_lower_index() {
    let d = Device::profile(0);
    // 19.5 Hz sits exactly between 13 Hz (index 1) and 26 Hz (index 2):
    // the lower index wins.
    assert_eq!(bdr_get_index(&d.bdr_acc, 19_500), 1);
    // 1.875 Hz on the newer generation is exact at index 1.
    let d1 = Device::profile(1);
    assert_eq!(bdr_get_index(&d1.bdr_acc, 1_875), 1);
    // 4.5 Hz is nearer 1.875 Hz than 7.5 Hz, so index 1 beats index 2.
    assert_eq!(bdr_get_index(&d1.bdr_acc, 4_500), 1);
}

#[test]
fn profile_tables_match_their_generation() {
    let d0 = Device::profile(0);
    assert_eq!(d0.tag_valid_limit, 0x19);
    assert_eq!(d0.dtime[1], 3072);
    assert_eq!(d0.bdr_acc[11], 1_625);
    let d1 = Device::profile(1);
    assert_eq!(d1.tag_valid_limit, 0x1E);
    assert_eq!(d1.dtime[1], 24576);
    assert_eq!(d1.bdr_acc[12], 7_680_000);
}

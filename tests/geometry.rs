use conpty_session::geometry::{coord_from_sizeinfo, Coord, SizeInfo, COORD_MAX};

#[test]
fn converts_common_size() {
    let size = SizeInfo::new(80, 24);
    assert_eq!(coord_from_sizeinfo(&size), Some(Coord { x: 80, y: 24 }));
}

#[test]
fn converts_largest_representable_size() {
    let size = SizeInfo::new(32767, 32767);
    assert_eq!(coord_from_sizeinfo(&size), Some(Coord { x: 32767, y: 32767 }));
    assert_eq!(COORD_MAX, 32767);
}

#[test]
fn converts_empty_size() {
    let size = SizeInfo::new(0, 0);
    assert_eq!(coord_from_sizeinfo(&size), Some(Coord { x: 0, y: 0 }));
}

#[test]
fn rejects_too_many_columns() {
    assert_eq!(coord_from_sizeinfo(&SizeInfo::new(32768, 24)), None);
    assert_eq!(coord_from_sizeinfo(&SizeInfo::new(100000, 24)), None);
}

#[test]
fn rejects_too_many_lines() {
    assert_eq!(coord_from_sizeinfo(&SizeInfo::new(80, 32768)), None);
    assert_eq!(coord_from_sizeinfo(&SizeInfo::new(80, usize::MAX)), None);
}

#[test]
fn never_wraps_to_small_value() {
    // 65616 would wrap to 80 in 16 bits.
    assert_eq!(coord_from_sizeinfo(&SizeInfo::new(65616, 24)), None);
}

#[test]
fn size_info_getters() {
    let size = SizeInfo::new(132, 43);
    assert_eq!(size.columns(), 132);
    assert_eq!(size.screen_lines(), 43);
}

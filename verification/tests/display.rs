use dxgi_capture::display::{Display, OutputDesc, Rect, Rotation};

fn name_of(text: &str) -> [u16; 32] {
    let mut name = [0u16; 32];
    for (i, unit) in text.encode_utf16().enumerate() {
        name[i] = unit;
    }
    name
}

fn desc(left: i32, top: i32, right: i32, bottom: i32) -> OutputDesc {
    OutputDesc {
        device_name: name_of("\\\\.\\DISPLAY1"),
        coordinates: Rect { left, top, right, bottom },
        rotation: Rotation::Identity,
    }
}

#[test]
fn width_and_height_are_edge_differences() {
    let d = Display::new(0, 0, desc(0, 0, 1920, 1080));
    assert_eq!(d.width(), 1920);
    assert_eq!(d.height(), 1080);
}

#[test]
fn geometry_of_an_output_left_of_the_origin() {
    let d = Display::new(0, 1, desc(-1280, -24, 0, 1000));
    assert_eq!(d.width(), 1280);
    assert_eq!(d.height(), 1024);
}

#[test]
fn degenerate_rectangle_has_no_positive_extent() {
    let d = Display::new(0, 0, desc(10, 10, 10, 5));
    assert!(d.desc().coordinates.measurable());
    assert!(!d.desc().coordinates.proper());
    assert_eq!(d.width(), 0);
    assert_eq!(d.height(), -5);
}

#[test]
fn rectangle_too_wide_to_measure() {
    let r = Rect { left: i32::MIN, top: 0, right: 1, bottom: 1 };
    assert!(!r.measurable());
    assert!(!r.proper());
    let widest = Rect { left: i32::MIN, top: 0, right: -1, bottom: 1 };
    assert!(widest.measurable());
    assert!(widest.proper());
}

#[test]
fn display_keeps_its_indices_and_rotation() {
    let mut described = desc(0, 0, 800, 600);
    described.rotation = Rotation::Rotate270;
    let d = Display::new(3, 7, described);
    assert_eq!(d.adapter(), 3);
    assert_eq!(d.output(), 7);
    assert_eq!(d.rotation(), Rotation::Rotate270);
}

#[test]
fn name_stops_at_the_first_zero_unit() {
    let d = Display::new(0, 0, desc(0, 0, 1, 1));
    let expected: Vec<u16> = "\\\\.\\DISPLAY1".encode_utf16().collect();
    assert_eq!(d.name(), &expected[..]);
    assert_eq!(d.name().len(), 12);
}

#[test]
fn name_without_zero_unit_is_whole() {
    let mut described = desc(0, 0, 1, 1);
    described.device_name = [65u16; 32];
    let d = Display::new(0, 0, described);
    assert_eq!(d.name().len(), 32);
    assert_eq!(d.name(), &[65u16; 32][..]);
}

#[test]
fn name_that_starts_with_zero_is_empty() {
    let mut described = desc(0, 0, 1, 1);
    described.device_name = [0u16; 32];
    described.device_name[1] = 66;
    let d = Display::new(0, 0, described);
    assert!(d.name().is_empty());
}

#[test]
fn rotation_from_mode_numbers() {
    assert_eq!(Rotation::from_mode(0), Some(Rotation::Unspecified));
    assert_eq!(Rotation::from_mode(1), Some(Rotation::Identity));
    assert_eq!(Rotation::from_mode(2), Some(Rotation::Rotate90));
    assert_eq!(Rotation::from_mode(3), Some(Rotation::Rotate180));
    assert_eq!(Rotation::from_mode(4), Some(Rotation::Rotate270));
    assert_eq!(Rotation::from_mode(5), None);
    assert_eq!(Rotation::from_mode(u32::MAX), None);
}

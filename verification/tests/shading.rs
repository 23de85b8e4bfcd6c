use procedural::biome::{classify, Rgb};
use procedural::shading::{dim, shade, SHADING_FLOOR};

#[test]
fn first_column_keeps_its_colour() {
    for height in 0u8..=255 {
        let color = classify(height);
        assert_eq!(shade(height, None, color), color);
    }
}

#[test]
fn lower_cell_east_of_a_higher_one_is_darkened() {
    let unshaded = classify(150);
    assert_eq!(unshaded, Rgb { r: 36, g: 35, b: 36 });
    let shaded = shade(150, Some(200), unshaded);
    assert_eq!(shaded, Rgb { r: 25, g: 24, b: 25 });
    assert_eq!(shaded.r, (0.7 * f64::from(unshaded.r)).floor() as u8);
    assert_eq!(shaded.g, (0.7 * f64::from(unshaded.g)).floor() as u8);
    assert_eq!(shaded.b, (0.7 * f64::from(unshaded.b)).floor() as u8);
}

#[test]
fn darkening_takes_seven_tenths_of_each_channel() {
    let shaded = shade(80, Some(81), Rgb { r: 249, g: 217, b: 134 });
    assert_eq!(shaded, Rgb { r: 174, g: 151, b: 93 });
    let white = shade(220, Some(255), Rgb { r: 255, g: 255, b: 255 });
    assert_eq!(white, Rgb { r: 178, g: 178, b: 178 });
}

#[test]
fn equal_or_higher_cell_is_not_shaded() {
    let color = Rgb { r: 69, g: 127, b: 31 };
    assert_eq!(shade(100, Some(100), color), color);
    assert_eq!(shade(100, Some(60), color), color);
    assert_eq!(shade(255, Some(255), color), color);
}

#[test]
fn cells_below_the_floor_are_not_shaded() {
    let color = Rgb { r: 23, g: 60, b: 114 };
    assert_eq!(SHADING_FLOOR, 55);
    assert_eq!(shade(54, Some(200), color), color);
    assert_eq!(shade(0, Some(255), color), color);
    assert_eq!(shade(55, Some(56), color), Rgb { r: 16, g: 42, b: 79 });
}

#[test]
fn dim_is_the_floor_of_seven_tenths() {
    assert_eq!(dim(0), 0);
    assert_eq!(dim(1), 0);
    assert_eq!(dim(10), 7);
    assert_eq!(dim(255), 178);
    for channel in 0u8..=255 {
        assert_eq!(dim(channel), (u32::from(channel) * 7 / 10) as u8);
        assert_eq!(dim(channel), (0.7f32 * f32::from(channel)) as u8);
        assert!(dim(channel) <= channel);
    }
}

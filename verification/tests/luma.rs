use barcode_scan::luma::convert_js_image_to_luma;

#[test]
fn opaque_white_is_full_luminance() {
    assert_eq!(convert_js_image_to_luma(&[255, 255, 255, 255]), vec![255]);
}

#[test]
fn transparent_pixel_is_white_whatever_its_color() {
    assert_eq!(convert_js_image_to_luma(&[0, 0, 0, 0]), vec![255]);
    assert_eq!(convert_js_image_to_luma(&[17, 200, 3, 0]), vec![255]);
}

#[test]
fn opaque_black_is_zero() {
    assert_eq!(convert_js_image_to_luma(&[0, 0, 0, 255]), vec![0]);
}

#[test]
fn fixed_point_weights_match_exactly() {
    // (306 * 10 + 601 * 20 + 117 * 30 + 512) / 1024 == 19102 / 1024 == 18
    assert_eq!(convert_js_image_to_luma(&[10, 20, 30, 255]), vec![18]);
    // (306 * 255 + 512) / 1024 == 76
    assert_eq!(convert_js_image_to_luma(&[255, 0, 0, 255]), vec![76]);
    // (601 * 255 + 512) / 1024 == 150
    assert_eq!(convert_js_image_to_luma(&[0, 255, 0, 255]), vec![150]);
    // (117 * 255 + 512) / 1024 == 29
    assert_eq!(convert_js_image_to_luma(&[0, 0, 255, 255]), vec![29]);
}

#[test]
fn output_length_is_input_length_over_four_rounded_down() {
    assert_eq!(convert_js_image_to_luma(&[]).len(), 0);
    assert_eq!(convert_js_image_to_luma(&[1, 2, 3]).len(), 0);
    assert_eq!(convert_js_image_to_luma(&[1, 2, 3, 255, 9]).len(), 1);
    assert_eq!(convert_js_image_to_luma(&[0; 19]).len(), 4);
}

#[test]
fn pixels_stay_in_order() {
    let data = [
        255, 255, 255, 255, // white
        0, 0, 0, 255, // black
        1, 2, 3, 0, // transparent
    ];
    assert_eq!(convert_js_image_to_luma(&data), vec![255, 0, 255]);
}

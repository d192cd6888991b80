use fast_qr::ECL;
use qr_app::{generate_image, new_qr_code_image, render_code, QrGenerationRequest};

const TOO_BIG: &str = "Data too big to be encoded";

fn request(data: String, correction_level: Option<ECL>) -> QrGenerationRequest {
    QrGenerationRequest { data, correction_level }
}

fn fits(data: String, correction_level: Option<ECL>) -> bool {
    match new_qr_code_image(request(data, correction_level)) {
        Ok(_) => true,
        Err(message) => {
            assert_eq!(message, TOO_BIG);
            false
        }
    }
}

#[test]
fn default_request_gives_square_rgba_image() {
    let result = generate_image(request("Test data 123".to_string(), None));
    let image = result.expect("QRCode generation returned error!");
    assert_eq!(image.width(), image.height());
    assert_eq!(
        image.pixels().len(),
        image.width() as usize * image.height() as usize * 4
    );
}

#[test]
fn default_request_has_version_two_dimensions() {
    // 13 bytes in byte mode at level Q need version 2: 25 modules and a margin of 4 each side.
    let image = generate_image(request("Test data 123".to_string(), None)).unwrap();
    assert_eq!(image.width(), 33);
    assert_eq!(image.height(), 33);
    assert_eq!(image.pixels().len(), 4356);
}

#[test]
fn margin_is_white_and_finder_corner_is_black() {
    let image = generate_image(request("ABC".to_string(), None)).unwrap();
    assert_eq!(image.width(), 29);
    let pixels = image.pixels();
    assert_eq!(&pixels[0..4], &[255, 255, 255, 255]);
    let corner = (4 * 29 + 4) * 4;
    assert_eq!(&pixels[corner..corner + 4], &[0, 0, 0, 255]);
}

#[test]
fn images_of_different_texts_differ() {
    let a = generate_image(request("A".to_string(), None)).unwrap();
    let abc = generate_image(request("ABC".to_string(), None)).unwrap();
    assert_eq!(a.width(), abc.width());
    assert_ne!(a.pixels(), abc.pixels());
}

#[test]
fn same_request_gives_same_image() {
    let one = generate_image(request("Test data 123".to_string(), Some(ECL::H))).unwrap();
    let two = generate_image(request("Test data 123".to_string(), Some(ECL::H))).unwrap();
    assert_eq!(one.width(), two.width());
    assert_eq!(one.height(), two.height());
    assert_eq!(one.pixels(), two.pixels());
}

#[test]
fn level_changes_the_image() {
    let low = generate_image(request("Test data 123".to_string(), Some(ECL::L))).unwrap();
    let high = generate_image(request("Test data 123".to_string(), Some(ECL::H))).unwrap();
    // 13 bytes fit version 1 at level L and need version 2 at level H.
    assert_eq!(low.width(), 29);
    assert_eq!(high.width(), 33);
}

#[test]
fn no_level_means_level_q() {
    let unnamed = generate_image(request("Test data 123".to_string(), None)).unwrap();
    let named = generate_image(request("Test data 123".to_string(), Some(ECL::Q))).unwrap();
    assert_eq!(unnamed.pixels(), named.pixels());
}

#[test]
fn empty_text_is_encoded() {
    let image = generate_image(request(String::new(), None)).unwrap();
    assert_eq!(image.width(), 29);
    assert_eq!(image.pixels().len(), 29 * 29 * 4);
}

#[test]
fn rendering_a_built_code_gives_the_pipeline_image() {
    let code = new_qr_code_image(request("AB".to_string(), Some(ECL::M))).unwrap();
    let drawn = render_code(&code);
    let piped = generate_image(request("AB".to_string(), Some(ECL::M))).unwrap();
    assert_eq!(drawn.width(), piped.width());
    assert_eq!(drawn.pixels(), piped.pixels());
}

#[test]
fn refusal_carries_the_generator_message() {
    let result = generate_image(request("a".repeat(3000), None));
    match result {
        Ok(_) => panic!("a payload beyond every capacity was encoded"),
        Err(message) => assert_eq!(message, "Data too big to be encoded"),
    }
}

#[test]
fn byte_capacity_at_each_level() {
    assert!(fits("a".repeat(2953), Some(ECL::L)));
    assert!(!fits("a".repeat(2954), Some(ECL::L)));
    assert!(fits("a".repeat(2331), Some(ECL::M)));
    assert!(!fits("a".repeat(2332), Some(ECL::M)));
    assert!(fits("a".repeat(1663), Some(ECL::Q)));
    assert!(!fits("a".repeat(1664), Some(ECL::Q)));
    assert!(fits("a".repeat(1273), Some(ECL::H)));
    assert!(!fits("a".repeat(1274), Some(ECL::H)));
}

#[test]
fn alphanumeric_capacity_at_each_level() {
    assert!(fits("A".repeat(4296), Some(ECL::L)));
    assert!(!fits("A".repeat(4297), Some(ECL::L)));
    assert!(fits("A".repeat(3391), Some(ECL::M)));
    assert!(!fits("A".repeat(3392), Some(ECL::M)));
    assert!(fits("A".repeat(2420), Some(ECL::Q)));
    assert!(!fits("A".repeat(2421), Some(ECL::Q)));
    assert!(fits("A".repeat(1852), Some(ECL::H)));
    assert!(!fits("A".repeat(1853), Some(ECL::H)));
}

#[test]
fn numeric_capacity_at_each_level() {
    assert!(fits("7".repeat(7089), Some(ECL::L)));
    assert!(!fits("7".repeat(7090), Some(ECL::L)));
    assert!(fits("7".repeat(5596), Some(ECL::M)));
    assert!(!fits("7".repeat(5597), Some(ECL::M)));
    assert!(fits("7".repeat(3993), Some(ECL::Q)));
    assert!(!fits("7".repeat(3994), Some(ECL::Q)));
    assert!(fits("7".repeat(3057), Some(ECL::H)));
    assert!(!fits("7".repeat(3058), Some(ECL::H)));
}

#[test]
fn default_level_has_the_capacity_of_level_q() {
    assert!(fits("a".repeat(1663), None));
    assert!(!fits("a".repeat(1664), None));
    assert!(fits("A".repeat(2420), None));
    assert!(!fits("A".repeat(2421), None));
    assert!(fits("7".repeat(3993), None));
    assert!(!fits("7".repeat(3994), None));
}

#[test]
fn one_byte_outside_a_set_changes_the_encoding() {
    // A letter among digits makes the payload alphanumeric; a lower-case one makes it bytes.
    let mut digits_and_letter = "7".repeat(2420);
    digits_and_letter.push('A');
    assert!(!fits(digits_and_letter, None));
    let mut letters_and_lower = "A".repeat(1663);
    letters_and_lower.push('a');
    assert!(!fits(letters_and_lower, None));
    let mut still_alphanumeric = "7".repeat(2419);
    still_alphanumeric.push(':');
    assert!(fits(still_alphanumeric, None));
}

#[test]
fn every_alphanumeric_symbol_counts_as_alphanumeric() {
    for symbol in [' ', '$', '%', '*', '+', '-', '.', '/', ':', 'Z', '0', '9'] {
        let mut text = "A".repeat(2419);
        text.push(symbol);
        assert!(fits(text, None), "{symbol:?} was not taken as alphanumeric");
    }
    for symbol in ['a', '!', '#', '&', ',', ';', '@', '[', '_'] {
        let mut text = "A".repeat(1663);
        text.push(symbol);
        assert!(!fits(text, None), "{symbol:?} was taken as alphanumeric");
    }
}

#[test]
fn capacity_counts_utf8_bytes() {
    // Each of these characters takes two bytes.
    assert!(fits("\u{e9}".repeat(831), None));
    assert!(!fits("\u{e9}".repeat(832), None));
}

#[test]
fn largest_code_is_rendered() {
    // Version 40 has 177 modules to the side.
    let image = generate_image(request("7".repeat(7089), Some(ECL::L))).unwrap();
    assert_eq!(image.width(), 185);
    assert_eq!(image.height(), 185);
    assert_eq!(image.pixels().len(), 185 * 185 * 4);
}

#[test]
fn every_pixel_is_opaque_black_or_white() {
    let image = generate_image(request("Test data 123".to_string(), None)).unwrap();
    for pixel in image.pixels().chunks(4) {
        assert!(pixel == [0, 0, 0, 255] || pixel == [255, 255, 255, 255]);
    }
}

#[test]
fn images_are_square_and_covered_at_every_size() {
    for level in [None, Some(ECL::L), Some(ECL::M), Some(ECL::Q), Some(ECL::H)] {
        for length in [0, 1, 7, 20, 100, 400, 1000, 1273] {
            let image = generate_image(request("q".repeat(length), level)).unwrap();
            assert!(image.width() >= 1);
            assert_eq!(image.width(), image.height());
            assert_eq!(
                image.pixels().len(),
                image.width() as usize * image.height() as usize * 4
            );
        }
    }
}

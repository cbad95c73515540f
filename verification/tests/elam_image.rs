use std::io::Write;

use ppl_service::elam::{choose_elam_image, elam_image};

fn gzip(data: &[u8]) -> Vec<u8> {
    let mut e = flate2::write::GzEncoder::new(Vec::new(), flate2::Compression::default());
    e.write_all(data).unwrap();
    e.finish().unwrap()
}

#[test]
fn compressed_image_is_decompressed() {
    let driver: Vec<u8> = (0..2000u32).map(|i| (i * 7 % 251) as u8).collect();
    let shipped = gzip(&driver);
    assert_ne!(shipped, driver);
    assert_eq!(elam_image(&shipped), driver);
}

#[test]
fn data_that_is_not_gzip_is_used_as_it_is() {
    let raw = b"MZ\x90\x00 not compressed".to_vec();
    assert_eq!(elam_image(&raw), raw);
    assert_eq!(elam_image(&[]), Vec::<u8>::new());
}

#[test]
fn only_the_first_member_is_decompressed() {
    let mut shipped = gzip(b"first");
    shipped.extend(gzip(b"second"));
    assert_eq!(elam_image(&shipped), b"first".to_vec());
}

#[test]
fn choice_prefers_the_decompressed_data() {
    assert_eq!(choose_elam_image(b"abc", Some(b"xyz".to_vec())), b"xyz".to_vec());
    assert_eq!(choose_elam_image(b"abc", None), b"abc".to_vec());
}

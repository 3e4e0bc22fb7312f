use pulsodoro::image::{data_url, image_data_url, mime_for_extension};
use pulsodoro::text::{extension_of, str_equal};

#[test]
fn extension_is_what_follows_the_last_dot() {
    assert_eq!(extension_of("photo.jpg"), "jpg");
    assert_eq!(extension_of("archive.tar.gz"), "gz");
    assert_eq!(extension_of("/home/me/pictures/lake.PNG"), "PNG");
    assert_eq!(extension_of(".hidden"), "hidden");
}

#[test]
fn extension_of_a_path_without_dot_is_the_whole_path() {
    assert_eq!(extension_of("photo"), "photo");
    assert_eq!(extension_of(""), "");
}

#[test]
fn extension_after_a_final_dot_is_empty() {
    assert_eq!(extension_of("photo."), "");
    assert_eq!(extension_of("."), "");
    assert_eq!(extension_of("a..b.."), "");
}

#[test]
fn extension_may_reach_across_directories() {
    assert_eq!(extension_of("/home/me.d/photo"), "d/photo");
}

#[test]
fn extension_counts_characters_not_bytes() {
    assert_eq!(extension_of("caf\u{e9}.\u{fc}ber"), "\u{fc}ber");
    assert_eq!(extension_of("\u{1f600}.\u{1f600}"), "\u{1f600}");
    assert_eq!(extension_of("\u{65e5}\u{672c}.png"), "png");
}

#[test]
fn str_equal_compares_characters() {
    assert!(str_equal("", ""));
    assert!(str_equal("jpg", "jpg"));
    assert!(str_equal("\u{fc}ber", "\u{fc}ber"));
    assert!(!str_equal("jpg", "jpeg"));
    assert!(!str_equal("jpg", "jpG"));
    assert!(!str_equal("jpg", ""));
    assert!(!str_equal("", "jpg"));
    assert!(!str_equal("uber", "\u{fc}ber"));
}

#[test]
fn mime_types_by_extension() {
    assert_eq!(mime_for_extension("jpg"), "image/jpeg");
    assert_eq!(mime_for_extension("jpeg"), "image/jpeg");
    assert_eq!(mime_for_extension("png"), "image/png");
    assert_eq!(mime_for_extension("gif"), "image/gif");
    assert_eq!(mime_for_extension("webp"), "image/webp");
    assert_eq!(mime_for_extension("bmp"), "image/bmp");
}

#[test]
fn unknown_extensions_count_as_png() {
    assert_eq!(mime_for_extension("tiff"), "image/png");
    assert_eq!(mime_for_extension(""), "image/png");
    assert_eq!(mime_for_extension("JPG"), "image/png");
    assert_eq!(mime_for_extension("jpg "), "image/png");
}

#[test]
fn data_url_layout() {
    assert_eq!(data_url("image/gif", "R0lG"), "data:image/gif;base64,R0lG");
    assert_eq!(data_url("", ""), "data:;base64,");
}

#[test]
fn image_data_url_encodes_the_bytes_in_base64() {
    assert_eq!(image_data_url("hello.png", b"hello"), "data:image/png;base64,aGVsbG8=");
    assert_eq!(image_data_url("a.gif", b"GIF89a"), "data:image/gif;base64,R0lGODlh");
    assert_eq!(image_data_url("a.bmp", &[0xfb, 0xff]), "data:image/bmp;base64,+/8=");
    assert_eq!(image_data_url("a.webp", b"a"), "data:image/webp;base64,YQ==");
}

#[test]
fn image_data_url_of_an_empty_file() {
    assert_eq!(image_data_url("empty.jpg", &[]), "data:image/jpeg;base64,");
}

#[test]
fn image_data_url_ignores_the_case_of_the_extension() {
    assert_eq!(image_data_url("PHOTO.JPG", b"hello"), "data:image/jpeg;base64,aGVsbG8=");
    assert_eq!(image_data_url("photo.Jpeg", b"hello"), "data:image/jpeg;base64,aGVsbG8=");
    assert_eq!(image_data_url("anim.GiF", b"hello"), "data:image/gif;base64,aGVsbG8=");
}

#[test]
fn image_data_url_of_a_path_without_known_extension_is_png() {
    assert_eq!(image_data_url("photo", b"hello"), "data:image/png;base64,aGVsbG8=");
    assert_eq!(image_data_url("photo.", b"hello"), "data:image/png;base64,aGVsbG8=");
    assert_eq!(image_data_url("jpg", b"hello"), "data:image/jpeg;base64,aGVsbG8=");
    assert_eq!(image_data_url("/pictures.jpg/photo", b"hello"), "data:image/png;base64,aGVsbG8=");
}

use geopattern::encoding::{base64, base64_data_uri, data_uri, minify};

#[test]
fn minify_leaves_out_every_line_feed() {
    assert_eq!(minify("<svg>\n<rect/>\n</svg>"), "<svg><rect/></svg>");
    assert_eq!(minify("\n\n"), "");
    assert_eq!(minify("\n"), "");
    assert_eq!(minify("a\n\nb\n"), "ab");
}

#[test]
fn minify_keeps_other_characters() {
    assert_eq!(minify(""), "");
    assert_eq!(minify("a b\tc\r"), "a b\tc\r");
    assert_eq!(minify("é\n→"), "é→");
    assert_eq!(minify("a\0b"), "a\0b");
}

#[test]
fn data_uri_carries_the_minified_text() {
    assert_eq!(data_uri("<svg>\n</svg>"), "data:image/svg+xml;utf8,<svg></svg>");
    assert_eq!(data_uri(""), "data:image/svg+xml;utf8,");
}

#[test]
fn base64_encodes_the_minified_text() {
    assert_eq!(base64("<svg>\n</svg>"), "PHN2Zz48L3N2Zz4=");
    assert_eq!(base64("hello world"), "aGVsbG8gd29ybGQ=");
    assert_eq!(base64(""), "");
}

#[test]
fn base64_data_uri_carries_the_base64_text() {
    assert_eq!(base64_data_uri("<svg>\n</svg>"), "data:image/svg+xml;base64,PHN2Zz48L3N2Zz4=");
    assert_eq!(base64_data_uri("hello world"), "data:image/svg+xml;base64,aGVsbG8gd29ybGQ=");
}

use tinyimage::invocation::{
    filter_image_args, has_image_extension, is_image_path, open_file_path, parse_args,
    parse_argv, parse_files_from_url, parse_url, url_wants_background, Invocation,
};
use tinyimage::percent::{
    escape_bytes, hex_digit, percent_decode, percent_encode, unescape_range,
};
use tinyimage::query::{find_byte, has_query_param, read_query_files, starts_with_at};

fn strings(items: &[&str]) -> Vec<String> {
    items.iter().map(|s| s.to_string()).collect()
}

#[test]
fn filter_keeps_images_in_order() {
    let kept = filter_image_args(strings(&[
        "a.png", "b.txt", "c.WEBP", "d.jpeg", "notes", "e.jpg", "f.gif",
    ]));
    assert_eq!(kept, strings(&["a.png", "c.WEBP", "d.jpeg", "e.jpg"]));
}

#[test]
fn filter_ignores_case_of_extension() {
    assert!(is_image_path("photo.png"));
    assert!(is_image_path("PHOTO.PNG"));
    assert!(is_image_path("Photo.JpEg"));
    assert!(is_image_path("scan.WebP"));
    assert!(is_image_path("/tmp/x.JPG"));
    assert!(!is_image_path("photo.gif"));
    assert!(!is_image_path("photo.png.txt"));
    assert!(!is_image_path(""));
    assert!(!is_image_path("--compress"));
}

#[test]
fn filter_matches_the_end_of_the_name() {
    assert!(is_image_path("archivepng"));
    assert!(is_image_path("png"));
    assert!(!is_image_path("pn"));
    assert!(!is_image_path("png "));
}

#[test]
fn image_extension_is_checked_on_lower_case_text() {
    assert!(has_image_extension("a.png"));
    assert!(has_image_extension("a.jpg"));
    assert!(has_image_extension("a.jpeg"));
    assert!(has_image_extension("a.webp"));
    assert!(!has_image_extension("a.PNG"));
    assert!(!has_image_extension("a.bmp"));
}

#[test]
fn filter_of_nothing_is_nothing() {
    assert_eq!(filter_image_args(Vec::new()), Vec::<String>::new());
    assert_eq!(filter_image_args(strings(&["a", "b.txt"])), Vec::<String>::new());
}

#[test]
fn parse_args_finds_flag_and_files() {
    let (flag, files) = parse_args(strings(&["--compress", "/x/a.png", "/x/b.jpg"]));
    assert!(flag);
    assert_eq!(files, strings(&["/x/a.png", "/x/b.jpg"]));

    let (flag, files) = parse_args(strings(&["/x/a.png", "readme.md"]));
    assert!(!flag);
    assert_eq!(files, strings(&["/x/a.png"]));

    let (flag, files) = parse_args(strings(&["--compress"]));
    assert!(flag);
    assert!(files.is_empty());

    let (flag, files) = parse_args(Vec::new());
    assert!(!flag);
    assert!(files.is_empty());
}

#[test]
fn parse_args_needs_the_exact_flag() {
    let (flag, files) = parse_args(strings(&["--Compress", "-compress", "--compress=1", "a.png"]));
    assert!(!flag);
    assert_eq!(files, strings(&["a.png"]));
}

#[test]
fn argv_flag_position_is_irrelevant() {
    let expected = Invocation::FilesToCompressSilently(strings(&["a.png", "b.jpg", "c.webp"]));
    assert_eq!(parse_argv(strings(&["--compress", "a.png", "b.jpg", "c.webp"])), expected);
    assert_eq!(parse_argv(strings(&["a.png", "--compress", "b.jpg", "c.webp"])), expected);
    assert_eq!(parse_argv(strings(&["a.png", "b.jpg", "--compress", "c.webp"])), expected);
    assert_eq!(parse_argv(strings(&["a.png", "b.jpg", "c.webp", "--compress"])), expected);
    assert_eq!(
        parse_argv(strings(&["--compress", "a.png", "--compress", "b.jpg", "c.webp"])),
        expected
    );
}

#[test]
fn argv_without_flag_opens_files() {
    assert_eq!(
        parse_argv(strings(&["z.JPEG", "notes.txt", "a.png"])),
        Invocation::FilesToOpen(strings(&["z.JPEG", "a.png"]))
    );
}

#[test]
fn argv_without_images_is_empty() {
    assert_eq!(parse_argv(Vec::new()), Invocation::Empty);
    assert_eq!(parse_argv(strings(&["--compress"])), Invocation::Empty);
    assert_eq!(parse_argv(strings(&["--compress", "file.txt"])), Invocation::Empty);
    assert_eq!(parse_argv(strings(&["file.txt", "--verbose"])), Invocation::Empty);
}

#[test]
fn hex_digits_are_read_in_both_cases() {
    assert_eq!(hex_digit(b'0'), Some(0));
    assert_eq!(hex_digit(b'9'), Some(9));
    assert_eq!(hex_digit(b'a'), Some(10));
    assert_eq!(hex_digit(b'f'), Some(15));
    assert_eq!(hex_digit(b'A'), Some(10));
    assert_eq!(hex_digit(b'F'), Some(15));
    assert_eq!(hex_digit(b'g'), None);
    assert_eq!(hex_digit(b'G'), None);
    assert_eq!(hex_digit(b'/'), None);
    assert_eq!(hex_digit(b':'), None);
    assert_eq!(hex_digit(b'@'), None);
    assert_eq!(hex_digit(b'`'), None);
    assert_eq!(hex_digit(b'%'), None);
}

#[test]
fn percent_decode_reads_escapes_and_plus() {
    assert_eq!(percent_decode("a%20b"), "a b");
    assert_eq!(percent_decode("a+b"), "a b");
    assert_eq!(percent_decode("%2Fhome%2fme%2Fx.png"), "/home/me/x.png");
    assert_eq!(percent_decode("%41%42%43"), "ABC");
    assert_eq!(percent_decode("%25"), "%");
    assert_eq!(percent_decode("%2B"), "+");
    assert_eq!(percent_decode("%E4%B8%AD%E6%96%87.png"), "中文.png");
    assert_eq!(percent_decode(""), "");
}

#[test]
fn percent_decode_passes_malformed_escapes_through() {
    assert_eq!(percent_decode("%"), "%");
    assert_eq!(percent_decode("%4"), "%4");
    assert_eq!(percent_decode("%zz"), "%zz");
    assert_eq!(percent_decode("%4g"), "%4g");
    assert_eq!(percent_decode("100%"), "100%");
    assert_eq!(percent_decode("a%2"), "a%2");
    assert_eq!(percent_decode("%%41"), "%A");
    assert_eq!(percent_decode("%G1%41"), "%G1A");
}

#[test]
fn percent_decode_reads_an_escape_at_the_very_end() {
    assert_eq!(percent_decode("x%41"), "xA");
    assert_eq!(percent_decode("%41"), "A");
}

#[test]
fn percent_decode_of_plain_text_is_the_text() {
    for text in ["/a/b/photo.png", "C:\\Users\\me\\pic.JPG", "日本語/図.webp", "a b c", "~._-"] {
        assert_eq!(percent_decode(text), text);
    }
}

#[test]
fn percent_decode_undoes_encoding() {
    assert_eq!(percent_decode("%2Fa%20b%2F100%25%2Bc.png"), "/a b/100%+c.png");
    assert_eq!(percent_decode("%C3%A9t%C3%A9.jpg"), "été.jpg");
    assert_eq!(percent_decode("%F0%9F%93%B7.png"), "📷.png");
}

#[test]
fn percent_encode_escapes_all_but_unreserved_bytes() {
    assert_eq!(percent_encode("AZaz09-._~"), "AZaz09-._~");
    assert_eq!(percent_encode("/a b/100%+c.png"), "%2Fa%20b%2F100%25%2Bc.png");
    assert_eq!(percent_encode("été"), "%C3%A9t%C3%A9");
    assert_eq!(percent_encode(""), "");
    assert_eq!(escape_bytes(&[0x00, 0x0f, 0xff, b'a']), b"%00%0F%FFa".to_vec());
}

#[test]
fn percent_decode_gives_back_what_was_encoded() {
    let samples = [
        "",
        "/a/b/photo.png",
        "/Users/me/My Pictures/图 片+1%.JPG",
        "C:\\Users\\me\\a&b=c?.webp",
        "%25%2B%20",
        "+++%%%",
        "📷 émoji.jpeg",
        "\u{0}\u{7f}\u{80}\u{7ff}\u{800}\u{ffff}\u{10000}\u{10ffff}",
    ];
    for text in samples {
        assert_eq!(percent_decode(&percent_encode(text)), text);
    }
    for code in 0u32..0x3000 {
        if let Some(c) = char::from_u32(code) {
            let text = format!("a{}b", c);
            assert_eq!(percent_decode(&percent_encode(&text)), text);
        }
    }
}

#[test]
fn percent_decode_replaces_what_is_not_utf8() {
    assert_eq!(percent_decode("%FF"), "\u{FFFD}");
    assert_eq!(percent_decode("a%C3"), "a\u{FFFD}");
}

#[test]
fn unescape_range_decodes_a_part() {
    let bytes = b"xx%41+%zzyy";
    assert_eq!(unescape_range(bytes, 2, 9), b"A %zz".to_vec());
    assert_eq!(unescape_range(bytes, 2, 4), b"%4".to_vec());
    assert_eq!(unescape_range(bytes, 3, 3), Vec::<u8>::new());
    assert_eq!(unescape_range(bytes, 0, bytes.len()), b"xxA %zzyy".to_vec());
}

#[test]
fn find_byte_finds_the_first() {
    let bytes = b"a&b&c";
    assert_eq!(find_byte(bytes, 0, 5, b'&'), 1);
    assert_eq!(find_byte(bytes, 1, 5, b'&'), 1);
    assert_eq!(find_byte(bytes, 2, 5, b'&'), 3);
    assert_eq!(find_byte(bytes, 4, 5, b'&'), 5);
    assert_eq!(find_byte(bytes, 0, 1, b'&'), 1);
    assert_eq!(find_byte(bytes, 5, 5, b'&'), 5);
    assert_eq!(find_byte(bytes, 0, 5, b'?'), 5);
}

#[test]
fn starts_with_at_compares_a_part() {
    let bytes = b"x=1&file=a";
    assert!(starts_with_at(bytes, 4, 10, b"file="));
    assert!(!starts_with_at(bytes, 4, 8, b"file="));
    assert!(!starts_with_at(bytes, 0, 10, b"file="));
    assert!(starts_with_at(bytes, 3, 3, b""));
    assert!(starts_with_at(bytes, 4, 9, b"file="));
}

#[test]
fn query_files_are_read_in_order() {
    let query = b"file=%2Fa.png&background=1&file=b+c.txt&file=&files=x&file=d";
    assert_eq!(
        read_query_files(query, 0, query.len()),
        strings(&["/a.png", "b c.txt", "d"])
    );
    assert_eq!(read_query_files(query, 0, 0), Vec::<String>::new());
    assert_eq!(read_query_files(b"&&", 0, 2), Vec::<String>::new());
    assert_eq!(read_query_files(b"file=a&", 0, 7), strings(&["a"]));
}

#[test]
fn query_params_are_compared_exactly() {
    let query = b"file=a.png&background=1";
    assert!(has_query_param(query, 0, query.len(), b"background=1"));
    assert!(!has_query_param(query, 0, query.len(), b"background"));
    assert!(!has_query_param(query, 0, query.len(), b"ackground=1"));
    assert!(has_query_param(query, 0, query.len(), b"file=a.png"));
    assert!(!has_query_param(b"background=10", 0, 13, b"background=1"));
    assert!(!has_query_param(b"xbackground=1", 0, 13, b"background=1"));
    assert!(has_query_param(b"a&&b", 0, 4, b""));
    assert!(has_query_param(b"", 0, 0, b""));
    assert!(!has_query_param(b"a", 0, 1, b""));
}

#[test]
fn url_files_are_decoded_and_filtered() {
    assert_eq!(
        parse_files_from_url(
            "tinyimage://compress?file=%2FUsers%2Fme%2Fa%20b.png&file=/c/d.JPG&x=1&file=&file=notes.txt"
        ),
        strings(&["/Users/me/a b.png", "/c/d.JPG"])
    );
}

#[test]
fn url_without_query_names_no_files() {
    assert!(parse_files_from_url("tinyimage://compress").is_empty());
    assert!(parse_files_from_url("").is_empty());
    assert!(parse_files_from_url("tinyimage://compress?").is_empty());
    assert!(parse_files_from_url("file=a.png").is_empty());
}

#[test]
fn url_parameters_need_the_exact_prefix() {
    assert!(parse_files_from_url("app://compress?xfile=a.png").is_empty());
    assert!(parse_files_from_url("app://compress?File=a.png").is_empty());
    assert!(parse_files_from_url("app://compress?file%3Da.png").is_empty());
    assert_eq!(parse_files_from_url("app://compress?file=a.png"), strings(&["a.png"]));
    assert_eq!(
        parse_files_from_url("app://compress?a=b?file=x.png&file=y.png"),
        strings(&["y.png"])
    );
}

#[test]
fn url_background_marker_is_a_parameter() {
    assert!(url_wants_background("app://compress?file=a.png&background=1"));
    assert!(url_wants_background("app://compress?background=1&file=a.png"));
    assert!(!url_wants_background("app://compress?file=a.png"));
    assert!(!url_wants_background("app://compress?file=a.png&background=0"));
    assert!(!url_wants_background("app://compress?file=a.png&background=11"));
    assert!(!url_wants_background("app://background=1"));
}

#[test]
fn custom_url_with_background_compresses_silently() {
    assert_eq!(
        parse_url("app://compress?file=%2Fa%2Fb.png&file=%2Fa%2Fc.jpg&background=1"),
        Invocation::FilesToCompressSilently(strings(&["/a/b.png", "/a/c.jpg"]))
    );
}

#[test]
fn custom_url_without_background_compresses_in_foreground() {
    assert_eq!(
        parse_url("app://compress?file=%2Fa%2Fb.png"),
        Invocation::FilesToCompressForeground(strings(&["/a/b.png"]))
    );
}

#[test]
fn custom_url_without_images_is_empty() {
    assert_eq!(parse_url("app://compress?background=1"), Invocation::Empty);
    assert_eq!(parse_url("app://compress?file=readme.md"), Invocation::Empty);
    assert_eq!(parse_url("app://compress"), Invocation::Empty);
    assert_eq!(parse_url(""), Invocation::Empty);
    assert_eq!(parse_url("not a url at all"), Invocation::Empty);
}

#[test]
fn file_url_opens_the_file() {
    assert_eq!(
        parse_url("file:///a/b/photo.png"),
        Invocation::FilesToOpen(strings(&["/a/b/photo.png"]))
    );
    assert_eq!(
        parse_url("file:///Users/me/My%20Pictures/%E5%9B%BE.JPG"),
        Invocation::FilesToOpen(strings(&["/Users/me/My Pictures/图.JPG"]))
    );
}

#[test]
fn file_url_keeps_plus_signs() {
    assert_eq!(
        parse_url("file:///a/b+c.png"),
        Invocation::FilesToOpen(strings(&["/a/b+c.png"]))
    );
}

#[test]
fn file_url_of_other_files_is_empty() {
    assert_eq!(parse_url("file:///a/b/notes.txt"), Invocation::Empty);
    assert_eq!(parse_url("file://remote.example/a/b.png"), Invocation::Empty);
    assert_eq!(parse_url("file://"), Invocation::Empty);
}

#[test]
fn file_path_becomes_an_invocation() {
    assert_eq!(
        open_file_path(Some("/x/y.webp".to_string())),
        Invocation::FilesToOpen(strings(&["/x/y.webp"]))
    );
    assert_eq!(open_file_path(Some("/x/y.pdf".to_string())), Invocation::Empty);
    assert_eq!(open_file_path(None), Invocation::Empty);
}

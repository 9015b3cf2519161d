use librarian::text::{dedup_consecutive, eq_ignore_ascii_case, extension_of, file_name_of, file_stem_of, find_last_char, parse_i32, str_eq};

#[test]
fn file_name_basics() {
    assert_eq!(file_name_of("dir/sub/song.flac"), "song.flac");
    assert_eq!(file_name_of("song.flac"), "song.flac");
    assert_eq!(file_name_of(""), "");
}

#[test]
fn file_stem_basics() {
    assert_eq!(file_stem_of("dir/song.flac"), Some(String::from("song")));
    assert_eq!(file_stem_of("song"), Some(String::from("song")));
    assert_eq!(file_stem_of(".bashrc"), Some(String::from(".bashrc")));
    assert_eq!(file_stem_of("a/b/c.tar.gz"), Some(String::from("c.tar")));
    assert_eq!(file_stem_of("dir/"), None);
    assert_eq!(file_stem_of(""), None);
}

#[test]
fn extension_basics() {
    assert_eq!(extension_of("dir/song.flac"), Some(String::from("flac")));
    assert_eq!(extension_of("song.MP3"), Some(String::from("MP3")));
    assert_eq!(extension_of("noext"), None);
    assert_eq!(extension_of(".hidden"), None);
    assert_eq!(extension_of("dir.d/file"), None);
    assert_eq!(extension_of("a.tar.gz"), Some(String::from("gz")));
}

#[test]
fn find_last_char_works() {
    assert_eq!(find_last_char("a/b/c", '/'), Some(3));
    assert_eq!(find_last_char("abc", '/'), None);
    assert_eq!(find_last_char("", '.'), None);
}

#[test]
fn parse_i32_accepts_decimal() {
    assert_eq!(parse_i32("123"), Some(123));
    assert_eq!(parse_i32("-45"), Some(-45));
    assert_eq!(parse_i32("+7"), Some(7));
    assert_eq!(parse_i32("0"), Some(0));
    assert_eq!(parse_i32("2147483647"), Some(2147483647));
    assert_eq!(parse_i32("-2147483648"), Some(-2147483648));
}

#[test]
fn parse_i32_rejects_junk() {
    assert_eq!(parse_i32(""), None);
    assert_eq!(parse_i32("-"), None);
    assert_eq!(parse_i32("+"), None);
    assert_eq!(parse_i32("12a"), None);
    assert_eq!(parse_i32("1/9"), None);
    assert_eq!(parse_i32("2147483648"), None);
    assert_eq!(parse_i32("-2147483649"), None);
    assert_eq!(parse_i32("99999999999999999999"), None);
    assert_eq!(parse_i32(" 1"), None);
}

#[test]
fn case_insensitive_compare() {
    assert!(eq_ignore_ascii_case("ARTIST", "artist"));
    assert!(eq_ignore_ascii_case("TrackNumber", "tracknumber"));
    assert!(!eq_ignore_ascii_case("artist", "artists"));
    assert!(!eq_ignore_ascii_case("artist1", "artist2"));
    assert!(eq_ignore_ascii_case("", ""));
}

#[test]
fn str_eq_is_exact() {
    assert!(str_eq("flac", "flac"));
    assert!(!str_eq("flac", "FLAC"));
    assert!(!str_eq("flac", "fla"));
}

#[test]
fn dedup_removes_consecutive_runs() {
    let v = vec![
        String::from("a"),
        String::from("a"),
        String::from("b"),
        String::from("a"),
    ];
    let d = dedup_consecutive(v);
    assert_eq!(d, vec![String::from("a"), String::from("b"), String::from("a")]);
    let single = dedup_consecutive(vec![String::from("x")]);
    assert_eq!(single, vec![String::from("x")]);
    let empty: Vec<String> = dedup_consecutive(Vec::new());
    assert!(empty.is_empty());
}

use copy_dvd::paths::{join_path, path_file_name};
use copy_dvd::text::{
    chars_of, decimal_string, lines_chars, parse_unsigned, split_chars, split_words, trim_chars, trim_end_matches_char,
    trim_start_matches_char,
};

fn samples() -> Vec<&'static str> {
    vec![
        "",
        " ",
        "0",
        "42",
        "+7",
        "-7",
        "+",
        "007",
        " 12 ",
        "1,2,,3",
        "a\nb\r\nc\n",
        "\n\n",
        "line\r",
        "\u{a0}wide\u{3000}",
        "\tx y\u{2003}z  ",
        "18446744073709551615",
        "18446744073709551616",
        "99999999999999999999999",
        "vv1.2.3",
        "1.2.3...",
        "héllo wörld",
    ]
}

fn text(cs: &[char]) -> String {
    cs.iter().collect()
}

#[test]
fn unsigned_parsing_agrees_with_std() {
    for s in samples() {
        let cs = chars_of(s);
        assert_eq!(parse_unsigned(&cs, u64::MAX), s.parse::<u64>().ok(), "{:?}", s);
        assert_eq!(parse_unsigned(&cs, u32::MAX as u64), s.parse::<u32>().ok().map(|v| v as u64), "{:?}", s);
    }
}

#[test]
fn trimming_agrees_with_std() {
    for s in samples() {
        let cs = chars_of(s);
        assert_eq!(text(&trim_chars(&cs)), s.trim(), "{:?}", s);
        assert_eq!(text(&trim_start_matches_char(&cs, 'v')), s.trim_start_matches('v'), "{:?}", s);
        assert_eq!(text(&trim_end_matches_char(&cs, '.')), s.trim_end_matches('.'), "{:?}", s);
    }
}

#[test]
fn splitting_agrees_with_std() {
    for s in samples() {
        let cs = chars_of(s);
        let mine: Vec<String> = split_chars(&cs, ',').iter().map(|p| text(p)).collect();
        let theirs: Vec<String> = s.split(',').map(|p| p.to_string()).collect();
        assert_eq!(mine, theirs, "{:?}", s);
        let mine: Vec<String> = split_words(&cs).iter().map(|p| text(p)).collect();
        let theirs: Vec<String> = s.split_whitespace().map(|p| p.to_string()).collect();
        assert_eq!(mine, theirs, "{:?}", s);
        let mine: Vec<String> = lines_chars(&cs).iter().map(|p| text(p)).collect();
        let theirs: Vec<String> = s.lines().map(|p| p.to_string()).collect();
        assert_eq!(mine, theirs, "{:?}", s);
    }
}

#[test]
fn decimal_printing_agrees_with_std() {
    for n in [0u64, 1, 9, 10, 99, 100, 12345, u64::MAX] {
        assert_eq!(decimal_string(n), n.to_string());
    }
}

#[test]
fn paths_agree_with_std() {
    let paths = [
        "", "/", "a", "a/", "/a/b", "/a/b/", "a//b", "./a", "a/.", "a/..", "..", ".", "/dev/sr0", "x/y.mkv",
        "/media/user/DVD_VIDEO//", "a/./b/.",
    ];
    for p in paths {
        let theirs = std::path::Path::new(p).file_name().map(|n| n.to_string_lossy().to_string());
        assert_eq!(path_file_name(p), theirs, "{:?}", p);
        for n in ["x", "", "/abs", "dir/file.mkv"] {
            let theirs = std::path::Path::new(p).join(n).to_string_lossy().to_string();
            assert_eq!(join_path(p, n), theirs, "{:?} + {:?}", p, n);
        }
    }
}

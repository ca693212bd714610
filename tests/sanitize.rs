use voice_backend::sanitize::{clean_filename, replace_all, trim};

#[test]
fn sanitize_examples() {
    assert_eq!(clean_filename("a . b"), "a.b");
    assert_eq!(clean_filename("my  file dot txt"), "my file.txt");
    assert_eq!(clean_filename("report dot txt"), "report.txt");
    assert_eq!(clean_filename(""), "");
    assert_eq!(clean_filename("   "), "");
    assert_eq!(clean_filename("dot"), ".");
}

#[test]
fn sanitize_is_idempotent_on_samples() {
    let samples = [
        "a . b",
        "my  file dot txt",
        "ddott",
        " dot dot ",
        "notes dot tar dot gz",
        "x . . y",
        "\tspaced\n out dot md ",
        "dotdot",
        "a.b",
        "",
    ];
    for s in samples {
        let once = clean_filename(s);
        assert_eq!(clean_filename(&once), once, "input {:?}", s);
    }
}

#[test]
fn replace_is_left_to_right_without_overlap() {
    assert_eq!(replace_all("ddott", "dot", "."), "d.t");
    assert_eq!(replace_all("aaa", "aa", "b"), "ba");
    assert_eq!(replace_all("abc", "x", "y"), "abc");
}

#[test]
fn trim_removes_unicode_whitespace() {
    assert_eq!(trim("\u{3000} a b \u{a0}\n"), "a b");
    assert_eq!(trim("   "), "");
}

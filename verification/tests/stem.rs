use tvconvert::stem::{
    limit_file_stem, limit_stem, limit_stem_of, output_name, output_name_for_stem, MAX_STEM_CHARS,
};

#[test]
fn limit_stem_drops_disallowed_chars() {
    assert_eq!(limit_stem("My Video (2023)!"), Some("My Video 2023".to_string()));
    assert_eq!(limit_stem("a_b-c.d e"), Some("a_b-c.d e".to_string()));
}

#[test]
fn limit_stem_drops_non_ascii() {
    assert_eq!(limit_stem("Café Noël"), Some("Caf Nol".to_string()));
}

#[test]
fn limit_stem_none_when_nothing_is_kept() {
    assert_eq!(limit_stem(""), None);
    assert_eq!(limit_stem("()[]{}!?"), None);
    assert_eq!(limit_stem("日本語"), None);
}

#[test]
fn limit_stem_cuts_at_46_chars() {
    let long = "x".repeat(60);
    let limited = limit_stem(&long).unwrap();
    assert_eq!(limited.len(), 46);
    assert_eq!(MAX_STEM_CHARS, 46);
    let exact = "y".repeat(46);
    assert_eq!(limit_stem(&exact), Some(exact.clone()));
    // disallowed characters do not count toward the limit
    let mixed = format!("{}{}", "!".repeat(10), "z".repeat(50));
    assert_eq!(limit_stem(&mixed), Some("z".repeat(46)));
}

#[test]
fn limit_stem_is_idempotent() {
    for s in ["My Video (2023)!", "Café", "x__--..  ", "", "!!!"] {
        let once = limit_stem(s);
        if let Some(ref o) = once {
            assert_eq!(limit_stem(o), once);
        }
    }
}

#[test]
fn limit_file_stem_uses_the_path_stem() {
    assert_eq!(limit_file_stem("/videos/My Clip.final.mp4"), Some("My Clip.final".to_string()));
    assert_eq!(limit_file_stem("/videos/.hidden"), Some(".hidden".to_string()));
    assert_eq!(limit_file_stem("clip.mp4"), Some("clip".to_string()));
    assert_eq!(limit_file_stem("/videos/noext"), Some("noext".to_string()));
    assert_eq!(limit_file_stem("/"), None);
    assert_eq!(limit_file_stem("/videos/***.mp4"), None);
}

#[test]
fn output_name_falls_back_to_out() {
    assert_eq!(output_name("/a/b/clip.mp4"), "clip");
    assert_eq!(output_name("/videos/???.mp4"), "out");
    assert_eq!(output_name(""), "out");
    assert_eq!(output_name("/videos/.."), "out");
}

#[test]
fn output_name_is_short_ascii() {
    let name = output_name(&format!("/v/{}é.mov", "long name ".repeat(10)));
    assert!(name.len() <= 46 && !name.is_empty());
    assert!(name.is_ascii());
}

#[test]
fn limit_stem_of_a_read_stem() {
    assert_eq!(limit_stem_of(Some("a b!")), Some("a b".to_string()));
    assert_eq!(limit_stem_of(None), None);
    assert_eq!(output_name_for_stem(None), "out");
    assert_eq!(output_name_for_stem(Some("(((")), "out");
    assert_eq!(output_name_for_stem(Some("clip 1")), "clip 1");
}

#[test]
fn well_formed_stems_come_back_unchanged() {
    for s in ["a", "My Clip.final", "x_y-z", &"q".repeat(46)] {
        assert_eq!(limit_stem(s), Some(s.to_string()));
        assert_eq!(limit_file_stem(&format!("/v/{}.mp4", s)), Some(s.to_string()));
        assert_eq!(output_name(&format!("/v/{}.mp4", s)), s);
    }
}

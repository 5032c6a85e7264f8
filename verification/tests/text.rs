use braiinspool_bot::text::{head_length, same_text, split_once};

#[test]
fn same_text_compares_by_character() {
    assert!(same_text("!help", "!help"));
    assert!(same_text("", ""));
    assert!(!same_text("!help", "!Help"));
    assert!(!same_text("!help", "!help "));
}

#[test]
fn head_length_stops_at_the_first_stop() {
    assert_eq!(head_length("!subscribe token", ' '), 10);
    assert_eq!(head_length("!unlink", ' '), 7);
    assert_eq!(head_length("", ' '), 0);
    assert_eq!(head_length(" lead", ' '), 0);
    assert_eq!(head_length("a.b.c", '.'), 1);
}

#[test]
fn head_length_counts_characters_not_bytes() {
    assert_eq!(head_length("héllo wörld", ' '), 5);
    assert_eq!(split_once("héllo wörld", ' '), ("héllo", Some("wörld")));
}

#[test]
fn split_once_cuts_at_the_first_stop_only() {
    assert_eq!(split_once("!subscribe a b", ' '), ("!subscribe", Some("a b")));
    assert_eq!(split_once("!subscribe ", ' '), ("!subscribe", Some("")));
    assert_eq!(split_once("!subscribe", ' '), ("!subscribe", None));
    assert_eq!(split_once("", ' '), ("", None));
    assert_eq!(split_once("user.rig.1", '.'), ("user", Some("rig.1")));
}

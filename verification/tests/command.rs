use wordcount_notifier::command::{reply_to, PING, PONG};

#[test]
fn ping_is_answered() {
    assert_eq!(reply_to("!ping"), Some("Pong!"));
    assert_eq!(PING, "!ping");
    assert_eq!(PONG, "Pong!");
}

#[test]
fn whatever_starts_with_ping_is_answered() {
    assert_eq!(reply_to("!ping me"), Some("Pong!"));
    assert_eq!(reply_to("!pingpong"), Some("Pong!"));
    assert_eq!(reply_to("!ping\u{1f3d3}"), Some("Pong!"));
}

#[test]
fn anything_else_is_not_answered() {
    assert_eq!(reply_to(""), None);
    assert_eq!(reply_to("!"), None);
    assert_eq!(reply_to("!pin"), None);
    assert_eq!(reply_to("ping"), None);
    assert_eq!(reply_to(" !ping"), None);
    assert_eq!(reply_to("!PING"), None);
    assert_eq!(reply_to("!pong"), None);
    assert_eq!(reply_to("say !ping"), None);
    assert_eq!(reply_to("\u{ff01}ping"), None);
}

#[test]
fn reply_agrees_with_starts_with() {
    for content in ["", "!", "!p", "!pi", "!pin", "!ping", "!pingx", "x!ping", "!pinG", "\u{e9}!ping"] {
        assert_eq!(reply_to(content).is_some(), content.starts_with("!ping"));
    }
}

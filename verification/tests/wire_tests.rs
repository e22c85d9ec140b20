use contact_mailer::normalize::{build_payload, Payload};
use contact_mailer::wire::render_body;

fn payload(name: &str, email: &str, message: &str, service: Option<&str>, company: &str) -> Payload {
    Payload {
        name: String::from(name),
        email: String::from(email),
        message: String::from(message),
        service: service.map(String::from),
        company: String::from(company),
    }
}

#[test]
fn golden_body_with_bcc() {
    let p = payload(
        "name",
        "email@domain.tld",
        "Hi!",
        Some("Digital Products & Design"),
        "",
    );
    let e = build_payload(p, Some(String::from("ops@example.com")));
    let body = render_body(&e);
    let expected = "{\"personalizations\":[{\"to\":[{\"email\":\"contact@mainmatter.com\",\"name\":\"Mainmatter\"}],\"bcc\":[{\"email\":\"ops@example.com\"}]}],\"from\":{\"email\":\"no-reply@mainmatter.com\",\"name\":\"name via mainmatter.com\"},\"reply_to\":{\"email\":\"email@domain.tld\",\"name\":\"name\"},\"subject\":\"Mainmatter inquiry for Digital Products & Design\",\"content\":[{\"type\":\"text/plain\",\"value\":\"Hi!\"}]}";
    assert_eq!(body, expected);
}

#[test]
fn body_without_bcc_has_no_bcc_key() {
    let p = payload("name", "email@domain.tld", "Hi!", None, "");
    let e = build_payload(p, None);
    let body = render_body(&e);
    assert!(!body.contains("bcc"));
    let expected = "{\"personalizations\":[{\"to\":[{\"email\":\"contact@mainmatter.com\",\"name\":\"Mainmatter\"}]}],\"from\":{\"email\":\"no-reply@mainmatter.com\",\"name\":\"name via mainmatter.com\"},\"reply_to\":{\"email\":\"email@domain.tld\",\"name\":\"name\"},\"subject\":\"Mainmatter inquiry\",\"content\":[{\"type\":\"text/plain\",\"value\":\"Hi!\"}]}";
    assert_eq!(body, expected);
}

#[test]
fn body_is_valid_json_and_round_trips() {
    let p = payload(
        "Jo \"the\" Dev",
        "jo@example.com",
        "  line one\nline two\\done \"quoted\"  ",
        Some("Workshops"),
        "ACME",
    );
    let e = build_payload(p, Some(String::from("ops@example.com")));
    let body = render_body(&e);
    let v: serde_json::Value = serde_json::from_str(&body).unwrap();
    assert_eq!(
        v.get("from").unwrap().get("name").unwrap().as_str().unwrap(),
        "Jo \"the\" Dev (ACME) via mainmatter.com"
    );
    assert_eq!(
        v.get("reply_to").unwrap().get("email").unwrap().as_str().unwrap(),
        "jo@example.com"
    );
    assert_eq!(
        v.get("subject").unwrap().as_str().unwrap(),
        "Mainmatter inquiry for Workshops"
    );
    let content = v.get("content").unwrap().get(0).unwrap();
    assert_eq!(content.get("type").unwrap().as_str().unwrap(), "text/plain");
    assert_eq!(
        content.get("value").unwrap().as_str().unwrap(),
        "line one\nline two\\done \"quoted\""
    );
    let to = v
        .get("personalizations")
        .unwrap()
        .get(0)
        .unwrap()
        .get("to")
        .unwrap()
        .get(0)
        .unwrap();
    assert_eq!(to.get("email").unwrap().as_str().unwrap(), "contact@mainmatter.com");
    assert_eq!(to.get("name").unwrap().as_str().unwrap(), "Mainmatter");
    let bcc = v
        .get("personalizations")
        .unwrap()
        .get(0)
        .unwrap()
        .get("bcc")
        .unwrap()
        .get(0)
        .unwrap();
    assert_eq!(bcc.get("email").unwrap().as_str().unwrap(), "ops@example.com");
}

#[test]
fn control_characters_are_escaped() {
    let p = payload("a\u{1}b", "e", "m\u{1f}x", None, "");
    let e = build_payload(p, None);
    let body = render_body(&e);
    assert!(body.contains("\\u0001"));
    assert!(body.contains("\\u001f"));
    let v: serde_json::Value = serde_json::from_str(&body).unwrap();
    assert_eq!(
        v.get("reply_to").unwrap().get("name").unwrap().as_str().unwrap(),
        "a\u{1}b"
    );
    let content = v.get("content").unwrap().get(0).unwrap();
    assert_eq!(content.get("value").unwrap().as_str().unwrap(), "m\u{1f}x");
}

#[test]
fn named_escapes_round_trip() {
    let p = payload("n", "e", "a\tb\rc\u{8}d\u{c}e", None, "");
    let e = build_payload(p, None);
    let body = render_body(&e);
    assert!(body.contains("\\t"));
    assert!(body.contains("\\r"));
    assert!(body.contains("\\b"));
    assert!(body.contains("\\f"));
    let v: serde_json::Value = serde_json::from_str(&body).unwrap();
    let content = v.get("content").unwrap().get(0).unwrap();
    assert_eq!(content.get("value").unwrap().as_str().unwrap(), "a\tb\rc\u{8}d\u{c}e");
}

#[test]
fn placeholder_message_reaches_the_wire() {
    let p = payload("n", "e", "   ", None, "");
    let e = build_payload(p, None);
    let body = render_body(&e);
    let v: serde_json::Value = serde_json::from_str(&body).unwrap();
    let content = v.get("content").unwrap().get(0).unwrap();
    assert_eq!(content.get("value").unwrap().as_str().unwrap(), "\u{2013}");
}

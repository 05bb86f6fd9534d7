use luro::base64::{
    bait_message, decode, decode_response, encode, encode_response, response, Base64, Base64ComponentAction, Base64Error,
    Decode, Encode,
};
use luro::response::ButtonStyle;

#[test]
fn encode_gives_standard_base64() {
    assert_eq!(encode("hello"), "aGVsbG8=");
    assert_eq!(encode(""), "");
    assert_eq!(encode("hi"), "aGk=");
}

#[test]
fn decode_gives_text_back() {
    assert_eq!(decode("aGVsbG8=").unwrap(), "hello");
}

#[test]
fn decode_of_encode_is_identity() {
    for s in ["", "a", "héllo wörld", "Boop Count: 12", "🦊 fox"] {
        assert_eq!(decode(&encode(s)).unwrap(), s);
    }
}

#[test]
fn decode_rebukes_text_that_is_not_base64() {
    assert_eq!(
        decode("not base64!").unwrap(),
        "Don't be a cunt, I know that this is not base64 you bitch\n\nnot base64!"
    );
    // Not canonical: the trailing bits are not zero.
    assert_eq!(
        decode("aGk").unwrap(),
        "Don't be a cunt, I know that this is not base64 you bitch\n\naGk"
    );
}

#[test]
fn decode_of_bytes_that_are_not_utf8_fails() {
    let err = decode("/w==").unwrap_err();
    match &err {
        Base64Error::InvalidUtf8 { reason } => assert!(!reason.is_empty()),
    }
    assert!(err.message().starts_with("Failed to convert bytes into string - "));
}

#[test]
fn encode_response_shows_code_block_and_decode_button() {
    let r = encode_response(7, "aGk=");
    assert_eq!(r.content.as_deref(), Some("```\naGk=\n```"));
    assert!(r.embeds.is_empty());
    assert_eq!(r.components.len(), 1);
    assert_eq!(r.components[0].len(), 1);
    assert_eq!(r.components[0][0].custom_id, "base64-decode");
    assert_eq!(r.components[0][0].label, "Decode");
    assert_eq!(r.components[0][0].style, ButtonStyle::Primary);
    assert!(!r.update);
}

#[test]
fn long_text_goes_into_an_embed() {
    let long = "x".repeat(2001);
    let r = decode_response(42, &long);
    assert!(r.content.is_none());
    assert_eq!(r.embeds.len(), 1);
    assert_eq!(r.embeds[0].colour, Some(42));
    assert_eq!(r.embeds[0].description.clone().unwrap(), format!("```\n{}\n```", long));
    assert_eq!(r.components[0][0].custom_id, "base64-encode");
    let exact = "x".repeat(2000);
    let r = decode_response(42, &exact);
    assert_eq!(r.content.unwrap(), format!("```\n{}\n```", exact));
}

#[test]
fn button_response_updates_the_message() {
    let r = response(1, "hi", false);
    assert!(r.update);
    assert_eq!(r.content.as_deref(), Some("```\naGk=\n```"));
    let r = response(1, "hi", true);
    assert_eq!(r.content.as_deref(), Some("```\nhi\n```"));
    assert_eq!(r.components[0][0].custom_id, "base64-encode");
}

#[test]
fn subcommands_reply() {
    let r = Encode { string: "hello".to_string(), bait: None }.handle_command(3);
    assert_eq!(r.content.as_deref(), Some("```\naGVsbG8=\n```"));
    let r = Decode { string: "aGVsbG8=".to_string() }.handle_command(3).unwrap();
    assert_eq!(r.content.as_deref(), Some("```\nhello\n```"));
    assert!(Base64::Decode(Decode { string: "/w==".to_string() }).handle_command(3).is_err());
}

#[test]
fn component_presses() {
    let cmd = Base64::Encode(Encode { string: "hi".to_string(), bait: Some(true) });
    match cmd.handle_component("base64-encode", 9).unwrap() {
        Base64ComponentAction::Respond { reply, bait } => {
            assert!(bait);
            assert!(reply.update);
            assert_eq!(reply.content.as_deref(), Some("```\naGk=\n```"));
        }
        Base64ComponentAction::NoMatch => panic!("expected a response"),
    }
    let cmd = Base64::Decode(Decode { string: "aGk=".to_string() });
    match cmd.handle_component("base64-decode", 9).unwrap() {
        Base64ComponentAction::Respond { reply, bait } => {
            assert!(!bait);
            assert_eq!(reply.content.as_deref(), Some("```\nhi\n```"));
        }
        Base64ComponentAction::NoMatch => panic!("expected a response"),
    }
    let cmd = Base64::Encode(Encode { string: "hi".to_string(), bait: None });
    assert!(matches!(cmd.handle_component("other", 9).unwrap(), Base64ComponentAction::NoMatch));
}

#[test]
fn bait_call_out() {
    assert_eq!(bait_message(42), "<@42> got baited...");
}

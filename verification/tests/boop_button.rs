use luro::boop::{Boop, BoopCommand};
use luro::response::ButtonStyle;

#[test]
fn boop_starts_at_zero() {
    let r = Boop {}.handle_command();
    assert_eq!(r.content.as_deref(), Some("Boop Count: 0"));
    assert_eq!(r.components.len(), 1);
    assert_eq!(r.components[0][0].custom_id, "boop");
    assert_eq!(r.components[0][0].label, "Boop Me!");
    assert_eq!(r.components[0][0].style, ButtonStyle::Primary);
    let r = BoopCommand {}.run_command();
    assert_eq!(r.content.as_deref(), Some("Boop Count: 0"));
}

#[test]
fn each_press_counts_one_up() {
    let mut content = Boop {}.handle_command().content.unwrap();
    for expected in 1..=12 {
        let r = Boop::handle_component(&content);
        assert!(r.update);
        content = r.content.unwrap();
        assert_eq!(content, format!("Boop Count: {expected}"));
    }
}

#[test]
fn press_without_a_number_restarts_at_zero() {
    assert_eq!(Boop::handle_component("Boop Count: abc").content.as_deref(), Some("Boop Count: 0"));
    assert_eq!(BoopCommand {}.handle_button("Boop Count: -5").content.as_deref(), Some("Boop Count: -4"));
    assert_eq!(Boop::handle_component("Boop Count: ").content.as_deref(), Some("Boop Count: 0"));
}

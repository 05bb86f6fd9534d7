use luro::about::{cache_stats_text, padding_calculator, push_table, AboutCommand, AboutInfo, CacheStats, Command};

fn info() -> AboutInfo {
    AboutInfo {
        description: None,
        accent_colour: 0xdabeef,
        bot_name: "Luro".to_string(),
        bot_avatar: "https://avatar".to_string(),
        version: "1.0".to_string(),
        git: None,
        memory: Some((3 * 1024 * 1024 + 5, 1024)),
        owner: Some(("Nyx".to_string(), 5)),
        staff: vec![("Alice".to_string(), 1), ("Bob".to_string(), 2)],
    }
}

#[test]
fn padding_is_the_longest_of_each_column() {
    assert_eq!(padding_calculator(vec![(3, 4), (5, 1)]), (5, 4, 9));
    assert_eq!(padding_calculator(vec![]), (0, 0, 0));
    assert_eq!(padding_calculator(vec![(7, 0)]), (7, 0, 7));
}

#[test]
fn table_is_padded() {
    let mut out = String::from(">");
    push_table(&mut out, &vec![("ab".to_string(), "c".to_string()), ("a".to_string(), "def".to_string())]);
    assert_eq!(out, ">ab   c\na  def\n");
}

#[test]
fn about_embed() {
    let cmd = Command { memory: Some(true), cache: None, show_username: None };
    let e = cmd.handle_command(&info());
    assert_eq!(e.title.as_deref(), Some("Luro"));
    assert_eq!(e.colour, Some(0xdabeef));
    assert_eq!(e.thumbnail_url.as_deref(), Some("https://avatar"));
    assert_eq!(e.footer_text.as_deref(), Some("Written in twilight.rs!"));
    assert_eq!(
        e.description.as_deref(),
        Some("Hiya! I'm a general purpose Discord bot that can do a good amount of things, complete with a furry twist.\n\n- Version: `1.0`\n")
    );
    assert_eq!(e.fields.len(), 3);
    assert_eq!(e.fields[0].name, "Memory Stats");
    assert_eq!(e.fields[0].value, "- Physical memory usage: `3 MB`\n- Virtual memory usage:  `0 MB`\n");
    assert_eq!(e.fields[1].name, "My Creator!");
    assert_eq!(e.fields[1].value, "- <@5>");
    assert_eq!(e.fields[2].name, "Those with 'Administrator' access!");
    assert_eq!(e.fields[2].value, "- <@1>\n- <@2>\n");
}

#[test]
fn about_embed_with_names_and_git() {
    let mut i = info();
    i.description = Some("Custom".to_string());
    i.git = Some(("main".to_string(), "abc123".to_string()));
    let cmd = Command { memory: None, cache: None, show_username: Some(true) };
    let e = cmd.handle_command(&i);
    assert_eq!(
        e.description.as_deref(),
        Some("Custom\n- Version:     `1.0`\n- Branch:     `main`\n- Revision: `abc123`\n")
    );
    assert_eq!(e.fields.len(), 2);
    assert_eq!(e.fields[0].value, "- Nyx");
    assert_eq!(e.fields[1].value, "- Alice\n- Bob\n");
}

#[test]
fn cache_lines_show_counts_that_are_not_zero() {
    let c = CacheStats {
        guilds: 2,
        channels: 0,
        emojis: 0,
        members: 7,
        presences: 0,
        roles: 0,
        unavailable_guilds: 0,
        users: 0,
        voice_states: 1,
    };
    assert_eq!(cache_stats_text(&c), "**Guilds:** `2`\n**Members:** `7`\n**Users:** `0`\n**Voice States:** `1`\n");
    let none = CacheStats { guilds: 0, users: 9, ..c };
    assert_eq!(cache_stats_text(&none), "**Members:** `7`\n**Voice States:** `1`\n");
}

#[test]
fn first_about_embed() {
    let cmd = AboutCommand { memory: Some(true), cache: None };
    let staff = vec![(Some("Alice".to_string()), Some(1)), (None, None)];
    let cache = CacheStats {
        guilds: 0,
        channels: 0,
        emojis: 0,
        members: 0,
        presences: 0,
        roles: 0,
        unavailable_guilds: 0,
        users: 0,
        voice_states: 0,
    };
    let e = cmd.run_command(&info(), &staff, 99, &cache);
    assert_eq!(
        e.description.as_deref(),
        Some("Hiya! I'm a general purpose Discord bot that can do a good amount of things, complete with a furry twist.\n**\nVersion:** `1.0`\n**Primary Owner:** `Nyx` - <@5>\n**Administrators:** `Alice` - <@1>, `unknown` - <@99>\n\n")
    );
    assert_eq!(e.fields.len(), 1);
    assert_eq!(e.fields[0].name, "Memory Stats");
    assert_eq!(e.fields[0].value, "**Physical memory usage:** `3 MB`\n**Virtual memory usage:** `0 MB`\n");
}

#[test]
fn padding_ignores_row_order_and_empty_rows() {
    let rows = vec![(3, 4), (5, 1), (2, 6)];
    let reordered = vec![(2, 6), (3, 4), (5, 1)];
    assert_eq!(padding_calculator(rows.clone()), padding_calculator(reordered));
    let mut with_empty = rows.clone();
    with_empty.push((0, 0));
    assert_eq!(padding_calculator(with_empty), padding_calculator(rows));
}

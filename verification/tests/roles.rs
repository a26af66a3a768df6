use zola::roles::{
    color_role_name, get_colors, get_starting_color_role_position, has_marker, role_by_name,
    strip_marker, ColorMap, RoleRecord, SentinelNotFound,
};

fn role(id: u64, name: &str, colour: u32, position: i64) -> RoleRecord {
    RoleRecord { id, name: name.to_string(), colour, position }
}

#[test]
fn extract_color_roles_keeps_the_prefixed_roles() {
    let roles = vec![
        role(1, "cl:Red", 0xFF0000, 3),
        role(2, "Moderator", 0x00FF00, 9),
        role(3, "cl:Blue", 0x0000FF, 4),
    ];
    let colors = get_colors(&roles);
    assert_eq!(colors.len(), 2);
    assert_eq!(colors.get(&"Red".to_string()), Some(0xFF0000));
    assert_eq!(colors.get(&"Blue".to_string()), Some(0x0000FF));
    assert_eq!(colors.get(&"Moderator".to_string()), None);
    assert_eq!(colors.get(&"cl:Red".to_string()), None);
    assert!(colors.contains_key(&"Red".to_string()));
    assert!(!colors.contains_key(&"Green".to_string()));
}

#[test]
fn extract_color_roles_of_an_empty_directory() {
    let colors = get_colors(&Vec::new());
    assert_eq!(colors.len(), 0);
}

#[test]
fn extract_color_roles_without_any_prefixed_role() {
    let roles = vec![role(1, "Emperor", 1, 1), role(2, "Cl:Red", 2, 2), role(3, "cl", 3, 3)];
    assert_eq!(get_colors(&roles).len(), 0);
}

#[test]
fn extract_color_roles_later_role_of_one_name_counts() {
    let roles = vec![role(1, "cl:Red", 0xFF0000, 3), role(2, "cl:Red", 0xEE0000, 4)];
    let colors = get_colors(&roles);
    assert_eq!(colors.len(), 1);
    assert_eq!(colors.get(&"Red".to_string()), Some(0xEE0000));
}

#[test]
fn extract_color_roles_takes_the_bare_marker_as_empty_label() {
    let roles = vec![role(1, "cl:", 5, 1)];
    let colors = get_colors(&roles);
    assert_eq!(colors.len(), 1);
    assert_eq!(colors.get(&String::new()), Some(5));
}

#[test]
fn color_map_insert_replaces_and_keeps_order() {
    let mut colors = ColorMap::new();
    colors.insert("Red".to_string(), 1);
    colors.insert("Blue".to_string(), 2);
    colors.insert("Red".to_string(), 3);
    assert_eq!(colors.len(), 2);
    assert_eq!(colors.row(0).label, "Red");
    assert_eq!(colors.row(0).colour, 3);
    assert_eq!(colors.row(1).label, "Blue");
    assert_eq!(colors.row(1).colour, 2);
    colors.insert("Green".to_string(), 4);
    assert_eq!(colors.row(2).label, "Green");
}

#[test]
fn insertion_position_without_sentinel_fails() {
    let roles = vec![role(1, "cl:Red", 0xFF0000, 3), role(2, "Moderator", 0, 9)];
    assert_eq!(get_starting_color_role_position(&roles), Err(SentinelNotFound));
    assert_eq!(get_starting_color_role_position(&Vec::new()), Err(SentinelNotFound));
}

#[test]
fn insertion_position_is_the_sentinels() {
    let roles = vec![
        role(1, "cl:Red", 0xFF0000, 3),
        role(2, "--colors-start-here--", 0, 12),
        role(3, "Moderator", 0, 9),
    ];
    assert_eq!(get_starting_color_role_position(&roles), Ok(12));
}

#[test]
fn insertion_position_wants_the_exact_name() {
    let roles = vec![
        role(1, "--colors-start-here-", 0, 1),
        role(2, "--Colors-start-here--", 0, 2),
        role(3, " --colors-start-here--", 0, 3),
    ];
    assert_eq!(get_starting_color_role_position(&roles), Err(SentinelNotFound));
}

#[test]
fn insertion_position_of_the_first_of_two_sentinels() {
    let roles = vec![role(1, "--colors-start-here--", 0, 5), role(2, "--colors-start-here--", 0, 8)];
    assert_eq!(get_starting_color_role_position(&roles), Ok(5));
}

#[test]
fn role_by_name_finds_the_first_match() {
    let roles = vec![role(1, "a", 0, 1), role(2, "b", 0, 2), role(3, "b", 0, 3)];
    assert_eq!(role_by_name(&roles, &"b".to_string()).map(|r| r.id), Some(2));
    assert_eq!(role_by_name(&roles, &"c".to_string()), None);
}

#[test]
fn marker_is_told_and_stripped() {
    assert!(has_marker("cl:Sky"));
    assert!(has_marker("cl:"));
    assert!(!has_marker("Sky"));
    assert!(!has_marker("cl"));
    assert!(!has_marker("CL:Sky"));
    assert_eq!(strip_marker("cl:Sky"), "Sky");
    assert_eq!(strip_marker("cl:\u{e9}t\u{e9}"), "\u{e9}t\u{e9}");
    assert_eq!(color_role_name("Sky"), "cl:Sky");
}

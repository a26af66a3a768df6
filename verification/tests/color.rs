use zola::action::{Action, DEVLOG_CHANNEL};
use zola::color::{
    add_created, add_in_guild, color, color_unknown, delete, delete_done, delete_in_guild,
    find_place, info, AddRefusal,
    list, list_colors, list_rendered, set_done, set_for_member, set_in_guild, set_removed,
    set_request, validation_reply, GuildLookup, MemberLookup, SetPlan, Subcommand,
    LIST_DELAY_SECONDS,
};
use zola::hex::{Channel, HexError};
use zola::roles::RoleRecord;
use zola::swatch::Rgb;
use zola::validate::{validate_add, validate_label, NewColor, ValidationError};

const WENT_WRONG: &str = "I could not perform the task. Making a note for future improvement.";
const BAD_HEX: &str = "Hexcodes should be a hash followed by 6 hexadecimal characters. e.g. #aba123\nFor more hexcode color examples, see https://htmlcolorcodes.com/color-chart/";
const BLACK: &str = "Discord treats #000000 as \"no color\". I suggest #000001.";
const TOO_LONG: &str = "Error. Reduce label to 20 letters or less.";

fn reply(text: &str) -> Action {
    Action::Reply { content: text.to_string() }
}

fn devlog(text: &str) -> Action {
    Action::Devlog { channel: DEVLOG_CHANNEL, content: text.to_string() }
}

fn fail(text: &str) -> Action {
    Action::Fail { reason: text.to_string() }
}

fn lookup_failed(reason: &str) -> Vec<Action> {
    vec![reply(WENT_WRONG), devlog(&format!("ERROR: {}", reason)), fail(reason)]
}

fn role(id: u64, name: &str, colour: u32, position: i64) -> RoleRecord {
    RoleRecord { id, name: name.to_string(), colour, position }
}

fn sky() -> NewColor {
    NewColor { label: "Sky".to_string(), hexcode: "#1E90FF".to_string(), rgb: 0x1E90FF }
}

/// A stand-in for the platform that counts what is asked of it and keeps
/// the roles of one member.
struct FakePlatform {
    calls: usize,
    member: Vec<RoleRecord>,
    guild: Vec<RoleRecord>,
}

/// Runs `color set` for `label` against the stand-in, which lists the
/// member's roles as `listing` and refuses to take away the role `stuck`.
/// Returns every action in the order in which it was performed.
fn run_set(
    platform: &mut FakePlatform,
    listing: Vec<RoleRecord>,
    label: &str,
    stuck: Option<u64>,
) -> Vec<Action> {
    let mut log = Vec::new();
    let label = match zola::color::set(Some(label)) {
        Ok(label) => label,
        Err(actions) => return actions,
    };
    let target = match set_in_guild(label, &GuildLookup::Found(platform.guild.clone())) {
        Ok(target) => target,
        Err(actions) => return actions,
    };
    let plan = match set_for_member(&target, &MemberLookup::Found(listing)) {
        Ok(plan) => plan,
        Err(actions) => return actions,
    };
    let mut step = 0;
    loop {
        let request = set_request(label, &target, &plan, step);
        let refused = match request.last() {
            Some(Action::RemoveMemberRole { role_id }) => Some(*role_id) == stuck,
            _ => false,
        };
        let asked = request.iter().any(|a| {
            matches!(a, Action::RemoveMemberRole { .. } | Action::AddMemberRole { .. })
        });
        if refused {
            platform.calls += 1;
        } else {
            perform(platform, &request);
        }
        log.extend(request);
        if !asked {
            return log;
        }
        if step < plan.remove.len() {
            let failure = if refused { Some("Missing Permissions") } else { None };
            let told = set_removed("nivix", &plan.remove[step], failure);
            let ended = told.iter().any(|a| matches!(a, Action::Fail { .. }));
            log.extend(told);
            if ended {
                return log;
            }
            step += 1;
        } else {
            log.extend(set_done(label, "nivix", None));
            return log;
        }
    }
}

fn colours_held(platform: &FakePlatform) -> Vec<u64> {
    platform.member.iter().filter(|r| r.name.starts_with("cl:")).map(|r| r.id).collect()
}

fn perform(platform: &mut FakePlatform, actions: &[Action]) {
    for action in actions {
        match action {
            Action::CreateRole { .. } | Action::DeleteRole { .. } => platform.calls += 1,
            Action::RemoveMemberRole { role_id } => {
                platform.calls += 1;
                platform.member.retain(|r| r.id != *role_id);
            },
            Action::AddMemberRole { role_id } => {
                platform.calls += 1;
                let given = platform.guild.iter().find(|r| r.id == *role_id).unwrap().clone();
                platform.member.push(given);
            },
            _ => {},
        }
    }
}

#[test]
fn label_of_twenty_characters_passes() {
    assert_eq!(validate_label(Some("abcdefghijklmnopqrst")), Ok("abcdefghijklmnopqrst"));
    assert_eq!(validate_label(Some("a")), Ok("a"));
}

#[test]
fn label_of_twenty_one_characters_is_too_long() {
    assert_eq!(validate_label(Some("abcdefghijklmnopqrstu")), Err(ValidationError::LabelTooLong));
}

#[test]
fn label_length_counts_characters() {
    let twenty = "\u{e9}".repeat(20);
    assert_eq!(validate_label(Some(twenty.as_str())), Ok(twenty.as_str()));
    let more = "\u{e9}".repeat(21);
    assert_eq!(validate_label(Some(more.as_str())), Err(ValidationError::LabelTooLong));
}

#[test]
fn label_missing_or_empty_is_a_usage_error() {
    assert_eq!(validate_label(None), Err(ValidationError::UsageError));
    assert_eq!(validate_label(Some("")), Err(ValidationError::UsageError));
}

#[test]
fn validate_add_checks_in_order() {
    assert_eq!(validate_add(None, None), Err(ValidationError::UsageError));
    assert_eq!(validate_add(None, Some("#zzzzzz")), Err(ValidationError::UsageError));
    assert_eq!(
        validate_add(Some("abcdefghijklmnopqrstu"), None),
        Err(ValidationError::LabelTooLong)
    );
    assert_eq!(validate_add(Some("Sky"), None), Err(ValidationError::UsageError));
    assert_eq!(
        validate_add(Some("Sky"), Some("1E90FF")),
        Err(ValidationError::Hex(HexError::InvalidHexFormat))
    );
    assert_eq!(
        validate_add(Some("Sky"), Some("#000000")),
        Err(ValidationError::Hex(HexError::ReservedBlack))
    );
    assert_eq!(
        validate_add(Some("Sky"), Some("#1E90FG")),
        Err(ValidationError::Hex(HexError::InvalidHex(Channel::Blue)))
    );
    assert_eq!(validate_add(Some("Sky"), Some("#1E90FF")), Ok(sky()));
}

#[test]
fn validation_reply_for_each_error() {
    assert_eq!(validation_reply(ValidationError::UsageError, "Usage: x"), reply("Usage: x"));
    assert_eq!(validation_reply(ValidationError::LabelTooLong, "Usage: x"), reply(TOO_LONG));
    assert_eq!(
        validation_reply(ValidationError::Hex(HexError::InvalidHexFormat), "Usage: x"),
        reply(BAD_HEX)
    );
    assert_eq!(
        validation_reply(ValidationError::Hex(HexError::InvalidHex(Channel::Green)), "Usage: x"),
        reply(BAD_HEX)
    );
    assert_eq!(
        validation_reply(ValidationError::Hex(HexError::ReservedBlack), "Usage: x"),
        reply(BLACK)
    );
}

#[test]
fn add_with_long_label_makes_no_platform_call() {
    let mut platform = FakePlatform { calls: 0, member: Vec::new(), guild: Vec::new() };
    for hexcode in [None, Some("#1E90FF"), Some("#000000"), Some("nonsense")] {
        let ended = zola::color::add(Some("a-label-of-more-than-twenty-characters"), hexcode)
            .unwrap_err();
        assert_eq!(ended, vec![reply(TOO_LONG)]);
        perform(&mut platform, &ended);
    }
    let ended = delete(Some("a-label-of-more-than-twenty-characters")).unwrap_err();
    assert_eq!(ended, vec![reply(TOO_LONG)]);
    perform(&mut platform, &ended);
    let ended = zola::color::set(Some("a-label-of-more-than-twenty-characters")).unwrap_err();
    assert_eq!(ended, vec![reply(TOO_LONG)]);
    perform(&mut platform, &ended);
    assert_eq!(platform.calls, 0);
}

#[test]
fn add_black_replies_and_makes_no_platform_call() {
    let mut platform = FakePlatform { calls: 0, member: Vec::new(), guild: Vec::new() };
    let ended = zola::color::add(Some("Sky"), Some("#000000")).unwrap_err();
    assert_eq!(ended, vec![reply(BLACK)]);
    perform(&mut platform, &ended);
    assert_eq!(platform.calls, 0);
}

#[test]
fn add_without_arguments_replies_usage() {
    assert_eq!(
        zola::color::add(None, None),
        Err(vec![reply("Usage: !color add label hexcode")])
    );
    assert_eq!(
        zola::color::add(Some("Sky"), None),
        Err(vec![reply("Usage: !color add label hexcode")])
    );
}

#[test]
fn add_with_malformed_hexcode_replies() {
    assert_eq!(zola::color::add(Some("Sky"), Some("#12345")), Err(vec![reply(BAD_HEX)]));
    assert_eq!(zola::color::add(Some("Sky"), Some("#12345g")), Err(vec![reply(BAD_HEX)]));
}

#[test]
fn add_sky_end_to_end() {
    let guild = vec![
        role(1, "Emperor", 0, 20),
        role(2, "--colors-start-here--", 0, 7),
        role(3, "cl:Red", 0xFF0000, 6),
    ];
    let color = zola::color::add(Some("Sky"), Some("#1E90FF")).unwrap();
    assert_eq!(color, sky());
    let plan = add_in_guild(&color, Some(&guild));
    assert_eq!(
        plan,
        vec![
            Action::CreateRole {
                name: "cl:Sky".to_string(),
                colour: 0x1E90FF,
                position: 7,
                mentionable: false,
            },
        ]
    );
    let mut platform = FakePlatform { calls: 0, member: Vec::new(), guild };
    perform(&mut platform, &plan);
    assert_eq!(platform.calls, 1);
    assert_eq!(
        add_created(&color, "nivix", None),
        vec![
            devlog("INFO: nivix created role Sky with color <hex:#1E90FF, rgb:2003199>"),
            Action::LogInfo {
                line: "nivix created role Sky with color <hex:#1E90FF, rgb:2003199>".to_string(),
            },
            reply("Role \"Sky\" is now available."),
        ]
    );
}

#[test]
fn add_reports_a_refused_role() {
    assert_eq!(
        add_created(&sky(), "nivix", Some("Missing Permissions")),
        vec![
            devlog("ERROR: Failed to create role Sky. Missing Permissions"),
            Action::LogError { line: "Failed to create role Sky. Missing Permissions".to_string() },
            reply(
                "Could not create that role at this time. Please note this is a failure on nivix's part, not mine."
            ),
        ]
    );
}

#[test]
fn add_refuses_a_taken_label() {
    let guild = vec![role(2, "--colors-start-here--", 0, 7), role(3, "cl:Sky", 0xFF0000, 6)];
    assert_eq!(
        add_in_guild(&sky(), Some(&guild)),
        vec![reply("That color label is already taken! Try another one.")]
    );
}

#[test]
fn add_without_guild_fails() {
    assert_eq!(
        add_in_guild(&sky(), None),
        lookup_failed("Failed to grab guild from msg.guild().")
    );
}

#[test]
fn add_without_sentinel_tells_the_operator() {
    let guild = vec![role(1, "Emperor", 0, 20)];
    assert_eq!(
        add_in_guild(&sky(), Some(&guild)),
        vec![
            reply(WENT_WRONG),
            devlog(
                "ERROR: Could not find starting position for color roles. Maybe missing color role marker?"
            ),
            fail(
                "Could not find starting position for color roles. Maybe missing color role marker?"
            ),
        ]
    );
}

#[test]
fn add_places_the_role_at_the_sentinels_own_position() {
    for position in [0i64, 7, 255, 256, 260, 300, -1, i64::MAX, i64::MIN] {
        let guild = vec![role(2, "--colors-start-here--", 0, position)];
        assert_eq!(
            add_in_guild(&sky(), Some(&guild)),
            vec![
                Action::CreateRole {
                    name: "cl:Sky".to_string(),
                    colour: 0x1E90FF,
                    position,
                    mentionable: false,
                },
            ]
        );
    }
}

#[test]
fn info_tells_the_usage() {
    assert_eq!(
        info(),
        vec![
            reply(
                "**Color Command Usage:**\n\nList available colors with `!color list`\nSet your color with `!color = label`\nCreate a new color with `!color add label #hexcode`\nDelete a color with `!color delete label`"
            ),
        ]
    );
}

#[test]
fn list_lays_out_the_colour_roles() {
    let guild = vec![
        role(1, "cl:Red", 0xFF0000, 3),
        role(2, "Moderator", 0x00FF00, 9),
        role(3, "cl:Blue", 0x0000FF, 4),
    ];
    let plan = list(Some(&guild)).unwrap();
    assert_eq!(plan.width, 536);
    assert_eq!(plan.height, 92);
    assert_eq!(plan.rows.len(), 2);
    assert_eq!(plan.rows[0].label, "Red");
    assert_eq!(plan.rows[0].colour, Rgb { red: 255, green: 0, blue: 0 });
    assert_eq!(plan.rows[0].y, 0);
    assert_eq!(plan.rows[1].label, "Blue");
    assert_eq!(plan.rows[1].colour, Rgb { red: 0, green: 0, blue: 255 });
    assert_eq!(plan.rows[1].y, 46);
    assert_eq!(
        list_rendered(&plan, None),
        vec![
            Action::SendFile {
                path: "uploads\\color-preview.png".to_string(),
                content: String::new(),
            },
        ]
    );
}

#[test]
fn list_without_colour_roles_replies() {
    let guild = vec![role(2, "Moderator", 0x00FF00, 9)];
    assert_eq!(
        list(Some(&guild)),
        Err(vec![reply("I couldn't find any color roles. Message a Guru for help.")])
    );
}

#[test]
fn list_without_guild_fails() {
    assert_eq!(
        list(None),
        Err(lookup_failed("Failed to grab guild from msg.guild()."))
    );
}

#[test]
fn list_reports_a_failed_render_to_the_operator_only() {
    let guild = vec![role(1, "cl:Red", 0xFF0000, 3)];
    let plan = list(Some(&guild)).unwrap();
    assert_eq!(
        list_rendered(&plan, Some("font not found")),
        vec![
            Action::LogError { line: "Failed to generate image: font not found".to_string() },
            devlog("ERROR: Failed to generate image: font not found"),
        ]
    );
}

#[test]
fn list_colors_joins_the_labels() {
    let guild = vec![
        role(1, "cl:Red", 0xFF0000, 3),
        role(2, "Moderator", 0x00FF00, 9),
        role(3, "cl:Blue", 0x0000FF, 4),
        role(4, "cl:Sky", 0x1E90FF, 5),
    ];
    assert_eq!(
        list_colors(Some(&guild)),
        vec![reply("These are the available colors: Red, Blue, Sky")]
    );
    let one = vec![role(1, "cl:Red", 0xFF0000, 3)];
    assert_eq!(list_colors(Some(&one)), vec![reply("These are the available colors: Red")]);
}

#[test]
fn list_colors_without_colours_or_guild() {
    let guild = vec![role(2, "Moderator", 0x00FF00, 9)];
    assert_eq!(
        list_colors(Some(&guild)),
        vec![reply("I couldn't find any color roles. Message a Guru for help.")]
    );
    assert_eq!(list_colors(None), lookup_failed("Failed to grab guild from msg.guild()."));
}

#[test]
fn delete_end_to_end() {
    let guild = vec![role(1, "Sky", 0, 1), role(9, "cl:Sky", 0x1E90FF, 6)];
    let label = delete(Some("Sky")).unwrap();
    assert_eq!(label, "Sky");
    assert_eq!(delete_in_guild(label, Some(&guild)), vec![Action::DeleteRole { role_id: 9 }]);
    assert_eq!(
        delete_done(label, "nivix", "Role(9)", None),
        vec![
            Action::LogInfo { line: "Color Sky has been destroyed by nivix".to_string() },
            devlog("INFO: Color Sky has been destroyed by nivix"),
            reply("Color Sky has been destroyed."),
        ]
    );
}

#[test]
fn delete_of_an_unknown_label_replies() {
    let guild = vec![role(1, "Sky", 0, 1)];
    assert_eq!(
        delete_in_guild("Sky", Some(&guild)),
        vec![reply("There is no role with the name Sky. You must be mistaken.")]
    );
    assert_eq!(
        delete_in_guild("Sky", None),
        lookup_failed("Failed to grab guild from msg.guild().")
    );
}

#[test]
fn delete_without_label_replies_usage() {
    assert_eq!(delete(None), Err(vec![reply("Usage: !color delete label")]));
}

#[test]
fn delete_reports_a_refused_deletion() {
    assert_eq!(
        delete_done("Sky", "nivix", "Role(9)", Some("Http(403)")),
        vec![
            Action::LogError {
                line: "The color role Role(9) could not be deleted for this reason Http(403)"
                    .to_string(),
            },
            devlog("ERROR: The color role Role(9) could not be deleted for this reason Http(403)"),
            reply(WENT_WRONG),
        ]
    );
}

#[test]
fn set_twice_leaves_the_second_colour_only() {
    let a = role(10, "cl:A", 0xAA0000, 5);
    let b = role(11, "cl:B", 0x0000BB, 4);
    let guild = vec![role(1, "Emperor", 0, 20), a.clone(), b.clone()];
    let mut platform =
        FakePlatform { calls: 0, member: vec![role(1, "Emperor", 0, 20)], guild: guild.clone() };

    let listing = platform.member.clone();
    let done = run_set(&mut platform, listing, "A", None);
    assert_eq!(
        done,
        vec![
            Action::AddMemberRole { role_id: 10 },
            reply("Your self-assigned color is now A"),
            Action::LogInfo { line: "nivix just set their color to A".to_string() },
            devlog("INFO: nivix just set their color to A"),
        ]
    );
    assert_eq!(platform.member, vec![role(1, "Emperor", 0, 20), a.clone()]);

    let listing = platform.member.clone();
    let done = run_set(&mut platform, listing, "B", None);
    assert_eq!(
        done,
        vec![
            Action::RemoveMemberRole { role_id: 10 },
            reply("Removed current color cl:A."),
            Action::LogInfo { line: "nivix no longer has the color cl:A".to_string() },
            devlog("INFO: nivix no longer has the color cl:A"),
            Action::AddMemberRole { role_id: 11 },
            reply("Your self-assigned color is now B"),
            Action::LogInfo { line: "nivix just set their color to B".to_string() },
            devlog("INFO: nivix just set their color to B"),
        ]
    );
    assert_eq!(platform.member, vec![role(1, "Emperor", 0, 20), b.clone()]);
    assert_eq!(colours_held(&platform), vec![11]);
}

#[test]
fn set_twice_from_both_colours_in_either_order() {
    let a = role(10, "cl:A", 0xAA0000, 5);
    let b = role(11, "cl:B", 0x0000BB, 4);
    let guild = vec![a.clone(), b.clone()];
    let mut platform =
        FakePlatform { calls: 0, member: vec![a.clone(), b.clone()], guild: guild.clone() };
    run_set(&mut platform, vec![a.clone(), b.clone()], "A", None);
    assert_eq!(colours_held(&platform), vec![10]);
    let mut listing = platform.member.clone();
    listing.reverse();
    run_set(&mut platform, listing, "B", None);
    assert_eq!(colours_held(&platform), vec![11]);
}

#[test]
fn set_of_the_colour_already_held_changes_nothing() {
    let a = role(10, "cl:A", 0xAA0000, 5);
    let member = vec![role(1, "Emperor", 0, 20), a.clone()];
    let plan = set_for_member(&a, &MemberLookup::Found(member.clone())).unwrap();
    assert_eq!(plan, SetPlan { remove: Vec::new(), give: false });
    let mut platform = FakePlatform { calls: 0, member: member.clone(), guild: vec![a.clone()] };
    assert_eq!(
        run_set(&mut platform, member.clone(), "A", None),
        vec![
            reply(
                "Color A is already assigned to you.\nIf the color change hasn't taken effect, try typing in a different channel."
            ),
        ]
    );
    assert_eq!(platform.calls, 0);
    assert_eq!(platform.member, member);
}

#[test]
fn set_takes_away_every_other_colour_wherever_the_target_is_listed() {
    let l = role(10, "cl:L", 0xAA0000, 5);
    let x = role(12, "cl:X", 0, 3);
    let y = role(13, "cl:Y", 0, 2);
    let plain = role(1, "Emperor", 0, 20);
    let listings = vec![
        vec![l.clone(), x.clone(), plain.clone(), y.clone()],
        vec![x.clone(), l.clone(), y.clone(), plain.clone()],
        vec![plain.clone(), y.clone(), x.clone(), l.clone()],
    ];
    for listing in listings {
        let plan = set_for_member(&l, &MemberLookup::Found(listing.clone())).unwrap();
        assert!(!plan.give);
        assert_eq!(plan.remove.len(), 2);
        let mut platform =
            FakePlatform { calls: 0, member: listing.clone(), guild: vec![l.clone()] };
        let done = run_set(&mut platform, listing, "L", None);
        assert_eq!(platform.calls, 2);
        assert_eq!(colours_held(&platform), vec![10]);
        assert!(platform.member.contains(&plain));
        assert!(!done.iter().any(|a| matches!(a, Action::AddMemberRole { .. })));
        assert_eq!(
            done.last(),
            Some(&reply(
                "Color L is already assigned to you.\nIf the color change hasn't taken effect, try typing in a different channel."
            ))
        );
    }
}

#[test]
fn set_plans_removals_in_listing_order_and_the_gift() {
    let l = role(10, "cl:L", 0xAA0000, 5);
    let x = role(12, "cl:X", 0, 3);
    let y = role(13, "cl:Y", 0, 2);
    let listing = vec![y.clone(), role(1, "Emperor", 0, 20), x.clone()];
    let plan = set_for_member(&l, &MemberLookup::Found(listing)).unwrap();
    assert_eq!(plan, SetPlan { remove: vec![y.clone(), x.clone()], give: true });
    assert_eq!(set_request("L", &l, &plan, 0), vec![Action::RemoveMemberRole { role_id: 13 }]);
    assert_eq!(set_request("L", &l, &plan, 1), vec![Action::RemoveMemberRole { role_id: 12 }]);
    assert_eq!(set_request("L", &l, &plan, 2), vec![Action::AddMemberRole { role_id: 10 }]);
    assert_eq!(set_request("L", &l, &plan, 9), vec![Action::AddMemberRole { role_id: 10 }]);
}

#[test]
fn set_ends_at_a_refused_removal() {
    let l = role(10, "cl:L", 0xAA0000, 5);
    let x = role(12, "cl:X", 0, 3);
    let y = role(13, "cl:Y", 0, 2);
    let member = vec![x.clone(), y.clone()];
    let mut platform = FakePlatform { calls: 0, member: member.clone(), guild: vec![l.clone()] };
    let done = run_set(&mut platform, member.clone(), "L", Some(12));
    assert_eq!(
        done,
        vec![
            Action::RemoveMemberRole { role_id: 12 },
            reply(WENT_WRONG),
            Action::LogError {
                line: "Failed to remove color cl:X from you. Missing Permissions".to_string(),
            },
            devlog("ERROR: Failed to remove color cl:X from you. Missing Permissions"),
            fail("Failed to remove color cl:X from you. Missing Permissions"),
        ]
    );
    assert_eq!(platform.calls, 1);
    assert_eq!(platform.member, member);
}

#[test]
fn set_removed_tells_the_outcome() {
    let x = role(12, "cl:X", 0, 3);
    assert_eq!(
        set_removed("nivix", &x, None),
        vec![
            reply("Removed current color cl:X."),
            Action::LogInfo { line: "nivix no longer has the color cl:X".to_string() },
            devlog("INFO: nivix no longer has the color cl:X"),
        ]
    );
}

#[test]
fn set_fails_without_guild_member_or_roles() {
    assert_eq!(
        set_in_guild("A", &GuildLookup::NoGuild),
        Err(lookup_failed("Failed to grab guild_id from msg.guild_id."))
    );
    assert_eq!(
        set_in_guild("A", &GuildLookup::Unavailable),
        Err(lookup_failed("Failed to convert guild_id to PartialGuild."))
    );
    let a = role(10, "cl:A", 0xAA0000, 5);
    assert_eq!(
        set_for_member(&a, &MemberLookup::NoMember),
        Err(lookup_failed("Failed to grab member from msg.member()."))
    );
    assert_eq!(
        set_for_member(&a, &MemberLookup::NoRoles),
        Err(lookup_failed("Failed to grab roles from member.roles()."))
    );
}

#[test]
fn set_of_an_unknown_label_replies() {
    let guild = vec![role(1, "A", 0, 1)];
    assert_eq!(
        set_in_guild("A", &GuildLookup::Found(guild)),
        Err(vec![reply("No color role exists for label A.")])
    );
    assert_eq!(zola::color::set(None), Err(vec![reply("Usage: !color set label")]));
}

#[test]
fn set_done_tells_the_outcome() {
    assert_eq!(
        set_done("A", "nivix", None),
        vec![
            reply("Your self-assigned color is now A"),
            Action::LogInfo { line: "nivix just set their color to A".to_string() },
            devlog("INFO: nivix just set their color to A"),
        ]
    );
    assert_eq!(
        set_done("A", "nivix", Some("Missing Permissions")),
        vec![
            reply(WENT_WRONG),
            Action::LogError {
                line: "Failed to add color A to you. Missing Permissions".to_string(),
            },
            devlog("Failed to add color A to you. Missing Permissions"),
        ]
    );
}

#[test]
fn color_names_the_subcommand() {
    assert_eq!(color(Some("add")), Subcommand::AddColor);
    assert_eq!(color(Some("list")), Subcommand::ListColors);
    assert_eq!(color(Some("ls")), Subcommand::ListColors);
    assert_eq!(color(Some("delete")), Subcommand::DeleteColor);
    assert_eq!(color(Some("rm")), Subcommand::DeleteColor);
    assert_eq!(color(Some("set")), Subcommand::SetColor);
    assert_eq!(color(Some("=")), Subcommand::SetColor);
    assert_eq!(color(Some("info")), Subcommand::Info);
    assert_eq!(color(Some("Add")), Subcommand::Unknown);
    assert_eq!(color(Some("")), Subcommand::Unknown);
    assert_eq!(color(None), Subcommand::Unknown);
    assert_eq!(
        color_unknown(),
        vec![
            reply("The color command accepts the following subcommands: add, list, delete and set"),
        ]
    );
}

#[test]
fn list_is_delayed_by_five_seconds() {
    assert_eq!(LIST_DELAY_SECONDS, 5);
}

#[test]
fn list_keeps_the_order_in_which_labels_first_come() {
    let guild = vec![
        role(1, "cl:Red", 0xFF0000, 3),
        role(3, "cl:Blue", 0x0000FF, 4),
        role(4, "cl:Red", 0x00FF00, 5),
    ];
    let plan = list(Some(&guild)).unwrap();
    assert_eq!(plan.rows.len(), 2);
    assert_eq!(plan.rows[0].label, "Red");
    assert_eq!(plan.rows[0].colour, Rgb { red: 0, green: 255, blue: 0 });
    assert_eq!(plan.rows[1].label, "Blue");
}

#[test]
fn find_place_names_each_refusal() {
    let label = "Sky".to_string();
    assert_eq!(find_place(&label, None), Err(AddRefusal::PlatformLookupFailure));
    let taken = vec![role(2, "--colors-start-here--", 0, 7), role(3, "cl:Sky", 0xFF0000, 6)];
    assert_eq!(find_place(&label, Some(&taken)), Err(AddRefusal::DuplicateLabel));
    let bare = vec![role(1, "Emperor", 0, 20), role(3, "cl:Red", 0xFF0000, 6)];
    assert_eq!(find_place(&label, Some(&bare)), Err(AddRefusal::SentinelNotFound));
    let ready = vec![role(2, "--colors-start-here--", 0, 7), role(3, "cl:Red", 0xFF0000, 6)];
    assert_eq!(find_place(&label, Some(&ready)), Ok(7));
    let low = vec![role(2, "--colors-start-here--", 0, -1)];
    assert_eq!(find_place(&label, Some(&low)), Ok(-1));
    let high = vec![role(2, "--colors-start-here--", 0, 300)];
    assert_eq!(find_place(&label, Some(&high)), Ok(300));
}

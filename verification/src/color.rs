//! The `color` commands: add, list, delete, set and info.
//!
//! Each command is a short chain of functions. The first checks the
//! arguments; the next ones take what the platform returned. A function
//! that yields `Err` ends the command with the actions it holds; one that
//! yields a list of actions ends it too, unless the list closes with a
//! request whose outcome the next function of the chain takes. `color set`
//! makes its requests one at a time, and ends at the first that fails.

use vstd::prelude::*;
use crate::action::{
    devlog, devlog_of, no_mutation, reply, reply_of, reply_str, Action, ActionView,
};
use crate::hex::HexError;
use crate::roles::{
    color_map, color_role_name, first_labels, first_named, get_colors,
    get_starting_color_role_position, has_marker, holds, is_color_role, label_of,
    role_by_name, role_name_of, sentinel, strip_marker, RoleRecord,
};
use crate::text::{decimal, decimal_string, joined, same_text};
use crate::swatch::{
    generate_preview_of_color_roles, plan_shows, SwatchPlan, MAX_ROWS,
};
use crate::validate::{
    check_add, check_label, text_of, validate_add, validate_label, NewColor, ValidationError,
};

verus! {

/// Said when a lookup on the platform failed.
pub open spec fn went_wrong_text() -> Seq<char> {
    "I could not perform the task. Making a note for future improvement."@
}

/// Said when a hex code is malformed.
pub open spec fn invalid_hexcode_text() -> Seq<char> {
    "Hexcodes should be a hash followed by 6 hexadecimal characters. e.g. #aba123\nFor more hexcode color examples, see https://htmlcolorcodes.com/color-chart/"@
}

/// Said when the hex code is `#000000`.
pub open spec fn black_text() -> Seq<char> {
    "Discord treats #000000 as \"no color\". I suggest #000001."@
}

/// Said when a label is too long.
pub open spec fn label_too_long_text() -> Seq<char> {
    "Error. Reduce label to "@ + decimal(20) + " letters or less."@
}

/// What the user is told of a failed check; `usage` is the usage line of
/// the command at hand.
pub open spec fn validation_text(error: ValidationError, usage: Seq<char>) -> Seq<char> {
    match error {
        ValidationError::UsageError => usage,
        ValidationError::LabelTooLong => label_too_long_text(),
        ValidationError::Hex(HexError::ReservedBlack) => black_text(),
        ValidationError::Hex(_) => invalid_hexcode_text(),
    }
}

/// The reply to a failed check.
pub fn validation_reply(error: ValidationError, usage: &str) -> (action: Action)
    ensures
        action@ == reply_of(validation_text(error, usage@)),
{
    match error {
        ValidationError::UsageError => reply_str(usage),
        ValidationError::LabelTooLong => {
            let mut s = String::from_str("Error. Reduce label to ");
            s.append(decimal_string(20).as_str());
            s.append(" letters or less.");
            reply(s)
        },
        ValidationError::Hex(HexError::ReservedBlack) => reply_str(
            "Discord treats #000000 as \"no color\". I suggest #000001.",
        ),
        ValidationError::Hex(_) => reply_str(
            "Hexcodes should be a hash followed by 6 hexadecimal characters. e.g. #aba123\nFor more hexcode color examples, see https://htmlcolorcodes.com/color-chart/",
        ),
    }
}

/// The actions that end a command whose lookup failed: the user is told
/// that something went wrong and no more, the operator gets `reason`, and so
/// does the command framework.
pub open spec fn lookup_failed(reason: Seq<char>) -> Seq<ActionView> {
    seq![
        reply_of(went_wrong_text()),
        devlog_of("ERROR: "@ + reason),
        ActionView::Fail { reason },
    ]
}

fn lookup_failure(reason: &str) -> (actions: Vec<Action>)
    ensures
        actions.deep_view() == lookup_failed(reason@),
{
    let mut line = String::from_str("ERROR: ");
    line.append(reason);
    let actions = vec![
        reply_str("I could not perform the task. Making a note for future improvement."),
        devlog(line),
        Action::Fail { reason: String::from_str(reason) },
    ];
    assert(actions.deep_view() =~= lookup_failed(reason@));
    actions
}

/// The least number of seconds between two `color list` of one user.
pub const LIST_DELAY_SECONDS: i64 = 5;

/// The usage line of `color add`.
pub open spec fn add_usage() -> Seq<char> {
    "Usage: !color add label hexcode"@
}

/// `color info`: how the colour commands are used.
pub fn info() -> (actions: Vec<Action>)
    ensures
        actions.deep_view() == seq![
            reply_of(
                "**Color Command Usage:**\n\nList available colors with `!color list`\nSet your color with `!color = label`\nCreate a new color with `!color add label #hexcode`\nDelete a color with `!color delete label`"@,
            ),
        ],
{
    let actions = vec![
        reply_str(
            "**Color Command Usage:**\n\nList available colors with `!color list`\nSet your color with `!color = label`\nCreate a new color with `!color add label #hexcode`\nDelete a color with `!color delete label`",
        ),
    ];
    assert(actions.deep_view() =~= seq![
        reply_of(
            "**Color Command Usage:**\n\nList available colors with `!color list`\nSet your color with `!color = label`\nCreate a new color with `!color add label #hexcode`\nDelete a color with `!color delete label`"@,
        ),
    ]);
    actions
}

/// `color add`, first step: checks the arguments. Where a check fails the
/// command ends with a reply and nothing else.
pub fn add(label: Option<&str>, hexcode: Option<&str>) -> (result: Result<NewColor, Vec<Action>>)
    ensures
        match check_add(text_of(label), text_of(hexcode)) {
            Ok(rgb) => result is Ok && result->Ok_0.label@ == label->0@ && result->Ok_0.hexcode@
                == hexcode->0@ && result->Ok_0.rgb == rgb,
            Err(e) => result is Err && result->Err_0.deep_view() == seq![
                reply_of(validation_text(e, add_usage())),
            ],
        },
{
    match validate_add(label, hexcode) {
        Ok(color) => Ok(color),
        Err(e) => {
            let actions = vec![validation_reply(e, "Usage: !color add label hexcode")];
            assert(actions.deep_view() =~= seq![reply_of(validation_text(e, add_usage()))]);
            Err(actions)
        },
    }
}

/// A label of more than twenty characters ends `color add`, `color delete`
/// and `color set` at their first step, before anything is asked of the
/// platform: the checks fail whatever the hex code is, and all that follows
/// is the reply that names the limit.
pub proof fn lemma_long_label_ends_command(
    label: Seq<char>,
    hexcode: Option<Seq<char>>,
    usage: Seq<char>,
)
    requires
        label.len() > 20,
    ensures
        check_label(Some(label)) == Err::<Seq<char>, ValidationError>(
            ValidationError::LabelTooLong,
        ),
        check_add(Some(label), hexcode) == Err::<u64, ValidationError>(
            ValidationError::LabelTooLong,
        ),
        validation_text(ValidationError::LabelTooLong, usage) == label_too_long_text(),
        no_mutation(seq![reply_of(label_too_long_text())]),
{
}

/// The roles of a guild that may not have been found.
pub open spec fn roles_of(roles: Option<&Vec<RoleRecord>>) -> Option<Seq<RoleRecord>> {
    match roles {
        Some(r) => Some(r@),
        None => None,
    }
}

/// Said when `color add` names a label that a colour role already has.
pub open spec fn label_taken_text() -> Seq<char> {
    "That color label is already taken! Try another one."@
}

/// The error of a guild without the sentinel role.
pub open spec fn no_sentinel_text() -> Seq<char> {
    "Could not find starting position for color roles. Maybe missing color role marker?"@
}

/// Why `color add` creates no role in a guild.
#[derive(Clone, Copy, Debug, PartialEq, Eq, Structural)]
pub enum AddRefusal {
    /// The guild of the message was not found.
    PlatformLookupFailure,
    /// A colour role of the guild has the label already.
    DuplicateLabel,
    /// The guild has no sentinel role to place the new role by.
    SentinelNotFound,
}

/// Where `color add` places the role for `label` in a guild with these
/// roles: at the sentinel's own position. The guild has to be there, the
/// label has to be free, and the sentinel has to be found, in this order.
pub open spec fn place_for(label: Seq<char>, roles: Option<Seq<RoleRecord>>) -> Result<
    i64,
    AddRefusal,
> {
    match roles {
        None => Err(AddRefusal::PlatformLookupFailure),
        Some(rs) => if color_map(rs).contains_key(label) {
            Err(AddRefusal::DuplicateLabel)
        } else {
            match first_named(rs, sentinel()) {
                None => Err(AddRefusal::SentinelNotFound),
                Some(k) => Ok(rs[k].position),
            }
        },
    }
}

/// Finds the place of the role for `label`; `roles` is `None` where the
/// guild was not found.
pub fn find_place(label: &String, roles: Option<&Vec<RoleRecord>>) -> (result: Result<
    i64,
    AddRefusal,
>)
    ensures
        result == place_for(label@, roles_of(roles)),
{
    let roles = match roles {
        Some(r) => r,
        None => {
            return Err(AddRefusal::PlatformLookupFailure);
        },
    };
    let colors = get_colors(roles);
    if colors.contains_key(label) {
        return Err(AddRefusal::DuplicateLabel);
    }
    match get_starting_color_role_position(roles) {
        Err(_) => Err(AddRefusal::SentinelNotFound),
        Ok(position) => Ok(position),
    }
}

/// What `color add` does for a checked colour in a guild with these roles.
///
/// Without the guild, or without the sentinel role in it, the lookup has
/// failed. A label that a colour role already has is refused, and nothing
/// is created. Else the role is created: under the marker and the label,
/// in the colour, at the place found.
pub open spec fn add_plan(label: Seq<char>, rgb: u64, roles: Option<Seq<RoleRecord>>) -> Seq<
    ActionView,
> {
    match place_for(label, roles) {
        Err(AddRefusal::PlatformLookupFailure) => lookup_failed(
            "Failed to grab guild from msg.guild()."@,
        ),
        Err(AddRefusal::DuplicateLabel) => seq![reply_of(label_taken_text())],
        Err(AddRefusal::SentinelNotFound) => lookup_failed(no_sentinel_text()),
        Ok(position) => seq![
            ActionView::CreateRole {
                name: role_name_of(label),
                colour: rgb,
                position,
                mentionable: false,
            },
        ],
    }
}

/// `color add`, second step: takes the guild's roles, `None` where the
/// guild was not found. Where the result is a request to create a role,
/// [`add_created`] takes its outcome.
pub fn add_in_guild(color: &NewColor, roles: Option<&Vec<RoleRecord>>) -> (actions: Vec<Action>)
    ensures
        actions.deep_view() == add_plan(color.label@, color.rgb, roles_of(roles)),
{
    match find_place(&color.label, roles) {
        Err(AddRefusal::PlatformLookupFailure) => lookup_failure(
            "Failed to grab guild from msg.guild().",
        ),
        Err(AddRefusal::DuplicateLabel) => {
            let actions = vec![reply_str("That color label is already taken! Try another one.")];
            assert(actions.deep_view() =~= add_plan(color.label@, color.rgb, roles_of(roles)));
            actions
        },
        Err(AddRefusal::SentinelNotFound) => lookup_failure(
            "Could not find starting position for color roles. Maybe missing color role marker?",
        ),
        Ok(position) => {
            let actions = vec![
                Action::CreateRole {
                    name: color_role_name(color.label.as_str()),
                    colour: color.rgb,
                    position,
                    mentionable: false,
                },
            ];
            assert(actions.deep_view() =~= add_plan(color.label@, color.rgb, roles_of(roles)));
            actions
        },
    }
}

/// The audit line of a created colour role.
pub open spec fn created_line(
    author: Seq<char>,
    label: Seq<char>,
    hexcode: Seq<char>,
    rgb: u64,
) -> Seq<char> {
    author + " created role "@ + label + " with color <hex:"@ + hexcode + ", rgb:"@ + decimal(
        rgb as nat,
    ) + ">"@
}

/// The error line of a colour role that was not created.
pub open spec fn not_created_line(label: Seq<char>, why: Seq<char>) -> Seq<char> {
    "Failed to create role "@ + label + ". "@ + why
}

/// What follows the platform's answer to the request to create a role;
/// `failure` is the platform's error, `None` where it made the role.
///
/// A created role is written to the operator's channel and to the log, and
/// the user is told. A failure goes the same three ways.
pub open spec fn add_outcome(
    author: Seq<char>,
    label: Seq<char>,
    hexcode: Seq<char>,
    rgb: u64,
    failure: Option<Seq<char>>,
) -> Seq<ActionView> {
    match failure {
        None => seq![
            devlog_of("INFO: "@ + created_line(author, label, hexcode, rgb)),
            ActionView::LogInfo { line: created_line(author, label, hexcode, rgb) },
            reply_of("Role \""@ + label + "\" is now available."@),
        ],
        Some(why) => seq![
            devlog_of("ERROR: "@ + not_created_line(label, why)),
            ActionView::LogError { line: not_created_line(label, why) },
            reply_of(
                "Could not create that role at this time. Please note this is a failure on nivix's part, not mine."@,
            ),
        ],
    }
}

fn prefixed(prefix: &str, line: &String) -> (s: String)
    ensures
        s@ == prefix@ + line@,
{
    let mut s = String::from_str(prefix);
    s.append(line.as_str());
    s
}

/// `color add`, last step: takes the outcome of the request to create the
/// role, and the name of the user who sent the command.
pub fn add_created(color: &NewColor, author: &str, failure: Option<&str>) -> (actions: Vec<Action>)
    ensures
        actions.deep_view() == add_outcome(
            author@,
            color.label@,
            color.hexcode@,
            color.rgb,
            text_of(failure),
        ),
{
    match failure {
        None => {
            let mut line = String::from_str(author);
            line.append(" created role ");
            line.append(color.label.as_str());
            line.append(" with color <hex:");
            line.append(color.hexcode.as_str());
            line.append(", rgb:");
            line.append(decimal_string(color.rgb).as_str());
            line.append(">");
            let mut told = String::from_str("Role \"");
            told.append(color.label.as_str());
            told.append("\" is now available.");
            let actions = vec![
                devlog(prefixed("INFO: ", &line)),
                Action::LogInfo { line },
                reply(told),
            ];
            assert(actions.deep_view() =~= add_outcome(
                author@,
                color.label@,
                color.hexcode@,
                color.rgb,
                None,
            ));
            actions
        },
        Some(why) => {
            let mut line = String::from_str("Failed to create role ");
            line.append(color.label.as_str());
            line.append(". ");
            line.append(why);
            let actions = vec![
                devlog(prefixed("ERROR: ", &line)),
                Action::LogError { line },
                reply_str(
                    "Could not create that role at this time. Please note this is a failure on nivix's part, not mine.",
                ),
            ];
            assert(actions.deep_view() =~= add_outcome(
                author@,
                color.label@,
                color.hexcode@,
                color.rgb,
                Some(why@),
            ));
            actions
        },
    }
}

/// Said when a guild has no colour role.
pub open spec fn no_colors_text() -> Seq<char> {
    "I couldn't find any color roles. Message a Guru for help."@
}

/// The error line of a swatch that was not made.
pub open spec fn not_rendered_line(why: Seq<char>) -> Seq<char> {
    "Failed to generate image: "@ + why
}

/// A swatch that was not made is written to the log and to the operator's
/// channel; the user is told nothing.
pub open spec fn render_failed(why: Seq<char>) -> Seq<ActionView> {
    seq![
        ActionView::LogError { line: not_rendered_line(why) },
        devlog_of("ERROR: "@ + not_rendered_line(why)),
    ]
}

/// Said of a guild with more colour roles than a swatch can show.
pub open spec fn too_many_rows_text() -> Seq<char> {
    "too many color roles for one image"@
}

fn render_failure(why: &str) -> (actions: Vec<Action>)
    ensures
        actions.deep_view() == render_failed(why@),
{
    let mut line = String::from_str("Failed to generate image: ");
    line.append(why);
    let mirrored = devlog(prefixed("ERROR: ", &line));
    let actions = vec![Action::LogError { line }, mirrored];
    assert(actions.deep_view() =~= render_failed(why@));
    actions
}

/// `color list`, first step: takes the guild's roles, `None` where the
/// guild was not found, and lays out the swatch of its colour roles, one
/// row for each label, in the order in which the roles first have them.
/// The surrounding program draws the plan and hands the outcome to
/// [`list_rendered`].
pub fn list(roles: Option<&Vec<RoleRecord>>) -> (result: Result<SwatchPlan, Vec<Action>>)
    ensures
        match roles_of(roles) {
            None => result is Err && result->Err_0.deep_view() == lookup_failed(
                "Failed to grab guild from msg.guild()."@,
            ),
            Some(rs) => if first_labels(rs).len() == 0 {
                result is Err && result->Err_0.deep_view() == seq![reply_of(no_colors_text())]
            } else if first_labels(rs).len() > MAX_ROWS {
                result is Err && result->Err_0.deep_view() == render_failed(too_many_rows_text())
            } else {
                result is Ok && plan_shows(result->Ok_0, first_labels(rs), color_map(rs))
            },
        },
{
    let roles = match roles {
        Some(r) => r,
        None => {
            return Err(lookup_failure("Failed to grab guild from msg.guild()."));
        },
    };
    let colors = get_colors(roles);
    if colors.len() == 0 {
        let actions = vec![
            reply_str("I couldn't find any color roles. Message a Guru for help."),
        ];
        assert(actions.deep_view() =~= seq![reply_of(no_colors_text())]);
        return Err(actions);
    }
    match generate_preview_of_color_roles(&colors) {
        Ok(plan) => Ok(plan),
        Err(_) => Err(render_failure("too many color roles for one image")),
    }
}

/// `color list`, last step: takes the outcome of drawing the plan;
/// `failure` is the cause where the picture was not written, and then
/// nothing is uploaded.
pub fn list_rendered(plan: &SwatchPlan, failure: Option<&str>) -> (actions: Vec<Action>)
    ensures
        actions.deep_view() == match text_of(failure) {
            None => seq![ActionView::SendFile { path: plan.path@, content: Seq::empty() }],
            Some(why) => render_failed(why),
        },
{
    match failure {
        None => {
            let actions = vec![Action::SendFile { path: plan.path.clone(), content: String::new() }];
            assert(actions.deep_view() =~= seq![
                ActionView::SendFile { path: plan.path@, content: Seq::empty() },
            ]);
            actions
        },
        Some(why) => render_failure(why),
    }
}

/// The usage line of `color delete`.
pub open spec fn delete_usage() -> Seq<char> {
    "Usage: !color delete label"@
}

fn checked_label<'a>(label: Option<&'a str>, usage: &str) -> (result: Result<&'a str, Vec<Action>>)
    ensures
        match check_label(text_of(label)) {
            Ok(l) => result is Ok && label == Some(result->Ok_0),
            Err(e) => result is Err && result->Err_0.deep_view() == seq![
                reply_of(validation_text(e, usage@)),
            ],
        },
{
    match validate_label(label) {
        Ok(l) => Ok(l),
        Err(e) => {
            let actions = vec![validation_reply(e, usage)];
            assert(actions.deep_view() =~= seq![reply_of(validation_text(e, usage@))]);
            Err(actions)
        },
    }
}

/// `color delete`, first step: checks the label. Where the check fails
/// the command ends with a reply and nothing else.
pub fn delete<'a>(label: Option<&'a str>) -> (result: Result<&'a str, Vec<Action>>)
    ensures
        match check_label(text_of(label)) {
            Ok(l) => result is Ok && label == Some(result->Ok_0),
            Err(e) => result is Err && result->Err_0.deep_view() == seq![
                reply_of(validation_text(e, delete_usage())),
            ],
        },
{
    checked_label(label, "Usage: !color delete label")
}

/// What `color delete` does for a label in a guild with these roles: it
/// asks for the first role called by the marker and the label to be
/// deleted, or says that there is none.
pub open spec fn delete_plan(label: Seq<char>, roles: Option<Seq<RoleRecord>>) -> Seq<ActionView> {
    match roles {
        None => lookup_failed("Failed to grab guild from msg.guild()."@),
        Some(rs) => match first_named(rs, role_name_of(label)) {
            None => seq![
                reply_of(
                    "There is no role with the name "@ + label + ". You must be mistaken."@,
                ),
            ],
            Some(k) => seq![ActionView::DeleteRole { role_id: rs[k].id }],
        },
    }
}

/// `color delete`, second step: takes the guild's roles, `None` where the
/// guild was not found. Where the result is a request to delete a role,
/// [`delete_done`] takes its outcome.
pub fn delete_in_guild(label: &str, roles: Option<&Vec<RoleRecord>>) -> (actions: Vec<Action>)
    ensures
        actions.deep_view() == delete_plan(label@, roles_of(roles)),
{
    let roles = match roles {
        Some(r) => r,
        None => {
            return lookup_failure("Failed to grab guild from msg.guild().");
        },
    };
    let name = color_role_name(label);
    match role_by_name(roles, &name) {
        None => {
            let mut told = String::from_str("There is no role with the name ");
            told.append(label);
            told.append(". You must be mistaken.");
            let actions = vec![reply(told)];
            assert(actions.deep_view() =~= delete_plan(label@, Some(roles@)));
            actions
        },
        Some(role) => {
            let actions = vec![Action::DeleteRole { role_id: role.id }];
            assert(actions.deep_view() =~= delete_plan(label@, Some(roles@)));
            actions
        },
    }
}

/// The audit line of a deleted colour role.
pub open spec fn destroyed_line(label: Seq<char>, author: Seq<char>) -> Seq<char> {
    "Color "@ + label + " has been destroyed by "@ + author
}

/// The error line of a colour role that was not deleted; `role` is the
/// role as the platform's client prints it.
pub open spec fn not_deleted_line(role: Seq<char>, why: Seq<char>) -> Seq<char> {
    "The color role "@ + role + " could not be deleted for this reason "@ + why
}

/// What follows the platform's answer to the request to delete a role;
/// `failure` is the platform's error, `None` where it deleted the role.
///
/// A deleted role is written to the log and to the operator's channel, and
/// the user is told. A failure goes to the log and to the operator with the
/// platform's error, and the user is told that something went wrong.
pub open spec fn delete_outcome(
    label: Seq<char>,
    author: Seq<char>,
    role: Seq<char>,
    failure: Option<Seq<char>>,
) -> Seq<ActionView> {
    match failure {
        None => seq![
            ActionView::LogInfo { line: destroyed_line(label, author) },
            devlog_of("INFO: "@ + destroyed_line(label, author)),
            reply_of("Color "@ + label + " has been destroyed."@),
        ],
        Some(why) => seq![
            ActionView::LogError { line: not_deleted_line(role, why) },
            devlog_of("ERROR: "@ + not_deleted_line(role, why)),
            reply_of(went_wrong_text()),
        ],
    }
}

/// `color delete`, last step: takes the outcome of the request to delete
/// the role, the name of the user who sent the command, and the role as
/// the platform's client prints it.
pub fn delete_done(label: &str, author: &str, role: &str, failure: Option<&str>) -> (actions: Vec<
    Action,
>)
    ensures
        actions.deep_view() == delete_outcome(label@, author@, role@, text_of(failure)),
{
    match failure {
        None => {
            let mut line = String::from_str("Color ");
            line.append(label);
            line.append(" has been destroyed by ");
            line.append(author);
            let mut told = String::from_str("Color ");
            told.append(label);
            told.append(" has been destroyed.");
            let mirrored = devlog(prefixed("INFO: ", &line));
            let actions = vec![Action::LogInfo { line }, mirrored, reply(told)];
            assert(actions.deep_view() =~= delete_outcome(label@, author@, role@, None));
            actions
        },
        Some(why) => {
            let mut line = String::from_str("The color role ");
            line.append(role);
            line.append(" could not be deleted for this reason ");
            line.append(why);
            let mirrored = devlog(prefixed("ERROR: ", &line));
            let actions = vec![
                Action::LogError { line },
                mirrored,
                reply_str("I could not perform the task. Making a note for future improvement."),
            ];
            assert(actions.deep_view() =~= delete_outcome(label@, author@, role@, Some(why@)));
            actions
        },
    }
}

/// The usage line of `color set`.
pub open spec fn set_usage() -> Seq<char> {
    "Usage: !color set label"@
}

/// `color set`, first step: checks the label. Where the check fails the
/// command ends with a reply and nothing else.
pub fn set<'a>(label: Option<&'a str>) -> (result: Result<&'a str, Vec<Action>>)
    ensures
        match check_label(text_of(label)) {
            Ok(l) => result is Ok && label == Some(result->Ok_0),
            Err(e) => result is Err && result->Err_0.deep_view() == seq![
                reply_of(validation_text(e, set_usage())),
            ],
        },
{
    checked_label(label, "Usage: !color set label")
}

/// What came of fetching the guild of a message.
#[derive(Clone, Debug, PartialEq, Eq)]
pub enum GuildLookup {
    /// The message was not sent in a guild.
    NoGuild,
    /// The platform did not hand out the guild.
    Unavailable,
    /// The guild's roles.
    Found(Vec<RoleRecord>),
}

/// What came of fetching the member who sent a message.
#[derive(Clone, Debug, PartialEq, Eq)]
pub enum MemberLookup {
    /// The member was not found.
    NoMember,
    /// The member's roles were not found.
    NoRoles,
    /// The roles that the member holds.
    Found(Vec<RoleRecord>),
}

/// What `color set` makes of the guild: the first role called by the
/// marker and the label, or the actions that end the command.
pub open spec fn set_target(label: Seq<char>, guild: GuildLookup) -> Result<
    RoleRecord,
    Seq<ActionView>,
> {
    match guild {
        GuildLookup::NoGuild => Err(lookup_failed("Failed to grab guild_id from msg.guild_id."@)),
        GuildLookup::Unavailable => Err(
            lookup_failed("Failed to convert guild_id to PartialGuild."@),
        ),
        GuildLookup::Found(roles) => match first_named(roles@, role_name_of(label)) {
            None => Err(seq![reply_of("No color role exists for label "@ + label + "."@)]),
            Some(k) => Ok(roles@[k]),
        },
    }
}

/// `color set`, second step: takes what came of fetching the guild and
/// finds the colour role of the label. With that role,
/// [`set_for_member`] goes on.
pub fn set_in_guild(label: &str, guild: &GuildLookup) -> (result: Result<RoleRecord, Vec<Action>>)
    ensures
        match set_target(label@, *guild) {
            Ok(role) => result is Ok && result->Ok_0.id == role.id && result->Ok_0.name@
                == role.name@ && result->Ok_0.colour == role.colour && result->Ok_0.position
                == role.position,
            Err(actions) => result is Err && result->Err_0.deep_view() == actions,
        },
{
    match guild {
        GuildLookup::NoGuild => Err(lookup_failure("Failed to grab guild_id from msg.guild_id.")),
        GuildLookup::Unavailable => Err(
            lookup_failure("Failed to convert guild_id to PartialGuild."),
        ),
        GuildLookup::Found(roles) => {
            let name = color_role_name(label);
            match role_by_name(roles, &name) {
                None => {
                    let mut told = String::from_str("No color role exists for label ");
                    told.append(label);
                    told.append(".");
                    let actions = vec![reply(told)];
                    assert(actions.deep_view() =~= set_target(label@, *guild)->Err_0);
                    Err(actions)
                },
                Some(role) => Ok(
                    RoleRecord {
                        id: role.id,
                        name: role.name.clone(),
                        colour: role.colour,
                        position: role.position,
                    },
                ),
            }
        },
    }
}

/// Said when the member already holds the colour role asked for.
pub open spec fn already_assigned_text(label: Seq<char>) -> Seq<char> {
    "Color "@ + label
        + " is already assigned to you.\nIf the color change hasn't taken effect, try typing in a different channel."@
}

/// Said when a colour role is taken from the member; `name` is the role's
/// name, marker and all.
pub open spec fn removed_text(name: Seq<char>) -> Seq<char> {
    "Removed current color "@ + name + "."@
}

/// The audit line of a colour role taken from a member; `name` is the
/// role's name, marker and all.
pub open spec fn dropped_line(author: Seq<char>, name: Seq<char>) -> Seq<char> {
    author + " no longer has the color "@ + name
}

/// The error line of a colour role that was not taken from a member.
pub open spec fn not_dropped_line(name: Seq<char>, why: Seq<char>) -> Seq<char> {
    "Failed to remove color "@ + name + " from you. "@ + why
}

/// The colour roles among `listing` other than the role `target`, each as
/// often and in the order as listed.
pub open spec fn others(target: u64, listing: Seq<RoleRecord>) -> Seq<RoleRecord>
    decreases listing.len(),
{
    if listing.len() == 0 {
        Seq::empty()
    } else if is_color_role(listing.last().name@) && listing.last().id != target {
        others(target, listing.drop_last()).push(listing.last())
    } else {
        others(target, listing.drop_last())
    }
}

/// What `color set` has to do for a member: the roles to take away, and
/// whether the target is still to be given.
#[derive(Clone, Debug, PartialEq, Eq)]
pub struct SetPlan {
    /// The colour roles that the member holds beside the target.
    pub remove: Vec<RoleRecord>,
    /// Whether the member does not hold the target yet.
    pub give: bool,
}

/// What `color set` plans for the member who sent the command: every
/// colour role that the member holds, other than the target, is to be
/// taken away, wherever it is listed, and the target is to be given unless
/// the member holds it.
pub open spec fn set_plan(target: u64, member: MemberLookup) -> Result<
    (Seq<RoleRecord>, bool),
    Seq<ActionView>,
> {
    match member {
        MemberLookup::NoMember => Err(lookup_failed("Failed to grab member from msg.member()."@)),
        MemberLookup::NoRoles => Err(lookup_failed("Failed to grab roles from member.roles()."@)),
        MemberLookup::Found(roles) => Ok((others(target, roles@), !holds(roles@, target))),
    }
}

/// `color set`, third step: takes the target role and what came of
/// fetching the member, and plans the changes. The plan is carried out one
/// request at a time: [`set_request`] names the request of each step.
pub fn set_for_member(target: &RoleRecord, member: &MemberLookup) -> (result: Result<
    SetPlan,
    Vec<Action>,
>)
    ensures
        match set_plan(target.id, *member) {
            Ok((remove, give)) => result is Ok && result->Ok_0.remove@ == remove
                && result->Ok_0.give == give,
            Err(actions) => result is Err && result->Err_0.deep_view() == actions,
        },
{
    let roles = match member {
        MemberLookup::NoMember => {
            return Err(lookup_failure("Failed to grab member from msg.member()."));
        },
        MemberLookup::NoRoles => {
            return Err(lookup_failure("Failed to grab roles from member.roles()."));
        },
        MemberLookup::Found(roles) => roles,
    };
    let mut remove: Vec<RoleRecord> = Vec::new();
    let mut held = false;
    let mut i: usize = 0;
    while i < roles.len()
        invariant
            i <= roles.len(),
            set_plan(target.id, *member) == Ok::<(Seq<RoleRecord>, bool), Seq<ActionView>>(
                (others(target.id, roles@), !holds(roles@, target.id)),
            ),
            remove@ == others(target.id, roles@.take(i as int)),
            held == holds(roles@.take(i as int), target.id),
        decreases roles.len() - i,
    {
        let ghost before = roles@.take(i as int);
        let ghost after = roles@.take(i + 1);
        proof {
            assert(after.drop_last() =~= before);
            assert(after.last() == roles@[i as int]);
            assert(holds(after, target.id) == (holds(before, target.id) || roles@[i as int].id
                == target.id)) by {
                if holds(before, target.id) {
                    let k = choose|k: int|
                        0 <= k < before.len() && (#[trigger] before[k]).id == target.id;
                    assert(after[k].id == target.id);
                }
                if roles@[i as int].id == target.id {
                    assert(after[i as int].id == target.id);
                }
                if holds(after, target.id) {
                    let k = choose|k: int|
                        0 <= k < after.len() && (#[trigger] after[k]).id == target.id;
                    if k < i {
                        assert(before[k].id == target.id);
                    }
                }
            }
        }
        if roles[i].id == target.id {
            held = true;
        } else if has_marker(roles[i].name.as_str()) {
            remove.push(
                RoleRecord {
                    id: roles[i].id,
                    name: roles[i].name.clone(),
                    colour: roles[i].colour,
                    position: roles[i].position,
                },
            );
        }
        i += 1;
    }
    proof {
        assert(roles@.take(roles@.len() as int) =~= roles@);
    }
    Ok(SetPlan { remove, give: !held })
}

/// The request of step `step` of a plan: to take away the role of that
/// index; past the last of them, to give the target; or, where the member
/// holds the target, nothing but the reply that says so.
pub open spec fn request_at(
    label: Seq<char>,
    target: u64,
    remove: Seq<RoleRecord>,
    give: bool,
    step: int,
) -> Seq<ActionView> {
    if 0 <= step < remove.len() {
        seq![ActionView::RemoveMemberRole { role_id: remove[step].id }]
    } else if give {
        seq![ActionView::AddMemberRole { role_id: target }]
    } else {
        seq![reply_of(already_assigned_text(label))]
    }
}

/// `color set`, fourth step, taken once for each step of the plan: names
/// the request of step `step`. The outcome of a request to take a role
/// away goes to [`set_removed`], and the next step follows where that
/// went well; the outcome of the request to give the target goes to
/// [`set_done`]. The reply that the member holds the target ends the
/// command.
pub fn set_request(label: &str, target: &RoleRecord, plan: &SetPlan, step: usize) -> (actions: Vec<
    Action,
>)
    ensures
        actions.deep_view() == request_at(label@, target.id, plan.remove@, plan.give, step as int),
{
    if step < plan.remove.len() {
        let actions = vec![Action::RemoveMemberRole { role_id: plan.remove[step].id }];
        assert(actions.deep_view() =~= request_at(
            label@,
            target.id,
            plan.remove@,
            plan.give,
            step as int,
        ));
        actions
    } else if plan.give {
        let actions = vec![Action::AddMemberRole { role_id: target.id }];
        assert(actions.deep_view() =~= request_at(
            label@,
            target.id,
            plan.remove@,
            plan.give,
            step as int,
        ));
        actions
    } else {
        let mut told = String::from_str("Color ");
        told.append(label);
        told.append(
            " is already assigned to you.\nIf the color change hasn't taken effect, try typing in a different channel.",
        );
        let actions = vec![reply(told)];
        assert(actions.deep_view() =~= request_at(
            label@,
            target.id,
            plan.remove@,
            plan.give,
            step as int,
        ));
        actions
    }
}

/// What follows the platform's answer to the request to take a colour
/// role from the member; `failure` is the platform's error, `None` where
/// it took the role.
///
/// A role taken is told to the user and written to the log and to the
/// operator's channel. On a failure the user is told that something went
/// wrong, the platform's error goes to the log and to the operator, and
/// the command ends there: no further role is taken and the target is not
/// given.
pub open spec fn removed_outcome(author: Seq<char>, role: RoleRecord, failure: Option<Seq<char>>) -> Seq<
    ActionView,
> {
    match failure {
        None => seq![
            reply_of(removed_text(role.name@)),
            ActionView::LogInfo { line: dropped_line(author, role.name@) },
            devlog_of("INFO: "@ + dropped_line(author, role.name@)),
        ],
        Some(why) => seq![
            reply_of(went_wrong_text()),
            ActionView::LogError { line: not_dropped_line(role.name@, why) },
            devlog_of("ERROR: "@ + not_dropped_line(role.name@, why)),
            ActionView::Fail { reason: not_dropped_line(role.name@, why) },
        ],
    }
}

/// `color set`, after each request to take a role away: takes the role,
/// the outcome of the request, and the name of the user who sent the
/// command. Where the result closes with [`Action::Fail`] the command has
/// ended.
pub fn set_removed(author: &str, role: &RoleRecord, failure: Option<&str>) -> (actions: Vec<Action>)
    ensures
        actions.deep_view() == removed_outcome(author@, *role, text_of(failure)),
{
    match failure {
        None => {
            let mut told = String::from_str("Removed current color ");
            told.append(role.name.as_str());
            told.append(".");
            let mut line = String::from_str(author);
            line.append(" no longer has the color ");
            line.append(role.name.as_str());
            let mirrored = devlog(prefixed("INFO: ", &line));
            let actions = vec![reply(told), Action::LogInfo { line }, mirrored];
            assert(actions.deep_view() =~= removed_outcome(author@, *role, None));
            actions
        },
        Some(why) => {
            let mut line = String::from_str("Failed to remove color ");
            line.append(role.name.as_str());
            line.append(" from you. ");
            line.append(why);
            let mirrored = devlog(prefixed("ERROR: ", &line));
            let reason = line.clone();
            let actions = vec![
                reply_str("I could not perform the task. Making a note for future improvement."),
                Action::LogError { line },
                mirrored,
                Action::Fail { reason },
            ];
            assert(actions.deep_view() =~= removed_outcome(author@, *role, Some(why@)));
            actions
        },
    }
}

/// The audit line of a colour role given to a member.
pub open spec fn assigned_line(label: Seq<char>, author: Seq<char>) -> Seq<char> {
    author + " just set their color to "@ + label
}

/// The error line of a colour role that was not given.
pub open spec fn not_assigned_line(label: Seq<char>, why: Seq<char>) -> Seq<char> {
    "Failed to add color "@ + label + " to you. "@ + why
}

/// What follows the platform's answer to the request to give the target
/// role; `failure` is the platform's error, `None` where it gave the role.
///
/// Success is told to the user and written to the log and to the operator's
/// channel. On a failure the user is told that something went wrong, and
/// the platform's error goes to the log and to the operator.
pub open spec fn set_outcome(label: Seq<char>, author: Seq<char>, failure: Option<Seq<char>>) -> Seq<
    ActionView,
> {
    match failure {
        None => seq![
            reply_of("Your self-assigned color is now "@ + label),
            ActionView::LogInfo { line: assigned_line(label, author) },
            devlog_of("INFO: "@ + assigned_line(label, author)),
        ],
        Some(why) => seq![
            reply_of(went_wrong_text()),
            ActionView::LogError { line: not_assigned_line(label, why) },
            devlog_of(not_assigned_line(label, why)),
        ],
    }
}

/// `color set`, last step: takes the outcome of the request to give the
/// role, and the name of the user who sent the command.
pub fn set_done(label: &str, author: &str, failure: Option<&str>) -> (actions: Vec<Action>)
    ensures
        actions.deep_view() == set_outcome(label@, author@, text_of(failure)),
{
    match failure {
        None => {
            let mut told = String::from_str("Your self-assigned color is now ");
            told.append(label);
            let mut line = String::from_str(author);
            line.append(" just set their color to ");
            line.append(label);
            let mirrored = devlog(prefixed("INFO: ", &line));
            let actions = vec![reply(told), Action::LogInfo { line }, mirrored];
            assert(actions.deep_view() =~= set_outcome(label@, author@, None));
            actions
        },
        Some(why) => {
            let mut line = String::from_str("Failed to add color ");
            line.append(label);
            line.append(" to you. ");
            line.append(why);
            let mirrored = devlog(line.clone());
            let actions = vec![
                reply_str("I could not perform the task. Making a note for future improvement."),
                Action::LogError { line },
                mirrored,
            ];
            assert(actions.deep_view() =~= set_outcome(label@, author@, Some(why@)));
            actions
        },
    }
}

/// The commands under `color`.
#[derive(Clone, Copy, Debug, PartialEq, Eq, Structural)]
pub enum Subcommand {
    AddColor,
    ListColors,
    DeleteColor,
    SetColor,
    Info,
    /// No subcommand, or a word that names none.
    Unknown,
}

/// The command that a word names: `add`; `list` or `ls`; `delete` or `rm`;
/// `set` or `=`; `info`.
pub open spec fn subcommand_of(word: Option<Seq<char>>) -> Subcommand {
    match word {
        None => Subcommand::Unknown,
        Some(w) => if w == "add"@ {
            Subcommand::AddColor
        } else if w == "list"@ || w == "ls"@ {
            Subcommand::ListColors
        } else if w == "delete"@ || w == "rm"@ {
            Subcommand::DeleteColor
        } else if w == "set"@ || w == "="@ {
            Subcommand::SetColor
        } else if w == "info"@ {
            Subcommand::Info
        } else {
            Subcommand::Unknown
        },
    }
}

/// Tells which command the first word after `color` names.
pub fn color(subcommand: Option<&str>) -> (command: Subcommand)
    ensures
        command == subcommand_of(text_of(subcommand)),
{
    match subcommand {
        None => Subcommand::Unknown,
        Some(w) => if same_text(w, "add") {
            Subcommand::AddColor
        } else if same_text(w, "list") || same_text(w, "ls") {
            Subcommand::ListColors
        } else if same_text(w, "delete") || same_text(w, "rm") {
            Subcommand::DeleteColor
        } else if same_text(w, "set") || same_text(w, "=") {
            Subcommand::SetColor
        } else if same_text(w, "info") {
            Subcommand::Info
        } else {
            Subcommand::Unknown
        },
    }
}

/// The reply to `color` with a word that names no command.
pub fn color_unknown() -> (actions: Vec<Action>)
    ensures
        actions.deep_view() == seq![
            reply_of(
                "The color command accepts the following subcommands: add, list, delete and set"@,
            ),
        ],
{
    let actions = vec![
        reply_str("The color command accepts the following subcommands: add, list, delete and set"),
    ];
    assert(actions.deep_view() =~= seq![
        reply_of(
            "The color command accepts the following subcommands: add, list, delete and set"@,
        ),
    ]);
    actions
}

/// The labels of the colour roles of a directory, one for each such role,
/// in the directory's order.
pub open spec fn color_labels(roles: Seq<RoleRecord>) -> Seq<Seq<char>>
    decreases roles.len(),
{
    if roles.len() == 0 {
        Seq::empty()
    } else if is_color_role(roles.last().name@) {
        color_labels(roles.drop_last()).push(label_of(roles.last().name@))
    } else {
        color_labels(roles.drop_last())
    }
}

/// What the plain listing of the colours says.
pub open spec fn list_colors_plan(roles: Option<Seq<RoleRecord>>) -> Seq<ActionView> {
    match roles {
        None => lookup_failed("Failed to grab guild from msg.guild()."@),
        Some(rs) => if color_labels(rs).len() > 0 {
            seq![
                reply_of("These are the available colors: "@ + joined(color_labels(rs), ", "@)),
            ]
        } else {
            seq![reply_of(no_colors_text())]
        },
    }
}

/// Lists the colour labels of a guild in words, with a comma between each
/// two; `roles` is `None` where the guild was not found.
pub fn list_colors(roles: Option<&Vec<RoleRecord>>) -> (actions: Vec<Action>)
    ensures
        actions.deep_view() == list_colors_plan(roles_of(roles)),
{
    let roles = match roles {
        Some(r) => r,
        None => {
            return lookup_failure("Failed to grab guild from msg.guild().");
        },
    };
    let mut listed = String::new();
    let mut any = false;
    let mut i: usize = 0;
    while i < roles.len()
        invariant
            i <= roles.len(),
            any == (color_labels(roles@.take(i as int)).len() > 0),
            listed@ == joined(color_labels(roles@.take(i as int)), ", "@),
        decreases roles.len() - i,
    {
        proof {
            assert(roles@.take(i + 1).drop_last() =~= roles@.take(i as int));
        }
        if has_marker(roles[i].name.as_str()) {
            let ghost before = color_labels(roles@.take(i as int));
            let ghost after = color_labels(roles@.take(i + 1));
            proof {
                assert(after.drop_last() =~= before);
                if before.len() == 0 {
                    assert(listed@ + label_of(roles@[i as int].name@) =~= joined(after, ", "@));
                }
            }
            if any {
                listed.append(", ");
            }
            listed.append(strip_marker(roles[i].name.as_str()).as_str());
            any = true;
        }
        i += 1;
    }
    proof {
        assert(roles@.take(roles@.len() as int) =~= roles@);
    }
    if any {
        let actions = vec![reply(prefixed("These are the available colors: ", &listed))];
        assert(actions.deep_view() =~= list_colors_plan(Some(roles@)));
        actions
    } else {
        let actions = vec![
            reply_str("I couldn't find any color roles. Message a Guru for help."),
        ];
        assert(actions.deep_view() =~= list_colors_plan(Some(roles@)));
        actions
    }
}

} // verus!

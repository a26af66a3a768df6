//! The `big` command: shows a custom emoji or a user's avatar at full size.

use vstd::prelude::*;
use crate::action::{devlog, devlog_of, reply, reply_of, reply_str, Action, ActionView};
use crate::color::went_wrong_text;
use crate::outside::{emoji_id, parsed_emoji, parsed_username, user_id};
use crate::text::{chars_of, decimal, decimal_string};
use crate::validate::text_of;

verus! {

/// The address of a custom emoji's picture: the emoji path of the
/// platform's content network, the id in decimal and `.png`.
pub open spec fn emoji_url_of(id: u64) -> Seq<char> {
    "https://cdn.discordapp.com/emojis/"@ + decimal(id as nat) + ".png"@
}

/// Writes the address of a custom emoji's picture.
pub fn emoji_url(id: u64) -> (url: String)
    ensures
        url@ == emoji_url_of(id),
{
    let mut url = String::from_str("https://cdn.discordapp.com/emojis/");
    url.append(decimal_string(id).as_str());
    url.append(".png");
    url
}

/// The usage line of `big`.
pub open spec fn big_usage() -> Seq<char> {
    "Usage: !big <emoji or user>"@
}

/// Said of an emoji that the platform draws itself.
pub open spec fn native_emoji_text() -> Seq<char> {
    "Cannot magnify native emojis, like :tada:."@
}

/// A single character outside ASCII: an emoji of the platform's own, which
/// has no picture to show.
pub open spec fn is_native_emoji(target: Seq<char>) -> bool {
    target.len() == 1 && target[0] > '\u{7f}'
}

/// What `big` makes of its target, given what the two mention parsers
/// found in it: `Ok` with the id of the user to look up, or the actions
/// that end the command.
///
/// A native emoji is logged, mirrored to the operator and refused. Any
/// other target with a character outside ASCII is taken for neither an
/// emoji nor a user. Of the rest a custom emoji wins over a user, and a
/// target that is neither gets the usage line.
pub open spec fn big_outcome(target: Seq<char>, emoji: Option<u64>, user: Option<u64>) -> Result<
    u64,
    Seq<ActionView>,
> {
    if is_native_emoji(target) {
        Err(
            seq![
                ActionView::LogInfo { line: target },
                devlog_of(target),
                reply_of(native_emoji_text()),
            ],
        )
    } else if !vstd::utf8::is_ascii_chars(target) {
        Err(seq![reply_of(big_usage())])
    } else {
        match emoji {
            Some(id) => Err(seq![reply_of(emoji_url_of(id))]),
            None => match user {
                Some(id) => Ok(id),
                None => Err(seq![reply_of(big_usage())]),
            },
        }
    }
}

/// Decides what `big` does with `target`, where `emoji` and `user` are
/// what the mention parsers found in it.
pub fn big_decide(target: &str, emoji: Option<u64>, user: Option<u64>) -> (result: Result<
    u64,
    Vec<Action>,
>)
    ensures
        match big_outcome(target@, emoji, user) {
            Ok(id) => result == Ok::<u64, Vec<Action>>(id),
            Err(actions) => result is Err && result->Err_0.deep_view() == actions,
        },
{
    let chars = chars_of(target);
    if chars.len() == 1 && chars[0] > '\u{7f}' {
        let actions = vec![
            Action::LogInfo { line: String::from_str(target) },
            devlog(String::from_str(target)),
            reply_str("Cannot magnify native emojis, like :tada:."),
        ];
        assert(actions.deep_view() =~= big_outcome(target@, emoji, user)->Err_0);
        return Err(actions);
    }
    if !target.is_ascii() {
        let actions = vec![reply_str("Usage: !big <emoji or user>")];
        assert(actions.deep_view() =~= big_outcome(target@, emoji, user)->Err_0);
        return Err(actions);
    }
    match emoji {
        Some(id) => {
            let actions = vec![reply(emoji_url(id))];
            assert(actions.deep_view() =~= big_outcome(target@, emoji, user)->Err_0);
            Err(actions)
        },
        None => match user {
            Some(id) => Ok(id),
            None => {
                let actions = vec![reply_str("Usage: !big <emoji or user>")];
                assert(actions.deep_view() =~= big_outcome(target@, emoji, user)->Err_0);
                Err(actions)
            },
        },
    }
}

/// `big`, first step: takes the target, `None` where the command came
/// without one. `Ok` holds the id of a user whose avatar is wanted; with
/// what came of looking that user up, [`big_user`] goes on.
pub fn big(target: Option<&str>) -> (result: Result<u64, Vec<Action>>)
    ensures
        match text_of(target) {
            None => result is Err && result->Err_0.deep_view() == seq![reply_of(big_usage())],
            Some(t) => match big_outcome(t, parsed_emoji(t), parsed_username(t)) {
                Ok(id) => result == Ok::<u64, Vec<Action>>(id),
                Err(actions) => result is Err && result->Err_0.deep_view() == actions,
            },
        },
{
    let target = match target {
        Some(t) => t,
        None => {
            let actions = vec![reply_str("Usage: !big <emoji or user>")];
            assert(actions.deep_view() =~= seq![reply_of(big_usage())]);
            return Err(actions);
        },
    };
    if !target.is_ascii() {
        return big_decide(target, None, None);
    }
    let emoji = emoji_id(target);
    let user = if emoji.is_none() {
        user_id(target)
    } else {
        None
    };
    big_decide(target, emoji, user)
}

/// What came of looking up the user whose avatar is wanted.
#[derive(Clone, Debug, PartialEq, Eq)]
pub enum UserLookup {
    /// The platform did not hand out the user.
    Unavailable,
    /// The user has no avatar of their own.
    NoAvatar,
    /// The address of the user's avatar.
    Avatar(String),
}

/// The error line of a user that was not found.
pub open spec fn no_user_line(user_id: u64) -> Seq<char> {
    "ERROR: Failed to find the user "@ + decimal(user_id as nat)
}

/// What `big` says of the user it looked up: the avatar's address, or the
/// usage line where the user has none and so nothing is left to show;
/// where the lookup failed the user is told that something went wrong, and
/// the operator which user it was.
pub open spec fn big_user_plan(user_id: u64, lookup: UserLookup) -> Seq<ActionView> {
    match lookup {
        UserLookup::Unavailable => seq![
            reply_of(went_wrong_text()),
            devlog_of(no_user_line(user_id)),
        ],
        UserLookup::NoAvatar => seq![reply_of(big_usage())],
        UserLookup::Avatar(url) => seq![reply_of(url@)],
    }
}

/// `big`, last step: takes the id of the user and what came of looking
/// them up.
pub fn big_user(user_id: u64, lookup: &UserLookup) -> (actions: Vec<Action>)
    ensures
        actions.deep_view() == big_user_plan(user_id, *lookup),
{
    match lookup {
        UserLookup::Unavailable => {
            let mut line = String::from_str("ERROR: Failed to find the user ");
            line.append(decimal_string(user_id).as_str());
            let actions = vec![
                reply_str("I could not perform the task. Making a note for future improvement."),
                devlog(line),
            ];
            assert(actions.deep_view() =~= big_user_plan(user_id, *lookup));
            actions
        },
        UserLookup::NoAvatar => {
            let actions = vec![reply_str("Usage: !big <emoji or user>")];
            assert(actions.deep_view() =~= big_user_plan(user_id, *lookup));
            actions
        },
        UserLookup::Avatar(url) => {
            let actions = vec![reply(url.clone())];
            assert(actions.deep_view() =~= big_user_plan(user_id, *lookup));
            actions
        },
    }
}

} // verus!

//! What a handler asks the surrounding program to do.
//!
//! A handler never talks to the chat platform itself. It returns a list of
//! actions, in the order in which they are to be performed, and where an
//! action has an outcome that matters, a follow-up function takes it.

use vstd::prelude::*;

verus! {

/// The channel that mirrors audit and error lines for the operator.
pub const DEVLOG_CHANNEL: u64 = 428757417535209472;

/// One step for the surrounding program to perform.
#[derive(Clone, Debug, PartialEq, Eq)]
pub enum Action {
    /// Say `content` in the channel the command came from.
    Reply { content: String },
    /// Say `content` in the operator's channel.
    Devlog { channel: u64, content: String },
    /// Write `line` to the local log at level info.
    LogInfo { line: String },
    /// Write `line` to the local log at level error.
    LogError { line: String },
    /// Upload the file at `path` to the channel the command came from.
    SendFile { path: String, content: String },
    /// Create a role in the guild, at `position` in its role hierarchy.
    CreateRole { name: String, colour: u64, position: i64, mentionable: bool },
    /// Delete a role of the guild.
    DeleteRole { role_id: u64 },
    /// Take a role from the member who sent the command.
    RemoveMemberRole { role_id: u64 },
    /// Give a role to the member who sent the command.
    AddMemberRole { role_id: u64 },
    /// End the command with an error for the command framework.
    Fail { reason: String },
}

/// An [`Action`] with its strings as character sequences.
pub enum ActionView {
    Reply { content: Seq<char> },
    Devlog { channel: u64, content: Seq<char> },
    LogInfo { line: Seq<char> },
    LogError { line: Seq<char> },
    SendFile { path: Seq<char>, content: Seq<char> },
    CreateRole { name: Seq<char>, colour: u64, position: i64, mentionable: bool },
    DeleteRole { role_id: u64 },
    RemoveMemberRole { role_id: u64 },
    AddMemberRole { role_id: u64 },
    Fail { reason: Seq<char> },
}

impl View for Action {
    type V = ActionView;

    open spec fn view(&self) -> ActionView {
        match *self {
            Action::Reply { content } => ActionView::Reply { content: content@ },
            Action::Devlog { channel, content } => ActionView::Devlog { channel, content: content@ },
            Action::LogInfo { line } => ActionView::LogInfo { line: line@ },
            Action::LogError { line } => ActionView::LogError { line: line@ },
            Action::SendFile { path, content } => ActionView::SendFile {
                path: path@,
                content: content@,
            },
            Action::CreateRole { name, colour, position, mentionable } => ActionView::CreateRole {
                name: name@,
                colour,
                position,
                mentionable,
            },
            Action::DeleteRole { role_id } => ActionView::DeleteRole { role_id },
            Action::RemoveMemberRole { role_id } => ActionView::RemoveMemberRole { role_id },
            Action::AddMemberRole { role_id } => ActionView::AddMemberRole { role_id },
            Action::Fail { reason } => ActionView::Fail { reason: reason@ },
        }
    }
}

impl DeepView for Action {
    type V = ActionView;

    open spec fn deep_view(&self) -> ActionView {
        self@
    }
}

impl ActionView {
    /// Whether the action changes roles on the platform.
    pub open spec fn is_mutation(self) -> bool {
        self is CreateRole || self is DeleteRole || self is RemoveMemberRole
            || self is AddMemberRole
    }
}

/// No action of `actions` changes roles on the platform.
pub open spec fn no_mutation(actions: Seq<ActionView>) -> bool {
    forall|i: int| 0 <= i < actions.len() ==> !(#[trigger] actions[i]).is_mutation()
}

/// The reply `text`.
pub open spec fn reply_of(text: Seq<char>) -> ActionView {
    ActionView::Reply { content: text }
}

/// The line `text` for the operator's channel.
pub open spec fn devlog_of(text: Seq<char>) -> ActionView {
    ActionView::Devlog { channel: DEVLOG_CHANNEL, content: text }
}

/// Addresses `content` to the operator's channel.
pub fn devlog(content: String) -> (action: Action)
    ensures
        action@ == devlog_of(content@),
{
    Action::Devlog { channel: DEVLOG_CHANNEL, content }
}

/// A reply with the text `content`.
pub fn reply(content: String) -> (action: Action)
    ensures
        action@ == reply_of(content@),
{
    Action::Reply { content }
}

/// A reply with the fixed text `text`.
pub fn reply_str(text: &str) -> (action: Action)
    ensures
        action@ == reply_of(text@),
{
    Action::Reply { content: String::from_str(text) }
}

} // verus!

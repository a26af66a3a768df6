//! What the bot does on the events that are no command: it comes online,
//! it resumes, a message names no command it knows, or an ordinary message
//! holds the keyword.

use vstd::prelude::*;
use crate::action::{devlog, devlog_of, reply, reply_of, Action, ActionView};
use crate::outside::pick_one;
use crate::text::{chars_of, contains, lowered, occurs_in, starts_with, to_ascii_lowercase};

verus! {

/// On coming online: a line in the log and one for the operator.
pub fn ready() -> (actions: Vec<Action>)
    ensures
        actions.deep_view() == seq![
            ActionView::LogInfo { line: "I am online. Notifying server."@ },
            devlog_of("I am online."@),
        ],
{
    let actions = vec![
        Action::LogInfo { line: String::from_str("I am online. Notifying server.") },
        devlog(String::from_str("I am online.")),
    ];
    assert(actions.deep_view() =~= seq![
        ActionView::LogInfo { line: "I am online. Notifying server."@ },
        devlog_of("I am online."@),
    ]);
    actions
}

/// On resuming the session: a line in the log.
pub fn resume() -> (actions: Vec<Action>)
    ensures
        actions.deep_view() == seq![ActionView::LogInfo { line: "Resumed"@ }],
{
    let actions = vec![Action::LogInfo { line: String::from_str("Resumed") }];
    assert(actions.deep_view() =~= seq![ActionView::LogInfo { line: "Resumed"@ }]);
    actions
}

/// The reply to a command that the bot does not know.
pub fn unrecognised_command(name: &str) -> (actions: Vec<Action>)
    ensures
        actions.deep_view() == seq![
            reply_of(
                "Nivix has not taught me how to help with '"@ + name@ + "'. Blame him."@,
            ),
        ],
{
    let mut told = String::from_str("Nivix has not taught me how to help with '");
    told.append(name);
    told.append("'. Blame him.");
    let actions = vec![reply(told)];
    assert(actions.deep_view() =~= seq![
        reply_of("Nivix has not taught me how to help with '"@ + name@ + "'. Blame him."@),
    ]);
    actions
}

/// The word that sets off the keyword trigger.
pub open spec fn keyword() -> Seq<char> {
    seq!['h', 'e', 'r', 'e', 's', 'y']
}

/// Whether a message sets off the keyword trigger: it is not from a bot,
/// it is no command, and in lower case it holds the keyword.
pub open spec fn triggers(author_is_bot: bool, content: Seq<char>) -> bool {
    &&& !author_is_bot
    &&& !seq!['!'].is_prefix_of(lowered(content))
    &&& occurs_in(lowered(content), keyword())
}

/// Tells whether a message sets off the keyword trigger.
pub fn message(author_is_bot: bool, content: &str) -> (fire: bool)
    ensures
        fire == triggers(author_is_bot, content@),
{
    if author_is_bot {
        return false;
    }
    let lower = to_ascii_lowercase(&chars_of(content));
    let bang = chars_of("!");
    let word = chars_of("heresy");
    proof {
        reveal_strlit("!");
        reveal_strlit("heresy");
        assert(bang@ =~= seq!['!']);
        assert(word@ =~= keyword());
    }
    if starts_with(&lower, &bang) {
        return false;
    }
    contains(&lower, &word)
}

/// The directory that holds the pictures of the keyword trigger.
pub fn heresy_directory() -> (path: &'static str)
    ensures
        path@ == "assets\\memes\\sense_heresy"@,
{
    "assets\\memes\\sense_heresy"
}

/// The paths of the entries that could be read, in their order.
pub open spec fn readable(entries: Seq<Option<String>>) -> Seq<String>
    decreases entries.len(),
{
    if entries.len() == 0 {
        Seq::empty()
    } else {
        match entries.last() {
            Some(path) => readable(entries.drop_last()).push(path),
            None => readable(entries.drop_last()),
        }
    }
}

/// One line in the log for each entry that could not be read.
pub open spec fn unreadable(entries: Seq<Option<String>>) -> Seq<ActionView>
    decreases entries.len(),
{
    if entries.len() == 0 {
        Seq::empty()
    } else {
        match entries.last() {
            Some(_) => unreadable(entries.drop_last()),
            None => unreadable(entries.drop_last()).push(
                ActionView::LogError {
                    line: "Could not unwrap entity in directory assets\\memes\\sense_heresy"@,
                },
            ),
        }
    }
}

/// What the keyword trigger does once a picture is chosen: after the
/// lines for the unreadable entries, the chosen picture is uploaded; where
/// none is chosen, nothing is.
pub open spec fn heresy_plan(entries: Seq<Option<String>>, chosen: Option<Seq<char>>) -> Seq<
    ActionView,
> {
    unreadable(entries) + match chosen {
        Some(path) => seq![ActionView::SendFile { path, content: Seq::empty() }],
        None => Seq::empty(),
    }
}

fn sort_entries(entries: &Vec<Option<String>>) -> (sorted: (Vec<String>, Vec<Action>))
    ensures
        sorted.0@ == readable(entries@),
        sorted.1.deep_view() == unreadable(entries@),
{
    let mut paths: Vec<String> = Vec::new();
    let mut lines: Vec<Action> = Vec::new();
    let mut i: usize = 0;
    proof {
        assert(lines.deep_view() =~= unreadable(entries@.take(0)));
    }
    while i < entries.len()
        invariant
            i <= entries.len(),
            paths@ == readable(entries@.take(i as int)),
            lines.deep_view() == unreadable(entries@.take(i as int)),
        decreases entries.len() - i,
    {
        let ghost before = lines.deep_view();
        proof {
            assert(entries@.take(i + 1).drop_last() =~= entries@.take(i as int));
        }
        match &entries[i] {
            Some(path) => {
                paths.push(path.clone());
            },
            None => {
                lines.push(
                    Action::LogError {
                        line: String::from_str(
                            "Could not unwrap entity in directory assets\\memes\\sense_heresy",
                        ),
                    },
                );
                assert(lines.deep_view() =~= before.push(
                    ActionView::LogError {
                        line: "Could not unwrap entity in directory assets\\memes\\sense_heresy"@,
                    },
                ));
            },
        }
        i += 1;
    }
    proof {
        assert(entries@.take(entries@.len() as int) =~= entries@);
    }
    (paths, lines)
}

/// The keyword trigger with the picture already chosen: `chosen` is the
/// path of the picture to upload, `None` for none.
pub fn heresy_reply(entries: &Vec<Option<String>>, chosen: Option<&String>) -> (actions: Vec<
    Action,
>)
    ensures
        actions.deep_view() == heresy_plan(
            entries@,
            match chosen {
                Some(path) => Some(path@),
                None => None,
            },
        ),
{
    let (_, mut actions) = sort_entries(entries);
    let ghost before = actions.deep_view();
    match chosen {
        Some(path) => {
            actions.push(Action::SendFile { path: path.clone(), content: String::new() });
            assert(actions.deep_view() =~= before + seq![
                ActionView::SendFile { path: path@, content: Seq::empty() },
            ]);
        },
        None => {
            assert(actions.deep_view() =~= before + Seq::<ActionView>::empty());
        },
    }
    actions
}

/// The keyword trigger: takes the entries of the picture directory, each
/// `None` where it could not be read, and `None` for all where the
/// directory could not be. One of the readable pictures is chosen at
/// random and uploaded; where there is none, nothing is uploaded.
pub fn handle_heresy(entries: Option<&Vec<Option<String>>>) -> (actions: Vec<Action>)
    ensures
        match entries {
            None => actions.deep_view() == seq![
                ActionView::LogError {
                    line: "Could not read heresy image directory assets\\memes\\sense_heresy"@,
                },
            ],
            Some(es) => exists|chosen: Option<Seq<char>>|
                {
                    &&& chosen is None <==> readable(es@).len() == 0
                    &&& chosen matches Some(path) ==> exists|i: int|
                        0 <= i < readable(es@).len() && (#[trigger] readable(es@)[i])@ == path
                    &&& actions.deep_view() == #[trigger] heresy_plan(es@, chosen)
                },
        },
{
    let entries = match entries {
        Some(es) => es,
        None => {
            let actions = vec![
                Action::LogError {
                    line: String::from_str(
                        "Could not read heresy image directory assets\\memes\\sense_heresy",
                    ),
                },
            ];
            assert(actions.deep_view() =~= seq![
                ActionView::LogError {
                    line: "Could not read heresy image directory assets\\memes\\sense_heresy"@,
                },
            ]);
            return actions;
        },
    };
    let (paths, _) = sort_entries(entries);
    let chosen = if paths.len() > 0 {
        pick_one(&paths)
    } else {
        None
    };
    let actions = heresy_reply(entries, chosen);
    proof {
        let seen: Option<Seq<char>> = match chosen {
            Some(path) => Some(path@),
            None => None,
        };
        assert(actions.deep_view() == heresy_plan(entries@, seen));
    }
    actions
}

} // verus!

//! The calls this library makes into the crates it builds on.
//!
//! Nothing in this file is proved: each contract repeats what the called
//! function's source shows, and the rest of the library rests on it.

use vstd::prelude::*;
use rand::seq::SliceRandom;

verus! {

/// What `serenity::utils::parse_emoji` makes of a mention: the id of the
/// custom emoji it names, if it names one.
pub uninterp spec fn parsed_emoji(mention: Seq<char>) -> Option<u64>;

/// What `serenity::utils::parse_username` makes of a mention: the id of the
/// user it names, if it names one.
pub uninterp spec fn parsed_username(mention: Seq<char>) -> Option<u64>;

/// `serenity::utils::parse_emoji`, of which only the emoji's id is kept.
/// The parser is a function of the mention alone. It cuts the mention at
/// byte offsets that it counts in characters, so it is called on ASCII
/// text only, where the two agree.
#[verifier::external_body]
pub(crate) fn emoji_id(mention: &str) -> (id: Option<u64>)
    requires
        vstd::utf8::is_ascii_chars(mention@),
    ensures
        id == parsed_emoji(mention@),
{
    match serenity::utils::parse_emoji(mention) {
        Some(emoji) => Some(emoji.id.0),
        None => None,
    }
}

/// `serenity::utils::parse_username`. The parser is a function of the
/// mention alone. It cuts one byte off the end of the mention, so it is
/// called on ASCII text only, where that byte is a character.
#[verifier::external_body]
pub(crate) fn user_id(mention: &str) -> (id: Option<u64>)
    requires
        vstd::utf8::is_ascii_chars(mention@),
    ensures
        id == parsed_username(mention@),
{
    serenity::utils::parse_username(mention)
}

/// `rand::seq::SliceRandom::choose` with the thread's generator, which is
/// made for the call: one of the items, whichever. It is called only where
/// there is an item to choose.
#[verifier::external_body]
pub(crate) fn pick_one<'a>(items: &'a Vec<String>) -> (chosen: Option<&'a String>)
    requires
        items@.len() > 0,
    ensures
        chosen is Some,
        chosen matches Some(item) ==> exists|i: int| 0 <= i < items@.len() && items@[i] == *item,
{
    items.choose(&mut rand::thread_rng())
}

} // verus!

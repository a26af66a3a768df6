//! The roles that a member holds, as `color set` changes them.
//!
//! A member's roles are a sequence of role records in no particular order.
//! Performing the actions of a whole run of the command on it, each with
//! success, shows what the command comes to.

use vstd::prelude::*;
use crate::action::ActionView;
use crate::color::{others, removed_outcome, request_at, set_outcome};
use crate::roles::{holds, is_color_role, RoleRecord};

verus! {

/// The member's roles after one action, where `target` is the role that
/// `color set` gives. Taking a role away takes every record of its id;
/// any action that is not about the member's roles leaves them as they are.
pub open spec fn perform(member: Seq<RoleRecord>, action: ActionView, target: RoleRecord) -> Seq<
    RoleRecord,
> {
    match action {
        ActionView::RemoveMemberRole { role_id } => member.filter(
            |r: RoleRecord| r.id != role_id,
        ),
        ActionView::AddMemberRole { role_id } => if role_id == target.id {
            member.push(target)
        } else {
            member
        },
        _ => member,
    }
}

/// The member's roles after a list of actions, first to last.
pub open spec fn perform_all(
    member: Seq<RoleRecord>,
    actions: Seq<ActionView>,
    target: RoleRecord,
) -> Seq<RoleRecord>
    decreases actions.len(),
{
    if actions.len() == 0 {
        member
    } else {
        perform_all(perform(member, actions[0], target), actions.drop_first(), target)
    }
}

/// All that `color set` does from step `step` of its plan on, where every
/// request succeeds: each request in turn, followed by what its outcome
/// brings.
pub open spec fn run_from(
    label: Seq<char>,
    author: Seq<char>,
    target: u64,
    remove: Seq<RoleRecord>,
    give: bool,
    step: int,
) -> Seq<ActionView>
    decreases remove.len() - step,
{
    if 0 <= step < remove.len() {
        request_at(label, target, remove, give, step) + removed_outcome(author, remove[step], None)
            + run_from(label, author, target, remove, give, step + 1)
    } else if give {
        request_at(label, target, remove, give, step) + set_outcome(label, author, None)
    } else {
        request_at(label, target, remove, give, step)
    }
}

/// All that `color set` does for the role `target` and a member whose
/// roles the platform listed as `listing`, where every request succeeds.
pub open spec fn set_run(
    label: Seq<char>,
    author: Seq<char>,
    target: u64,
    listing: Seq<RoleRecord>,
) -> Seq<ActionView> {
    run_from(label, author, target, others(target, listing), !holds(listing, target), 0)
}

/// The member's roles after `color set` for `target`, where the platform
/// listed the member's roles as `listing`.
pub open spec fn after_set(
    member: Seq<RoleRecord>,
    listing: Seq<RoleRecord>,
    label: Seq<char>,
    author: Seq<char>,
    target: RoleRecord,
) -> Seq<RoleRecord> {
    perform_all(member, set_run(label, author, target.id, listing), target)
}

/// Two sequences hold the same records, in whatever order.
pub open spec fn same_roles(a: Seq<RoleRecord>, b: Seq<RoleRecord>) -> bool {
    forall|r: RoleRecord| a.contains(r) <==> b.contains(r)
}

/// Every colour role among these has the id `id`.
pub open spec fn only_color(member: Seq<RoleRecord>, id: u64) -> bool {
    forall|i: int|
        0 <= i < member.len() && is_color_role((#[trigger] member[i]).name@) ==> member[i].id == id
}

/// Performing a list is performing its first action and then the rest.
proof fn lemma_perform_first(
    member: Seq<RoleRecord>,
    first: ActionView,
    rest: Seq<ActionView>,
    target: RoleRecord,
)
    ensures
        perform_all(member, seq![first] + rest, target) == perform_all(
            perform(member, first, target),
            rest,
            target,
        ),
{
    let actions = seq![first] + rest;
    assert(actions[0] == first);
    assert(actions.drop_first() =~= rest);
}

/// The roles in `others` are colour roles from the listing, none of them
/// the target, and every such role of the listing is among them.
proof fn lemma_others(target: u64, listing: Seq<RoleRecord>)
    ensures
        forall|k: int|
            0 <= k < others(target, listing).len() ==> {
                &&& is_color_role((#[trigger] others(target, listing)[k]).name@)
                &&& others(target, listing)[k].id != target
                &&& listing.contains(others(target, listing)[k])
            },
        forall|i: int|
            0 <= i < listing.len() && is_color_role((#[trigger] listing[i]).name@) && listing[i].id
                != target ==> others(target, listing).contains(listing[i]),
    decreases listing.len(),
{
    if listing.len() > 0 {
        let rest = listing.drop_last();
        let last = listing.last();
        let found = others(target, listing);
        lemma_others(target, rest);
        assert(forall|i: int| 0 <= i < rest.len() ==> rest[i] == listing[i]);
        assert forall|k: int| 0 <= k < found.len() implies listing.contains(
            #[trigger] found[k],
        ) by {
            if k < others(target, rest).len() {
                let r = others(target, rest)[k];
                assert(rest.contains(r));
                let i = choose|i: int| 0 <= i < rest.len() && rest[i] == r;
                assert(listing[i] == r);
            } else {
                assert(listing[listing.len() - 1] == last);
            }
        }
        assert forall|i: int|
            0 <= i < listing.len() && is_color_role((#[trigger] listing[i]).name@) && listing[i].id
                != target implies found.contains(listing[i]) by {
            if i < rest.len() {
                assert(rest[i] == listing[i]);
                let k = choose|k: int|
                    0 <= k < others(target, rest).len() && others(target, rest)[k] == listing[i];
                assert(found[k] == listing[i]);
            } else {
                assert(found[found.len() - 1] == listing[i]);
            }
        }
    }
}

/// What a run from step `step` on comes to: the roles that the rest of the
/// plan takes away are gone, the target is there if it was to be given,
/// and every other record is as before.
proof fn lemma_run(
    member: Seq<RoleRecord>,
    label: Seq<char>,
    author: Seq<char>,
    target: RoleRecord,
    remove: Seq<RoleRecord>,
    give: bool,
    step: int,
)
    requires
        0 <= step,
    ensures
        ({
            let after = perform_all(
                member,
                run_from(label, author, target.id, remove, give, step),
                target,
            );
            &&& forall|r: RoleRecord| #[trigger]
                after.contains(r) ==> (give && r == target) || (member.contains(r) && forall|k: int|
                    step <= k < remove.len() ==> (#[trigger] remove[k]).id != r.id)
            &&& forall|r: RoleRecord|
                member.contains(r) && (forall|k: int|
                    step <= k < remove.len() ==> (#[trigger] remove[k]).id != r.id)
                    ==> #[trigger] after.contains(r)
            &&& give ==> after.contains(target)
        }),
    decreases remove.len() - step,
{
    broadcast use {
        Seq::lemma_filter_pred,
        Seq::lemma_filter_contains,
        Seq::lemma_filter_contains_rev,
    };

    let none = Seq::<ActionView>::empty();
    let run = run_from(label, author, target.id, remove, give, step);
    let request = request_at(label, target.id, remove, give, step);
    if step < remove.len() {
        let told = removed_outcome(author, remove[step], None);
        let rest = run_from(label, author, target.id, remove, give, step + 1);
        let pred = |r: RoleRecord| r.id != remove[step].id;
        let kept = member.filter(pred);
        assert(run =~= seq![request[0]] + (seq![told[0]] + (seq![told[1]] + (seq![told[2]]
            + rest))));
        lemma_perform_first(member, request[0], seq![told[0]] + (seq![told[1]] + (seq![told[2]]
            + rest)), target);
        lemma_perform_first(kept, told[0], seq![told[1]] + (seq![told[2]] + rest), target);
        lemma_perform_first(kept, told[1], seq![told[2]] + rest, target);
        lemma_perform_first(kept, told[2], rest, target);
        lemma_run(kept, label, author, target, remove, give, step + 1);
        let after = perform_all(kept, rest, target);
        assert(perform_all(member, run, target) == after);
        assert forall|r: RoleRecord| #[trigger] after.contains(r) implies (give && r == target)
            || (member.contains(r) && forall|k: int|
            step <= k < remove.len() ==> (#[trigger] remove[k]).id != r.id) by {
            if !(give && r == target) {
                assert(kept.contains(r));
                let i = choose|i: int| 0 <= i < kept.len() && kept[i] == r;
                assert(pred(kept[i]));
            }
        }
        assert forall|r: RoleRecord|
            member.contains(r) && (forall|k: int|
                step <= k < remove.len() ==> (#[trigger] remove[k]).id != r.id)
                implies #[trigger] after.contains(r) by {
            assert(remove[step].id != r.id);
            let i = choose|i: int| 0 <= i < member.len() && member[i] == r;
            assert(pred(member[i]));
            assert(kept.contains(member[i]));
        }
    } else if give {
        let told = set_outcome(label, author, None);
        let given = member.push(target);
        assert(run =~= seq![request[0]] + (seq![told[0]] + (seq![told[1]] + (seq![told[2]]
            + none))));
        lemma_perform_first(member, request[0], seq![told[0]] + (seq![told[1]] + (seq![told[2]]
            + none)), target);
        lemma_perform_first(given, told[0], seq![told[1]] + (seq![told[2]] + none), target);
        lemma_perform_first(given, told[1], seq![told[2]] + none, target);
        lemma_perform_first(given, told[2], none, target);
        assert(perform_all(member, run, target) == given);
        assert(given[member.len() as int] == target);
        assert forall|r: RoleRecord| member.contains(r) implies given.contains(r) by {
            let i = choose|i: int| 0 <= i < member.len() && member[i] == r;
            assert(given[i] == r);
        }
        assert forall|r: RoleRecord| given.contains(r) implies r == target || member.contains(
            r,
        ) by {
            let i = choose|i: int| 0 <= i < given.len() && given[i] == r;
            if i < member.len() {
                assert(member[i] == r);
            }
        }
    } else {
        assert(run =~= seq![request[0]] + none);
        lemma_perform_first(member, request[0], none, target);
        assert(perform_all(member, run, target) == member);
    }
}

/// After `color set` the member holds the target and no other colour
/// role, whichever roles the member held and in whatever order the
/// platform listed them. Nothing but the target is given, and a record
/// stays unless a colour role other than the target is listed under its
/// id. Every request is taken to succeed.
pub proof fn lemma_set_once(
    member: Seq<RoleRecord>,
    listing: Seq<RoleRecord>,
    label: Seq<char>,
    author: Seq<char>,
    target: RoleRecord,
)
    requires
        same_roles(listing, member),
    ensures
        holds(after_set(member, listing, label, author, target), target.id),
        only_color(after_set(member, listing, label, author, target), target.id),
        forall|r: RoleRecord| #[trigger]
            after_set(member, listing, label, author, target).contains(r) ==> r == target
                || member.contains(r),
        forall|r: RoleRecord|
            member.contains(r) && (forall|i: int|
                0 <= i < listing.len() && (#[trigger] listing[i]).id == r.id ==> !is_color_role(
                    listing[i].name@,
                ) || r.id == target.id) ==> #[trigger] after_set(
                member,
                listing,
                label,
                author,
                target,
            ).contains(r),
{
    let remove = others(target.id, listing);
    let give = !holds(listing, target.id);
    let after = after_set(member, listing, label, author, target);
    lemma_others(target.id, listing);
    lemma_run(member, label, author, target, remove, give, 0);
    assert(holds(after, target.id)) by {
        if give {
            let i = choose|i: int| 0 <= i < after.len() && after[i] == target;
            assert(after[i].id == target.id);
        } else {
            let i = choose|i: int| 0 <= i < listing.len() && (#[trigger] listing[i]).id == target.id;
            let r = listing[i];
            assert(listing.contains(r));
            assert(member.contains(r));
            assert(forall|k: int| 0 <= k < remove.len() ==> (#[trigger] remove[k]).id != r.id);
            assert(after.contains(r));
            let n = choose|n: int| 0 <= n < after.len() && after[n] == r;
            assert(after[n].id == target.id);
        }
    }
    assert forall|i: int|
        0 <= i < after.len() && is_color_role((#[trigger] after[i]).name@) implies after[i].id
        == target.id by {
        let r = after[i];
        assert(after.contains(r));
        if r.id != target.id {
            assert(member.contains(r));
            assert(listing.contains(r));
            let n = choose|n: int| 0 <= n < listing.len() && listing[n] == r;
            assert(is_color_role(listing[n].name@) && listing[n].id != target.id);
            assert(remove.contains(listing[n]));
            let k = choose|k: int| 0 <= k < remove.len() && remove[k] == r;
            assert(remove[k].id == r.id);
            assert(false);
        }
    }
    assert forall|r: RoleRecord|
        member.contains(r) && (forall|i: int|
            0 <= i < listing.len() && (#[trigger] listing[i]).id == r.id ==> !is_color_role(
                listing[i].name@,
            ) || r.id == target.id) implies #[trigger] after.contains(r) by {
        assert forall|k: int| 0 <= k < remove.len() implies (#[trigger] remove[k]).id != r.id by {
            if remove[k].id == r.id {
                assert(listing.contains(remove[k]));
                let n = choose|n: int| 0 <= n < listing.len() && listing[n] == remove[k];
                assert(listing[n].id == r.id);
            }
        }
    }
}

/// After `color set` for the role `a` and then for another role `b`, the
/// member holds `b` and not `a`, and no colour role but `b`.
///
/// For each command the platform lists the roles that the member then
/// holds, in any order. Every record of the id of `a` is that role, which
/// is a colour role. Every request is taken to succeed.
pub proof fn lemma_set_twice(
    member: Seq<RoleRecord>,
    first_listing: Seq<RoleRecord>,
    second_listing: Seq<RoleRecord>,
    author: Seq<char>,
    label_a: Seq<char>,
    a: RoleRecord,
    label_b: Seq<char>,
    b: RoleRecord,
)
    requires
        a.id != b.id,
        is_color_role(a.name@),
        forall|r: RoleRecord| member.contains(r) && r.id == a.id ==> r == a,
        same_roles(first_listing, member),
        same_roles(second_listing, after_set(member, first_listing, label_a, author, a)),
    ensures
        ({
            let first = after_set(member, first_listing, label_a, author, a);
            let second = after_set(first, second_listing, label_b, author, b);
            &&& holds(second, b.id)
            &&& !holds(second, a.id)
            &&& only_color(second, b.id)
        }),
{
    let first = after_set(member, first_listing, label_a, author, a);
    let second = after_set(first, second_listing, label_b, author, b);
    lemma_set_once(member, first_listing, label_a, author, a);
    lemma_set_once(first, second_listing, label_b, author, b);
    if holds(second, a.id) {
        let i = choose|i: int| 0 <= i < second.len() && (#[trigger] second[i]).id == a.id;
        let r = second[i];
        assert(second.contains(r));
        assert(first.contains(r));
        assert(r == a);
        assert(is_color_role(second[i].name@));
        assert(false);
    }
}

} // verus!

//! A guild's role list as one command sees it, and what is derived from it:
//! the colour roles, the place where new colour roles go, and a role found
//! by its name.

use vstd::prelude::*;
use crate::text::{chars_of, starts_with};

verus! {

/// One role of a guild: what the commands read of it.
#[derive(Clone, Debug, PartialEq, Eq)]
pub struct RoleRecord {
    pub id: u64,
    pub name: String,
    /// The display colour as `0xRRGGBB`.
    pub colour: u32,
    /// The place in the guild's role hierarchy.
    pub position: i64,
}

/// The prefix that marks a role as a colour role: `cl:`.
pub open spec fn marker() -> Seq<char> {
    seq!['c', 'l', ':']
}

/// The name of the role below which colour roles are placed:
/// `--colors-start-here--`.
pub open spec fn sentinel() -> Seq<char> {
    seq![
        '-', '-', 'c', 'o', 'l', 'o', 'r', 's', '-', 's', 't', 'a', 'r', 't', '-', 'h', 'e', 'r',
        'e', '-', '-',
    ]
}

/// Whether a role of this name is a colour role.
pub open spec fn is_color_role(name: Seq<char>) -> bool {
    marker().is_prefix_of(name)
}

/// The label of a colour role: its name without the marker.
pub open spec fn label_of(name: Seq<char>) -> Seq<char> {
    name.skip(3)
}

/// The name of the colour role with this label.
pub open spec fn role_name_of(label: Seq<char>) -> Seq<char> {
    marker() + label
}

/// Whether a role of the id `id` is among `roles`.
pub open spec fn holds(roles: Seq<RoleRecord>, id: u64) -> bool {
    exists|i: int| 0 <= i < roles.len() && (#[trigger] roles[i]).id == id
}

/// The index of the first role called `name`, if there is one.
pub open spec fn first_named(roles: Seq<RoleRecord>, name: Seq<char>) -> Option<int>
    decreases roles.len(),
{
    if roles.len() == 0 {
        None
    } else if roles[0].name@ == name {
        Some(0)
    } else {
        match first_named(roles.drop_first(), name) {
            Some(i) => Some(i + 1),
            None => None,
        }
    }
}

/// `first_named` finds a role of that name, the first one, exactly when
/// there is one.
pub proof fn lemma_first_named(roles: Seq<RoleRecord>, name: Seq<char>)
    ensures
        first_named(roles, name) is None <==> forall|i: int|
            0 <= i < roles.len() ==> (#[trigger] roles[i]).name@ != name,
        first_named(roles, name) matches Some(k) ==> {
            &&& 0 <= k < roles.len()
            &&& roles[k].name@ == name
            &&& forall|i: int| 0 <= i < k ==> (#[trigger] roles[i]).name@ != name
        },
    decreases roles.len(),
{
    if roles.len() > 0 && roles[0].name@ != name {
        let rest = roles.drop_first();
        lemma_first_named(rest, name);
        assert(forall|i: int| 0 <= i < rest.len() ==> rest[i] == roles[i + 1]);
        match first_named(rest, name) {
            Some(k) => {
                assert(roles[k + 1] == rest[k]);
                assert forall|i: int| 0 <= i < k + 1 implies (#[trigger] roles[i]).name@
                    != name by {
                    if i > 0 {
                        assert(roles[i] == rest[i - 1]);
                    }
                }
            },
            None => {
                assert forall|i: int| 0 <= i < roles.len() implies (#[trigger] roles[i]).name@
                    != name by {
                    if i > 0 {
                        assert(roles[i] == rest[i - 1]);
                    }
                }
            },
        }
    }
}

/// The directory has no role with the sentinel's name.
#[derive(Clone, Copy, Debug, PartialEq, Eq, Structural)]
pub struct SentinelNotFound;

/// The first role called `name`.
pub fn role_by_name<'a>(roles: &'a Vec<RoleRecord>, name: &String) -> (found: Option<
    &'a RoleRecord,
>)
    ensures
        match first_named(roles@, name@) {
            Some(k) => found == Some(&roles@[k]),
            None => found is None,
        },
{
    let mut i: usize = 0;
    while i < roles.len()
        invariant
            i <= roles.len(),
            forall|k: int| 0 <= k < i ==> (#[trigger] roles@[k]).name@ != name@,
        decreases roles.len() - i,
    {
        if roles[i].name == *name {
            proof {
                lemma_first_named(roles@, name@);
            }
            return Some(&roles[i]);
        }
        i += 1;
    }
    proof {
        lemma_first_named(roles@, name@);
    }
    None
}

/// The position of the sentinel role, below which new colour roles are
/// placed. Of several roles with the sentinel's name the first in the
/// directory counts.
pub fn get_starting_color_role_position(roles: &Vec<RoleRecord>) -> (result: Result<
    i64,
    SentinelNotFound,
>)
    ensures
        match first_named(roles@, sentinel()) {
            Some(k) => result == Ok::<i64, SentinelNotFound>(roles@[k].position),
            None => result is Err,
        },
{
    let name = String::from_str("--colors-start-here--");
    proof {
        reveal_strlit("--colors-start-here--");
        assert(name@ =~= sentinel());
    }
    match role_by_name(roles, &name) {
        Some(role) => Ok(role.position),
        None => Err(SentinelNotFound),
    }
}

/// Over a directory without a role of the sentinel's name the position is
/// not found.
pub proof fn lemma_no_sentinel(roles: Seq<RoleRecord>)
    requires
        forall|i: int| 0 <= i < roles.len() ==> (#[trigger] roles[i]).name@ != sentinel(),
    ensures
        first_named(roles, sentinel()) is None,
{
    lemma_first_named(roles, sentinel());
}

/// Over a directory with exactly one role of the sentinel's name, at index
/// `k`, the position found is that role's.
pub proof fn lemma_single_sentinel(roles: Seq<RoleRecord>, k: int)
    requires
        0 <= k < roles.len(),
        forall|i: int|
            0 <= i < roles.len() ==> ((#[trigger] roles[i]).name@ == sentinel() <==> i == k),
    ensures
        first_named(roles, sentinel()) == Some(k),
{
    lemma_first_named(roles, sentinel());
    assert(roles[k].name@ == sentinel());
}

/// A colour label with its colour.
#[derive(Clone, Debug, PartialEq, Eq)]
pub struct ColorEntry {
    pub label: String,
    pub colour: u32,
}

/// The map that holds, for each entry in turn, its colour under its label;
/// a later entry replaces an earlier one of the same label.
spec fn entries_map(entries: Seq<ColorEntry>) -> Map<Seq<char>, u32>
    decreases entries.len(),
{
    if entries.len() == 0 {
        Map::empty()
    } else {
        entries_map(entries.drop_last()).insert(entries.last().label@, entries.last().colour)
    }
}

/// No two entries share a label.
spec fn distinct_labels(entries: Seq<ColorEntry>) -> bool {
    forall|i: int, j: int|
        0 <= i < j < entries.len() ==> (#[trigger] entries[i]).label@ != (
        #[trigger] entries[j]).label@
}

/// The labels of `entries_map` are those of the entries; where no two
/// entries share a label, each entry's colour is the one under its label.
proof fn lemma_entries_map(entries: Seq<ColorEntry>)
    ensures
        forall|l: Seq<char>| #[trigger]
            entries_map(entries).contains_key(l) <==> exists|i: int|
                0 <= i < entries.len() && (#[trigger] entries[i]).label@ == l,
        distinct_labels(entries) ==> forall|i: int|
            0 <= i < entries.len() ==> entries_map(entries)[(#[trigger] entries[i]).label@]
                == entries[i].colour,
        entries_map(entries).dom().finite(),
        distinct_labels(entries) ==> entries_map(entries).dom().len() == entries.len(),
    decreases entries.len(),
{
    if entries.len() > 0 {
        let rest = entries.drop_last();
        let last = entries.last();
        lemma_entries_map(rest);
        assert(forall|i: int| 0 <= i < rest.len() ==> rest[i] == entries[i]);
        assert forall|l: Seq<char>| #[trigger]
            entries_map(entries).contains_key(l) <==> exists|i: int|
                0 <= i < entries.len() && (#[trigger] entries[i]).label@ == l by {
            if entries_map(entries).contains_key(l) {
                if l == last.label@ {
                    assert(entries[entries.len() - 1].label@ == l);
                } else {
                    assert(entries_map(rest).contains_key(l));
                    let i = choose|i: int| 0 <= i < rest.len() && (#[trigger] rest[i]).label@ == l;
                    assert(entries[i].label@ == l);
                }
            }
            if exists|i: int| 0 <= i < entries.len() && (#[trigger] entries[i]).label@ == l {
                let i = choose|i: int|
                    0 <= i < entries.len() && (#[trigger] entries[i]).label@ == l;
                if i < rest.len() {
                    assert(rest[i].label@ == l);
                }
            }
        }
        if distinct_labels(entries) {
            assert(distinct_labels(rest)) by {
                assert forall|i: int, j: int| 0 <= i < j < rest.len() implies (
                #[trigger] rest[i]).label@ != (#[trigger] rest[j]).label@ by {
                    assert(entries[i].label@ != entries[j].label@);
                }
            }
            assert(!entries_map(rest).contains_key(last.label@)) by {
                if entries_map(rest).contains_key(last.label@) {
                    let i = choose|i: int|
                        0 <= i < rest.len() && (#[trigger] rest[i]).label@ == last.label@;
                    assert(entries[i].label@ != entries[entries.len() - 1].label@);
                }
            }
            assert forall|i: int| 0 <= i < entries.len() implies entries_map(entries)[(
            #[trigger] entries[i]).label@] == entries[i].colour by {
                if i < rest.len() {
                    assert(rest[i].label@ != last.label@) by {
                        assert(entries[i].label@ != entries[entries.len() - 1].label@);
                    }
                }
            }
        }
    }
}

/// Replacing the entry at `i` by one of the same label is an insertion
/// into the map, where no two entries share a label.
proof fn lemma_update_entry(entries: Seq<ColorEntry>, i: int, entry: ColorEntry)
    requires
        0 <= i < entries.len(),
        distinct_labels(entries),
        entries[i].label@ == entry.label@,
    ensures
        entries_map(entries.update(i, entry)) == entries_map(entries).insert(
            entry.label@,
            entry.colour,
        ),
        distinct_labels(entries.update(i, entry)),
    decreases entries.len(),
{
    let updated = entries.update(i, entry);
    let rest = entries.drop_last();
    assert forall|a: int, b: int| 0 <= a < b < updated.len() implies (
    #[trigger] updated[a]).label@ != (#[trigger] updated[b]).label@ by {
        assert(entries[a].label@ != entries[b].label@);
    }
    if i == entries.len() - 1 {
        assert(updated.drop_last() =~= rest);
        assert(entries_map(updated) =~= entries_map(entries).insert(entry.label@, entry.colour));
    } else {
        assert(distinct_labels(rest)) by {
            assert forall|a: int, b: int| 0 <= a < b < rest.len() implies (
            #[trigger] rest[a]).label@ != (#[trigger] rest[b]).label@ by {
                assert(entries[a].label@ != entries[b].label@);
            }
        }
        lemma_update_entry(rest, i, entry);
        assert(updated.drop_last() =~= rest.update(i, entry));
        assert(entries[i].label@ != entries[entries.len() - 1].label@);
        assert(entries_map(updated) =~= entries_map(entries).insert(entry.label@, entry.colour));
    }
}

/// The labels of the entries, in their order.
spec fn labels_of(entries: Seq<ColorEntry>) -> Seq<Seq<char>> {
    entries.map_values(|e: ColorEntry| e.label@)
}

/// A mapping from colour label to colour that keeps its labels in the
/// order in which they first came.
#[derive(Clone, Debug)]
pub struct ColorMap {
    entries: Vec<ColorEntry>,
}

impl View for ColorMap {
    type V = Map<Seq<char>, u32>;

    closed spec fn view(&self) -> Map<Seq<char>, u32> {
        entries_map(self.entries@)
    }
}

impl ColorMap {
    /// The labels in the order in which they are handed out.
    pub closed spec fn labels(&self) -> Seq<Seq<char>> {
        labels_of(self.entries@)
    }

    /// No label occurs twice.
    pub closed spec fn wf(&self) -> bool {
        distinct_labels(self.entries@)
    }

    /// The labels are those of the map, each once.
    pub proof fn lemma_labels(&self)
        requires
            self.wf(),
        ensures
            self.labels().no_duplicates(),
            forall|l: Seq<char>| self@.contains_key(l) <==> self.labels().contains(l),
            self@.dom().finite(),
            self@.dom().len() == self.labels().len(),
    {
        lemma_entries_map(self.entries@);
        let labels = self.labels();
        assert forall|l: Seq<char>| self@.contains_key(l) <==> labels.contains(l) by {
            if self@.contains_key(l) {
                let i = choose|i: int|
                    0 <= i < self.entries@.len() && (#[trigger] self.entries@[i]).label@ == l;
                assert(labels[i] == l);
            }
            if labels.contains(l) {
                let i = choose|i: int| 0 <= i < labels.len() && labels[i] == l;
                assert(self.entries@[i].label@ == l);
            }
        }
        assert forall|i: int, k: int| 0 <= i < labels.len() && 0 <= k < labels.len() && i
            != k implies labels[i] != labels[k] by {
            if i < k {
                assert(self.entries@[i].label@ != self.entries@[k].label@);
            } else {
                assert(self.entries@[k].label@ != self.entries@[i].label@);
            }
        }
    }

    /// A map without entries.
    pub fn new() -> (colors: ColorMap)
        ensures
            colors.wf(),
            colors@ == Map::<Seq<char>, u32>::empty(),
            colors.labels() == Seq::<Seq<char>>::empty(),
    {
        let colors = ColorMap { entries: Vec::new() };
        assert(colors.labels() =~= Seq::<Seq<char>>::empty());
        colors
    }

    /// The number of labels.
    pub fn len(&self) -> (n: usize)
        ensures
            n == self.labels().len(),
    {
        self.entries.len()
    }

    /// The entry at index `i`: the label there, and the colour under it.
    pub fn row(&self, i: usize) -> (entry: &ColorEntry)
        requires
            self.wf(),
            i < self.labels().len(),
        ensures
            entry.label@ == self.labels()[i as int],
            entry.colour == self@[self.labels()[i as int]],
    {
        proof {
            lemma_entries_map(self.entries@);
        }
        &self.entries[i]
    }

    fn index_of(&self, label: &String) -> (found: Option<usize>)
        ensures
            match found {
                Some(i) => i < self.entries@.len() && self.entries@[i as int].label@ == label@,
                None => forall|k: int|
                    0 <= k < self.entries@.len() ==> (#[trigger] self.entries@[k]).label@
                        != label@,
            },
    {
        let mut i: usize = 0;
        while i < self.entries.len()
            invariant
                i <= self.entries.len(),
                forall|k: int| 0 <= k < i ==> (#[trigger] self.entries@[k]).label@ != label@,
            decreases self.entries.len() - i,
        {
            if self.entries[i].label == *label {
                return Some(i);
            }
            i += 1;
        }
        None
    }

    /// The colour under `label`, if the map has that label.
    pub fn get(&self, label: &String) -> (colour: Option<u32>)
        requires
            self.wf(),
        ensures
            colour == if self@.contains_key(label@) {
                Some(self@[label@])
            } else {
                None
            },
    {
        proof {
            lemma_entries_map(self.entries@);
        }
        match self.index_of(label) {
            Some(i) => Some(self.entries[i].colour),
            None => None,
        }
    }

    /// Whether the map has `label`.
    pub fn contains_key(&self, label: &String) -> (found: bool)
        requires
            self.wf(),
        ensures
            found == self@.contains_key(label@),
    {
        self.get(label).is_some()
    }

    /// Puts `colour` under `label`, in place of what was there. A label
    /// that the map had keeps its place; a new one goes to the end.
    pub fn insert(&mut self, label: String, colour: u32)
        requires
            old(self).wf(),
        ensures
            final(self).wf(),
            final(self)@ == old(self)@.insert(label@, colour),
            final(self).labels() == if old(self)@.contains_key(label@) {
                old(self).labels()
            } else {
                old(self).labels().push(label@)
            },
    {
        proof {
            lemma_entries_map(self.entries@);
        }
        match self.index_of(&label) {
            Some(i) => {
                let entry = ColorEntry { label, colour };
                proof {
                    lemma_update_entry(self.entries@, i as int, entry);
                    assert(labels_of(self.entries@.update(i as int, entry)) =~= labels_of(
                        self.entries@,
                    ));
                }
                self.entries.set(i, entry);
            },
            None => {
                let entry = ColorEntry { label, colour };
                proof {
                    let pushed = self.entries@.push(entry);
                    assert(pushed.drop_last() =~= self.entries@);
                    assert forall|a: int, b: int| 0 <= a < b < pushed.len() implies (
                    #[trigger] pushed[a]).label@ != (#[trigger] pushed[b]).label@ by {
                        if b < self.entries@.len() {
                            assert(self.entries@[a].label@ != self.entries@[b].label@);
                        } else {
                            assert(self.entries@[a].label@ != entry.label@);
                        }
                    }
                    assert(labels_of(pushed) =~= labels_of(self.entries@).push(entry.label@));
                }
                self.entries.push(entry);
            },
        }
    }
}

/// The colour roles of a directory: for each role whose name begins with
/// the marker, in turn, its colour under its label. Of two roles with one
/// name the later one counts.
pub open spec fn color_map(roles: Seq<RoleRecord>) -> Map<Seq<char>, u32>
    decreases roles.len(),
{
    if roles.len() == 0 {
        Map::empty()
    } else if is_color_role(roles.last().name@) {
        color_map(roles.drop_last()).insert(label_of(roles.last().name@), roles.last().colour)
    } else {
        color_map(roles.drop_last())
    }
}

/// The labels of the colour roles of a directory, each once, in the order
/// in which the directory first has them.
pub open spec fn first_labels(roles: Seq<RoleRecord>) -> Seq<Seq<char>>
    decreases roles.len(),
{
    if roles.len() == 0 {
        Seq::empty()
    } else if is_color_role(roles.last().name@) && !first_labels(roles.drop_last()).contains(
        label_of(roles.last().name@),
    ) {
        first_labels(roles.drop_last()).push(label_of(roles.last().name@))
    } else {
        first_labels(roles.drop_last())
    }
}

/// Whether `name` begins with the marker `cl:`.
pub fn has_marker(name: &str) -> (r: bool)
    ensures
        r == is_color_role(name@),
{
    let prefix = chars_of("cl:");
    proof {
        reveal_strlit("cl:");
        assert(prefix@ =~= marker());
    }
    let chars = chars_of(name);
    starts_with(&chars, &prefix)
}

/// The label of the colour role called `name`.
pub fn strip_marker(name: &str) -> (label: String)
    requires
        is_color_role(name@),
    ensures
        label@ == label_of(name@),
{
    let n = name.unicode_len();
    String::from_str(name.substring_char(3, n))
}

/// The name of the colour role for `label`: the marker, then the label.
pub fn color_role_name(label: &str) -> (name: String)
    ensures
        name@ == role_name_of(label@),
{
    let mut name = String::from_str("cl:");
    proof {
        reveal_strlit("cl:");
        assert(name@ =~= marker());
    }
    name.append(label);
    name
}

/// Collects the colour roles of a directory.
pub fn get_colors(roles: &Vec<RoleRecord>) -> (colors: ColorMap)
    ensures
        colors.wf(),
        colors@ == color_map(roles@),
        colors.labels() == first_labels(roles@),
{
    let mut colors = ColorMap::new();
    let mut i: usize = 0;
    while i < roles.len()
        invariant
            i <= roles.len(),
            colors.wf(),
            colors@ == color_map(roles@.take(i as int)),
            colors.labels() == first_labels(roles@.take(i as int)),
        decreases roles.len() - i,
    {
        proof {
            assert(roles@.take(i + 1).drop_last() =~= roles@.take(i as int));
            colors.lemma_labels();
        }
        if has_marker(roles[i].name.as_str()) {
            colors.insert(strip_marker(roles[i].name.as_str()), roles[i].colour);
        }
        i += 1;
    }
    proof {
        assert(roles@.take(roles@.len() as int) =~= roles@);
    }
    colors
}

/// The labels of a directory's colour roles are those of its colour map,
/// each once.
pub proof fn lemma_first_labels(roles: Seq<RoleRecord>)
    ensures
        first_labels(roles).no_duplicates(),
        forall|l: Seq<char>| color_map(roles).contains_key(l) <==> first_labels(roles).contains(l),
        color_map(roles).dom().finite(),
        color_map(roles).dom().len() == first_labels(roles).len(),
    decreases roles.len(),
{
    if roles.len() > 0 {
        let rest = roles.drop_last();
        let before = first_labels(rest);
        let label = label_of(roles.last().name@);
        lemma_first_labels(rest);
        if is_color_role(roles.last().name@) {
            if !before.contains(label) {
                let after = before.push(label);
                assert(after[before.len() as int] == label);
                assert(!color_map(rest).contains_key(label));
                assert forall|l: Seq<char>| color_map(roles).contains_key(l) <==> after.contains(
                    l,
                ) by {
                    if after.contains(l) {
                        let i = choose|i: int| 0 <= i < after.len() && after[i] == l;
                        if i < before.len() {
                            assert(before[i] == l);
                            assert(before.contains(l));
                        }
                    }
                    if color_map(roles).contains_key(l) && l != label {
                        assert(color_map(rest).contains_key(l));
                        assert(before.contains(l));
                        let i = choose|i: int| 0 <= i < before.len() && before[i] == l;
                        assert(after[i] == l);
                    }
                }
            } else {
                assert(color_map(rest).contains_key(label));
                assert(color_map(roles).dom() =~= color_map(rest).dom());
            }
        }
    }
}

/// A label is among the colour roles of a directory exactly when a role is
/// called by the marker and that label, and its colour is then that of such
/// a role.
pub proof fn lemma_color_map(roles: Seq<RoleRecord>, label: Seq<char>)
    ensures
        color_map(roles).contains_key(label) <==> exists|i: int|
            0 <= i < roles.len() && (#[trigger] roles[i]).name@ == role_name_of(label),
        color_map(roles).contains_key(label) ==> exists|i: int|
            0 <= i < roles.len() && (#[trigger] roles[i]).name@ == role_name_of(label)
                && roles[i].colour == color_map(roles)[label],
    decreases roles.len(),
{
    if roles.len() > 0 {
        let rest = roles.drop_last();
        let last = roles.last();
        lemma_color_map(rest, label);
        assert(forall|i: int| 0 <= i < rest.len() ==> rest[i] == roles[i]);
        assert(is_color_role(role_name_of(label)));
        assert(label_of(role_name_of(label)) =~= label);
        if is_color_role(last.name@) {
            assert(role_name_of(label_of(last.name@)) =~= last.name@);
        }
        if color_map(roles).contains_key(label) {
            if is_color_role(last.name@) && label_of(last.name@) == label {
                assert(roles[roles.len() - 1].name@ == role_name_of(label));
            } else {
                let i = choose|i: int|
                    0 <= i < rest.len() && (#[trigger] rest[i]).name@ == role_name_of(label)
                        && rest[i].colour == color_map(rest)[label];
                assert(roles[i].name@ == role_name_of(label));
            }
        }
        if exists|i: int|
            0 <= i < roles.len() && (#[trigger] roles[i]).name@ == role_name_of(label) {
            let i = choose|i: int|
                0 <= i < roles.len() && (#[trigger] roles[i]).name@ == role_name_of(label);
            if i < rest.len() {
                assert(rest[i].name@ == role_name_of(label));
            }
        }
    }
}

} // verus!

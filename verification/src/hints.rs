//! The hints of a program in the form the Cairo VM runs them: the parameters
//! of each hint grouped by instruction offset, and the table from
//! representing strings back to hints.
use vstd::prelude::*;

use crate::executable::{hint_representing_string, representing_string};
use cairo_lang_casm::hints::Hint;
use cairo_vm::serde::deserialize_program::{ApTracking, FlowTrackingData, HintParams};
use std::collections::HashMap;

verus! {

broadcast use vstd::std_specs::hash::group_hash_axioms;

/// The position of the allocation pointer a hint was compiled against.
#[verifier::external_type_specification]
pub struct ExApTracking(ApTracking);

/// The flow-tracking data of a hint: its allocation-pointer tracking and the
/// references it uses, by name.
#[verifier::external_type_specification]
pub struct ExFlowTrackingData(FlowTrackingData);

/// The parameters under which the Cairo VM runs a hint: its code, the
/// scopes it may access and its flow-tracking data.
#[verifier::external_type_specification]
pub struct ExHintParams(HintParams);

/// The tracking data of a hint compiled without references
/// (`ApTracking::new` of the Cairo VM), which cairo-vm defines as group 0,
/// offset 0.
pub assume_specification[ ApTracking::new ]() -> (r: ApTracking)
    ensures
        r.group == 0,
        r.offset == 0,
;

/// `p` are the parameters of hint `h`: its representing string as code, no
/// accessible scopes, no references and the initial allocation-pointer
/// tracking.
pub open spec fn is_params_of(p: HintParams, h: Hint) -> bool {
    &&& p.code@ == representing_string(h)
    &&& p.accessible_scopes@.len() == 0
    &&& p.flow_tracking_data.ap_tracking.group == 0
    &&& p.flow_tracking_data.ap_tracking.offset == 0
    &&& p.flow_tracking_data.reference_ids@ == Map::<String, usize>::empty()
}

/// `ps` are the parameters of the hints `hs`, one for one and in order.
pub open spec fn is_params_of_group(ps: Seq<HintParams>, hs: Seq<Hint>) -> bool {
    &&& ps.len() == hs.len()
    &&& forall|i: int| 0 <= i < hs.len() ==> #[trigger] is_params_of(ps[i], hs[i])
}

/// Converts a hint to the parameters under which the Cairo VM runs it, its
/// code being its representing string.
pub fn hint_to_hint_params(hint: &Hint) -> (r: HintParams)
    ensures
        is_params_of(r, *hint),
{
    HintParams {
        code: hint_representing_string(hint),
        accessible_scopes: Vec::new(),
        flow_tracking_data: FlowTrackingData {
            ap_tracking: ApTracking::new(),
            reference_ids: HashMap::new(),
        },
    }
}

/// Two hint parameters agree in every field, each taken by its view.
pub open spec fn same_params(p1: HintParams, p2: HintParams) -> bool {
    &&& p1.code@ == p2.code@
    &&& p1.accessible_scopes@ == p2.accessible_scopes@
    &&& p1.flow_tracking_data.ap_tracking == p2.flow_tracking_data.ap_tracking
    &&& p1.flow_tracking_data.reference_ids@ == p2.flow_tracking_data.reference_ids@
}

/// The parameters of a hint depend on the hint only through its
/// representing string: those of two hints agree exactly when their strings
/// do.
pub proof fn lemma_params_depend_on_string_only(p1: HintParams, h1: Hint, p2: HintParams, h2: Hint)
    requires
        is_params_of(p1, h1),
        is_params_of(p2, h2),
    ensures
        same_params(p1, p2) <==> representing_string(h1) == representing_string(h2),
{
    assert(p1.accessible_scopes@ =~= p2.accessible_scopes@);
}

/// A table from representing strings to hints; no string occurs twice.
pub struct HintTable {
    entries: Vec<(String, Hint)>,
}

/// The entry at index `i` has key `c`.
pub open spec fn entry_has_key(entries: Seq<(String, Hint)>, i: int, c: Seq<char>) -> bool {
    0 <= i < entries.len() && entries[i].0@ == c
}

/// No key occurs twice among the entries.
pub open spec fn keys_distinct(entries: Seq<(String, Hint)>) -> bool {
    forall|i: int, j: int|
        0 <= i < entries.len() && 0 <= j < entries.len() && i != j ==> #[trigger] entries[i].0@
            != #[trigger] entries[j].0@
}

/// The entries as a map from keys to hints.
pub open spec fn entries_map(entries: Seq<(String, Hint)>) -> Map<Seq<char>, Hint> {
    Map::new(
        |c: Seq<char>| exists|i: int| entry_has_key(entries, i, c),
        |c: Seq<char>| entries[choose|i: int| entry_has_key(entries, i, c)].1,
    )
}

/// With distinct keys, the map takes the key of each entry to its hint.
proof fn lemma_entries_map_at(entries: Seq<(String, Hint)>, i: int)
    requires
        0 <= i < entries.len(),
        keys_distinct(entries),
    ensures
        entries_map(entries).contains_key(entries[i].0@),
        entries_map(entries)[entries[i].0@] == entries[i].1,
{
    let c = entries[i].0@;
    assert(entry_has_key(entries, i, c));
    let k = choose|k: int| entry_has_key(entries, k, c);
    if k != i {
        assert(entries[k].0@ != entries[i].0@);
    }
}

/// Appending an entry with a new key inserts it into the map.
proof fn lemma_entries_push(entries: Seq<(String, Hint)>, code: String, hint: Hint)
    requires
        keys_distinct(entries),
        forall|k: int| 0 <= k < entries.len() ==> entries[k].0@ != code@,
    ensures
        keys_distinct(entries.push((code, hint))),
        entries_map(entries.push((code, hint))) == entries_map(entries).insert(code@, hint),
{
    let es = entries.push((code, hint));
    let n = entries.len() as int;
    assert forall|i: int, j: int|
        0 <= i < es.len() && 0 <= j < es.len() && i != j implies #[trigger] es[i].0@
            != #[trigger] es[j].0@ by {
        if i < n && j < n {
            assert(entries[i].0@ != entries[j].0@);
        }
    }
    let m = entries_map(entries).insert(code@, hint);
    assert forall|c: Seq<char>| #[trigger] entries_map(es).contains_key(c) == m.contains_key(c) by {
        if entries_map(es).contains_key(c) {
            let j = choose|j: int| entry_has_key(es, j, c);
            if j != n {
                assert(entry_has_key(entries, j, c));
            }
        }
        if entries_map(entries).contains_key(c) {
            let j = choose|j: int| entry_has_key(entries, j, c);
            assert(entry_has_key(es, j, c));
        }
        if c == code@ {
            assert(entry_has_key(es, n, c));
        }
    }
    assert forall|c: Seq<char>| #[trigger] entries_map(es).contains_key(c) implies entries_map(es)[c]
        == m[c] by {
        let j = choose|j: int| entry_has_key(es, j, c);
        lemma_entries_map_at(es, j);
        if j != n {
            assert(es[j] == entries[j]);
            lemma_entries_map_at(entries, j);
        }
    }
    assert(entries_map(es) =~= m);
}

/// Replacing the hint of an entry with key `code` inserts it into the map.
proof fn lemma_entries_update(entries: Seq<(String, Hint)>, k: int, code: String, hint: Hint)
    requires
        keys_distinct(entries),
        0 <= k < entries.len(),
        entries[k].0@ == code@,
    ensures
        keys_distinct(entries.update(k, (code, hint))),
        entries_map(entries.update(k, (code, hint))) == entries_map(entries).insert(code@, hint),
{
    let es = entries.update(k, (code, hint));
    assert forall|i: int, j: int|
        0 <= i < es.len() && 0 <= j < es.len() && i != j implies #[trigger] es[i].0@
            != #[trigger] es[j].0@ by {
        assert(entries[i].0@ != entries[j].0@);
    }
    let m = entries_map(entries).insert(code@, hint);
    assert forall|c: Seq<char>| #[trigger] entries_map(es).contains_key(c) == m.contains_key(c) by {
        if entries_map(es).contains_key(c) {
            let j = choose|j: int| entry_has_key(es, j, c);
            assert(entry_has_key(entries, j, c));
        }
        if entries_map(entries).contains_key(c) {
            let j = choose|j: int| entry_has_key(entries, j, c);
            assert(entry_has_key(es, j, c));
        }
        if c == code@ {
            assert(entry_has_key(es, k, c));
        }
    }
    assert forall|c: Seq<char>| #[trigger] entries_map(es).contains_key(c) implies entries_map(es)[c]
        == m[c] by {
        let j = choose|j: int| entry_has_key(es, j, c);
        lemma_entries_map_at(es, j);
        if j != k {
            assert(es[j] == entries[j]);
            lemma_entries_map_at(entries, j);
        }
    }
    assert(entries_map(es) =~= m);
}

impl HintTable {
    /// No string occurs twice among the entries.
    pub closed spec fn wf(self) -> bool {
        keys_distinct(self.entries@)
    }

    /// The table as a map from strings to hints.
    pub closed spec fn spec_map(self) -> Map<Seq<char>, Hint> {
        entries_map(self.entries@)
    }

    /// An empty table.
    pub fn new() -> (r: HintTable)
        ensures
            r.wf(),
            r.spec_map() == Map::<Seq<char>, Hint>::empty(),
    {
        let r = HintTable { entries: Vec::new() };
        assert(r.spec_map() =~= Map::<Seq<char>, Hint>::empty());
        r
    }

    /// The index of the entry with key `code`, if any.
    fn find(&self, code: &String) -> (r: Option<usize>)
        ensures
            r matches Some(k) ==> entry_has_key(self.entries@, k as int, code@),
            r is None ==> forall|k: int| 0 <= k < self.entries@.len() ==> self.entries@[k].0@ != code@,
    {
        let n = self.entries.len();
        let mut i: usize = 0;
        while i < n
            invariant
                n == self.entries@.len(),
                i <= n,
                forall|k: int| 0 <= k < i ==> self.entries@[k].0@ != code@,
            decreases n - i,
        {
            if self.entries[i].0 == *code {
                return Some(i);
            }
            i = i + 1;
        }
        None
    }

    /// The number of strings in the table.
    pub fn len(&self) -> (r: usize)
        requires
            self.wf(),
        ensures
            r == self.spec_map().dom().len(),
    {
        proof {
            let es = self.entries@;
            let keys = es.map_values(|e: (String, Hint)| e.0@);
            assert forall|i: int, j: int|
                0 <= i < keys.len() && 0 <= j < keys.len() && i != j implies keys[i] != keys[j] by {
                assert(es[i].0@ != es[j].0@);
            }
            assert(keys.no_duplicates());
            assert(self.spec_map().dom() =~= keys.to_set()) by {
                assert forall|c: Seq<char>| self.spec_map().dom().contains(c) implies keys.to_set().contains(c) by {
                    let i = choose|i: int| entry_has_key(es, i, c);
                    assert(keys[i] == c);
                }
                assert forall|c: Seq<char>| keys.to_set().contains(c) implies self.spec_map().dom().contains(c) by {
                    let i = choose|i: int| 0 <= i < keys.len() && keys[i] == c;
                    assert(entry_has_key(es, i, c));
                }
            }
            keys.unique_seq_to_set();
        }
        self.entries.len()
    }

    /// The hint stored under `code`, if any.
    pub fn get(&self, code: &String) -> (r: Option<&Hint>)
        requires
            self.wf(),
        ensures
            self.spec_map().contains_key(code@) ==> r == Some(&self.spec_map()[code@]),
            !self.spec_map().contains_key(code@) ==> r is None,
    {
        match self.find(code) {
            Some(k) => {
                proof {
                    lemma_entries_map_at(self.entries@, k as int);
                }
                Some(&self.entries[k].1)
            },
            None => {
                proof {
                    if self.spec_map().contains_key(code@) {
                        let k = choose|k: int| entry_has_key(self.entries@, k, code@);
                        assert(self.entries@[k].0@ != code@);
                    }
                }
                None
            },
        }
    }

    /// Stores `hint` under `code`, replacing the hint stored there before.
    pub fn insert(&mut self, code: String, hint: Hint)
        requires
            old(self).wf(),
        ensures
            final(self).wf(),
            final(self).spec_map() == old(self).spec_map().insert(code@, hint),
    {
        match self.find(&code) {
            Some(k) => {
                proof {
                    lemma_entries_update(self.entries@, k as int, code, hint);
                }
                self.entries.set(k, (code, hint));
            },
            None => {
                proof {
                    lemma_entries_push(self.entries@, code, hint);
                }
                self.entries.push((code, hint));
            },
        }
    }
}

/// The hints of a program, grouped by instruction offset.
pub type HintGroups = Seq<(usize, Vec<Hint>)>;

/// The group at index `j` is the last one with its offset.
pub open spec fn is_last_group(hs: HintGroups, j: int) -> bool {
    &&& 0 <= j < hs.len()
    &&& forall|j2: int| j < j2 < hs.len() ==> #[trigger] hs[j2].0 != hs[j].0
}

/// `dict` takes each offset of `hs` to the parameters of the hints of the
/// last group with that offset, and holds no other offset.
pub open spec fn is_hints_dict_of(dict: Map<usize, Vec<HintParams>>, hs: HintGroups) -> bool {
    &&& forall|k: usize| #[trigger]
        dict.contains_key(k) <==> exists|j: int| 0 <= j < hs.len() && #[trigger] hs[j].0 == k
    &&& forall|j: int| #[trigger]
        is_last_group(hs, j) ==> is_params_of_group(dict[hs[j].0]@, hs[j].1@)
}

/// The hint at position `i` of group `j` has representing string `c`.
pub open spec fn has_code_at(hs: HintGroups, j: int, i: int, c: Seq<char>) -> bool {
    &&& 0 <= j < hs.len()
    &&& 0 <= i < hs[j].1@.len()
    &&& representing_string(hs[j].1@[i]) == c
}

/// Position `(j2, i2)` comes before position `(j, i)`: groups in order, and
/// within a group the hints in order.
pub open spec fn before(j2: int, i2: int, j: int, i: int) -> bool {
    j2 < j || (j2 == j && i2 < i)
}

/// Among the positions before `(lj, li)`, `(j, i)` holds a hint with string
/// `c`, and no later one does.
pub open spec fn is_last_with_code(hs: HintGroups, j: int, i: int, c: Seq<char>, lj: int, li: int) -> bool {
    &&& before(j, i, lj, li)
    &&& has_code_at(hs, j, i, c)
    &&& forall|j2: int, i2: int|
        before(j2, i2, lj, li) && before(j, i, j2, i2) ==> !#[trigger] has_code_at(hs, j2, i2, c)
}

/// `table` holds the strings of the hints before `(lj, li)`, each with the
/// last hint before `(lj, li)` that has it.
pub open spec fn is_table_upto(table: Map<Seq<char>, Hint>, hs: HintGroups, lj: int, li: int) -> bool {
    &&& forall|c: Seq<char>| #[trigger]
        table.contains_key(c) <==> exists|j: int, i: int|
            before(j, i, lj, li) && #[trigger] has_code_at(hs, j, i, c)
    &&& forall|c: Seq<char>| #[trigger]
        table.contains_key(c) ==> exists|j: int, i: int|
            #[trigger] is_last_with_code(hs, j, i, c, lj, li) && table[c] == hs[j].1@[i]
}

/// `table` holds the strings of all hints, each with the last hint that has
/// it.
pub open spec fn is_hint_table_of(table: Map<Seq<char>, Hint>, hs: HintGroups) -> bool {
    is_table_upto(table, hs, hs.len() as int, 0)
}

/// The table lets the hint processor find every hint of the program by its
/// representing string, and what it finds under a string is a hint with
/// that string.
pub proof fn lemma_hint_table_round_trip(table: Map<Seq<char>, Hint>, hs: HintGroups)
    requires
        is_hint_table_of(table, hs),
    ensures
        forall|j: int, i: int|
            0 <= j < hs.len() && 0 <= i < hs[j].1@.len() ==> table.contains_key(
                #[trigger] representing_string(hs[j].1@[i]),
            ),
        forall|c: Seq<char>| #[trigger] table.contains_key(c) ==> representing_string(table[c]) == c,
{
    assert forall|j: int, i: int|
        0 <= j < hs.len() && 0 <= i < hs[j].1@.len() implies table.contains_key(
            #[trigger] representing_string(hs[j].1@[i]),
        ) by {
        assert(has_code_at(hs, j, i, representing_string(hs[j].1@[i])));
        assert(before(j, i, hs.len() as int, 0));
    }
    assert forall|c: Seq<char>| #[trigger] table.contains_key(c) implies representing_string(table[c]) == c by {
        let (j, i) = choose|j: int, i: int|
            #[trigger] is_last_with_code(hs, j, i, c, hs.len() as int, 0) && table[c] == hs[j].1@[i];
    }
}

/// Every offset with hints is in the dictionary, and the parameters stored
/// under it are those of the hints of the last group with that offset, one
/// for one: their codes are those hints' representing strings.
pub proof fn lemma_hints_dict_codes(dict: Map<usize, Vec<HintParams>>, hs: HintGroups, j: int)
    requires
        is_hints_dict_of(dict, hs),
        is_last_group(hs, j),
    ensures
        dict.contains_key(hs[j].0),
        dict[hs[j].0]@.len() == hs[j].1@.len(),
        forall|i: int|
            0 <= i < hs[j].1@.len() ==> #[trigger] dict[hs[j].0]@[i].code@ == representing_string(
                hs[j].1@[i],
            ),
{
    assert(dict.contains_key(hs[j].0));
    assert forall|i: int| 0 <= i < hs[j].1@.len() implies #[trigger] dict[hs[j].0]@[i].code@
        == representing_string(hs[j].1@[i]) by {
        assert(is_params_of(dict[hs[j].0]@[i], hs[j].1@[i]));
    }
}

/// Builds the hints dictionary the Cairo VM runs a program with: each
/// offset to the parameters of its hints (the last group of an offset
/// wins), and the table from representing strings back to hints (the last
/// hint of a string wins).
pub fn build_hints_dict(hints: &[(usize, Vec<Hint>)]) -> (r: (
    HashMap<usize, Vec<HintParams>>,
    HintTable,
))
    ensures
        is_hints_dict_of(r.0@, hints@),
        r.1.wf(),
        is_hint_table_of(r.1.spec_map(), hints@),
{
    let ghost hs = hints@;
    let mut hints_dict: HashMap<usize, Vec<HintParams>> = HashMap::new();
    let mut string_to_hint = HintTable::new();
    let n = hints.len();
    let mut j: usize = 0;
    while j < n
        invariant
            n == hs.len(),
            hs == hints@,
            j <= n,
            is_hints_dict_of(hints_dict@, hs.take(j as int)),
            string_to_hint.wf(),
            is_table_upto(string_to_hint.spec_map(), hs, j as int, 0),
        decreases n - j,
    {
        let offset = hints[j].0;
        let group = &hints[j].1;
        let m = group.len();
        let mut params: Vec<HintParams> = Vec::new();
        let mut i: usize = 0;
        while i < m
            invariant
                n == hs.len(),
                hs == hints@,
                j < n,
                m == hs[j as int].1@.len(),
                *group == hs[j as int].1,
                i <= m,
                is_params_of_group(params@, hs[j as int].1@.take(i as int)),
                string_to_hint.wf(),
                is_table_upto(string_to_hint.spec_map(), hs, j as int, i as int),
            decreases m - i,
        {
            let hint = &group[i];
            let ghost old_table = string_to_hint.spec_map();
            let code = hint_representing_string(hint);
            let cloned_hint = hint.clone();
            string_to_hint.insert(code, cloned_hint);
            proof {
                lemma_table_step(old_table, string_to_hint.spec_map(), hs, j as int, i as int, cloned_hint);
            }
            params.push(hint_to_hint_params(hint));
            proof {
                assert forall|k: int| 0 <= k < i + 1 implies #[trigger] is_params_of(params@[k], hs[j as int].1@.take(i + 1)[k]) by {
                    if k < i {
                        assert(hs[j as int].1@.take(i as int)[k] == hs[j as int].1@.take(i + 1)[k]);
                    }
                }
            }
            i = i + 1;
        }
        proof {
            assert(hs[j as int].1@.take(m as int) =~= hs[j as int].1@);
            lemma_table_next_group(string_to_hint.spec_map(), hs, j as int);
        }
        let ghost old_dict = hints_dict@;
        hints_dict.insert(offset, params);
        proof {
            lemma_dict_step(old_dict, hints_dict@, hs, j as int);
        }
        j = j + 1;
    }
    proof {
        assert(hs.take(n as int) =~= hs);
    }
    (hints_dict, string_to_hint)
}

/// Adding the parameters of group `j` to the dictionary of the groups
/// before `j` gives the dictionary of the groups up to `j`.
proof fn lemma_dict_step(
    old_dict: Map<usize, Vec<HintParams>>,
    new_dict: Map<usize, Vec<HintParams>>,
    hs: HintGroups,
    j: int,
)
    requires
        0 <= j < hs.len(),
        is_hints_dict_of(old_dict, hs.take(j)),
        exists|ps: Vec<HintParams>|
            new_dict == old_dict.insert(hs[j].0, ps) && is_params_of_group(ps@, hs[j].1@),
    ensures
        is_hints_dict_of(new_dict, hs.take(j + 1)),
{
    let ps = choose|ps: Vec<HintParams>|
        new_dict == old_dict.insert(hs[j].0, ps) && is_params_of_group(ps@, hs[j].1@);
    let pre = hs.take(j);
    let post = hs.take(j + 1);
    assert forall|k: usize| #[trigger]
        new_dict.contains_key(k) <==> exists|j2: int| 0 <= j2 < post.len() && #[trigger] post[j2].0 == k by {
        if new_dict.contains_key(k) {
            if k == hs[j].0 {
                assert(post[j].0 == k);
            } else {
                let j2 = choose|j2: int| 0 <= j2 < pre.len() && #[trigger] pre[j2].0 == k;
                assert(post[j2].0 == k);
            }
        }
        if exists|j2: int| 0 <= j2 < post.len() && #[trigger] post[j2].0 == k {
            let j2 = choose|j2: int| 0 <= j2 < post.len() && #[trigger] post[j2].0 == k;
            if j2 < j {
                assert(pre[j2].0 == k);
            }
        }
    }
    assert forall|j2: int| #[trigger]
        is_last_group(post, j2) implies is_params_of_group(new_dict[post[j2].0]@, post[j2].1@) by {
        if j2 == j {
        } else {
            assert(post[j].0 != post[j2].0);
            assert(pre[j2] == post[j2]);
            assert forall|j3: int| j2 < j3 < pre.len() implies #[trigger] pre[j3].0 != pre[j2].0 by {
                assert(post[j3] == pre[j3]);
            }
            assert(is_last_group(pre, j2));
        }
    }
}

/// Storing the hint at `(j, i)` under its string extends the
/// table of the positions before `(j, i)` to those before `(j, i + 1)`.
proof fn lemma_table_step(
    old_table: Map<Seq<char>, Hint>,
    new_table: Map<Seq<char>, Hint>,
    hs: HintGroups,
    j: int,
    i: int,
    h: Hint,
)
    requires
        0 <= j < hs.len(),
        0 <= i < hs[j].1@.len(),
        is_table_upto(old_table, hs, j, i),
        new_table == old_table.insert(representing_string(hs[j].1@[i]), h),
        h == hs[j].1@[i],
    ensures
        is_table_upto(new_table, hs, j, i + 1),
{
    let c0 = representing_string(hs[j].1@[i]);
    assert(has_code_at(hs, j, i, c0));
    assert forall|c: Seq<char>| #[trigger]
        new_table.contains_key(c) <==> exists|j2: int, i2: int|
            before(j2, i2, j, i + 1) && #[trigger] has_code_at(hs, j2, i2, c) by {
        if exists|j2: int, i2: int| before(j2, i2, j, i + 1) && #[trigger] has_code_at(hs, j2, i2, c) {
            let (j2, i2) = choose|j2: int, i2: int| before(j2, i2, j, i + 1) && #[trigger] has_code_at(hs, j2, i2, c);
            if c != c0 {
                assert(before(j2, i2, j, i));
            }
        }
        if new_table.contains_key(c) && c != c0 {
            let (j2, i2) = choose|j2: int, i2: int| before(j2, i2, j, i) && #[trigger] has_code_at(hs, j2, i2, c);
            assert(before(j2, i2, j, i + 1));
        }
    }
    assert forall|c: Seq<char>| #[trigger]
        new_table.contains_key(c) implies exists|j2: int, i2: int|
            #[trigger] is_last_with_code(hs, j2, i2, c, j, i + 1) && new_table[c] == hs[j2].1@[i2] by {
        if c == c0 {
            assert(is_last_with_code(hs, j, i, c, j, i + 1));
        } else {
            let (j2, i2) = choose|j2: int, i2: int|
                #[trigger] is_last_with_code(hs, j2, i2, c, j, i) && old_table[c] == hs[j2].1@[i2];
            assert forall|j3: int, i3: int|
                before(j3, i3, j, i + 1) && before(j2, i2, j3, i3) implies !#[trigger] has_code_at(hs, j3, i3, c) by {
                if !(j3 == j && i3 == i) {
                    assert(before(j3, i3, j, i));
                }
            }
            assert(is_last_with_code(hs, j2, i2, c, j, i + 1));
        }
    }
}

/// The table of the positions before the end of group `j` is the table of
/// the positions before group `j + 1`.
proof fn lemma_table_next_group(table: Map<Seq<char>, Hint>, hs: HintGroups, j: int)
    requires
        0 <= j < hs.len(),
        is_table_upto(table, hs, j, hs[j].1@.len() as int),
    ensures
        is_table_upto(table, hs, j + 1, 0),
{
    let len = hs[j].1@.len() as int;
    assert forall|j2: int, i2: int| #[trigger] has_code_at(hs, j2, i2, representing_string(hs[j2].1@[i2])) implies
        (before(j2, i2, j, len) <==> before(j2, i2, j + 1, 0)) by {
    }
    assert forall|c: Seq<char>| #[trigger]
        table.contains_key(c) <==> exists|j2: int, i2: int|
            before(j2, i2, j + 1, 0) && #[trigger] has_code_at(hs, j2, i2, c) by {
        if table.contains_key(c) {
            let (j2, i2) = choose|j2: int, i2: int| before(j2, i2, j, len) && #[trigger] has_code_at(hs, j2, i2, c);
            assert(before(j2, i2, j + 1, 0));
        }
        if exists|j2: int, i2: int| before(j2, i2, j + 1, 0) && #[trigger] has_code_at(hs, j2, i2, c) {
            let (j2, i2) = choose|j2: int, i2: int| before(j2, i2, j + 1, 0) && #[trigger] has_code_at(hs, j2, i2, c);
            assert(before(j2, i2, j, len));
        }
    }
    assert forall|c: Seq<char>| #[trigger]
        table.contains_key(c) implies exists|j2: int, i2: int|
            #[trigger] is_last_with_code(hs, j2, i2, c, j + 1, 0) && table[c] == hs[j2].1@[i2] by {
        let (j2, i2) = choose|j2: int, i2: int|
            #[trigger] is_last_with_code(hs, j2, i2, c, j, len) && table[c] == hs[j2].1@[i2];
        assert forall|j3: int, i3: int|
            before(j3, i3, j + 1, 0) && before(j2, i2, j3, i3) implies !#[trigger] has_code_at(hs, j3, i3, c) by {
            if has_code_at(hs, j3, i3, c) {
                assert(before(j3, i3, j, len));
            }
        }
        assert(is_last_with_code(hs, j2, i2, c, j + 1, 0));
    }
}

} // verus!

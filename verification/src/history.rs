//! Sharing conversation history between instances: merging the session index, the string lists
//! of the global state file and the thread rows of the state database into the default home.

use vstd::prelude::*;

use crate::json::{
    json_compact, json_compact_of, json_has_member, json_has_member_of, json_member_i64,
    json_member_i64_of, json_member_str, json_member_str_of, json_is_object, json_is_object_of, json_pretty, json_pretty_of, json_string_items,
    json_string_items_of, json_with_string_array, json_with_string_array_of,
    json_pretty_string_object, json_pretty_string_object_of,
};
use crate::text::{
    blank, concatenate, is_blank, join, join_strings, owned, parse_i64, parse_i64_spec, split_on,
    str_eq, str_split, str_trim, trim, trimmed, views, int_text, render_i64, replace_char,
    str_replace_char, pair_views,
};

verus! {

// ---------------------------------------------------------------------------
// String lists of the global state file
// ---------------------------------------------------------------------------

/// `acc` extended by the trimmed, non-blank strings among `src` that it does not hold yet, in
/// the order they first occur.
pub open spec fn merge_items(acc: Seq<Seq<char>>, src: Seq<Option<Seq<char>>>) -> Seq<Seq<char>>
    decreases src.len(),
{
    if src.len() == 0 {
        acc
    } else {
        let next = match src[0] {
            Some(t) => if !is_blank(t) && !acc.contains(trim(t)) {
                acc.push(trim(t))
            } else {
                acc
            },
            None => acc,
        };
        merge_items(next, src.drop_first())
    }
}

/// The strings among `items`, in order.
pub open spec fn string_values(items: Seq<Option<Seq<char>>>) -> Seq<Seq<char>>
    decreases items.len(),
{
    if items.len() == 0 {
        Seq::empty()
    } else {
        let rest = string_values(items.drop_last());
        match items.last() {
            Some(t) => rest.push(t),
            None => rest,
        }
    }
}

/// The views of a sequence of optional strings.
pub open spec fn opt_views(v: Seq<Option<String>>) -> Seq<Option<Seq<char>>> {
    v.map_values(|o: Option<String>| match o {
        Some(t) => Some(t@),
        None => None,
    })
}

/// The items of an optional array, none when there is no array.
pub open spec fn item_list(items: Option<Seq<Option<Seq<char>>>>) -> Seq<Option<Seq<char>>> {
    match items {
        Some(v) => v,
        None => Seq::empty(),
    }
}

fn list_contains(values: &Vec<String>, t: &str) -> (r: bool)
    ensures
        r == views(values@).contains(t@),
{
    let mut i: usize = 0;
    while i < values.len()
        invariant
            i <= values.len(),
            forall|j: int| 0 <= j < i ==> values@[j]@ != t@,
        decreases values.len() - i,
    {
        if str_eq(values[i].as_str(), t) {
            assert(views(values@)[i as int] == t@);
            return true;
        }
        i = i + 1;
    }
    proof {
        if views(values@).contains(t@) {
            let k = choose|k: int| 0 <= k < views(values@).len() && views(values@)[k] == t@;
            assert(values@[k]@ == t@);
        }
    }
    false
}

/// The strings among `items`, copied in order.
pub fn string_items(items: &Vec<Option<String>>) -> (r: Vec<String>)
    ensures
        views(r@) == string_values(opt_views(items@)),
{
    let mut r: Vec<String> = Vec::new();
    let mut i: usize = 0;
    while i < items.len()
        invariant
            i <= items.len(),
            views(r@) == string_values(opt_views(items@.take(i as int))),
        decreases items.len() - i,
    {
        assert(opt_views(items@.take(i + 1)).drop_last() =~= opt_views(items@.take(i as int)));
        assert(opt_views(items@.take(i + 1)).last() == opt_views(items@)[i as int]);
        match &items[i] {
            Some(t) => {
                let ghost before = r@;
                r.push(t.clone());
                assert(views(r@) =~= views(before).push(t@));
            },
            None => {},
        }
        i = i + 1;
    }
    assert(items@.take(items@.len() as int) =~= items@);
    r
}

/// Merges one string list into another as the global state file's lists are merged: every
/// trimmed, non-blank source string that is not present yet is appended, in order.
pub fn merge_string_list(target: &Vec<String>, source: &Vec<Option<String>>) -> (r: Vec<String>)
    ensures
        views(r@) == merge_items(views(target@), opt_views(source@)),
{
    let mut values: Vec<String> = Vec::new();
    let mut k: usize = 0;
    while k < target.len()
        invariant
            k <= target.len(),
            views(values@) == views(target@.take(k as int)),
        decreases target.len() - k,
    {
        let ghost before = values@;
        let item = target[k].clone();
        assert(item@ == target@[k as int]@);
        values.push(item);
        assert(views(values@) =~= views(before).push(target@[k as int]@));
        assert(views(target@.take(k + 1)) =~= views(target@.take(k as int)).push(target@[k as int]@));
        k = k + 1;
    }
    assert(target@.take(target@.len() as int) =~= target@);
    let mut i: usize = 0;
    let ghost src = opt_views(source@);
    assert(src.skip(0) =~= src);
    while i < source.len()
        invariant
            i <= source.len(),
            src == opt_views(source@),
            merge_items(views(target@), src) == merge_items(
                views(values@),
                src.skip(i as int),
            ),
        decreases source.len() - i,
    {
        let ghost rest = src.skip(i as int);
        assert(rest.drop_first() =~= src.skip(i + 1));
        assert(rest[0] == src[i as int]);
        match &source[i] {
            Some(t) => {
                let tt = trimmed(t.as_str());
                if !tt.as_str().is_empty() && !list_contains(&values, tt.as_str()) {
                    let ghost before = values@;
                    values.push(tt);
                    assert(views(values@) =~= views(before).push(trim(t@)));
                }
            },
            None => {},
        }
        i = i + 1;
    }
    assert(src.skip(i as int) =~= Seq::<Option<Seq<char>>>::empty());
    values
}

/// Every string `acc` holds is still there, at the same place, after a merge.
pub proof fn lemma_merge_items_extends(acc: Seq<Seq<char>>, src: Seq<Option<Seq<char>>>)
    ensures
        merge_items(acc, src).len() >= acc.len(),
        merge_items(acc, src).subrange(0, acc.len() as int) == acc,
    decreases src.len(),
{
    if src.len() > 0 {
        let next = match src[0] {
            Some(t) => if !is_blank(t) && !acc.contains(trim(t)) {
                acc.push(trim(t))
            } else {
                acc
            },
            None => acc,
        };
        lemma_merge_items_extends(next, src.drop_first());
        assert(next.subrange(0, acc.len() as int) =~= acc);
        assert(merge_items(acc, src).subrange(0, acc.len() as int) =~= merge_items(
            next,
            src.drop_first(),
        ).subrange(0, next.len() as int).subrange(0, acc.len() as int));
    }
}

/// After a merge, every trimmed, non-blank source string is in the list.
pub proof fn lemma_merge_items_covers(acc: Seq<Seq<char>>, src: Seq<Option<Seq<char>>>, k: int)
    requires
        0 <= k < src.len(),
        src[k] matches Some(t) && !is_blank(t),
    ensures
        merge_items(acc, src).contains(trim(src[k]->0)),
    decreases src.len(),
{
    let next = match src[0] {
        Some(t) => if !is_blank(t) && !acc.contains(trim(t)) {
            acc.push(trim(t))
        } else {
            acc
        },
        None => acc,
    };
    if k == 0 {
        let t = src[0]->0;
        assert(next.contains(trim(t))) by {
            if acc.contains(trim(t)) {
                let j = choose|j: int| 0 <= j < acc.len() && acc[j] == trim(t);
                assert(next[j] == acc[j]);
            } else {
                assert(next[acc.len() as int] == trim(t));
            }
        }
        lemma_merge_items_extends(next, src.drop_first());
        let m = merge_items(next, src.drop_first());
        let j = choose|j: int| 0 <= j < next.len() && next[j] == trim(t);
        assert(m.subrange(0, next.len() as int)[j] == m[j]);
    } else {
        assert(src.drop_first()[k - 1] == src[k]);
        lemma_merge_items_covers(next, src.drop_first(), k - 1);
    }
}

/// A merge adds nothing to a list that already holds every trimmed, non-blank source string.
pub proof fn lemma_merge_items_stable(acc: Seq<Seq<char>>, src: Seq<Option<Seq<char>>>)
    requires
        forall|k: int|
            0 <= k < src.len() && (#[trigger] src[k] matches Some(t) && !is_blank(t)) ==> acc.contains(
                trim(src[k]->0),
            ),
    ensures
        merge_items(acc, src) == acc,
    decreases src.len(),
{
    if src.len() > 0 {
        assert forall|k: int|
            0 <= k < src.drop_first().len() && (#[trigger] src.drop_first()[k] matches Some(t)
                && !is_blank(t)) implies acc.contains(trim(src.drop_first()[k]->0)) by {
            assert(src.drop_first()[k] == src[k + 1]);
        }
        lemma_merge_items_stable(acc, src.drop_first());
    }
}

/// Merging the same source twice gives what merging it once gave.
pub proof fn lemma_merge_items_idempotent(acc: Seq<Seq<char>>, src: Seq<Option<Seq<char>>>)
    ensures
        merge_items(merge_items(acc, src), src) == merge_items(acc, src),
{
    let m = merge_items(acc, src);
    assert forall|k: int|
        0 <= k < src.len() && (#[trigger] src[k] matches Some(t) && !is_blank(t)) implies m.contains(
            trim(src[k]->0),
        ) by {
        lemma_merge_items_covers(acc, src, k);
    }
    lemma_merge_items_stable(m, src);
}

// ---------------------------------------------------------------------------
// The global state file
// ---------------------------------------------------------------------------

/// The JSON text `doc` when it holds an object, the empty object otherwise (an unreadable file
/// counts as absent).
pub open spec fn object_or_empty(doc: Option<String>) -> Seq<char> {
    match doc {
        Some(d) => if json_is_object_of(d@) {
            d@
        } else {
            "{}"@
        },
        None => "{}"@,
    }
}

/// `doc` with its string list `key` merged with the same list of `source`.
pub open spec fn merged_member(doc: Seq<char>, source: Seq<char>, key: Seq<char>) -> Seq<char> {
    json_with_string_array_of(
        doc,
        key,
        merge_items(
            string_values(item_list(json_string_items_of(doc, key))),
            item_list(json_string_items_of(source, key)),
        ),
    )
}

/// The name of the list of projects in the global state file.
pub open spec fn project_order_key() -> Seq<char> {
    "project-order"@
}

/// The name of the list of saved workspace roots in the global state file.
pub open spec fn workspace_roots_key() -> Seq<char> {
    "electron-saved-workspace-roots"@
}

/// The merged global state file: the default home's object with the instance's project order
/// and saved workspace roots merged in, pretty-printed and ended by a newline.
pub open spec fn merged_global_state(global: Option<String>, source: Option<String>) -> Seq<char> {
    let base = object_or_empty(global);
    let src = object_or_empty(source);
    json_pretty_of(
        merged_member(
            merged_member(base, src, project_order_key()),
            src,
            workspace_roots_key(),
        ),
    ) + "\n"@
}

fn object_text_or_empty(doc: &Option<String>) -> (r: String)
    ensures
        r@ == object_or_empty(*doc),
{
    match doc {
        Some(d) => if json_is_object(d.as_str()) {
            owned(d.as_str())
        } else {
            owned("{}")
        },
        None => owned("{}"),
    }
}

fn merge_member(doc: &str, source: &str, key: &str) -> (r: String)
    ensures
        r@ == merged_member(doc@, source@, key@),
{
    let target = match json_string_items(doc, key) {
        Some(items) => string_items(&items),
        None => Vec::new(),
    };
    let source_items = match json_string_items(source, key) {
        Some(items) => items,
        None => Vec::new(),
    };
    assert(views(target@) == string_values(item_list(json_string_items_of(doc@, key@)))) by {
        if json_string_items_of(doc@, key@) is None {
            assert(views(target@) =~= Seq::<Seq<char>>::empty());
        }
    }
    assert(opt_views(source_items@) == item_list(json_string_items_of(source@, key@))) by {
        if json_string_items_of(source@, key@) is None {
            assert(opt_views(source_items@) =~= Seq::<Option<Seq<char>>>::empty());
        }
    }
    let merged = merge_string_list(&target, &source_items);
    json_with_string_array(doc, key, &merged)
}

/// The new content of the default home's global state file once an instance's file is merged
/// into it (`None` stands for a file that could not be read).
pub fn merge_global_state(global: &Option<String>, source: &Option<String>) -> (r: String)
    ensures
        r@ == merged_global_state(*global, *source),
{
    let base = object_text_or_empty(global);
    let src = object_text_or_empty(source);
    let with_projects = merge_member(base.as_str(), src.as_str(), "project-order");
    let with_roots = merge_member(
        with_projects.as_str(),
        src.as_str(),
        "electron-saved-workspace-roots",
    );
    let pretty = json_pretty(with_roots.as_str());
    concatenate(pretty.as_str(), "\n")
}


// ---------------------------------------------------------------------------
// The session index (one JSON object per line)
// ---------------------------------------------------------------------------

/// One conversation of the session index: its id, when it was last updated, whether it is a
/// projection of a chat shared from another instance, and its line as serialised JSON.
#[derive(Debug, Clone)]
pub struct SessionIndexEntry {
    pub id: String,
    pub updated_at: i64,
    pub materialized: bool,
    pub line: String,
}

/// What a session index entry stands for.
pub struct IndexEntryView {
    pub id: Seq<char>,
    pub updated_at: i64,
    pub materialized: bool,
    pub line: Seq<char>,
}

impl View for SessionIndexEntry {
    type V = IndexEntryView;

    open spec fn view(&self) -> IndexEntryView {
        IndexEntryView {
            id: self.id@,
            updated_at: self.updated_at,
            materialized: self.materialized,
            line: self.line@,
        }
    }
}

/// The conversations of a session index, in the order their ids first appear, one entry per id.
#[derive(Debug, Clone)]
pub struct SessionIndex {
    pub entries: Vec<SessionIndexEntry>,
}

impl View for SessionIndex {
    type V = Seq<IndexEntryView>;

    open spec fn view(&self) -> Seq<IndexEntryView> {
        self.entries@.map_values(|e: SessionIndexEntry| e@)
    }
}

/// No two entries share an id.
pub open spec fn distinct_ids(s: Seq<IndexEntryView>) -> bool {
    forall|i: int, j: int|
        0 <= i < s.len() && 0 <= j < s.len() && i != j ==> (#[trigger] s[i]).id != (#[trigger] s[j]).id
}

/// Some entry has the id `id`.
pub open spec fn has_id(s: Seq<IndexEntryView>, id: Seq<char>) -> bool {
    exists|i: int| 0 <= i < s.len() && s[i].id == id
}

/// The position of the entry with the id `id`.
pub open spec fn id_position(s: Seq<IndexEntryView>, id: Seq<char>) -> int {
    choose|i: int| 0 <= i < s.len() && s[i].id == id
}

/// `e` in place of the entry with its id, or appended when there is none.
pub open spec fn upsert(s: Seq<IndexEntryView>, e: IndexEntryView) -> Seq<IndexEntryView> {
    if has_id(s, e.id) {
        s.update(id_position(s, e.id), e)
    } else {
        s.push(e)
    }
}

/// When the entry on the trimmed line `line` was last updated: its `updated_at` member, or
/// `updatedAt` when there is no `updated_at`, read as an integer or as a numeral in a string;
/// 0 otherwise.
pub open spec fn entry_updated_at(line: Seq<char>) -> i64 {
    let key = if json_has_member_of(line, "updated_at"@) {
        "updated_at"@
    } else {
        "updatedAt"@
    };
    match json_member_i64_of(line, key) {
        Some(v) => v,
        None => match json_member_str_of(line, key) {
            Some(t) => match parse_i64_spec(t) {
                Some(v) => v,
                None => 0,
            },
            None => 0,
        },
    }
}

/// The entry a line of the session index stands for: lines that are blank, that are not a JSON
/// object or whose `id` is not a non-blank string stand for none.
pub open spec fn index_line_entry(raw: Seq<char>) -> Option<IndexEntryView> {
    let line = trim(raw);
    if line.len() == 0 {
        None
    } else {
        match json_member_str_of(line, "id"@) {
            Some(id) => if is_blank(id) {
                None
            } else {
                Some(
                    IndexEntryView {
                        id: trim(id),
                        updated_at: entry_updated_at(line),
                        materialized: json_has_member_of(line, "cockpit_shared_chat"@),
                        line: json_compact_of(line),
                    },
                )
            },
            None => None,
        }
    }
}

/// The entries of the lines in order: a later line with an id already seen replaces the entry
/// where the id first appeared.
pub open spec fn index_lines(lines: Seq<Seq<char>>) -> Seq<IndexEntryView>
    decreases lines.len(),
{
    if lines.len() == 0 {
        Seq::empty()
    } else {
        let prev = index_lines(lines.drop_last());
        match index_line_entry(lines.last()) {
            Some(e) => upsert(prev, e),
            None => prev,
        }
    }
}

/// The session index a file holds.
pub open spec fn index_of_text(content: Seq<char>) -> Seq<IndexEntryView> {
    index_lines(split_on(content, '\n'))
}

proof fn lemma_position_unique(s: Seq<IndexEntryView>, id: Seq<char>, k: int)
    requires
        distinct_ids(s),
        0 <= k < s.len(),
        s[k].id == id,
    ensures
        id_position(s, id) == k,
{
    let p = id_position(s, id);
    assert(0 <= p < s.len() && s[p].id == id);
}

/// Replacing or appending an entry keeps ids distinct, makes `e` the entry of its id and leaves
/// the entries of every other id where they were.
pub proof fn lemma_upsert(s: Seq<IndexEntryView>, e: IndexEntryView)
    requires
        distinct_ids(s),
    ensures
        distinct_ids(upsert(s, e)),
        has_id(upsert(s, e), e.id),
        upsert(s, e)[id_position(upsert(s, e), e.id)] == e,
        forall|id: Seq<char>|
            id != e.id ==> (has_id(upsert(s, e), id) == has_id(s, id)) && (has_id(s, id) ==> upsert(
                s,
                e,
            )[id_position(upsert(s, e), id)] == s[id_position(s, id)]),
{
    let u = upsert(s, e);
    if has_id(s, e.id) {
        let p = id_position(s, e.id);
        assert(u[p] == e);
        lemma_position_unique(u, e.id, p);
        assert forall|id: Seq<char>| id != e.id implies (has_id(u, id) == has_id(s, id)) && (has_id(
            s,
            id,
        ) ==> u[id_position(u, id)] == s[id_position(s, id)]) by {
            if has_id(s, id) {
                let q = id_position(s, id);
                assert(u[q] == s[q]);
                lemma_position_unique(u, id, q);
            }
            if has_id(u, id) {
                let q = choose|q: int| 0 <= q < u.len() && u[q].id == id;
                assert(s[q].id == id);
            }
        }
    } else {
        let p = s.len() as int;
        assert(u[p] == e);
        lemma_position_unique(u, e.id, p);
        assert forall|id: Seq<char>| id != e.id implies (has_id(u, id) == has_id(s, id)) && (has_id(
            s,
            id,
        ) ==> u[id_position(u, id)] == s[id_position(s, id)]) by {
            if has_id(s, id) {
                let q = id_position(s, id);
                assert(u[q] == s[q]);
                lemma_position_unique(u, id, q);
            }
            if has_id(u, id) {
                let q = choose|q: int| 0 <= q < u.len() && u[q].id == id;
                assert(q != p);
                assert(s[q].id == id);
            }
        }
    }
}

fn find_entry(entries: &Vec<SessionIndexEntry>, id: &str) -> (r: Option<usize>)
    ensures
        match r {
            Some(i) => i < entries@.len() && entries@[i as int].id@ == id@,
            None => forall|j: int| 0 <= j < entries@.len() ==> entries@[j].id@ != id@,
        },
{
    let mut i: usize = 0;
    while i < entries.len()
        invariant
            i <= entries.len(),
            forall|j: int| 0 <= j < i ==> entries@[j].id@ != id@,
        decreases entries.len() - i,
    {
        if str_eq(entries[i].id.as_str(), id) {
            return Some(i);
        }
        i = i + 1;
    }
    None
}

fn upsert_entry(index: &mut SessionIndex, e: SessionIndexEntry)
    requires
        distinct_ids(old(index)@),
    ensures
        final(index)@ == upsert(old(index)@, e@),
        distinct_ids(final(index)@),
{
    proof {
        lemma_upsert(old(index)@, e@);
    }
    let ghost s = old(index)@;
    match find_entry(&index.entries, e.id.as_str()) {
        Some(i) => {
            assert(s[i as int].id == e@.id);
            proof {
                lemma_position_unique(s, e@.id, i as int);
            }
            index.entries.set(i, e);
            assert(index@ =~= s.update(i as int, e@));
        },
        None => {
            assert(!has_id(s, e@.id));
            index.entries.push(e);
            assert(index@ =~= s.push(e@));
        },
    }
}

/// The entry a line of the session index stands for.
pub fn index_entry_of_line(raw: &str) -> (r: Option<SessionIndexEntry>)
    ensures
        match r {
            Some(e) => index_line_entry(raw@) == Some(e@),
            None => index_line_entry(raw@) is None,
        },
{
    let line = str_trim(raw);
    if line.is_empty() {
        return None;
    }
    let id = match json_member_str(line, "id") {
        Some(id) => id,
        None => {
            return None;
        },
    };
    if blank(id.as_str()) {
        return None;
    }
    let key = if json_has_member(line, "updated_at") {
        "updated_at"
    } else {
        "updatedAt"
    };
    let updated_at = match json_member_i64(line, key) {
        Some(v) => v,
        None => match json_member_str(line, key) {
            Some(t) => match parse_i64(t.as_str()) {
                Some(v) => v,
                None => 0,
            },
            None => 0,
        },
    };
    Some(
        SessionIndexEntry {
            id: trimmed(id.as_str()),
            updated_at,
            materialized: json_has_member(line, "cockpit_shared_chat"),
            line: json_compact(line),
        },
    )
}

/// Reads a session index file: one entry per id, in the order the ids first appear, each the
/// last line with that id; lines that stand for no entry are skipped.
pub fn read_jsonl_entries_by_id(content: &str) -> (r: SessionIndex)
    ensures
        r@ == index_of_text(content@),
        distinct_ids(r@),
{
    let lines = str_split(content, '\n');
    let mut index = SessionIndex { entries: Vec::new() };
    let mut i: usize = 0;
    assert(views(lines@).take(0) =~= Seq::<Seq<char>>::empty());
    assert(index@ =~= Seq::<IndexEntryView>::empty());
    while i < lines.len()
        invariant
            i <= lines.len(),
            views(lines@) == split_on(content@, '\n'),
            index@ == index_lines(views(lines@).take(i as int)),
            distinct_ids(index@),
        decreases lines.len() - i,
    {
        let ghost taken = views(lines@).take(i + 1);
        assert(taken.drop_last() =~= views(lines@).take(i as int));
        assert(taken.last() == lines@[i as int]@);
        match index_entry_of_line(lines[i].as_str()) {
            Some(e) => upsert_entry(&mut index, e),
            None => {},
        }
        i = i + 1;
    }
    assert(views(lines@).take(lines@.len() as int) =~= views(lines@));
    index
}

// ---------------------------------------------------------------------------
// Merging session indexes
// ---------------------------------------------------------------------------

/// A source entry is taken when it is not a shared-chat projection and the target has no entry
/// with its id, or only an older one.
pub open spec fn should_take(t: Seq<IndexEntryView>, e: IndexEntryView) -> bool {
    &&& !e.materialized
    &&& (!has_id(t, e.id) || e.updated_at > t[id_position(t, e.id)].updated_at)
}

/// The target with the source entries taken in order.
pub open spec fn merge_index(t: Seq<IndexEntryView>, s: Seq<IndexEntryView>) -> Seq<IndexEntryView>
    decreases s.len(),
{
    if s.len() == 0 {
        t
    } else {
        let m = merge_index(t, s.drop_last());
        if should_take(m, s.last()) {
            upsert(m, s.last())
        } else {
            m
        }
    }
}

/// Whether merging took any source entry.
pub open spec fn merge_changes(t: Seq<IndexEntryView>, s: Seq<IndexEntryView>) -> bool
    decreases s.len(),
{
    if s.len() == 0 {
        false
    } else {
        merge_changes(t, s.drop_last()) || should_take(merge_index(t, s.drop_last()), s.last())
    }
}

/// Merges an instance's session index into the default home's: an entry is taken when it is
/// not a shared-chat projection and is new or newer than the one it replaces. The result says
/// whether anything was taken.
pub fn merge_session_index(target: &mut SessionIndex, source: &SessionIndex) -> (changed: bool)
    requires
        distinct_ids(old(target)@),
    ensures
        final(target)@ == merge_index(old(target)@, source@),
        changed == merge_changes(old(target)@, source@),
        distinct_ids(final(target)@),
{
    let ghost t0 = target@;
    let mut changed = false;
    let mut i: usize = 0;
    assert(source@.take(0) =~= Seq::<IndexEntryView>::empty());
    while i < source.entries.len()
        invariant
            i <= source.entries.len(),
            target@ == merge_index(t0, source@.take(i as int)),
            changed == merge_changes(t0, source@.take(i as int)),
            distinct_ids(target@),
        decreases source.entries.len() - i,
    {
        let ghost taken = source@.take(i + 1);
        assert(taken.drop_last() =~= source@.take(i as int));
        let e = &source.entries[i];
        assert(taken.last() == e@);
        let take = if e.materialized {
            false
        } else {
            match find_entry(&target.entries, e.id.as_str()) {
                None => {
                    assert(!has_id(target@, e@.id));
                    true
                },
                Some(k) => {
                    proof {
                        lemma_position_unique(target@, e@.id, k as int);
                    }
                    e.updated_at > target.entries[k].updated_at
                },
            }
        };
        if take {
            upsert_entry(
                target,
                SessionIndexEntry {
                    id: e.id.clone(),
                    updated_at: e.updated_at,
                    materialized: e.materialized,
                    line: e.line.clone(),
                },
            );
            changed = true;
        }
        i = i + 1;
    }
    assert(source@.take(source@.len() as int) =~= source@);
    changed
}

/// The lines of a session index file.
pub open spec fn session_index_text(s: Seq<IndexEntryView>) -> Seq<char> {
    join(s.map_values(|e: IndexEntryView| e.line), "\n"@) + "\n"@
}

/// The content of a session index file: the entries' lines joined by newlines, then a newline.
pub fn render_session_index(index: &SessionIndex) -> (r: String)
    ensures
        r@ == session_index_text(index@),
{
    let mut lines: Vec<String> = Vec::new();
    let mut i: usize = 0;
    while i < index.entries.len()
        invariant
            i <= index.entries.len(),
            views(lines@) == index@.take(i as int).map_values(|e: IndexEntryView| e.line),
        decreases index.entries.len() - i,
    {
        let ghost before = lines@;
        let item = index.entries[i].line.clone();
        assert(item@ == index@[i as int].line);
        lines.push(item);
        assert(views(lines@) =~= views(before).push(item@));
        assert(index@.take(i + 1).map_values(|e: IndexEntryView| e.line) =~= index@.take(
            i as int,
        ).map_values(|e: IndexEntryView| e.line).push(index@[i as int].line));
        i = i + 1;
    }
    assert(index@.take(index@.len() as int) =~= index@);
    let body = join_strings(&lines, "\n");
    concatenate(body.as_str(), "\n")
}

/// The new content of the default home's session index once an instance's index is merged
/// into it, or `None` when the merge takes nothing and the file stays as it is.
pub fn merge_session_index_into_default(global_text: &str, instance_text: &str) -> (r: Option<
    String,
>)
    ensures
        !merge_changes(index_of_text(global_text@), index_of_text(instance_text@)) ==> r is None,
        merge_changes(index_of_text(global_text@), index_of_text(instance_text@)) ==> (r matches Some(
            t,
        ) && t@ == session_index_text(
            merge_index(index_of_text(global_text@), index_of_text(instance_text@)),
        )),
{
    let mut global = read_jsonl_entries_by_id(global_text);
    let source = read_jsonl_entries_by_id(instance_text);
    if merge_session_index(&mut global, &source) {
        Some(render_session_index(&global))
    } else {
        None
    }
}


/// The target holds an entry with the id of `e` that is at least as recent as `e`.
pub open spec fn covers(t: Seq<IndexEntryView>, e: IndexEntryView) -> bool {
    &&& has_id(t, e.id)
    &&& t[id_position(t, e.id)].updated_at >= e.updated_at
}

/// Merging keeps ids distinct.
pub proof fn lemma_merge_index_distinct(t: Seq<IndexEntryView>, s: Seq<IndexEntryView>)
    requires
        distinct_ids(t),
    ensures
        distinct_ids(merge_index(t, s)),
    decreases s.len(),
{
    if s.len() > 0 {
        lemma_merge_index_distinct(t, s.drop_last());
        lemma_upsert(merge_index(t, s.drop_last()), s.last());
    }
}

/// Merging never drops an id the target holds.
pub proof fn lemma_merge_index_keeps_ids(t: Seq<IndexEntryView>, s: Seq<IndexEntryView>, id: Seq<char>)
    requires
        distinct_ids(t),
        has_id(t, id),
    ensures
        has_id(merge_index(t, s), id),
    decreases s.len(),
{
    if s.len() > 0 {
        lemma_merge_index_keeps_ids(t, s.drop_last(), id);
        lemma_merge_index_distinct(t, s.drop_last());
        lemma_upsert(merge_index(t, s.drop_last()), s.last());
    }
}

proof fn lemma_step_keeps_cover(m: Seq<IndexEntryView>, e2: IndexEntryView, e: IndexEntryView)
    requires
        distinct_ids(m),
        covers(m, e),
    ensures
        covers(if should_take(m, e2) { upsert(m, e2) } else { m }, e),
{
    if should_take(m, e2) {
        lemma_upsert(m, e2);
    }
}

/// After a merge, the target covers every source entry that is not a shared-chat projection:
/// it has an entry with that id, at least as recent.
pub proof fn lemma_merge_index_covers(t: Seq<IndexEntryView>, s: Seq<IndexEntryView>, k: int)
    requires
        distinct_ids(t),
        0 <= k < s.len(),
        !s[k].materialized,
    ensures
        covers(merge_index(t, s), s[k]),
    decreases s.len(),
{
    let m = merge_index(t, s.drop_last());
    lemma_merge_index_distinct(t, s.drop_last());
    if k == s.len() - 1 {
        if should_take(m, s.last()) {
            lemma_upsert(m, s.last());
        }
    } else {
        assert(s.drop_last()[k] == s[k]);
        lemma_merge_index_covers(t, s.drop_last(), k);
        lemma_step_keeps_cover(m, s.last(), s[k]);
    }
}

/// A merge takes nothing from a source the target already covers.
pub proof fn lemma_merge_index_stable(t: Seq<IndexEntryView>, s: Seq<IndexEntryView>)
    requires
        distinct_ids(t),
        forall|k: int| 0 <= k < s.len() && !(#[trigger] s[k]).materialized ==> covers(t, s[k]),
    ensures
        merge_index(t, s) == t,
        !merge_changes(t, s),
    decreases s.len(),
{
    if s.len() > 0 {
        assert forall|k: int|
            0 <= k < s.drop_last().len() && !(#[trigger] s.drop_last()[k]).materialized implies covers(
            t,
            s.drop_last()[k],
        ) by {
            assert(s.drop_last()[k] == s[k]);
        }
        lemma_merge_index_stable(t, s.drop_last());
        assert(!s.last().materialized ==> covers(t, s[s.len() - 1]));
    }
}

/// Merging the same instance index a second time takes nothing and leaves the default index as
/// the first merge made it.
pub proof fn lemma_merge_index_idempotent(t: Seq<IndexEntryView>, s: Seq<IndexEntryView>)
    requires
        distinct_ids(t),
    ensures
        merge_index(merge_index(t, s), s) == merge_index(t, s),
        !merge_changes(merge_index(t, s), s),
{
    let m = merge_index(t, s);
    lemma_merge_index_distinct(t, s);
    assert forall|k: int| 0 <= k < s.len() && !(#[trigger] s[k]).materialized implies covers(
        m,
        s[k],
    ) by {
        lemma_merge_index_covers(t, s, k);
    }
    lemma_merge_index_stable(m, s);
}


// ---------------------------------------------------------------------------
// Pruning shared-chat projections
// ---------------------------------------------------------------------------

/// The ids of the entries that are shared-chat projections, in order.
pub open spec fn materialized_ids(s: Seq<IndexEntryView>) -> Seq<Seq<char>>
    decreases s.len(),
{
    if s.len() == 0 {
        Seq::empty()
    } else if s.last().materialized {
        materialized_ids(s.drop_last()).push(s.last().id)
    } else {
        materialized_ids(s.drop_last())
    }
}

/// The entries whose id is not among `ids`, in order.
pub open spec fn without_ids(s: Seq<IndexEntryView>, ids: Seq<Seq<char>>) -> Seq<IndexEntryView>
    decreases s.len(),
{
    if s.len() == 0 {
        Seq::empty()
    } else if ids.contains(s.last().id) {
        without_ids(s.drop_last(), ids)
    } else {
        without_ids(s.drop_last(), ids).push(s.last())
    }
}

/// The ids of the shared-chat projections a session index holds.
pub fn materialized_session_ids(index: &SessionIndex) -> (r: Vec<String>)
    ensures
        views(r@) == materialized_ids(index@),
{
    let mut r: Vec<String> = Vec::new();
    let mut i: usize = 0;
    while i < index.entries.len()
        invariant
            i <= index.entries.len(),
            views(r@) == materialized_ids(index@.take(i as int)),
        decreases index.entries.len() - i,
    {
        let ghost taken = index@.take(i + 1);
        assert(taken.drop_last() =~= index@.take(i as int));
        assert(taken.last() == index@[i as int]);
        if index.entries[i].materialized {
            let ghost before = r@;
            let id = index.entries[i].id.clone();
            assert(id@ == index@[i as int].id);
            r.push(id);
            assert(views(r@) =~= views(before).push(id@));
        }
        i = i + 1;
    }
    assert(index@.take(index@.len() as int) =~= index@);
    r
}

/// The session index without the entries whose id is among `ids`, or `None` when there are
/// no ids to remove (the file is then left as it is).
pub fn prune_session_index(index: &SessionIndex, ids: &Vec<String>) -> (r: Option<SessionIndex>)
    ensures
        ids@.len() == 0 ==> r is None,
        ids@.len() > 0 ==> (r matches Some(p) && p@ == without_ids(index@, views(ids@))),
{
    if ids.len() == 0 {
        return None;
    }
    let mut kept = SessionIndex { entries: Vec::new() };
    let mut i: usize = 0;
    assert(kept@ =~= Seq::<IndexEntryView>::empty());
    while i < index.entries.len()
        invariant
            i <= index.entries.len(),
            kept@ == without_ids(index@.take(i as int), views(ids@)),
        decreases index.entries.len() - i,
    {
        let ghost taken = index@.take(i + 1);
        assert(taken.drop_last() =~= index@.take(i as int));
        assert(taken.last() == index@[i as int]);
        let e = &index.entries[i];
        let listed = ids_contain(ids, e.id.as_str());
        if !listed {
            let ghost before = kept@;
            let copy = SessionIndexEntry {
                id: e.id.clone(),
                updated_at: e.updated_at,
                materialized: e.materialized,
                line: e.line.clone(),
            };
            kept.entries.push(copy);
            assert(kept@ =~= before.push(e@));
        }
        i = i + 1;
    }
    assert(index@.take(index@.len() as int) =~= index@);
    Some(kept)
}

fn ids_contain(ids: &Vec<String>, id: &str) -> (r: bool)
    ensures
        r == views(ids@).contains(id@),
{
    let mut i: usize = 0;
    while i < ids.len()
        invariant
            i <= ids.len(),
            forall|j: int| 0 <= j < i ==> ids@[j]@ != id@,
        decreases ids.len() - i,
    {
        if str_eq(ids[i].as_str(), id) {
            assert(views(ids@)[i as int] == id@);
            return true;
        }
        i = i + 1;
    }
    proof {
        if views(ids@).contains(id@) {
            let k = choose|k: int| 0 <= k < views(ids@).len() && views(ids@)[k] == id@;
            assert(ids@[k]@ == id@);
        }
    }
    false
}

/// Drops the shared-chat projections from the default home's session index: the ids to delete
/// from the state database are those the index marks as projections followed by `db_ids` (the
/// projections the database itself marks), and the index is rewritten without them unless there
/// are none.
pub fn prune_materialized_shared_chat_entries(index_text: &str, db_ids: &Vec<String>) -> (r: (
    Vec<String>,
    Option<String>,
))
    ensures
        views(r.0@) == materialized_ids(index_of_text(index_text@)) + views(db_ids@),
        r.0@.len() == 0 ==> r.1 is None,
        r.0@.len() > 0 ==> (r.1 matches Some(t) && t@ == session_index_text(
            without_ids(index_of_text(index_text@), views(r.0@)),
        )),
{
    let index = read_jsonl_entries_by_id(index_text);
    let mut ids = materialized_session_ids(&index);
    let mut k: usize = 0;
    let ghost start = views(ids@);
    while k < db_ids.len()
        invariant
            k <= db_ids.len(),
            views(ids@) == start + views(db_ids@.take(k as int)),
        decreases db_ids.len() - k,
    {
        let ghost before = ids@;
        let item = db_ids[k].clone();
        assert(item@ == db_ids@[k as int]@);
        ids.push(item);
        assert(views(ids@) =~= views(before).push(item@));
        assert(views(db_ids@.take(k + 1)) =~= views(db_ids@.take(k as int)).push(item@));
        k = k + 1;
    }
    assert(db_ids@.take(db_ids@.len() as int) =~= db_ids@);
    let text = match prune_session_index(&index, &ids) {
        Some(pruned) => Some(render_session_index(&pruned)),
        None => None,
    };
    (ids, text)
}

// ---------------------------------------------------------------------------
// Thread rows of the state database
// ---------------------------------------------------------------------------

/// A value read from a SQLite column.
#[derive(Debug, Clone, PartialEq)]
pub enum SqlValue {
    Null,
    Integer(i64),
    /// A floating-point value, held as the text Rust displays for it (`f64::to_string`).
    Real(String),
    Text(String),
    Blob(Vec<u8>),
}

/// The text a column value stands for: text as it is, integers and reals as Rust displays
/// them; nothing for `NULL` and blobs.
pub open spec fn sql_text_of(v: SqlValue) -> Option<Seq<char>> {
    match v {
        SqlValue::Text(t) => Some(t@),
        SqlValue::Integer(n) => Some(int_text(n as int)),
        SqlValue::Real(t) => Some(t@),
        _ => None,
    }
}

/// The integer a column value stands for: an integer, or text that parses as one.
pub open spec fn sql_i64_of(v: SqlValue) -> Option<i64> {
    match v {
        SqlValue::Integer(n) => Some(n),
        SqlValue::Text(t) => parse_i64_spec(t@),
        _ => None,
    }
}

/// The text of a column value.
pub fn sqlite_text_value(value: &SqlValue) -> (r: Option<String>)
    ensures
        match r {
            Some(t) => sql_text_of(*value) == Some(t@),
            None => sql_text_of(*value) is None,
        },
{
    match value {
        SqlValue::Text(t) => Some(t.clone()),
        SqlValue::Integer(n) => Some(render_i64(*n)),
        SqlValue::Real(t) => Some(t.clone()),
        _ => None,
    }
}

/// The integer of a column value.
pub fn sqlite_i64_value(value: &SqlValue) -> (r: Option<i64>)
    ensures
        r == sql_i64_of(*value),
{
    match value {
        SqlValue::Integer(n) => Some(*n),
        SqlValue::Text(t) => parse_i64(t.as_str()),
        _ => None,
    }
}

/// A SQL identifier in double quotes, inner quotes doubled.
pub open spec fn quoted_identifier(v: Seq<char>) -> Seq<char> {
    seq!['"'] + replace_char(v, '"', "\"\""@) + seq!['"']
}

/// Quotes a column name for use in SQL.
pub fn quote_sqlite_identifier(value: &str) -> (r: String)
    ensures
        r@ == quoted_identifier(value@),
{
    let inner = str_replace_char(value, '"', "\"\"");
    let opened = concatenate("\"", inner.as_str());
    proof {
        reveal_strlit("\"");
    }
    concatenate(opened.as_str(), "\"")
}

/// The names of `source` that `target` has too, in the order of `source`.
pub open spec fn common_columns(source: Seq<Seq<char>>, target: Seq<Seq<char>>) -> Seq<Seq<char>>
    decreases source.len(),
{
    if source.len() == 0 {
        Seq::empty()
    } else if target.contains(source.last()) {
        common_columns(source.drop_last(), target).push(source.last())
    } else {
        common_columns(source.drop_last(), target)
    }
}

/// The columns of the instance's `threads` table that the default home's table has too.
pub fn common_thread_columns(source: &Vec<String>, target: &Vec<String>) -> (r: Vec<String>)
    ensures
        views(r@) == common_columns(views(source@), views(target@)),
{
    let mut r: Vec<String> = Vec::new();
    let mut i: usize = 0;
    while i < source.len()
        invariant
            i <= source.len(),
            views(r@) == common_columns(views(source@.take(i as int)), views(target@)),
        decreases source.len() - i,
    {
        let ghost taken = views(source@.take(i + 1));
        assert(taken.drop_last() =~= views(source@.take(i as int)));
        assert(taken.last() == source@[i as int]@);
        if ids_contain(target, source[i].as_str()) {
            let ghost before = r@;
            let item = source[i].clone();
            assert(item@ == source@[i as int]@);
            r.push(item);
            assert(views(r@) =~= views(before).push(item@));
        }
        i = i + 1;
    }
    assert(source@.take(source@.len() as int) =~= source@);
    r
}

/// `p` is the first position of `name` among `columns`.
pub open spec fn is_first_position(columns: Seq<Seq<char>>, name: Seq<char>, p: int) -> bool {
    &&& 0 <= p < columns.len()
    &&& columns[p] == name
    &&& forall|j: int| 0 <= j < p ==> columns[j] != name
}

/// The first position of `name` among `columns`, if it is there.
pub open spec fn column_index(columns: Seq<Seq<char>>, name: Seq<char>) -> Option<int> {
    if columns.contains(name) {
        Some(choose|p: int| is_first_position(columns, name, p))
    } else {
        None
    }
}

/// The first position of a column name, as `iter().position(..)`.
pub fn column_position(columns: &Vec<String>, name: &str) -> (r: Option<usize>)
    ensures
        match r {
            Some(p) => p < columns@.len() && column_index(views(columns@), name@) == Some(p as int),
            None => column_index(views(columns@), name@) is None,
        },
{
    let ghost cols = views(columns@);
    let mut i: usize = 0;
    while i < columns.len()
        invariant
            i <= columns.len(),
            cols == views(columns@),
            forall|j: int| 0 <= j < i ==> cols[j] != name@,
        decreases columns.len() - i,
    {
        if str_eq(columns[i].as_str(), name) {
            assert(is_first_position(cols, name@, i as int));
            assert(cols.contains(name@)) by {
                assert(cols[i as int] == name@);
            }
            let ghost c = choose|p: int| is_first_position(cols, name@, p);
            assert(c == i) by {
                if c < i {
                } else if c > i {
                    assert(cols[i as int] == name@);
                }
            }
            return Some(i);
        }
        i = i + 1;
    }
    None
}

/// The quoted names joined by commas.
pub open spec fn column_list(columns: Seq<Seq<char>>) -> Seq<char> {
    join(columns.map_values(|c: Seq<char>| quoted_identifier(c)), ", "@)
}

fn quoted_column_list(columns: &Vec<String>) -> (r: String)
    ensures
        r@ == column_list(views(columns@)),
{
    let mut quoted: Vec<String> = Vec::new();
    let mut i: usize = 0;
    while i < columns.len()
        invariant
            i <= columns.len(),
            views(quoted@) == views(columns@.take(i as int)).map_values(
                |c: Seq<char>| quoted_identifier(c),
            ),
        decreases columns.len() - i,
    {
        let ghost before = quoted@;
        let q = quote_sqlite_identifier(columns[i].as_str());
        quoted.push(q);
        assert(views(quoted@) =~= views(before).push(q@));
        assert(views(columns@.take(i + 1)).map_values(|c: Seq<char>| quoted_identifier(c))
            =~= views(columns@.take(i as int)).map_values(|c: Seq<char>| quoted_identifier(c)).push(
            quoted_identifier(columns@[i as int]@),
        ));
        i = i + 1;
    }
    assert(columns@.take(columns@.len() as int) =~= columns@);
    join_strings(&quoted, ", ")
}

/// The query that reads the shared columns of every thread row.
pub open spec fn select_threads_sql_of(columns: Seq<Seq<char>>) -> Seq<char> {
    "SELECT "@ + column_list(columns) + " FROM threads"@
}

/// The statement that writes one thread row, with one placeholder per column.
pub open spec fn insert_thread_sql_of(columns: Seq<Seq<char>>) -> Seq<char> {
    "INSERT OR REPLACE INTO threads ("@ + column_list(columns) + ") VALUES ("@ + join(
        Seq::new(columns.len(), |i: int| "?"@),
        ", "@,
    ) + ")"@
}

/// The query that reads the shared columns of the instance's thread rows.
pub fn select_threads_sql(columns: &Vec<String>) -> (r: String)
    ensures
        r@ == select_threads_sql_of(views(columns@)),
{
    let list = quoted_column_list(columns);
    let head = concatenate("SELECT ", list.as_str());
    concatenate(head.as_str(), " FROM threads")
}

/// The statement that writes a thread row into the default home's database.
pub fn insert_thread_sql(columns: &Vec<String>) -> (r: String)
    ensures
        r@ == insert_thread_sql_of(views(columns@)),
{
    let list = quoted_column_list(columns);
    let mut marks: Vec<String> = Vec::new();
    let mut i: usize = 0;
    while i < columns.len()
        invariant
            i <= columns.len(),
            views(marks@) == Seq::new(i as nat, |k: int| "?"@),
        decreases columns.len() - i,
    {
        let ghost before = marks@;
        let q = owned("?");
        marks.push(q);
        assert(views(marks@) =~= views(before).push("?"@));
        assert(Seq::new((i + 1) as nat, |k: int| "?"@) =~= Seq::new(i as nat, |k: int| "?"@).push(
            "?"@,
        ));
        i = i + 1;
    }
    let placeholders = join_strings(&marks, ", ");
    let a = concatenate("INSERT OR REPLACE INTO threads (", list.as_str());
    let b = concatenate(a.as_str(), ") VALUES (");
    let c = concatenate(b.as_str(), placeholders.as_str());
    concatenate(c.as_str(), ")")
}

/// The thread source that marks a shared-chat projection in the state database.
pub open spec fn shared_chat_thread_source() -> Seq<char> {
    "cockpit_shared_foreign"@
}

/// The id of a thread row and when it was updated, when the row is to be considered for the
/// merge: it has a text id, the instance's index does not mark it as a shared-chat projection,
/// and its thread source is not the shared-chat one. A missing or unreadable update time is 0.
pub open spec fn merge_candidate(
    columns: Seq<Seq<char>>,
    values: Seq<SqlValue>,
    index: Seq<IndexEntryView>,
) -> Option<(Seq<char>, i64)> {
    match column_index(columns, "id"@) {
        None => None,
        Some(p) => match sql_text_of(values[p]) {
            None => None,
            Some(id) => if has_id(index, id) && index[id_position(index, id)].materialized {
                None
            } else if (match column_index(columns, "thread_source"@) {
                Some(q) => sql_text_of(values[q]) == Some(shared_chat_thread_source()),
                None => false,
            }) {
                None
            } else {
                Some(
                    (
                        id,
                        match column_index(columns, "updated_at"@) {
                            Some(u) => match sql_i64_of(values[u]) {
                                Some(v) => v,
                                None => 0,
                            },
                            None => 0,
                        },
                    ),
                )
            },
        },
    }
}

/// Decides whether a thread row of the instance is considered for the merge, and returns its id
/// and update time when it is.
pub fn thread_row_merge_candidate(
    columns: &Vec<String>,
    values: &Vec<SqlValue>,
    index: &SessionIndex,
) -> (r: Option<(String, i64)>)
    requires
        values@.len() == columns@.len(),
        distinct_ids(index@),
    ensures
        match r {
            Some((id, at)) => merge_candidate(views(columns@), values@, index@) == Some((id@, at)),
            None => merge_candidate(views(columns@), values@, index@) is None,
        },
{
    let p = match column_position(columns, "id") {
        Some(p) => p,
        None => {
            return None;
        },
    };
    let id = match sqlite_text_value(&values[p]) {
        Some(id) => id,
        None => {
            return None;
        },
    };
    match find_entry(&index.entries, id.as_str()) {
        Some(k) => {
            proof {
                lemma_position_unique(index@, id@, k as int);
            }
            if index.entries[k].materialized {
                return None;
            }
        },
        None => {
            assert(!has_id(index@, id@));
        },
    }
    let foreign = match column_position(columns, "thread_source") {
        Some(q) => match sqlite_text_value(&values[q]) {
            Some(t) => str_eq(t.as_str(), "cockpit_shared_foreign"),
            None => false,
        },
        None => false,
    };
    if foreign {
        return None;
    }
    let updated_at = match column_position(columns, "updated_at") {
        Some(u) => match sqlite_i64_value(&values[u]) {
            Some(v) => v,
            None => 0,
        },
        None => 0,
    };
    Some((id, updated_at))
}

// ---------------------------------------------------------------------------
// Rollout paths of merged thread rows
// ---------------------------------------------------------------------------

/// What `path_strip_prefix` returns for `value` and `base`.
pub uninterp spec fn path_strip_prefix_of(value: Seq<char>, base: Seq<char>) -> Option<Seq<char>>;

/// What `path_join` returns for `base` and `relative`.
pub uninterp spec fn path_join_of(base: Seq<char>, relative: Seq<char>) -> Seq<char>;

/// `std::path::Path::strip_prefix`, the remainder printed with `to_string_lossy`: what is left of
/// `value` after the leading path components of `base`, or `None` when `base` is not a prefix of
/// `value` component by component (so `/px/a` is not under `/p`). What counts as a component
/// (separators, drive and UNC prefixes, `.` components) is the path grammar of the target the
/// library is built for; within a build the result depends on the two strings alone, and the
/// name `path_strip_prefix_of` stands for it.
#[verifier::external_body]
fn path_strip_prefix(value: &str, base: &str) -> (r: Option<String>)
    ensures
        match r {
            Some(rest) => path_strip_prefix_of(value@, base@) == Some(rest@),
            None => path_strip_prefix_of(value@, base@) is None,
        },
{
    match std::path::Path::new(value).strip_prefix(base) {
        Ok(rest) => Some(rest.to_string_lossy().into_owned()),
        Err(_) => None,
    }
}

/// `std::path::Path::join`, printed with `to_string_lossy`: `relative` appended to `base` after
/// the target's separator (or in place of `base` when the target deems `relative` absolute).
/// Within a build the result depends on the two strings alone; the name `path_join_of` stands
/// for it.
#[verifier::external_body]
fn path_join(base: &str, relative: &str) -> (r: String)
    ensures
        r@ == path_join_of(base@, relative@),
{
    std::path::Path::new(base).join(relative).to_string_lossy().into_owned()
}

/// The rollout path `value` moved from the profile directory `profile_dir` to the default home
/// `home`: the part under the profile directory joined onto the default home, or `value` itself
/// when it does not lie under the profile directory.
pub open spec fn rewritten_history_path_of(
    profile_dir: Seq<char>,
    home: Seq<char>,
    value: Seq<char>,
) -> Seq<char> {
    match path_strip_prefix_of(value, profile_dir) {
        Some(rest) => path_join_of(home, rest),
        None => value,
    }
}

/// The rollout path a row carries in the default home: the path joined onto the default home
/// when the value lies under the instance's profile directory, the value itself otherwise.
pub open spec fn history_path_of(value: Seq<char>, joined: Option<String>) -> Seq<char> {
    match joined {
        Some(j) => j@,
        None => value,
    }
}

/// Chooses the rollout path from what the path calls found: `joined` is the default home joined
/// with the part of `value` under the profile directory, `None` when `value` is not under it.
pub fn history_path_from(value: &str, joined: Option<String>) -> (r: String)
    ensures
        r@ == history_path_of(value@, joined),
{
    match joined {
        Some(j) => j,
        None => owned(value),
    }
}

/// The rollout path of a merged thread row, moved from the instance's profile directory to the
/// default home: a value under the profile directory gets the default home in its place; any
/// other value comes back as it is.
pub fn rewrite_instance_history_path_to_default(
    profile_dir: &str,
    default_codex_home: &str,
    value: &str,
) -> (r: String)
    ensures
        r@ == rewritten_history_path_of(profile_dir@, default_codex_home@, value@),
{
    let joined = match path_strip_prefix(value, profile_dir) {
        Some(relative) => Some(path_join(default_codex_home, relative.as_str())),
        None => None,
    };
    history_path_from(value, joined)
}

/// The text of the `rollout_path` column of a thread row, when the row has that column and its
/// value has a text.
pub open spec fn rollout_text_of(columns: Seq<Seq<char>>, values: Seq<SqlValue>) -> Option<
    Seq<char>,
> {
    match column_index(columns, "rollout_path"@) {
        Some(p) => sql_text_of(values[p]),
        None => None,
    }
}

/// The text of a thread row's `rollout_path` column.
pub fn rollout_path_text(columns: &Vec<String>, values: &Vec<SqlValue>) -> (r: Option<String>)
    requires
        values@.len() == columns@.len(),
    ensures
        match r {
            Some(t) => rollout_text_of(views(columns@), values@) == Some(t@),
            None => rollout_text_of(views(columns@), values@) is None,
        },
{
    match column_position(columns, "rollout_path") {
        Some(p) => sqlite_text_value(&values[p]),
        None => None,
    }
}

/// The row written into the default home: the instance's row with its `rollout_path` replaced
/// by the rewritten text, when the row has a rollout path; the row as it is otherwise.
pub open spec fn row_to_insert(
    columns: Seq<Seq<char>>,
    values: Seq<SqlValue>,
    rewritten: Option<String>,
) -> Seq<SqlValue> {
    match (column_index(columns, "rollout_path"@), rewritten) {
        (Some(p), Some(t)) => if sql_text_of(values[p]) is Some {
            values.update(p, SqlValue::Text(t))
        } else {
            values
        },
        _ => values,
    }
}

/// Puts the rewritten rollout path into a thread row before it is written into the default home.
pub fn thread_row_to_insert(columns: &Vec<String>, values: Vec<SqlValue>, rewritten: Option<String>) -> (r:
    Vec<SqlValue>)
    requires
        values@.len() == columns@.len(),
    ensures
        r@ == row_to_insert(views(columns@), values@, rewritten),
{
    let mut values = values;
    match column_position(columns, "rollout_path") {
        Some(p) => match rewritten {
            Some(t) => {
                let has_text = match sqlite_text_value(&values[p]) {
                    Some(_) => true,
                    None => false,
                };
                if has_text {
                    values.set(p, SqlValue::Text(t));
                }
                values
            },
            None => values,
        },
        None => values,
    }
}

/// `row` is the instance's thread row `values` as written into the default home: the same
/// values, except that a text `rollout_path` is moved from the profile directory to the default
/// home.
pub open spec fn row_moved_to_default(
    columns: Seq<Seq<char>>,
    values: Seq<SqlValue>,
    profile_dir: Seq<char>,
    home: Seq<char>,
    row: Seq<SqlValue>,
) -> bool {
    match (column_index(columns, "rollout_path"@), rollout_text_of(columns, values)) {
        (Some(p), Some(t)) => {
            &&& row.len() == values.len()
            &&& forall|i: int| 0 <= i < values.len() && i != p ==> row[i] == values[i]
            &&& row[p] matches SqlValue::Text(s) && s@ == rewritten_history_path_of(profile_dir, home, t)
        },
        _ => row == values,
    }
}

/// A name that occurs among the columns has a first position.
proof fn lemma_first_position_exists(columns: Seq<Seq<char>>, name: Seq<char>, k: int)
    requires
        0 <= k < columns.len(),
        columns[k] == name,
    ensures
        exists|p: int| is_first_position(columns, name, p),
    decreases k,
{
    if exists|j: int| 0 <= j < k && columns[j] == name {
        let j = choose|j: int| 0 <= j < k && columns[j] == name;
        lemma_first_position_exists(columns, name, j);
    } else {
        assert(is_first_position(columns, name, k));
    }
}

/// The row of the instance written into the default home, its rollout path moved from the
/// profile directory to the default home.
pub fn merged_thread_row(
    columns: &Vec<String>,
    values: Vec<SqlValue>,
    profile_dir: &str,
    default_codex_home: &str,
) -> (r: Vec<SqlValue>)
    requires
        values@.len() == columns@.len(),
    ensures
        row_moved_to_default(views(columns@), values@, profile_dir@, default_codex_home@, r@),
{
    let rewritten = match rollout_path_text(columns, &values) {
        Some(text) => Some(
            rewrite_instance_history_path_to_default(profile_dir, default_codex_home, text.as_str()),
        ),
        None => None,
    };
    let ghost before = values@;
    let ghost chosen = rewritten;
    let r = thread_row_to_insert(columns, values, rewritten);
    proof {
        let cols = views(columns@);
        if let Some(p) = column_index(cols, "rollout_path"@) {
            if let Some(t) = rollout_text_of(cols, before) {
                let k = choose|k: int| 0 <= k < cols.len() && cols[k] == "rollout_path"@;
                lemma_first_position_exists(cols, "rollout_path"@, k);
                assert(0 <= p < before.len());
                assert(chosen is Some);
                assert(r@ == before.update(p, SqlValue::Text(chosen->0)));
            }
        }
    }
    r
}

/// Whether the default home already holds a row for the thread at least as recent as the
/// instance's (a missing row or a missing time is not).
pub fn target_row_is_current(target_updated_at: Option<i64>, source_updated_at: i64) -> (r: bool)
    ensures
        r == (target_updated_at matches Some(t) && t >= source_updated_at),
{
    match target_updated_at {
        Some(t) => t >= source_updated_at,
        None => false,
    }
}

// ---------------------------------------------------------------------------
// Backups of isolated history files
// ---------------------------------------------------------------------------

/// The record kept beside a backed-up history file: when and why it was taken, which file of
/// the profile it is, and the instance's and the default home's paths of it, as a pretty-printed
/// JSON object followed by a newline.
pub open spec fn backup_record_of(
    created_at: Seq<char>,
    reason: Seq<char>,
    relative_path: Seq<char>,
    instance_path: Seq<char>,
    default_path: Seq<char>,
) -> Seq<char> {
    json_pretty_string_object_of(
        seq![
            ("created_at"@, created_at),
            ("reason"@, reason),
            ("relative_path"@, relative_path),
            ("instance_path"@, instance_path),
            ("default_path"@, default_path),
        ],
    ) + "\n"@
}

/// The record written beside a backed-up history file.
pub fn backup_record(
    created_at: &str,
    reason: &str,
    relative_path: &str,
    instance_path: &str,
    default_path: &str,
) -> (r: String)
    ensures
        r@ == backup_record_of(created_at@, reason@, relative_path@, instance_path@, default_path@),
{
    let mut entries: Vec<(String, String)> = Vec::new();
    entries.push((owned("created_at"), owned(created_at)));
    entries.push((owned("reason"), owned(reason)));
    entries.push((owned("relative_path"), owned(relative_path)));
    entries.push((owned("instance_path"), owned(instance_path)));
    entries.push((owned("default_path"), owned(default_path)));
    assert(pair_views(entries@) =~= seq![
        ("created_at"@, created_at@),
        ("reason"@, reason@),
        ("relative_path"@, relative_path@),
        ("instance_path"@, instance_path@),
        ("default_path"@, default_path@),
    ]);
    let text = json_pretty_string_object(&entries);
    concatenate(text.as_str(), "\n")
}

// ---------------------------------------------------------------------------
// The threads table
// ---------------------------------------------------------------------------

/// The error of a state database without a `threads` table.
pub open spec fn threads_missing_message() -> Seq<char> {
    "threads table is missing"@
}

/// The columns of a `threads` table as the schema lists them; a database whose schema lists none
/// has no such table.
pub fn thread_columns_found(columns: Vec<String>) -> (r: Result<Vec<String>, String>)
    ensures
        columns@.len() == 0 ==> (r matches Err(e) && e@ == threads_missing_message()),
        columns@.len() > 0 ==> r == Ok::<Vec<String>, String>(columns),
{
    if columns.len() == 0 {
        Err(owned("threads table is missing"))
    } else {
        Ok(columns)
    }
}

// ---------------------------------------------------------------------------
// Laws of the thread-row merge
// ---------------------------------------------------------------------------

/// The first position of a column name is the one `column_index` finds.
pub proof fn lemma_first_position_is_column_index(columns: Seq<Seq<char>>, name: Seq<char>, u: int)
    requires
        is_first_position(columns, name, u),
    ensures
        column_index(columns, name) == Some(u),
{
    assert(columns.contains(name)) by {
        assert(columns[u] == name);
    }
    let q = choose|q: int| is_first_position(columns, name, q);
    lemma_first_position_exists(columns, name, u);
    assert(is_first_position(columns, name, q));
    if q < u {
        assert(columns[q] == name);
    } else if q > u {
        assert(columns[u] == name);
    }
}

/// The thread-source column, where the row has one, does not mark the row as a shared chat:
/// it is `NULL` or a text other than `cockpit_shared_foreign`.
pub open spec fn thread_source_clear(columns: Seq<Seq<char>>, values: Seq<SqlValue>) -> bool {
    forall|q: int|
        #[trigger] is_first_position(columns, "thread_source"@, q) ==> (values[q] is Null
            || (values[q] matches SqlValue::Text(t) && t@ != "cockpit_shared_foreign"@))
}

/// A row with a text id that the instance's index does not mark as a shared-chat projection,
/// whose thread source is clear and whose `updated_at` holds the integer `n`, is a merge
/// candidate with that id and the update time `n`.
pub proof fn lemma_candidate_takes_row_time(
    columns: Seq<Seq<char>>,
    values: Seq<SqlValue>,
    index: Seq<IndexEntryView>,
    p: int,
    id: String,
    u: int,
    n: i64,
)
    requires
        values.len() == columns.len(),
        is_first_position(columns, "id"@, p),
        values[p] == SqlValue::Text(id),
        !(has_id(index, id@) && index[id_position(index, id@)].materialized),
        thread_source_clear(columns, values),
        is_first_position(columns, "updated_at"@, u),
        values[u] == SqlValue::Integer(n),
    ensures
        merge_candidate(columns, values, index) == Some((id@, n)),
{
    lemma_first_position_is_column_index(columns, "id"@, p);
    lemma_first_position_is_column_index(columns, "updated_at"@, u);
    if columns.contains("thread_source"@) {
        let k = choose|k: int| 0 <= k < columns.len() && columns[k] == "thread_source"@;
        lemma_first_position_exists(columns, "thread_source"@, k);
        let q = choose|q: int| is_first_position(columns, "thread_source"@, q);
        lemma_first_position_is_column_index(columns, "thread_source"@, q);
        assert(values[q] is Null || (values[q] matches SqlValue::Text(t) && t@
            != "cockpit_shared_foreign"@));
    }
}

/// Whatever else the row holds, a merge candidate's update time is the integer its
/// `updated_at` column holds.
pub proof fn lemma_candidate_time_is_updated_at(
    columns: Seq<Seq<char>>,
    values: Seq<SqlValue>,
    index: Seq<IndexEntryView>,
    u: int,
    n: i64,
)
    requires
        values.len() == columns.len(),
        is_first_position(columns, "updated_at"@, u),
        values[u] == SqlValue::Integer(n),
        merge_candidate(columns, values, index) is Some,
    ensures
        merge_candidate(columns, values, index) matches Some((_, at)) && at == n,
{
    lemma_first_position_is_column_index(columns, "updated_at"@, u);
}

/// A row the instance's index marks as a shared-chat projection is never a merge candidate.
pub proof fn lemma_candidate_skips_projection(
    columns: Seq<Seq<char>>,
    values: Seq<SqlValue>,
    index: Seq<IndexEntryView>,
    p: int,
    id: String,
)
    requires
        values.len() == columns.len(),
        is_first_position(columns, "id"@, p),
        values[p] == SqlValue::Text(id),
        has_id(index, id@),
        index[id_position(index, id@)].materialized,
    ensures
        merge_candidate(columns, values, index) is None,
{
    lemma_first_position_is_column_index(columns, "id"@, p);
}

/// A row whose thread source is `cockpit_shared_foreign` is never a merge candidate.
pub proof fn lemma_candidate_skips_foreign(
    columns: Seq<Seq<char>>,
    values: Seq<SqlValue>,
    index: Seq<IndexEntryView>,
    q: int,
    source: String,
)
    requires
        values.len() == columns.len(),
        is_first_position(columns, "thread_source"@, q),
        values[q] == SqlValue::Text(source),
        source@ == "cockpit_shared_foreign"@,
    ensures
        merge_candidate(columns, values, index) is None,
{
    lemma_first_position_is_column_index(columns, "thread_source"@, q);
}

// ---------------------------------------------------------------------------
// Laws of the session index
// ---------------------------------------------------------------------------

/// A session index line with a non-blank string `id` stands for an entry with that id trimmed,
/// marked as a shared-chat projection exactly when it has a `cockpit_shared_chat` member, and
/// updated at its integer `updated_at` (or `updatedAt` when there is no `updated_at`); a line
/// that is blank, or has no string `id`, or a blank one, stands for none.
pub proof fn lemma_index_line_entry(raw: Seq<char>, n: i64)
    ensures
        trim(raw).len() == 0 ==> index_line_entry(raw) is None,
        json_member_str_of(trim(raw), "id"@) is None ==> index_line_entry(raw) is None,
        (json_member_str_of(trim(raw), "id"@) is Some && is_blank(json_member_str_of(trim(raw), "id"@)->0))
            ==> index_line_entry(raw) is None,
        (trim(raw).len() > 0 && json_member_str_of(trim(raw), "id"@) is Some && !is_blank(
            json_member_str_of(trim(raw), "id"@)->0,
        )) ==> (index_line_entry(raw) matches Some(e) && e.id == trim(
            json_member_str_of(trim(raw), "id"@)->0,
        ) && e.materialized == json_has_member_of(trim(raw), "cockpit_shared_chat"@) && e.line
            == json_compact_of(trim(raw))),
        (index_line_entry(raw) is Some && json_has_member_of(trim(raw), "updated_at"@)
            && json_member_i64_of(trim(raw), "updated_at"@) == Some(n)) ==> index_line_entry(raw)->0.updated_at
            == n,
        (index_line_entry(raw) is Some && !json_has_member_of(trim(raw), "updated_at"@)
            && json_member_i64_of(trim(raw), "updatedAt"@) == Some(n)) ==> index_line_entry(raw)->0.updated_at
            == n,
{
}

/// No entry whose id is listed survives the removal, and every entry whose id is not listed
/// does, in its order.
pub proof fn lemma_without_ids(s: Seq<IndexEntryView>, ids: Seq<Seq<char>>)
    ensures
        forall|i: int| 0 <= i < without_ids(s, ids).len() ==> !ids.contains(#[trigger] without_ids(s, ids)[i].id),
        forall|i: int| 0 <= i < s.len() && !ids.contains(#[trigger] s[i].id) ==> without_ids(s, ids).contains(s[i]),
        forall|i: int| 0 <= i < without_ids(s, ids).len() ==> s.contains(#[trigger] without_ids(s, ids)[i]),
    decreases s.len(),
{
    if s.len() > 0 {
        let t = s.drop_last();
        lemma_without_ids(t, ids);
        let w = without_ids(t, ids);
        let r = without_ids(s, ids);
        assert forall|i: int| 0 <= i < r.len() implies !ids.contains(#[trigger] r[i].id) && s.contains(r[i]) by {
            if i < w.len() {
                assert(r[i] == w[i]);
                assert(t.contains(w[i]));
                let k = choose|k: int| 0 <= k < t.len() && t[k] == w[i];
                assert(s[k] == t[k]);
            } else {
                assert(r[i] == s.last());
                assert(s[s.len() - 1] == s.last());
            }
        }
        assert forall|i: int| 0 <= i < s.len() && !ids.contains(#[trigger] s[i].id) implies r.contains(s[i]) by {
            if i < s.len() - 1 {
                assert(t[i] == s[i]);
                let k = choose|k: int| 0 <= k < w.len() && w[k] == t[i];
                assert(r[k] == w[k]);
            } else {
                assert(r[r.len() - 1] == s[i]);
            }
        }
    }
}

/// Every id of an entry marked as a shared-chat projection is among the projection ids.
pub proof fn lemma_materialized_ids_cover(s: Seq<IndexEntryView>)
    ensures
        forall|i: int| 0 <= i < s.len() && (#[trigger] s[i]).materialized ==> materialized_ids(s).contains(s[i].id),
    decreases s.len(),
{
    if s.len() > 0 {
        let t = s.drop_last();
        lemma_materialized_ids_cover(t);
        let m = materialized_ids(t);
        assert forall|i: int| 0 <= i < s.len() && (#[trigger] s[i]).materialized implies materialized_ids(
            s,
        ).contains(s[i].id) by {
            if i < s.len() - 1 {
                assert(t[i] == s[i]);
                let k = choose|k: int| 0 <= k < m.len() && m[k] == t[i].id;
                if s.last().materialized {
                    assert(materialized_ids(s)[k] == m[k]);
                }
            } else {
                assert(materialized_ids(s)[m.len() as int] == s[i].id);
            }
        }
    }
}

/// After pruning, the default home's index holds no shared-chat projection and no thread the
/// state database marks as one, and keeps every other entry.
pub proof fn lemma_pruned_index_has_no_projection(s: Seq<IndexEntryView>, db_ids: Seq<Seq<char>>)
    ensures
        ({
            let ids = materialized_ids(s) + db_ids;
            let kept = without_ids(s, ids);
            &&& forall|i: int| 0 <= i < kept.len() ==> !(#[trigger] kept[i]).materialized
            &&& forall|i: int| 0 <= i < kept.len() ==> !db_ids.contains(#[trigger] kept[i].id)
            &&& forall|i: int| 0 <= i < s.len() && !ids.contains(#[trigger] s[i].id) ==> kept.contains(s[i])
        }),
{
    let ids = materialized_ids(s) + db_ids;
    let kept = without_ids(s, ids);
    lemma_without_ids(s, ids);
    lemma_materialized_ids_cover(s);
    assert forall|i: int| 0 <= i < kept.len() implies !(#[trigger] kept[i]).materialized && !db_ids.contains(
        kept[i].id,
    ) by {
        assert(!ids.contains(kept[i].id));
        assert(s.contains(kept[i]));
        let k = choose|k: int| 0 <= k < s.len() && s[k] == kept[i];
        if kept[i].materialized {
            assert(materialized_ids(s).contains(s[k].id));
            let j = choose|j: int| 0 <= j < materialized_ids(s).len() && materialized_ids(s)[j] == s[k].id;
            assert(ids[j] == s[k].id);
        }
        if db_ids.contains(kept[i].id) {
            let j = choose|j: int| 0 <= j < db_ids.len() && db_ids[j] == kept[i].id;
            assert(ids[materialized_ids(s).len() + j] == kept[i].id);
        }
    }
}

/// The columns both tables share: every one of them is a column of the instance's table and of
/// the default home's, and every column of the instance's table that the default home's table
/// has is among them.
pub proof fn lemma_common_columns(source: Seq<Seq<char>>, target: Seq<Seq<char>>)
    ensures
        forall|i: int|
            0 <= i < common_columns(source, target).len() ==> source.contains(
                #[trigger] common_columns(source, target)[i],
            ) && target.contains(common_columns(source, target)[i]),
        forall|i: int|
            0 <= i < source.len() && target.contains(#[trigger] source[i]) ==> common_columns(
                source,
                target,
            ).contains(source[i]),
    decreases source.len(),
{
    if source.len() > 0 {
        let t = source.drop_last();
        lemma_common_columns(t, target);
        let w = common_columns(t, target);
        let r = common_columns(source, target);
        assert forall|i: int| 0 <= i < r.len() implies source.contains(#[trigger] r[i]) && target.contains(
            r[i],
        ) by {
            if i < w.len() {
                assert(r[i] == w[i]);
                let k = choose|k: int| 0 <= k < t.len() && t[k] == w[i];
                assert(source[k] == t[k]);
            } else {
                assert(r[i] == source.last());
                assert(source[source.len() - 1] == source.last());
            }
        }
        assert forall|i: int| 0 <= i < source.len() && target.contains(#[trigger] source[i]) implies r.contains(
            source[i],
        ) by {
            if i < source.len() - 1 {
                assert(t[i] == source[i]);
                let k = choose|k: int| 0 <= k < w.len() && w[k] == t[i];
                assert(r[k] == w[k]);
            } else {
                assert(r[r.len() - 1] == source[i]);
            }
        }
    }
}

/// An entry inserted or replaced is the new one; every other entry was there before.
proof fn lemma_upsert_entries(s: Seq<IndexEntryView>, e: IndexEntryView)
    ensures
        forall|i: int| 0 <= i < upsert(s, e).len() ==> (#[trigger] upsert(s, e)[i] == e || s.contains(
            upsert(s, e)[i],
        )),
{
    let u = upsert(s, e);
    assert forall|i: int| 0 <= i < u.len() implies (#[trigger] u[i] == e || s.contains(u[i])) by {
        if u[i] != e {
            assert(s[i] == u[i]);
        }
    }
}

/// A merge brings in nothing but source entries that are not shared-chat projections: every
/// entry of the merged index was in the default home's index or is such a source entry.
pub proof fn lemma_merge_index_takes_no_projection(t: Seq<IndexEntryView>, s: Seq<IndexEntryView>)
    ensures
        forall|i: int|
            0 <= i < merge_index(t, s).len() ==> t.contains(#[trigger] merge_index(t, s)[i]) || exists|k: int|
                0 <= k < s.len() && s[k] == merge_index(t, s)[i] && !s[k].materialized,
    decreases s.len(),
{
    if s.len() > 0 {
        let d = s.drop_last();
        lemma_merge_index_takes_no_projection(t, d);
        let m = merge_index(t, d);
        let r = merge_index(t, s);
        if should_take(m, s.last()) {
            lemma_upsert_entries(m, s.last());
        }
        assert forall|i: int| 0 <= i < r.len() implies t.contains(#[trigger] r[i]) || exists|k: int|
            0 <= k < s.len() && s[k] == r[i] && !s[k].materialized by {
            if should_take(m, s.last()) && r[i] == s.last() {
                assert(s[s.len() - 1] == s.last());
            } else {
                assert(m.contains(r[i]));
                let j = choose|j: int| 0 <= j < m.len() && m[j] == r[i];
                if !t.contains(m[j]) {
                    let k = choose|k: int| 0 <= k < d.len() && d[k] == m[j] && !d[k].materialized;
                    assert(s[k] == d[k]);
                }
            }
        }
    }
}

/// A session index file ends with a newline, after the line of its last entry; an index of one
/// entry is that entry's line and a newline.
pub proof fn lemma_session_index_text_lines(s: Seq<IndexEntryView>)
    ensures
        session_index_text(s).len() >= 1,
        session_index_text(s).last() == '\n',
        s.len() == 1 ==> session_index_text(s) == s[0].line + "\n"@,
{
    reveal_strlit("\n");
    if s.len() == 1 {
        assert(s.map_values(|e: IndexEntryView| e.line)[0] == s[0].line);
    }
}

} // verus!

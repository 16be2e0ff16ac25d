//! The session book of the task API: sessions group task ids under a title.
//!
//! Each session keeps its task ids newest first, without repeats. The store
//! behaves as a map from session id to session; listing gives every session
//! once, most recently updated first.

use vstd::prelude::*;
use crate::error::ToolError;
use crate::ids::{
    is_uuid_v4_text, lemma_renumbered, lemma_usize_below_pow16, new_uuid_text, now_ts, pow16, renumber_uuid,
    renumbered,
};
use crate::text::{str_eq, trim, trimmed};

verus! {

/// A session as the API hands it out.
#[derive(Debug)]
pub struct Session {
    pub id: String,
    pub title: String,
    /// The ids of the session's tasks, the latest attached first.
    pub task_ids: Vec<String>,
    /// Seconds since the Unix epoch at creation.
    pub created_at: i64,
    /// Seconds since the Unix epoch at the last change.
    pub updated_at: i64,
}

/// What a session holds, as plain values.
pub struct SessionView {
    pub id: Seq<char>,
    pub title: Seq<char>,
    pub task_ids: Seq<Seq<char>>,
    pub created_at: i64,
    pub updated_at: i64,
}

/// The characters of each string in `v`.
pub open spec fn strings_view(v: Seq<String>) -> Seq<Seq<char>> {
    v.map_values(|s: String| s@)
}

impl View for Session {
    type V = SessionView;

    open spec fn view(&self) -> SessionView {
        SessionView {
            id: self.id@,
            title: self.title@,
            task_ids: strings_view(self.task_ids@),
            created_at: self.created_at,
            updated_at: self.updated_at,
        }
    }
}

/// The title a session gets when none, or only white space, is given.
pub open spec fn default_title() -> Seq<char> {
    "新会话"@
}

/// The title a new session gets from the optional title of the request:
/// the title without surrounding white space, or the default title when
/// that leaves nothing.
pub open spec fn session_title(title: Option<Seq<char>>) -> Seq<char> {
    match title {
        Some(t) => if trimmed(t).len() > 0 { trimmed(t) } else { default_title() },
        None => default_title(),
    }
}

/// The characters of an optional string.
pub open spec fn opt_view(o: Option<String>) -> Option<Seq<char>> {
    match o {
        Some(s) => Some(s@),
        None => None,
    }
}

/// The task ids after attaching `t`: put first, unless it is already there.
pub open spec fn tasks_with(ids: Seq<Seq<char>>, t: Seq<char>) -> Seq<Seq<char>> {
    if ids.contains(t) { ids } else { seq![t] + ids }
}

/// The test that keeps a task id other than `t`.
pub open spec fn differs_from(t: Seq<char>) -> spec_fn(Seq<char>) -> bool {
    |x: Seq<char>| x != t
}

/// The task ids after detaching `t`: every occurrence of it is gone.
pub open spec fn tasks_without(ids: Seq<Seq<char>>, t: Seq<char>) -> Seq<Seq<char>> {
    ids.filter(differs_from(t))
}

/// The session `s` after attaching task `t` at time `now`.
pub open spec fn attached(s: SessionView, t: Seq<char>, now: i64) -> SessionView {
    SessionView { task_ids: tasks_with(s.task_ids, t), updated_at: now, ..s }
}

/// The session `s` after detaching task `t` at time `now`.
pub open spec fn detached(s: SessionView, t: Seq<char>, now: i64) -> SessionView {
    SessionView { task_ids: tasks_without(s.task_ids, t), updated_at: now, ..s }
}

/// The session `s` after renaming it to `title` at time `now`.
pub open spec fn retitled(s: SessionView, title: Seq<char>, now: i64) -> SessionView {
    SessionView { title, updated_at: now, ..s }
}

/// A copy of the strings in `v`.
pub fn copy_strings(v: &Vec<String>) -> (r: Vec<String>)
    ensures
        strings_view(r@) == strings_view(v@),
{
    let mut r: Vec<String> = Vec::new();
    let mut i: usize = 0;
    while i < v.len()
        invariant
            i <= v.len(),
            strings_view(r@) == strings_view(v@).take(i as int),
        decreases v.len() - i,
    {
        r.push(v[i].clone());
        assert(strings_view(v@).take(i + 1) == strings_view(v@).take(i as int).push(v@[i as int]@));
        i = i + 1;
    }
    assert(strings_view(v@).take(v.len() as int) == strings_view(v@));
    r
}

/// A copy of the session `s`.
pub fn copy_session(s: &Session) -> (r: Session)
    ensures
        r@ == s@,
{
    Session {
        id: s.id.clone(),
        title: s.title.clone(),
        task_ids: copy_strings(&s.task_ids),
        created_at: s.created_at,
        updated_at: s.updated_at,
    }
}

/// The title a new session gets from the optional title of the request.
pub fn normalize_title(title: Option<String>) -> (r: String)
    ensures
        r@ == session_title(opt_view(title)),
{
    match title {
        Some(t) => {
            let s = trim(t.as_str());
            if !s.as_str().is_empty() {
                s
            } else {
                String::from_str("新会话")
            }
        },
        None => String::from_str("新会话"),
    }
}

/// Whether `t` is one of the strings in `v`.
pub fn contains_str(v: &Vec<String>, t: &str) -> (r: bool)
    ensures
        r == strings_view(v@).contains(t@),
{
    let mut i: usize = 0;
    while i < v.len()
        invariant
            i <= v.len(),
            forall|k: int| 0 <= k < i ==> strings_view(v@)[k] != t@,
        decreases v.len() - i,
    {
        if str_eq(v[i].as_str(), t) {
            assert(strings_view(v@)[i as int] == t@);
            return true;
        }
        i = i + 1;
    }
    false
}

/// The session `s` with task `task_id` attached at time `now`.
pub fn session_with_task(s: Session, task_id: String, now: i64) -> (r: Session)
    ensures
        r@ == attached(s@, task_id@, now),
{
    let mut s = s;
    if !contains_str(&s.task_ids, task_id.as_str()) {
        let ghost before = s.task_ids@;
        let ghost t = task_id@;
        s.task_ids.insert(0, task_id);
        assert(strings_view(s.task_ids@) == seq![t] + strings_view(before));
    }
    s.updated_at = now;
    s
}

/// The session `s` with task `task_id` detached at time `now`.
pub fn session_without_task(s: Session, task_id: &str, now: i64) -> (r: Session)
    ensures
        r@ == detached(s@, task_id@, now),
{
    let mut kept: Vec<String> = Vec::new();
    let ghost ids = strings_view(s.task_ids@);
    let ghost keep = differs_from(task_id@);
    let mut i: usize = 0;
    while i < s.task_ids.len()
        invariant
            i <= s.task_ids.len(),
            ids == strings_view(s.task_ids@),
            keep == differs_from(task_id@),
            strings_view(kept@) == ids.take(i as int).filter(keep),
        decreases s.task_ids.len() - i,
    {
        proof {
            reveal(Seq::filter);
            assert(ids.take(i + 1).drop_last() == ids.take(i as int));
        }
        if !str_eq(s.task_ids[i].as_str(), task_id) {
            kept.push(s.task_ids[i].clone());
        }
        i = i + 1;
    }
    assert(ids.take(s.task_ids.len() as int) == ids);
    Session {
        id: s.id,
        title: s.title,
        task_ids: kept,
        created_at: s.created_at,
        updated_at: now,
    }
}

/// The session `s` renamed to `title` at time `now`.
pub fn session_with_title(s: Session, title: String, now: i64) -> (r: Session)
    ensures
        r@ == retitled(s@, title@, now),
{
    Session {
        id: s.id,
        title,
        task_ids: s.task_ids,
        created_at: s.created_at,
        updated_at: now,
    }
}

} // verus!

verus! {

/// Whether no two sessions in `e` share an id.
pub open spec fn ids_distinct(e: Seq<SessionView>) -> bool {
    forall|i: int, j: int| 0 <= i < e.len() && 0 <= j < e.len() && i != j ==> #[trigger] e[i].id != #[trigger] e[j].id
}

/// Whether some session in `e` has id `id`.
pub open spec fn has_id(e: Seq<SessionView>, id: Seq<char>) -> bool {
    exists|i: int| 0 <= i < e.len() && #[trigger] e[i].id == id
}

/// The position of a session with id `id` in `e`.
pub open spec fn index_of_id(e: Seq<SessionView>, id: Seq<char>) -> int {
    choose|i: int| 0 <= i < e.len() && #[trigger] e[i].id == id
}

/// The sessions of `e` keyed by id.
pub open spec fn map_of(e: Seq<SessionView>) -> Map<Seq<char>, SessionView> {
    Map::new(|id: Seq<char>| has_id(e, id), |id: Seq<char>| e[index_of_id(e, id)])
}

/// Every session of `e` is found under its id.
proof fn lemma_map_of(e: Seq<SessionView>)
    requires
        ids_distinct(e),
    ensures
        forall|i: int| 0 <= i < e.len() ==> #[trigger] map_of(e).contains_key(e[i].id)
            && map_of(e)[e[i].id] == e[i],
        forall|id: Seq<char>| #[trigger] map_of(e).contains_key(id) <==> has_id(e, id),
{
    assert forall|i: int| 0 <= i < e.len() implies #[trigger] map_of(e).contains_key(e[i].id)
        && map_of(e)[e[i].id] == e[i] by {
        assert(has_id(e, e[i].id));
        let j = index_of_id(e, e[i].id);
        assert(e[j].id == e[i].id);
    }
}

/// Adding a session whose id is new puts it under its id.
proof fn lemma_map_of_push(e: Seq<SessionView>, v: SessionView)
    requires
        ids_distinct(e),
        !has_id(e, v.id),
    ensures
        ids_distinct(e.push(v)),
        map_of(e.push(v)) == map_of(e).insert(v.id, v),
{
    let f = e.push(v);
    assert(ids_distinct(f)) by {
        assert forall|i: int, j: int| 0 <= i < f.len() && 0 <= j < f.len() && i != j
            implies #[trigger] f[i].id != #[trigger] f[j].id by {
            if i == e.len() {
                assert(f[j] == e[j]);
            } else if j == e.len() {
                assert(f[i] == e[i]);
            } else {
                assert(f[i] == e[i] && f[j] == e[j]);
            }
        }
    }
    lemma_map_of(e);
    lemma_map_of(f);
    assert forall|id: Seq<char>| #[trigger] map_of(f).contains_key(id) == map_of(e).insert(v.id, v).contains_key(id) by {
        if has_id(f, id) && id != v.id {
            let i = choose|i: int| 0 <= i < f.len() && #[trigger] f[i].id == id;
            assert(f[i] == e[i]);
        }
        if has_id(e, id) {
            let i = choose|i: int| 0 <= i < e.len() && #[trigger] e[i].id == id;
            assert(f[i] == e[i]);
        }
        if id == v.id {
            assert(f[e.len() as int].id == id);
        }
    }
    assert forall|id: Seq<char>| #[trigger] map_of(f).contains_key(id) implies map_of(f)[id] == map_of(e).insert(v.id, v)[id] by {
        let i = choose|i: int| 0 <= i < f.len() && #[trigger] f[i].id == id;
        if i < e.len() {
            assert(f[i] == e[i]);
        }
    }
    assert(map_of(f) =~= map_of(e).insert(v.id, v));
}

/// Replacing the session at `k` by one with the same id puts it under that id.
proof fn lemma_map_of_update(e: Seq<SessionView>, k: int, v: SessionView)
    requires
        ids_distinct(e),
        0 <= k < e.len(),
        e[k].id == v.id,
    ensures
        ids_distinct(e.update(k, v)),
        map_of(e.update(k, v)) == map_of(e).insert(v.id, v),
{
    let f = e.update(k, v);
    assert(ids_distinct(f)) by {
        assert forall|i: int, j: int| 0 <= i < f.len() && 0 <= j < f.len() && i != j
            implies #[trigger] f[i].id != #[trigger] f[j].id by {
            assert(f[i].id == e[i].id && f[j].id == e[j].id);
        }
    }
    lemma_map_of(e);
    lemma_map_of(f);
    assert forall|id: Seq<char>| #[trigger] map_of(f).contains_key(id) == map_of(e).insert(v.id, v).contains_key(id) by {
        if has_id(f, id) {
            let i = choose|i: int| 0 <= i < f.len() && #[trigger] f[i].id == id;
            assert(e[i].id == id);
        }
        if has_id(e, id) {
            let i = choose|i: int| 0 <= i < e.len() && #[trigger] e[i].id == id;
            assert(f[i].id == id);
        }
    }
    assert forall|id: Seq<char>| #[trigger] map_of(f).contains_key(id) implies map_of(f)[id] == map_of(e).insert(v.id, v)[id] by {
        let i = choose|i: int| 0 <= i < f.len() && #[trigger] f[i].id == id;
        if i != k {
            assert(f[i] == e[i]);
        }
    }
    assert(map_of(f) =~= map_of(e).insert(v.id, v));
}

/// Taking out the session at `k` takes its id out of the map.
proof fn lemma_map_of_remove(e: Seq<SessionView>, k: int)
    requires
        ids_distinct(e),
        0 <= k < e.len(),
    ensures
        ids_distinct(e.remove(k)),
        map_of(e.remove(k)) == map_of(e).remove(e[k].id),
{
    let f = e.remove(k);
    assert forall|i: int| 0 <= i < f.len() implies #[trigger] f[i] == (if i < k { e[i] } else { e[i + 1] }) by {}
    assert(ids_distinct(f)) by {
        assert forall|i: int, j: int| 0 <= i < f.len() && 0 <= j < f.len() && i != j
            implies #[trigger] f[i].id != #[trigger] f[j].id by {
            let a = if i < k { i } else { i + 1 };
            let b = if j < k { j } else { j + 1 };
            assert(f[i] == e[a] && f[j] == e[b]);
        }
    }
    lemma_map_of(e);
    lemma_map_of(f);
    assert forall|id: Seq<char>| #[trigger] map_of(f).contains_key(id) == map_of(e).remove(e[k].id).contains_key(id) by {
        if has_id(f, id) {
            let i = choose|i: int| 0 <= i < f.len() && #[trigger] f[i].id == id;
            let a = if i < k { i } else { i + 1 };
            assert(f[i] == e[a]);
        }
        if has_id(e, id) && id != e[k].id {
            let i = choose|i: int| 0 <= i < e.len() && #[trigger] e[i].id == id;
            if i < k {
                assert(f[i] == e[i]);
            } else {
                assert(f[i - 1] == e[i]);
            }
        }
    }
    assert forall|id: Seq<char>| #[trigger] map_of(f).contains_key(id) implies map_of(f)[id] == map_of(e).remove(e[k].id)[id] by {
        let i = choose|i: int| 0 <= i < f.len() && #[trigger] f[i].id == id;
        let a = if i < k { i } else { i + 1 };
        assert(f[i] == e[a]);
    }
    assert(map_of(f) =~= map_of(e).remove(e[k].id));
}

/// The views of the sessions in `v`.
pub open spec fn sessions_view(v: Seq<Session>) -> Seq<SessionView> {
    v.map_values(|s: Session| s@)
}

/// Whether the sessions of `v` come most recently updated first.
pub open spec fn newest_first(v: Seq<SessionView>) -> bool {
    forall|i: int, j: int| 0 <= i < j < v.len() ==> #[trigger] v[i].updated_at >= #[trigger] v[j].updated_at
}

/// Putting `x` at the first place whose session is older keeps the order.
proof fn lemma_insert_newest_first(v: Seq<SessionView>, p: int, x: SessionView)
    requires
        newest_first(v),
        0 <= p <= v.len(),
        forall|t: int| 0 <= t < p ==> #[trigger] v[t].updated_at >= x.updated_at,
        p < v.len() ==> v[p].updated_at < x.updated_at,
    ensures
        newest_first(v.insert(p, x)),
{
    let w = v.insert(p, x);
    assert forall|i: int, j: int| 0 <= i < j < w.len() implies #[trigger] w[i].updated_at >= #[trigger] w[j].updated_at by {
        let a = if i < p { v[i] } else if i == p { x } else { v[i - 1] };
        let b = if j < p { v[j] } else if j == p { x } else { v[j - 1] };
        assert(w[i] == a && w[j] == b);
        if i == p && j > p {
            assert(v[p].updated_at >= v[j - 1].updated_at);
        }
    }
}

/// Each session of `v` is one of the first `k` sessions of `e`.
#[verifier::opaque]
spec fn drawn_from(v: Seq<SessionView>, e: Seq<SessionView>, k: int) -> bool {
    forall|t: int| 0 <= t < v.len() ==> exists|j: int| 0 <= j < k && e[j] == #[trigger] v[t]
}

/// Each of the first `k` sessions of `e` is in `v`.
#[verifier::opaque]
spec fn holds_all(v: Seq<SessionView>, e: Seq<SessionView>, k: int) -> bool {
    forall|j: int| 0 <= j < k ==> exists|t: int| 0 <= t < v.len() && #[trigger] e[j] == v[t]
}

/// `v` lists the first `k` sessions of `e`, each once, most recently updated first.
spec fn listed_prefix(e: Seq<SessionView>, k: int, v: Seq<SessionView>) -> bool {
    &&& newest_first(v)
    &&& ids_distinct(v)
    &&& drawn_from(v, e, k)
    &&& holds_all(v, e, k)
}

/// Where the elements of `v` go when `x` is put at `p`.
proof fn lemma_insert_index(v: Seq<SessionView>, p: int, x: SessionView)
    requires
        0 <= p <= v.len(),
    ensures
        v.insert(p, x).len() == v.len() + 1,
        v.insert(p, x)[p] == x,
        forall|t: int| 0 <= t < p ==> #[trigger] v.insert(p, x)[t] == v[t],
        forall|t: int| p <= t < v.len() ==> v.insert(p, x)[t + 1] == #[trigger] v[t],
{
}

proof fn lemma_step_drawn(e: Seq<SessionView>, k: int, v: Seq<SessionView>, p: int)
    requires
        0 <= k < e.len(),
        drawn_from(v, e, k),
        0 <= p <= v.len(),
    ensures
        drawn_from(v.insert(p, e[k]), e, k + 1),
{
    reveal(drawn_from);
    let w = v.insert(p, e[k]);
    lemma_insert_index(v, p, e[k]);
    assert forall|t: int| 0 <= t < w.len() implies exists|j: int| 0 <= j < k + 1 && e[j] == #[trigger] w[t] by {
        if t < p {
            assert(w[t] == v[t]);
        } else if t == p {
            assert(e[k] == w[t]);
        } else {
            assert(w[t] == v[t - 1]);
        }
    }
}

proof fn lemma_step_holds(e: Seq<SessionView>, k: int, v: Seq<SessionView>, p: int)
    requires
        0 <= k < e.len(),
        holds_all(v, e, k),
        0 <= p <= v.len(),
    ensures
        holds_all(v.insert(p, e[k]), e, k + 1),
{
    reveal(holds_all);
    let w = v.insert(p, e[k]);
    lemma_insert_index(v, p, e[k]);
    assert forall|j: int| 0 <= j < k + 1 implies exists|t: int| 0 <= t < w.len() && #[trigger] e[j] == w[t] by {
        if j == k {
            assert(w[p] == e[j]);
        } else {
            let t = choose|t: int| 0 <= t < v.len() && #[trigger] e[j] == v[t];
            if t < p {
                assert(w[t] == v[t]);
            } else {
                assert(w[t + 1] == v[t]);
            }
        }
    }
}

proof fn lemma_new_id(e: Seq<SessionView>, k: int, v: Seq<SessionView>, t: int)
    requires
        ids_distinct(e),
        0 <= k < e.len(),
        drawn_from(v, e, k),
        0 <= t < v.len(),
    ensures
        v[t].id != e[k].id,
{
    reveal(drawn_from);
    let j = choose|j: int| 0 <= j < k && e[j] == #[trigger] v[t];
    assert(e[j].id != e[k].id);
}

proof fn lemma_step_distinct(e: Seq<SessionView>, k: int, v: Seq<SessionView>, p: int)
    requires
        ids_distinct(e),
        0 <= k < e.len(),
        ids_distinct(v),
        drawn_from(v, e, k),
        0 <= p <= v.len(),
    ensures
        ids_distinct(v.insert(p, e[k])),
{
    let w = v.insert(p, e[k]);
    lemma_insert_index(v, p, e[k]);
    assert forall|a: int, b: int| 0 <= a < w.len() && 0 <= b < w.len() && a != b
        implies #[trigger] w[a].id != #[trigger] w[b].id by {
        if a != p && b != p {
            let a0 = if a < p { a } else { a - 1 };
            let b0 = if b < p { b } else { b - 1 };
            assert(w[a] == v[a0] && w[b] == v[b0]);
        } else if a == p {
            let b0 = if b < p { b } else { b - 1 };
            assert(w[b] == v[b0]);
            lemma_new_id(e, k, v, b0);
        } else {
            let a0 = if a < p { a } else { a - 1 };
            assert(w[a] == v[a0]);
            lemma_new_id(e, k, v, a0);
        }
    }
}

proof fn lemma_listed_sorted(e: Seq<SessionView>, k: int, v: Seq<SessionView>)
    requires
        listed_prefix(e, k, v),
    ensures
        newest_first(v),
{
}

/// Inserting the next session of `e` at its place extends the listing by one.
proof fn lemma_listed_step(e: Seq<SessionView>, k: int, v: Seq<SessionView>, p: int, x: SessionView)
    requires
        ids_distinct(e),
        0 <= k < e.len(),
        listed_prefix(e, k, v),
        x == e[k],
        0 <= p <= v.len(),
        forall|t: int| 0 <= t < p ==> #[trigger] v[t].updated_at >= x.updated_at,
        p < v.len() ==> v[p].updated_at < x.updated_at,
    ensures
        listed_prefix(e, k + 1, v.insert(p, x)),
{
    lemma_insert_newest_first(v, p, x);
    lemma_step_drawn(e, k, v, p);
    lemma_step_holds(e, k, v, p);
    lemma_step_distinct(e, k, v, p);
}

/// A listing of all of `e` holds exactly the sessions of `map_of(e)`.
proof fn lemma_listed_all(e: Seq<SessionView>, v: Seq<SessionView>)
    requires
        ids_distinct(e),
        listed_prefix(e, e.len() as int, v),
    ensures
        newest_first(v),
        ids_distinct(v),
        forall|i: int| 0 <= i < v.len() ==> map_of(e).contains_key(#[trigger] v[i].id)
            && map_of(e)[v[i].id] == v[i],
        forall|id: Seq<char>| #[trigger] map_of(e).contains_key(id) ==> has_id(v, id),
{
    lemma_map_of(e);
    assert forall|i: int| 0 <= i < v.len() implies map_of(e).contains_key(#[trigger] v[i].id)
        && map_of(e)[v[i].id] == v[i] by {
        reveal(drawn_from);
        let j = choose|j: int| 0 <= j < e.len() && e[j] == #[trigger] v[i];
        assert(map_of(e).contains_key(e[j].id));
    }
    assert forall|id: Seq<char>| #[trigger] map_of(e).contains_key(id) implies has_id(v, id) by {
        reveal(holds_all);
        assert(has_id(e, id));
        let j = choose|j: int| 0 <= j < e.len() && #[trigger] e[j].id == id;
        let t = choose|t: int| 0 <= t < v.len() && #[trigger] e[j] == v[t];
        assert(v[t].id == id);
    }
}

/// Among the renumberings of a UUID text by 0 to `e.len()`, one is the id of
/// no session of `e`: they are `e.len() + 1` different texts, and `e` has at
/// most `e.len()` ids.
pub proof fn lemma_renumberings_not_all_taken(u: Seq<char>, e: Seq<SessionView>)
    requires
        is_uuid_v4_text(u),
        e.len() < pow16(16),
    ensures
        exists|k: nat| k <= e.len() && !has_id(e, #[trigger] renumbered(u, k)),
{
    let n = e.len();
    let cs = Seq::new(n + 1, |k: int| renumbered(u, k as nat));
    let ids = e.map_values(|s: SessionView| s.id);
    if forall|k: nat| k <= n ==> has_id(e, #[trigger] renumbered(u, k)) {
        assert(cs.no_duplicates()) by {
            assert forall|a: int, b: int| 0 <= a < cs.len() && 0 <= b < cs.len() && a != b implies cs[a] != cs[b] by {
                lemma_renumbered(u, a as nat, b as nat);
            }
        }
        cs.unique_seq_to_set();
        ids.lemma_cardinality_of_set();
        assert forall|x: Seq<char>| cs.to_set().contains(x) implies ids.to_set().contains(x) by {
            let k = choose|k: int| 0 <= k < cs.len() && cs[k] == x;
            assert(has_id(e, renumbered(u, k as nat)));
            let j = choose|j: int| 0 <= j < e.len() && #[trigger] e[j].id == renumbered(u, k as nat);
            assert(ids[j] == x);
        }
        vstd::set_lib::lemma_len_subset(cs.to_set(), ids.to_set());
        assert(false);
    }
}

/// Sessions kept in memory, keyed by id.
pub struct InMemorySessionStore {
    sessions: Vec<Session>,
}

impl View for InMemorySessionStore {
    type V = Map<Seq<char>, SessionView>;

    closed spec fn view(&self) -> Map<Seq<char>, SessionView> {
        map_of(sessions_view(self.sessions@))
    }
}

impl InMemorySessionStore {
    /// No two stored sessions share an id.
    pub closed spec fn wf(&self) -> bool {
        ids_distinct(sessions_view(self.sessions@))
    }

    /// An empty store.
    pub fn new() -> (r: Self)
        ensures
            r.wf(),
            r@ == Map::<Seq<char>, SessionView>::empty(),
    {
        let r = InMemorySessionStore { sessions: Vec::new() };
        assert(r@ =~= Map::<Seq<char>, SessionView>::empty());
        r
    }

    /// The position of the session with id `id`, if there is one.
    fn position(&self, id: &str) -> (r: Option<usize>)
        requires
            self.wf(),
        ensures
            match r {
                Some(i) => i < self.sessions.len() && self.sessions@[i as int]@.id == id@,
                None => !has_id(sessions_view(self.sessions@), id@),
            },
            r is Some <==> self@.contains_key(id@),
    {
        proof {
            lemma_map_of(sessions_view(self.sessions@));
        }
        let mut i: usize = 0;
        while i < self.sessions.len()
            invariant
                i <= self.sessions.len(),
                forall|k: int| 0 <= k < i ==> #[trigger] sessions_view(self.sessions@)[k].id != id@,
            decreases self.sessions.len() - i,
        {
            if str_eq(self.sessions[i].id.as_str(), id) {
                assert(sessions_view(self.sessions@)[i as int].id == id@);
                return Some(i);
            }
            i = i + 1;
        }
        None
    }

    /// Stores `session` under its id, replacing a session with that id.
    pub fn insert(&mut self, session: Session)
        requires
            old(self).wf(),
        ensures
            final(self).wf(),
            final(self)@ == old(self)@.insert(session@.id, session@),
    {
        let ghost e = sessions_view(self.sessions@);
        let ghost v = session@;
        match self.position(session.id.as_str()) {
            Some(i) => {
                self.sessions.set(i, session);
                proof {
                    assert(sessions_view(self.sessions@) == e.update(i as int, v));
                    lemma_map_of_update(e, i as int, v);
                }
            },
            None => {
                self.sessions.push(session);
                proof {
                    assert(sessions_view(self.sessions@) == e.push(v));
                    lemma_map_of_push(e, v);
                }
            },
        }
    }

    /// A copy of the session with id `id`, if there is one.
    pub fn get(&self, id: &str) -> (r: Option<Session>)
        requires
            self.wf(),
        ensures
            match r {
                Some(s) => self@.contains_key(id@) && s@ == self@[id@],
                None => !self@.contains_key(id@),
            },
    {
        proof {
            lemma_map_of(sessions_view(self.sessions@));
        }
        match self.position(id) {
            Some(i) => {
                assert(sessions_view(self.sessions@)[i as int] == self.sessions@[i as int]@);
                Some(copy_session(&self.sessions[i]))
            },
            None => None,
        }
    }

    /// Takes the session with id `id` out of the store, if there is one.
    pub fn delete(&mut self, id: &str)
        requires
            old(self).wf(),
        ensures
            final(self).wf(),
            final(self)@ == old(self)@.remove(id@),
    {
        let ghost e = sessions_view(self.sessions@);
        match self.position(id) {
            Some(i) => {
                self.sessions.remove(i);
                proof {
                    assert(sessions_view(self.sessions@) == e.remove(i as int));
                    lemma_map_of_remove(e, i as int);
                }
            },
            None => {
                proof {
                    lemma_map_of(e);
                    assert(self@ =~= self@.remove(id@));
                }
            },
        }
    }

    /// Replaces the session at `i` by `s`, which has the same id, and hands
    /// back a copy of it.
    fn replace_at(&mut self, i: usize, s: Session) -> (r: Session)
        requires
            old(self).wf(),
            i < old(self).sessions.len(),
            old(self).sessions@[i as int]@.id == s@.id,
        ensures
            final(self).wf(),
            final(self)@ == old(self)@.insert(s@.id, s@),
            r@ == s@,
    {
        let ghost e = sessions_view(self.sessions@);
        let ghost v = s@;
        let out = copy_session(&s);
        self.sessions.set(i, s);
        proof {
            assert(sessions_view(self.sessions@) == e.update(i as int, v));
            lemma_map_of_update(e, i as int, v);
        }
        out
    }

    /// Creates a session with id `id` at time `now`, titled from `title`,
    /// with no tasks, stores it and hands back a copy.
    pub fn create_with(&mut self, id: String, title: Option<String>, now: i64) -> (r: Session)
        requires
            old(self).wf(),
        ensures
            final(self).wf(),
            r@ == (SessionView {
                id: id@,
                title: session_title(opt_view(title)),
                task_ids: Seq::empty(),
                created_at: now,
                updated_at: now,
            }),
            final(self)@ == old(self)@.insert(id@, r@),
    {
        let session = Session {
            id,
            title: normalize_title(title),
            task_ids: Vec::new(),
            created_at: now,
            updated_at: now,
        };
        assert(strings_view(session.task_ids@) =~= Seq::<Seq<char>>::empty());
        let out = copy_session(&session);
        self.insert(session);
        out
    }

    /// Renames the session with id `id` to `title` at time `now` and hands
    /// back a copy; `None`, with nothing changed, when there is no such session.
    pub fn update_title_at(&mut self, id: &str, title: String, now: i64) -> (r: Option<Session>)
        requires
            old(self).wf(),
        ensures
            final(self).wf(),
            match r {
                Some(s) => old(self)@.contains_key(id@)
                    && s@ == retitled(old(self)@[id@], title@, now)
                    && final(self)@ == old(self)@.insert(id@, s@),
                None => !old(self)@.contains_key(id@) && final(self)@ == old(self)@,
            },
    {
        proof {
            lemma_map_of(sessions_view(self.sessions@));
        }
        match self.position(id) {
            Some(i) => {
                assert(sessions_view(self.sessions@)[i as int] == self.sessions@[i as int]@);
                let s = session_with_title(copy_session(&self.sessions[i]), title, now);
                Some(self.replace_at(i, s))
            },
            None => None,
        }
    }

    /// Attaches task `task_id` to the session with id `id` at time `now` and
    /// hands back a copy; `None`, with nothing changed, when there is no such session.
    pub fn add_task_at(&mut self, id: &str, task_id: String, now: i64) -> (r: Option<Session>)
        requires
            old(self).wf(),
        ensures
            final(self).wf(),
            match r {
                Some(s) => old(self)@.contains_key(id@)
                    && s@ == attached(old(self)@[id@], task_id@, now)
                    && final(self)@ == old(self)@.insert(id@, s@),
                None => !old(self)@.contains_key(id@) && final(self)@ == old(self)@,
            },
    {
        proof {
            lemma_map_of(sessions_view(self.sessions@));
        }
        match self.position(id) {
            Some(i) => {
                assert(sessions_view(self.sessions@)[i as int] == self.sessions@[i as int]@);
                let s = session_with_task(copy_session(&self.sessions[i]), task_id, now);
                Some(self.replace_at(i, s))
            },
            None => None,
        }
    }

    /// Detaches task `task_id` from the session with id `id` at time `now` and
    /// hands back a copy; `None`, with nothing changed, when there is no such session.
    pub fn remove_task_at(&mut self, id: &str, task_id: &str, now: i64) -> (r: Option<Session>)
        requires
            old(self).wf(),
        ensures
            final(self).wf(),
            match r {
                Some(s) => old(self)@.contains_key(id@)
                    && s@ == detached(old(self)@[id@], task_id@, now)
                    && final(self)@ == old(self)@.insert(id@, s@),
                None => !old(self)@.contains_key(id@) && final(self)@ == old(self)@,
            },
    {
        proof {
            lemma_map_of(sessions_view(self.sessions@));
        }
        match self.position(id) {
            Some(i) => {
                assert(sessions_view(self.sessions@)[i as int] == self.sessions@[i as int]@);
                let s = session_without_task(copy_session(&self.sessions[i]), task_id, now);
                Some(self.replace_at(i, s))
            },
            None => None,
        }
    }

    /// Every stored session once, the most recently updated first; sessions
    /// updated at the same second come in no set order.
    pub fn list(&self) -> (r: Vec<Session>)
        requires
            self.wf(),
        ensures
            newest_first(sessions_view(r@)),
            ids_distinct(sessions_view(r@)),
            forall|i: int| 0 <= i < r.len() ==> self@.contains_key(#[trigger] r@[i]@.id)
                && self@[r@[i]@.id] == r@[i]@,
            forall|id: Seq<char>| #[trigger] self@.contains_key(id) ==> has_id(sessions_view(r@), id),
    {
        let ghost e = sessions_view(self.sessions@);
        let mut r: Vec<Session> = Vec::new();
        let mut k: usize = 0;
        proof {
            reveal(drawn_from);
            reveal(holds_all);
        }
        while k < self.sessions.len()
            invariant
                e == sessions_view(self.sessions@),
                ids_distinct(e),
                k <= self.sessions.len(),
                listed_prefix(e, k as int, sessions_view(r@)),
            decreases self.sessions.len() - k,
        {
            let x = copy_session(&self.sessions[k]);
            assert(x@ == e[k as int]);
            let ghost rv = sessions_view(r@);
            proof {
                lemma_listed_sorted(e, k as int, rv);
            }
            let mut p: usize = 0;
            while p < r.len() && r[p].updated_at >= x.updated_at
                invariant
                    p <= r.len(),
                    rv == sessions_view(r@),
                    forall|t: int| 0 <= t < p ==> #[trigger] rv[t].updated_at >= x@.updated_at,
                decreases r.len() - p,
            {
                assert(rv[p as int] == r@[p as int]@);
                p = p + 1;
            }
            let ghost xv = x@;
            proof {
                if p < r.len() {
                    assert(rv[p as int] == r@[p as int]@);
                }
                lemma_listed_step(e, k as int, rv, p as int, xv);
            }
            r.insert(p, x);
            assert(sessions_view(r@) =~= rv.insert(p as int, xv));
            k = k + 1;
        }
        proof {
            lemma_listed_all(e, sessions_view(r@));
            assert forall|i: int| 0 <= i < r.len() implies self@.contains_key(#[trigger] r@[i]@.id)
                && self@[r@[i]@.id] == r@[i]@ by {
                assert(sessions_view(r@)[i] == r@[i]@);
            }
        }
        r
    }

    /// An id for a new session from the random UUID text `u`: `u` itself when
    /// no session has it, else the first renumbering of `u` that no session has.
    fn fresh_id(&self, u: String) -> (r: String)
        requires
            self.wf(),
            is_uuid_v4_text(u@),
        ensures
            is_uuid_v4_text(r@),
            !self@.contains_key(r@),
            !self@.contains_key(u@) ==> r@ == u@,
    {
        if self.position(u.as_str()).is_none() {
            return u;
        }
        let n = self.sessions.len();
        proof {
            lemma_usize_below_pow16();
        }
        let mut i: usize = 0;
        loop
            invariant
                i <= n,
                n == self.sessions.len(),
                n < pow16(16),
                self.wf(),
                is_uuid_v4_text(u@),
                self@.contains_key(u@),
                forall|k: nat| k < i ==> self@.contains_key(#[trigger] renumbered(u@, k)),
            decreases n - i,
        {
            let c = renumber_uuid(u.as_str(), i as u64);
            proof {
                lemma_renumbered(u@, i as nat, i as nat);
            }
            if self.position(c.as_str()).is_none() {
                return c;
            }
            proof {
                if i == n {
                    lemma_map_of(sessions_view(self.sessions@));
                    lemma_renumberings_not_all_taken(u@, sessions_view(self.sessions@));
                }
            }
            i = i + 1;
        }
    }

    /// Creates a session with a fresh random id at the current time, titled
    /// from `title`, with no tasks, stores it and hands back a copy.
    pub fn create(&mut self, title: Option<String>) -> (r: Session)
        requires
            old(self).wf(),
        ensures
            final(self).wf(),
            is_uuid_v4_text(r@.id),
            !old(self)@.contains_key(r@.id),
            r@.title == session_title(opt_view(title)),
            r@.task_ids == Seq::<Seq<char>>::empty(),
            r@.created_at == r@.updated_at,
            final(self)@ == old(self)@.insert(r@.id, r@),
    {
        let u = new_uuid_text();
        let id = self.fresh_id(u);
        let now = now_ts();
        self.create_with(id, title, now)
    }

    /// Renames the session with id `id` to `title` at the current time.
    pub fn update_title(&mut self, id: &str, title: String) -> (r: Option<Session>)
        requires
            old(self).wf(),
        ensures
            final(self).wf(),
            match r {
                Some(s) => old(self)@.contains_key(id@)
                    && s@ == retitled(old(self)@[id@], title@, s@.updated_at)
                    && final(self)@ == old(self)@.insert(id@, s@),
                None => !old(self)@.contains_key(id@) && final(self)@ == old(self)@,
            },
    {
        let now = now_ts();
        self.update_title_at(id, title, now)
    }

    /// Attaches task `task_id` to the session with id `id` at the current time.
    pub fn add_task(&mut self, id: &str, task_id: String) -> (r: Option<Session>)
        requires
            old(self).wf(),
        ensures
            final(self).wf(),
            match r {
                Some(s) => old(self)@.contains_key(id@)
                    && s@ == attached(old(self)@[id@], task_id@, s@.updated_at)
                    && final(self)@ == old(self)@.insert(id@, s@),
                None => !old(self)@.contains_key(id@) && final(self)@ == old(self)@,
            },
    {
        let now = now_ts();
        self.add_task_at(id, task_id, now)
    }

    /// Detaches task `task_id` from the session with id `id` at the current time.
    pub fn remove_task(&mut self, id: &str, task_id: &str) -> (r: Option<Session>)
        requires
            old(self).wf(),
        ensures
            final(self).wf(),
            match r {
                Some(s) => old(self)@.contains_key(id@)
                    && s@ == detached(old(self)@[id@], task_id@, s@.updated_at)
                    && final(self)@ == old(self)@.insert(id@, s@),
                None => !old(self)@.contains_key(id@) && final(self)@ == old(self)@,
            },
    {
        let now = now_ts();
        self.remove_task_at(id, task_id, now)
    }
}

} // verus!

verus! {

/// A store of sessions, as the task API uses it. A store may fail with a
/// `ToolError` (one kept on disk, when the disk fails); what it hands back
/// when it succeeds is stated over `sessions`, the sessions it holds by id,
/// and a call that fails leaves those sessions as they were.
pub trait SessionStore {
    /// What the store keeps true between calls.
    spec fn inv(&self) -> bool;

    /// The sessions the store holds, by id.
    spec fn sessions(&self) -> Map<Seq<char>, SessionView>;

    /// Whether every call of the store succeeds (so for a store in memory,
    /// which has nothing that can fail).
    spec fn always_succeeds() -> bool;

    /// Creates a session titled from `title`, with no tasks, and hands it back.
    fn create(&mut self, title: Option<String>) -> (r: Result<Session, ToolError>)
        requires
            old(self).inv(),
        ensures
            final(self).inv(),
            Self::always_succeeds() ==> r is Ok,
            match r {
                Ok(s) => is_uuid_v4_text(s@.id) && !old(self).sessions().contains_key(s@.id)
                    && s@.title == session_title(opt_view(title))
                    && s@.task_ids == Seq::<Seq<char>>::empty() && s@.created_at == s@.updated_at
                    && final(self).sessions() == old(self).sessions().insert(s@.id, s@),
                Err(_) => final(self).sessions() == old(self).sessions(),
            };

    /// Every session once, the most recently updated first.
    fn list(&self) -> (r: Result<Vec<Session>, ToolError>)
        requires
            self.inv(),
        ensures
            Self::always_succeeds() ==> r is Ok,
            match r {
                Ok(v) => newest_first(sessions_view(v@)) && ids_distinct(sessions_view(v@))
                    && (forall|i: int| 0 <= i < v.len() ==> self.sessions().contains_key(#[trigger] v@[i]@.id)
                        && self.sessions()[v@[i]@.id] == v@[i]@)
                    && (forall|id: Seq<char>| #[trigger] self.sessions().contains_key(id)
                        ==> has_id(sessions_view(v@), id)),
                Err(_) => true,
            };

    /// The session with id `id`, if there is one.
    fn get(&self, id: &str) -> (r: Result<Option<Session>, ToolError>)
        requires
            self.inv(),
        ensures
            Self::always_succeeds() ==> r is Ok,
            match r {
                Ok(Some(s)) => self.sessions().contains_key(id@) && s@ == self.sessions()[id@],
                Ok(None) => !self.sessions().contains_key(id@),
                Err(_) => true,
            };

    /// Renames the session with id `id` to `title`.
    fn update_title(&mut self, id: &str, title: String) -> (r: Result<Option<Session>, ToolError>)
        requires
            old(self).inv(),
        ensures
            final(self).inv(),
            Self::always_succeeds() ==> r is Ok,
            match r {
                Ok(Some(s)) => old(self).sessions().contains_key(id@)
                    && s@ == retitled(old(self).sessions()[id@], title@, s@.updated_at)
                    && final(self).sessions() == old(self).sessions().insert(id@, s@),
                Ok(None) => !old(self).sessions().contains_key(id@)
                    && final(self).sessions() == old(self).sessions(),
                Err(_) => final(self).sessions() == old(self).sessions(),
            };

    /// Attaches task `task_id` to the session with id `id`.
    fn add_task(&mut self, id: &str, task_id: String) -> (r: Result<Option<Session>, ToolError>)
        requires
            old(self).inv(),
        ensures
            final(self).inv(),
            Self::always_succeeds() ==> r is Ok,
            match r {
                Ok(Some(s)) => old(self).sessions().contains_key(id@)
                    && s@ == attached(old(self).sessions()[id@], task_id@, s@.updated_at)
                    && final(self).sessions() == old(self).sessions().insert(id@, s@),
                Ok(None) => !old(self).sessions().contains_key(id@)
                    && final(self).sessions() == old(self).sessions(),
                Err(_) => final(self).sessions() == old(self).sessions(),
            };

    /// Detaches task `task_id` from the session with id `id`.
    fn remove_task(&mut self, id: &str, task_id: &str) -> (r: Result<Option<Session>, ToolError>)
        requires
            old(self).inv(),
        ensures
            final(self).inv(),
            Self::always_succeeds() ==> r is Ok,
            match r {
                Ok(Some(s)) => old(self).sessions().contains_key(id@)
                    && s@ == detached(old(self).sessions()[id@], task_id@, s@.updated_at)
                    && final(self).sessions() == old(self).sessions().insert(id@, s@),
                Ok(None) => !old(self).sessions().contains_key(id@)
                    && final(self).sessions() == old(self).sessions(),
                Err(_) => final(self).sessions() == old(self).sessions(),
            };

    /// Takes out the session with id `id`.
    fn delete(&mut self, id: &str) -> (r: Result<(), ToolError>)
        requires
            old(self).inv(),
        ensures
            final(self).inv(),
            Self::always_succeeds() ==> r is Ok,
            r is Ok ==> final(self).sessions() == old(self).sessions().remove(id@),
            r is Err ==> final(self).sessions() == old(self).sessions();
}

impl SessionStore for InMemorySessionStore {
    open spec fn inv(&self) -> bool {
        self.wf()
    }

    open spec fn sessions(&self) -> Map<Seq<char>, SessionView> {
        self@
    }

    open spec fn always_succeeds() -> bool {
        true
    }

    fn create(&mut self, title: Option<String>) -> Result<Session, ToolError>
    {
        Ok(InMemorySessionStore::create(self, title))
    }

    fn list(&self) -> Result<Vec<Session>, ToolError>
    {
        Ok(InMemorySessionStore::list(self))
    }

    fn get(&self, id: &str) -> Result<Option<Session>, ToolError>
    {
        Ok(InMemorySessionStore::get(self, id))
    }

    fn update_title(&mut self, id: &str, title: String) -> Result<Option<Session>, ToolError>
    {
        Ok(InMemorySessionStore::update_title(self, id, title))
    }

    fn add_task(&mut self, id: &str, task_id: String) -> Result<Option<Session>, ToolError>
    {
        Ok(InMemorySessionStore::add_task(self, id, task_id))
    }

    fn remove_task(&mut self, id: &str, task_id: &str) -> Result<Option<Session>, ToolError>
    {
        Ok(InMemorySessionStore::remove_task(self, id, task_id))
    }

    fn delete(&mut self, id: &str) -> Result<(), ToolError>
    {
        InMemorySessionStore::delete(self, id);
        Ok(())
    }
}

} // verus!

verus! {

/// Filtering with a test that every element passes changes nothing.
proof fn lemma_filter_keeps_all(ids: Seq<Seq<char>>, t: Seq<char>)
    requires
        !ids.contains(t),
    ensures
        ids.filter(differs_from(t)) == ids,
    decreases ids.len(),
{
    reveal(Seq::filter);
    if ids.len() > 0 {
        assert(!ids.drop_last().contains(t)) by {
            if ids.drop_last().contains(t) {
                let i = choose|i: int| 0 <= i < ids.drop_last().len() && ids.drop_last()[i] == t;
                assert(ids[i] == t);
            }
        }
        lemma_filter_keeps_all(ids.drop_last(), t);
        assert(ids.last() != t) by {
            assert(ids[ids.len() - 1] == ids.last());
        }
        assert(ids.drop_last().push(ids.last()) == ids);
    }
}

/// Attaching a task twice leaves the same task list as attaching it once.
pub proof fn attaching_twice_is_attaching_once(s: SessionView, t: Seq<char>, first: i64, second: i64)
    ensures
        attached(attached(s, t, first), t, second) == attached(s, t, second),
{
    let ids = s.task_ids;
    if !ids.contains(t) {
        assert((seq![t] + ids)[0] == t);
        assert((seq![t] + ids).contains(t));
    }
}

/// A task just attached is in the session's list, first when it was not there before.
pub proof fn attached_task_is_listed(s: SessionView, t: Seq<char>, now: i64)
    ensures
        attached(s, t, now).task_ids.contains(t),
        !s.task_ids.contains(t) ==> attached(s, t, now).task_ids[0] == t,
        !s.task_ids.contains(t) ==> attached(s, t, now).task_ids.len() == s.task_ids.len() + 1,
{
    if !s.task_ids.contains(t) {
        assert((seq![t] + s.task_ids)[0] == t);
    }
}

/// A task just detached is in the session's list no more, and every other
/// task stays.
pub proof fn detached_task_is_gone(s: SessionView, t: Seq<char>, x: Seq<char>, now: i64)
    ensures
        !detached(s, t, now).task_ids.contains(t),
        x != t ==> (detached(s, t, now).task_ids.contains(x) <==> s.task_ids.contains(x)),
{
    broadcast use vstd::seq_lib::group_filter_ensures;
    let ids = s.task_ids;
    let f = ids.filter(differs_from(t));
    if f.contains(t) {
        let i = choose|i: int| 0 <= i < f.len() && f[i] == t;
        assert(differs_from(t)(f[i]));
    }
    if x != t {
        if ids.contains(x) {
            let i = choose|i: int| 0 <= i < ids.len() && ids[i] == x;
            assert(differs_from(t)(ids[i]));
            assert(f.contains(ids[i]));
        }
        if f.contains(x) {
            ids.lemma_filter_contains_rev(differs_from(t), x);
        }
    }
}

/// Detaching a task that was just attached, to a session that did not have
/// it, gives back the session's task list as it was.
pub proof fn detach_undoes_attach(s: SessionView, t: Seq<char>, first: i64, second: i64)
    requires
        !s.task_ids.contains(t),
    ensures
        detached(attached(s, t, first), t, second).task_ids == s.task_ids,
{
    let ids = s.task_ids;
    Seq::filter_distributes_over_add(seq![t], ids, differs_from(t));
    assert(seq![t].filter(differs_from(t)) == Seq::<Seq<char>>::empty()) by {
        reveal(Seq::filter);
        assert(seq![t].drop_last() == Seq::<Seq<char>>::empty());
        assert(Seq::<Seq<char>>::empty().filter(differs_from(t)) == Seq::<Seq<char>>::empty());
    }
    lemma_filter_keeps_all(ids, t);
    assert(Seq::<Seq<char>>::empty() + ids == ids);
}

/// A new session's title is never empty.
pub proof fn session_title_is_never_empty(title: Option<Seq<char>>)
    ensures
        session_title(title).len() > 0,
{
    reveal_strlit("新会话");
}

} // verus!

verus! {

proof fn lemma_filter_no_duplicates(ids: Seq<Seq<char>>, t: Seq<char>)
    requires
        ids.no_duplicates(),
    ensures
        ids.filter(differs_from(t)).no_duplicates(),
    decreases ids.len(),
{
    reveal(Seq::filter);
    if ids.len() > 0 {
        let d = ids.drop_last();
        assert(d.no_duplicates()) by {
            assert forall|i: int, j: int| 0 <= i < d.len() && 0 <= j < d.len() && i != j
                implies d[i] != d[j] by {
                assert(d[i] == ids[i] && d[j] == ids[j]);
            }
        }
        lemma_filter_no_duplicates(d, t);
        let f = d.filter(differs_from(t));
        if differs_from(t)(ids.last()) {
            if f.contains(ids.last()) {
                d.lemma_filter_contains_rev(differs_from(t), ids.last());
                let i = choose|i: int| 0 <= i < d.len() && d[i] == ids.last();
                assert(ids[i] == ids[ids.len() - 1]);
            }
            let g = f.push(ids.last());
            assert forall|i: int, j: int| 0 <= i < g.len() && 0 <= j < g.len() && i != j
                implies g[i] != g[j] by {
                if i < f.len() && j < f.len() {
                    assert(g[i] == f[i] && g[j] == f[j]);
                } else if i < f.len() {
                    assert(g[i] == f[i]);
                    assert(f.contains(f[i]));
                } else {
                    assert(g[j] == f[j]);
                    assert(f.contains(f[j]));
                }
            }
        }
    }
}

/// Attaching and detaching keep a session's task list free of repeats.
pub proof fn task_lists_stay_free_of_repeats(s: SessionView, t: Seq<char>, now: i64)
    requires
        s.task_ids.no_duplicates(),
    ensures
        attached(s, t, now).task_ids.no_duplicates(),
        detached(s, t, now).task_ids.no_duplicates(),
{
    let ids = s.task_ids;
    if !ids.contains(t) {
        let g = seq![t] + ids;
        assert forall|i: int, j: int| 0 <= i < g.len() && 0 <= j < g.len() && i != j
            implies g[i] != g[j] by {
            if i > 0 && j > 0 {
                assert(g[i] == ids[i - 1] && g[j] == ids[j - 1]);
            } else if i == 0 {
                assert(g[j] == ids[j - 1]);
            } else {
                assert(g[i] == ids[i - 1]);
            }
        }
    }
    lemma_filter_no_duplicates(ids, t);
}

} // verus!

verus! {

/// Law: the store reads back what was last written: after a session is
/// stored under an id (by creating, renaming, attaching or detaching), reading
/// that id gives it, and every other id reads as before; after a session is
/// deleted, its id reads as missing and every other id reads as before.
pub proof fn store_reads_back_writes(
    m: Map<Seq<char>, SessionView>,
    id: Seq<char>,
    other: Seq<char>,
    s: SessionView,
)
    requires
        id != other,
    ensures
        m.insert(id, s).contains_key(id) && m.insert(id, s)[id] == s,
        m.insert(id, s).contains_key(other) == m.contains_key(other),
        m.contains_key(other) ==> m.insert(id, s)[other] == m[other],
        !m.remove(id).contains_key(id),
        m.remove(id).contains_key(other) == m.contains_key(other),
        m.contains_key(other) ==> m.remove(id)[other] == m[other],
{
}

/// Law: two sessions created one after the other are two sessions: each
/// creation stores its session under an id the store did not hold, so the ids
/// differ, both sessions read back, and the store holds two sessions more.
pub proof fn creating_twice_adds_two_sessions(m: Map<Seq<char>, SessionView>, s1: SessionView, s2: SessionView)
    requires
        m.dom().finite(),
        !m.contains_key(s1.id),
        !m.insert(s1.id, s1).contains_key(s2.id),
    ensures
        s1.id != s2.id,
        m.insert(s1.id, s1).insert(s2.id, s2)[s1.id] == s1,
        m.insert(s1.id, s1).insert(s2.id, s2)[s2.id] == s2,
        m.insert(s1.id, s1).insert(s2.id, s2).dom().len() == m.dom().len() + 2,
{
    let m1 = m.insert(s1.id, s1);
    assert(m1.dom() == m.dom().insert(s1.id));
    assert(m1.insert(s2.id, s2).dom() == m1.dom().insert(s2.id));
}

} // verus!

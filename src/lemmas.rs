use vstd::prelude::*;

use crate::error::RepositoryError;
use crate::store::{
    after_update, can_create, created, delete_outcome, find_outcome, has_id, ids_unique, index_of,
    lookup, store_at_id, update_outcome, without_id,
};
use crate::todo::{merge, Todo, UpdateTodo};

verus! {

/// The tasks that creating each of `texts` in turn leaves in an empty store.
pub open spec fn create_all(texts: Seq<String>) -> Seq<Todo>
    decreases texts.len(),
{
    if texts.len() == 0 {
        Seq::empty()
    } else {
        let s = create_all(texts.drop_last());
        store_at_id(s, created(s, texts.last()))
    }
}

/// Storing a task keeps ids unique and makes the task findable by its id.
pub proof fn lemma_store_at_id(s: Seq<Todo>, t: Todo)
    requires
        ids_unique(s),
    ensures
        ids_unique(store_at_id(s, t)),
        lookup(store_at_id(s, t), t.id) == Some(t),
{
    let r = store_at_id(s, t);
    if has_id(s, t.id) {
        let k = index_of(s, t.id);
        assert(0 <= k < s.len() && s[k].id == t.id);
        assert forall|a: int, b: int| 0 <= a < b < r.len() implies r[a].id != r[b].id by {
            if a != k && b != k {
                assert(r[a] == s[a] && r[b] == s[b]);
            }
        }
        assert(r[k] == t);
        lemma_found_at(r, k);
    } else {
        assert forall|a: int, b: int| 0 <= a < b < r.len() implies r[a].id != r[b].id by {
            if b == s.len() && r[a].id == t.id {
                assert(s[a].id == t.id);
            }
        }
        lemma_found_at(r, s.len() as int);
    }
}

/// In a store with unique ids, the task at `i` is the one found by its id.
pub proof fn lemma_found_at(s: Seq<Todo>, i: int)
    requires
        ids_unique(s),
        0 <= i < s.len(),
    ensures
        has_id(s, s[i].id),
        index_of(s, s[i].id) == i,
        lookup(s, s[i].id) == Some(s[i]),
{
    let id = s[i].id;
    assert(0 <= i < s.len() && s[i].id == id);
    let k = index_of(s, id);
    assert(0 <= k < s.len() && s[k].id == id);
}

/// Finding the id of a freshly created task returns exactly that task.
pub proof fn lemma_create_then_find(s: Seq<Todo>, text: String)
    requires
        ids_unique(s),
        can_create(s),
    ensures
        find_outcome(store_at_id(s, created(s, text)), created(s, text).id) == Ok::<
            Todo,
            RepositoryError,
        >(created(s, text)),
{
    lemma_store_at_id(s, created(s, text));
}

/// Creating tasks one after another in an empty store numbers them from 1 in
/// the order of creation, and listing returns each of them exactly once.
pub proof fn lemma_list_holds_all_created(texts: Seq<String>)
    requires
        texts.len() <= i32::MAX,
    ensures
        ids_unique(create_all(texts)),
        create_all(texts).len() == texts.len(),
        forall|i: int|
            0 <= i < texts.len() ==> #[trigger] create_all(texts)[i] == (Todo {
                id: (i + 1) as i32,
                text: texts[i],
                completed: false,
            }),
    decreases texts.len(),
{
    if texts.len() > 0 {
        let p = texts.drop_last();
        lemma_list_holds_all_created(p);
        let s = create_all(p);
        let t = created(s, texts.last());
        if has_id(s, t.id) {
            let k = index_of(s, t.id);
            assert(s[k].id == (k + 1) as i32);
        }
        assert(create_all(texts) == s.push(t));
        lemma_store_at_id(s, t);
        assert forall|i: int| 0 <= i < texts.len() implies #[trigger] create_all(texts)[i] == (
        Todo { id: (i + 1) as i32, text: texts[i], completed: false }) by {
            if i < p.len() {
                assert(create_all(texts)[i] == s[i]);
                assert(p[i] == texts[i]);
            }
        }
    }
}

/// Updating with only `completed` keeps the text, and updating with only a
/// text keeps the completion flag; the id never changes.
pub proof fn lemma_update_keeps_omitted(s: Seq<Todo>, id: i32, payload: UpdateTodo)
    requires
        ids_unique(s),
        has_id(s, id),
    ensures
        update_outcome(s, id, payload) matches Ok(t) && t.id == id
            && t.text == (match payload.text {
                Some(x) => x,
                None => s[index_of(s, id)].text,
            }) && t.completed == (match payload.completed {
                Some(c) => c,
                None => s[index_of(s, id)].completed,
            }),
        find_outcome(after_update(s, id, payload), id) == update_outcome(s, id, payload),
{
    let k = index_of(s, id);
    assert(0 <= k < s.len() && s[k].id == id);
    let t = merge(s[k], payload);
    let r = after_update(s, id, payload);
    assert(r == s.update(k, t));
    assert forall|a: int, b: int| 0 <= a < b < r.len() implies r[a].id != r[b].id by {
        if a != k && b != k {
            assert(r[a] == s[a] && r[b] == s[b]);
        }
    }
    lemma_found_at(r, k);
}

/// Updating or deleting an id that no task has reports that id as not found.
pub proof fn lemma_absent_id_not_found(s: Seq<Todo>, id: i32, payload: UpdateTodo)
    requires
        !has_id(s, id),
    ensures
        update_outcome(s, id, payload) == Err::<Todo, RepositoryError>(
            RepositoryError::NotFound(id),
        ),
        delete_outcome(s, id) == Err::<(), RepositoryError>(RepositoryError::NotFound(id)),
        after_update(s, id, payload) == s,
        without_id(s, id) == s,
{
}

/// After a task is deleted its id is no longer found.
pub proof fn lemma_delete_removes(s: Seq<Todo>, id: i32)
    requires
        ids_unique(s),
    ensures
        find_outcome(without_id(s, id), id) == Err::<Todo, RepositoryError>(
            RepositoryError::NotFound(id),
        ),
{
    let r = without_id(s, id);
    if has_id(s, id) {
        let k = index_of(s, id);
        assert(0 <= k < s.len() && s[k].id == id);
        if has_id(r, id) {
            let j = choose|j: int| 0 <= j < r.len() && r[j].id == id;
            if j < k {
                assert(r[j] == s[j]);
            } else {
                assert(r[j] == s[j + 1]);
            }
        }
    }
}

} // verus!

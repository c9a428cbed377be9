use vstd::prelude::*;

use crate::text::{decimal, digit_char};

use crate::app::{render_completed_lines, render_lines};
use crate::models::{
    render, valid_title, MAX_TITLE_CHARS, MIN_TITLE_CHARS,
    completed_version, first_with_id, has_id, is_edit_of, lemma_max_id_bounds,
    next_id_of, unique_ids, Todo,
};

verus! {

/// The id handed to the next added item is greater than every id in the list,
/// so no item has it yet.
pub proof fn lemma_next_id_is_fresh(todos: Seq<Todo>)
    requires
        next_id_of(todos) is Some,
    ensures
        forall|i: int| 0 <= i < todos.len() ==> #[trigger] todos[i].id < next_id_of(todos).unwrap(),
        !has_id(todos, next_id_of(todos).unwrap()),
{
    lemma_max_id_bounds(todos);
}

/// After an item is added with the next id, looking that id up finds the
/// added item, at the end of the list.
pub proof fn lemma_added_item_is_found(todos: Seq<Todo>, t: Todo)
    requires
        next_id_of(todos) == Some(t.id),
    ensures
        first_with_id(todos.push(t), t.id, todos.len() as int),
        has_id(todos.push(t), t.id),
{
    lemma_next_id_is_fresh(todos);
    let s = todos.push(t);
    assert forall|j: int| 0 <= j < todos.len() implies #[trigger] s[j].id != t.id by {
        assert(s[j] == todos[j]);
    }
    assert(s[todos.len() as int].id == t.id);
}

/// Adding an item with the next id keeps the ids of the list distinct.
pub proof fn lemma_add_keeps_ids_unique(todos: Seq<Todo>, t: Todo)
    requires
        unique_ids(todos),
        next_id_of(todos) == Some(t.id),
    ensures
        unique_ids(todos.push(t)),
{
    lemma_next_id_is_fresh(todos);
    let s = todos.push(t);
    assert forall|i: int, j: int|
        0 <= i < s.len() && 0 <= j < s.len() && i != j implies #[trigger] s[i].id
        != #[trigger] s[j].id by {
        if i < todos.len() && j < todos.len() {
            assert(s[i] == todos[i] && s[j] == todos[j]);
        } else if i < todos.len() {
            assert(s[i] == todos[i]);
        } else {
            assert(s[j] == todos[j]);
        }
    }
}

/// After the first item with id `id` is marked completed, looking `id` up
/// finds that same item, now completed.
pub proof fn lemma_completed_item_is_found(todos: Seq<Todo>, id: u32, i: int)
    requires
        first_with_id(todos, id, i),
    ensures
        first_with_id(todos.update(i, completed_version(todos[i])), id, i),
        todos.update(i, completed_version(todos[i]))[i].completed,
        todos.update(i, completed_version(todos[i]))[i].title == todos[i].title,
{
    let s = todos.update(i, completed_version(todos[i]));
    assert forall|j: int| 0 <= j < i implies #[trigger] s[j].id != id by {
        assert(s[j] == todos[j]);
    }
}

/// Marking an item completed keeps the ids of the list distinct.
pub proof fn lemma_complete_keeps_ids_unique(todos: Seq<Todo>, i: int)
    requires
        unique_ids(todos),
        0 <= i < todos.len(),
    ensures
        unique_ids(todos.update(i, completed_version(todos[i]))),
{
    let s = todos.update(i, completed_version(todos[i]));
    assert forall|a: int, b: int|
        0 <= a < s.len() && 0 <= b < s.len() && a != b implies #[trigger] s[a].id
        != #[trigger] s[b].id by {
        assert(s[a].id == todos[a].id && s[b].id == todos[b].id);
    }
}

/// After the first item with id `id` is edited, looking `id` up finds the
/// edited item; every other item is unchanged, so the ids stay distinct.
pub proof fn lemma_edited_item_is_found(
    todos: Seq<Todo>,
    edited: Seq<Todo>,
    id: u32,
    i: int,
    title: Option<Seq<char>>,
    completed: Option<bool>,
)
    requires
        first_with_id(todos, id, i),
        edited.len() == todos.len(),
        is_edit_of(edited[i], todos[i], title, completed),
        forall|j: int| 0 <= j < todos.len() && j != i ==> edited[j] == todos[j],
    ensures
        first_with_id(edited, id, i),
        unique_ids(todos) ==> unique_ids(edited),
{
    assert forall|j: int| 0 <= j < i implies #[trigger] edited[j].id != id by {
        assert(edited[j] == todos[j]);
    }
    if unique_ids(todos) {
        assert forall|a: int, b: int|
            0 <= a < edited.len() && 0 <= b < edited.len() && a != b implies #[trigger] edited[a].id
            != #[trigger] edited[b].id by {
            assert(edited[a].id == todos[a].id);
            assert(edited[b].id == todos[b].id);
        }
    }
}

/// Once the item with id `id` is removed from a list whose ids are distinct,
/// looking `id` up finds nothing, and the ids stay distinct.
pub proof fn lemma_deleted_item_is_gone(todos: Seq<Todo>, id: u32, i: int)
    requires
        unique_ids(todos),
        first_with_id(todos, id, i),
    ensures
        !has_id(todos.remove(i), id),
        unique_ids(todos.remove(i)),
{
    let s = todos.remove(i);
    assert forall|j: int| 0 <= j < s.len() implies #[trigger] s[j].id != id by {
        if j < i {
            assert(s[j] == todos[j]);
        } else {
            assert(s[j] == todos[j + 1]);
        }
    }
    assert forall|a: int, b: int|
        0 <= a < s.len() && 0 <= b < s.len() && a != b implies #[trigger] s[a].id
        != #[trigger] s[b].id by {
        let a2 = if a < i { a } else { a + 1 };
        let b2 = if b < i { b } else { b + 1 };
        assert(s[a] == todos[a2]);
        assert(s[b] == todos[b2]);
    }
}

/// A title is accepted exactly when its number of characters lies between 4
/// and 200, both included; nothing else about the title matters.
pub proof fn lemma_valid_title_is_character_count(title: Seq<char>)
    ensures
        valid_title(title) <==> (4 <= title.len() && title.len() <= 200),
        MIN_TITLE_CHARS == 4 && MAX_TITLE_CHARS == 200,
{
}

/// The digit characters are `'0'` to `'9'`, in order.
pub proof fn lemma_digit_char_code(d: nat)
    requires
        d < 10,
    ensures
        digit_char(d) as int == '0' as int + d,
{
}

/// The decimal notation of a number below ten is its single digit; that of a
/// larger number `10 * q + d` is the notation of `q` followed by the digit `d`.
pub proof fn lemma_decimal_digits(q: nat, d: nat)
    requires
        d < 10,
    ensures
        q == 0 ==> decimal(d) == seq![digit_char(d)],
        q > 0 ==> decimal(10 * q + d) == decimal(q).push(digit_char(d)),
{
    if q > 0 {
        let n = 10 * q + d;
        assert(n / 10 == q && n % 10 == d) by (nonlinear_arith)
            requires
                n == 10 * q + d,
                d < 10,
        ;
    }
}

/// An item is shown as its own id in decimal, then ` [x] ` when it is
/// completed or ` [ ] ` when it is not, then its whole title.
pub proof fn lemma_render_shape(t: Todo)
    ensures
        render(t) == decimal(t.id as nat) + (if t.completed {
            seq![' ', '[', 'x', ']', ' ']
        } else {
            seq![' ', '[', ' ', ']', ' ']
        }) + t.title@,
        render(t).len() == decimal(t.id as nat).len() + 5 + t.title@.len(),
        render(t).subrange(render(t).len() - t.title@.len(), render(t).len() as int) == t.title@,
{
    let r = render(t);
    let p = decimal(t.id as nat) + seq![' ', '[', if t.completed { 'x' } else { ' ' }, ']', ' '];
    assert(r == p + t.title@);
    assert(r.subrange(p.len() as int, r.len() as int) =~= t.title@);
}

/// Listing nothing writes nothing; listing a list with one more item at the
/// end writes the listing of the shorter list, then that item's own line.
pub proof fn lemma_listing_appends_item_line(s: Seq<Todo>, t: Todo)
    ensures
        render_lines(Seq::<Todo>::empty()) == Seq::<char>::empty(),
        render_lines(s.push(t)) == render_lines(s) + render(t) + seq!['\n'],
{
    assert(s.push(t).drop_last() =~= s);
}

/// Listing the completed items of nothing writes nothing; with one more item
/// at the end, it writes what it wrote before, then that item's line when the
/// item is completed and nothing more when it is not.
pub proof fn lemma_completed_listing_appends_completed_item(s: Seq<Todo>, t: Todo)
    ensures
        render_completed_lines(Seq::<Todo>::empty()) == Seq::<char>::empty(),
        t.completed ==> render_completed_lines(s.push(t)) == render_completed_lines(s) + render(t)
            + seq!['\n'],
        !t.completed ==> render_completed_lines(s.push(t)) == render_completed_lines(s),
{
    assert(s.push(t).drop_last() =~= s);
}

/// An edit keeps the id; it keeps the title when no new title is given and
/// the completion flag when no new flag is given, whatever the other argument
/// is; and it takes each new value that is given.
pub proof fn lemma_edit_keeps_what_is_not_given(
    new: Todo,
    old: Todo,
    title: Option<Seq<char>>,
    completed: Option<bool>,
)
    requires
        is_edit_of(new, old, title, completed),
    ensures
        new.id == old.id,
        completed is None ==> new.completed == old.completed,
        title is None ==> new.title@ == old.title@,
        completed matches Some(c) ==> new.completed == c,
        title matches Some(t) ==> new.title@ == t,
{
}

} // verus!

//! What holds of the transitions of the interaction state.

use vstd::arithmetic::div_mod::{lemma_mod_self_0, lemma_small_mod};
use vstd::prelude::*;
use vstd::seq_lib::{to_multiset_insert, to_multiset_remove};

use crate::app::field::FieldView;
use crate::app::method::is_http_verb;
use crate::app::model::{blank_fields, field_count, save_effect, AppView, EffectView};
use crate::app::request::{ReplyView, RequestView};
use crate::app::{InputStatus, SelElement};
use crate::event::{Event, KeyCode, KeyEvent, MOD_NONE, MOD_SHIFT};

verus! {

/// A character key pressed with the modifiers `modifiers`.
pub open spec fn char_key(c: char, modifiers: u8) -> Event {
    Event::Key(KeyEvent { code: KeyCode::Char(c), modifiers })
}

/// A key without a character pressed with the modifiers `modifiers`.
pub open spec fn named_key(code: KeyCode, modifiers: u8) -> Event {
    Event::Key(KeyEvent { code, modifiers })
}

/// The state after `event` came `count` times in a row.
pub open spec fn repeated(state: AppView, event: Event, count: nat) -> AppView
    decreases count,
{
    if count == 0 {
        state
    } else {
        repeated(state, event, (count - 1) as nat).step(event)
    }
}

/// The index that is selected after `count` moves to the next request, out
/// of `len` requests and starting at `start`, for `count` up to `len`.
pub open spec fn index_after_next(start: nat, len: nat, count: nat) -> nat {
    if start + count < len {
        start + count
    } else {
        (start + count - len) as nat
    }
}

/// The index that is selected after `count` moves to the previous request,
/// out of `len` requests and starting at `start`, for `count` up to `len`.
pub open spec fn index_after_previous(start: nat, len: nat, count: nat) -> nat {
    if count <= start {
        (start - count) as nat
    } else {
        (start + len - count) as nat
    }
}

/// The state in which the client starts meets the invariant, whatever the
/// store held.
pub proof fn lemma_initial_wf(requests: Seq<RequestView>)
    ensures
        AppView::initial(requests).wf(),
{
}

/// A tick changes nothing and asks for nothing.
pub proof fn lemma_tick_changes_nothing(state: AppView)
    ensures
        state.step(Event::Tick) == state,
        state.effect(Event::Tick) == EffectView::Nothing,
{
}

/// A new request has no identifier: it is given one only by the answer of
/// the store to its first save.
pub proof fn lemma_new_record_has_no_identifier(state: AppView, modifiers: u8)
    requires
        state.input_status == InputStatus::NORMAL,
        state.has_room(),
    ensures
        state.step(char_key('n', modifiers)).requests == state.requests.push(state.new_record()),
        state.new_record().db_id.len() == 0,
        state.effect(char_key('n', modifiers)) == (EffectView::Create {
            record: state.new_record(),
        }),
{
}

/// While navigating, `x` asks for the selected request to be removed from
/// the store and changes nothing: the request leaves the list only with
/// the answer of the store.
pub proof fn lemma_removal_waits_for_the_store(state: AppView, modifiers: u8)
    requires
        state.input_status == InputStatus::NORMAL,
    ensures
        state.step(char_key('x', modifiers)) == state,
        state.effect(char_key('x', modifiers)) == state.delete_effect(),
        state.has_selection() ==> state.effect(char_key('x', modifiers)) == (EffectView::Delete {
            id: state.requests[state.req_index as int].db_id,
        }),
{
}

/// While navigating, each `n` on a list that began empty leaves as many
/// requests as there were presses, the last of them selected. The list
/// holds no more requests than the machine can count.
pub proof fn lemma_new_records(state: AppView, modifiers: u8, count: nat)
    requires
        state.requests.len() == 0,
        state.input_status == InputStatus::NORMAL,
        0 < count <= usize::MAX,
    ensures
        repeated(state, char_key('n', modifiers), count).requests.len() == count,
        repeated(state, char_key('n', modifiers), count).req_index == count - 1,
        repeated(state, char_key('n', modifiers), count).input_status == InputStatus::NORMAL,
    decreases count,
{
    let event = char_key('n', modifiers);
    let before = repeated(state, event, (count - 1) as nat);
    if count > 1 {
        lemma_new_records(state, modifiers, (count - 1) as nat);
    }
    assert(repeated(state, event, count) == before.with_new_record());
}

/// While navigating the list, `count` presses of `j` move the selection
/// `count` requests on, around the end of the list, and leave the requests
/// as they are.
pub proof fn lemma_next_moves(state: AppView, modifiers: u8, count: nat)
    requires
        state.wf(),
        state.input_status == InputStatus::NORMAL,
        state.sel_element == SelElement::LIST,
        state.requests.len() > 0,
        count <= state.requests.len(),
    ensures
        repeated(state, char_key('j', modifiers), count).req_index == index_after_next(
            state.req_index,
            state.requests.len(),
            count,
        ),
        repeated(state, char_key('j', modifiers), count).requests == state.requests,
        repeated(state, char_key('j', modifiers), count).input_status == InputStatus::NORMAL,
        repeated(state, char_key('j', modifiers), count).sel_element == SelElement::LIST,
    decreases count,
{
    if count > 0 {
        lemma_next_moves(state, modifiers, (count - 1) as nat);
        let before = repeated(state, char_key('j', modifiers), (count - 1) as nat);
        let len = state.requests.len();
        if before.req_index + 1 < len {
            lemma_small_mod(before.req_index + 1, len);
        } else {
            lemma_mod_self_0(len as int);
        }
    }
}

/// Circular navigation forward: while navigating the list, as many presses
/// of `j` as there are requests lead back to the request that was
/// selected.
pub proof fn lemma_next_comes_round(state: AppView, modifiers: u8)
    requires
        state.wf(),
        state.input_status == InputStatus::NORMAL,
        state.sel_element == SelElement::LIST,
    ensures
        repeated(state, char_key('j', modifiers), state.requests.len()).req_index
            == state.req_index,
        repeated(state, char_key('j', modifiers), state.requests.len()).requests
            == state.requests,
{
    if state.requests.len() > 0 {
        lemma_next_moves(state, modifiers, state.requests.len());
    }
}

/// While navigating the list, `count` presses of `k` move the selection
/// `count` requests back, around the start of the list, and leave the
/// requests as they are.
pub proof fn lemma_previous_moves(state: AppView, modifiers: u8, count: nat)
    requires
        state.wf(),
        state.input_status == InputStatus::NORMAL,
        state.sel_element == SelElement::LIST,
        state.requests.len() > 0,
        count <= state.requests.len(),
    ensures
        repeated(state, char_key('k', modifiers), count).req_index == index_after_previous(
            state.req_index,
            state.requests.len(),
            count,
        ),
        repeated(state, char_key('k', modifiers), count).requests == state.requests,
        repeated(state, char_key('k', modifiers), count).input_status == InputStatus::NORMAL,
        repeated(state, char_key('k', modifiers), count).sel_element == SelElement::LIST,
    decreases count,
{
    if count > 0 {
        lemma_previous_moves(state, modifiers, (count - 1) as nat);
    }
}

/// Circular navigation backward: while navigating the list, as many
/// presses of `k` as there are requests lead back to the request that was
/// selected.
pub proof fn lemma_previous_comes_round(state: AppView, modifiers: u8)
    requires
        state.wf(),
        state.input_status == InputStatus::NORMAL,
        state.sel_element == SelElement::LIST,
    ensures
        repeated(state, char_key('k', modifiers), state.requests.len()).req_index
            == state.req_index,
        repeated(state, char_key('k', modifiers), state.requests.len()).requests
            == state.requests,
{
    if state.requests.len() > 0 {
        lemma_previous_moves(state, modifiers, state.requests.len());
    }
}

/// Circular navigation between the edit buffers: while navigating the
/// detail panel, four presses of `j`, or of `k`, lead back to the edit
/// buffer that was focused.
pub proof fn lemma_field_comes_round(state: AppView, c: char, modifiers: u8)
    requires
        state.wf(),
        state.input_status == InputStatus::NORMAL,
        state.sel_element == SelElement::INFOPANEL,
        c == 'j' || c == 'k',
    ensures
        repeated(state, char_key(c, modifiers), 4).input_index == state.input_index,
        repeated(state, char_key(c, modifiers), 4).requests == state.requests,
        repeated(state, char_key(c, modifiers), 4).inputs == state.inputs,
{
    let event = char_key(c, modifiers);
    let once = state.step(event);
    let twice = once.step(event);
    let thrice = twice.step(event);
    assert(repeated(state, event, 0) == state);
    assert(repeated(state, event, 1) == once);
    assert(repeated(state, event, 2) == twice);
    assert(repeated(state, event, 3) == thrice);
}

/// Swapping the selected request with the next keeps the requests, each as
/// often as it was there, and the selection stays on the request that
/// moved.
pub proof fn lemma_lowered_keeps_records(state: AppView)
    requires
        state.wf(),
    ensures
        state.lowered().requests.len() == state.requests.len(),
        state.lowered().requests.to_multiset() == state.requests.to_multiset(),
        state.has_selection() ==> state.lowered().has_selection()
            && state.lowered().requests[state.lowered().req_index as int]
            == state.requests[state.req_index as int],
        state.can_lower() ==> state.lowered().req_index == state.req_index + 1,
{
    if state.can_lower() {
        let i = state.req_index as int;
        let taken = state.requests.remove(i);
        to_multiset_remove(state.requests, i);
        to_multiset_insert(taken, i + 1, state.requests[i]);
        assert(state.lowered().requests =~= taken.insert(i + 1, state.requests[i]));
        assert(state.requests.to_multiset().count(state.requests[i]) > 0) by {
            state.requests.to_multiset_ensures();
        }
    }
}

/// Swapping the selected request with the previous keeps the requests,
/// each as often as it was there, and the selection stays on the request
/// that moved.
pub proof fn lemma_raised_keeps_records(state: AppView)
    requires
        state.wf(),
    ensures
        state.raised().requests.len() == state.requests.len(),
        state.raised().requests.to_multiset() == state.requests.to_multiset(),
        state.has_selection() ==> state.raised().has_selection()
            && state.raised().requests[state.raised().req_index as int]
            == state.requests[state.req_index as int],
        state.can_raise() ==> state.raised().req_index == state.req_index - 1,
{
    if state.can_raise() {
        let i = state.req_index as int;
        let taken = state.requests.remove(i);
        to_multiset_remove(state.requests, i);
        to_multiset_insert(taken, i - 1, state.requests[i]);
        assert(state.raised().requests =~= taken.insert(i - 1, state.requests[i]));
        assert(state.requests.to_multiset().count(state.requests[i]) > 0) by {
            state.requests.to_multiset_ensures();
        }
    }
}

/// Whatever the mode and the focus, `J` and `K` keep the requests, each as
/// often as it was there, and leave the selection on the request on which
/// it was.
pub proof fn lemma_swap_keys_keep_records(state: AppView, c: char, modifiers: u8)
    requires
        state.wf(),
        c == 'J' || c == 'K',
    ensures
        state.step(char_key(c, modifiers)).requests.len() == state.requests.len(),
        state.step(char_key(c, modifiers)).requests.to_multiset()
            == state.requests.to_multiset(),
        state.has_selection() ==> state.step(char_key(c, modifiers)).has_selection()
            && state.step(char_key(c, modifiers)).requests[state.step(
            char_key(c, modifiers),
        ).req_index as int] == state.requests[state.req_index as int],
{
    lemma_lowered_keeps_records(state);
    lemma_raised_keeps_records(state);
}

/// Once the only request is removed the list is empty and every edit
/// buffer is blank.
pub proof fn lemma_delete_only_record(state: AppView)
    requires
        state.wf(),
        state.requests.len() == 1,
    ensures
        state.deleted().requests.len() == 0,
        state.deleted().req_index == 0,
        state.deleted().inputs == blank_fields(),
{
}

/// Taking an edit gives the field of the selected request that the focused
/// buffer stands for the text of the buffer: name, url and body take any
/// text, the method takes a verb of the vocabulary and otherwise stays as
/// it was. The other fields stay as they were, text entry ends, and the
/// request is handed out to be stored as it stands then.
pub proof fn lemma_commit_takes_edit(state: AppView, modifiers: u8)
    requires
        state.wf(),
        state.input_status == InputStatus::INSERT,
        state.has_selection(),
    ensures
        ({
            let event = named_key(KeyCode::Enter, modifiers);
            let text = state.inputs[state.input_index as int].text;
            let before = state.requests[state.req_index as int];
            let after = state.step(event).requests[state.req_index as int];
            &&& state.step(event).requests.len() == state.requests.len()
            &&& state.step(event).req_index == state.req_index
            &&& state.step(event).input_status == InputStatus::NORMAL
            &&& state.effect(event) == save_effect(after)
            &&& after.name == if state.input_index == 0 {
                text
            } else {
                before.name
            }
            &&& after.req_type == if state.input_index == 1 && is_http_verb(text) {
                text
            } else {
                before.req_type
            }
            &&& after.url == if state.input_index == 2 {
                text
            } else {
                before.url
            }
            &&& after.body == if state.input_index == 3 {
                text
            } else {
                before.body
            }
            &&& after.resp == before.resp
            &&& after.status == before.status
            &&& after.db_id == before.db_id
        }),
{
}

/// The state after the characters of `text` were typed one after another.
pub open spec fn typed_text(state: AppView, text: Seq<char>, modifiers: u8) -> AppView
    decreases text.len(),
{
    if text.len() == 0 {
        state
    } else {
        typed_text(state, text.drop_last(), modifiers).step(char_key(text.last(), modifiers))
    }
}

/// During text entry, characters typed with the cursor at the end of the
/// focused edit buffer are appended to its text, and nothing else changes.
pub proof fn lemma_typing_appends(state: AppView, text: Seq<char>, modifiers: u8)
    requires
        state.wf(),
        state.input_status == InputStatus::INSERT,
        modifiers == MOD_NONE || modifiers == MOD_SHIFT,
        state.inputs[state.input_index as int].cursor
            == state.inputs[state.input_index as int].text.len(),
    ensures
        typed_text(state, text, modifiers) == (AppView {
            inputs: state.inputs.update(
                state.input_index as int,
                FieldView::of(state.inputs[state.input_index as int].text + text),
            ),
            ..state
        }),
    decreases text.len(),
{
    let at = state.input_index as int;
    let field = state.inputs[at];
    if text.len() == 0 {
        assert(state.inputs.update(at, FieldView::of(field.text + text)) =~= state.inputs);
    } else {
        let front = text.drop_last();
        lemma_typing_appends(state, front, modifiers);
        let before = typed_text(state, front, modifiers);
        let grown = field.text + front;
        assert(grown.subrange(0, grown.len() as int) =~= grown);
        assert(grown.push(text.last()) + grown.subrange(grown.len() as int, grown.len() as int)
            =~= field.text + text);
        assert(before.step(char_key(text.last(), modifiers)).inputs =~= state.inputs.update(
            at,
            FieldView::of(field.text + text),
        ));
    }
}

/// Leaving text entry with `Esc` changes no request, whatever the edit
/// buffers hold, and asks for nothing.
pub proof fn lemma_escape_keeps_records(state: AppView, modifiers: u8)
    requires
        state.input_status == InputStatus::INSERT,
    ensures
        state.step(named_key(KeyCode::Esc, modifiers)).requests == state.requests,
        state.step(named_key(KeyCode::Esc, modifiers)).input_status == InputStatus::NORMAL,
        state.step(named_key(KeyCode::Esc, modifiers)).inputs == state.refreshed().inputs,
        state.effect(named_key(KeyCode::Esc, modifiers)) == EffectView::Nothing,
{
}

/// Whenever an event moves the focus to another edit buffer, or from the
/// detail panel back to the list, the response is scrolled back to its
/// start.
pub proof fn lemma_scroll_resets(state: AppView, event: Event)
    requires
        state.wf(),
    ensures
        state.step(event).input_index != state.input_index ==> state.step(event).text_offset
            == (0u16, 0u16),
        state.sel_element == SelElement::INFOPANEL && state.step(event).sel_element
            == SelElement::LIST ==> state.step(event).text_offset == (0u16, 0u16),
{
}

/// What the outside answers changes neither the focus nor the scroll
/// offset nor the mode, and keeps the invariant.
pub proof fn lemma_answers_keep_focus(state: AppView, reply: ReplyView, id: Seq<char>)
    requires
        state.wf(),
    ensures
        state.run_finished(reply).wf(),
        state.stored(id).wf(),
        state.deleted().wf(),
        state.run_finished(reply).sel_element == state.sel_element,
        state.run_finished(reply).input_index == state.input_index,
        state.run_finished(reply).text_offset == state.text_offset,
        state.run_finished(reply).input_status == state.input_status,
        state.stored(id).sel_element == state.sel_element,
        state.stored(id).input_index == state.input_index,
        state.stored(id).text_offset == state.text_offset,
        state.stored(id).input_status == state.input_status,
        state.deleted().sel_element == state.sel_element,
        state.deleted().input_index == state.input_index,
        state.deleted().text_offset == state.text_offset,
        state.deleted().input_status == state.input_status,
{
}

/// The store gives a request its identifier once: the selected request
/// takes the identifier where it has none, and a request that has one
/// keeps it.
pub proof fn lemma_identifier_given_once(state: AppView, id: Seq<char>, at: int)
    requires
        state.wf(),
        0 <= at < state.requests.len(),
    ensures
        state.stored(id).requests.len() == state.requests.len(),
        state.stored(id).requests[at].db_id == if at == state.req_index
            && state.requests[at].db_id.len() == 0 {
            id
        } else {
            state.requests[at].db_id
        },
{
}

/// No event and no answer of the runner takes a request out of the list or
/// changes its identifier: a request that stood at `at` stands in the list
/// afterwards, at the place [`place_after`], with the identifier it had.
pub proof fn lemma_identifier_is_kept(state: AppView, event: Event, reply: ReplyView, at: int)
    requires
        state.wf(),
        0 <= at < state.requests.len(),
    ensures
        0 <= place_after(state, event, at) < state.step(event).requests.len(),
        state.step(event).requests[place_after(state, event, at)].db_id
            == state.requests[at].db_id,
        state.run_finished(reply).requests.len() == state.requests.len(),
        state.run_finished(reply).requests[at].db_id == state.requests[at].db_id,
{
}

/// The place to which `event` moves the request that stood at `at`.
pub open spec fn place_after(state: AppView, event: Event, at: int) -> int {
    let selected = state.req_index as int;
    let swaps = state.input_status == InputStatus::NORMAL && (event matches Event::Key(key)
        && key.code matches KeyCode::Char(c) && (c == 'J' && state.can_lower() || c == 'K'
        && state.can_raise()));
    if !swaps {
        at
    } else if at == selected {
        state.step(event).req_index as int
    } else if at == state.step(event).req_index {
        selected
    } else {
        at
    }
}

} // verus!

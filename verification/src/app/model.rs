//! The interaction state as a mathematical value, and its transitions.

use vstd::prelude::*;

use crate::app::field::FieldView;
use crate::app::method::is_http_verb;
use crate::app::naming::default_name;
use crate::app::request::{CallView, ReplyView, RequestView, REQ_FIELD_COUNT};
use crate::app::{InputStatus, SelElement};
use crate::event::{Event, KeyCode, KeyEvent};

verus! {

/// Mathematical value of the interaction state.
pub struct AppView {
    /// False once the client was told to quit.
    pub is_running: bool,
    /// Index of the selected request.
    pub req_index: nat,
    pub requests: Seq<RequestView>,
    /// The edit buffers of name, method, url and body, in this order.
    pub inputs: Seq<FieldView>,
    /// Index of the focused edit buffer.
    pub input_index: nat,
    /// Row and column by which the response is scrolled.
    pub text_offset: (u16, u16),
    pub input_status: InputStatus,
    pub sel_element: SelElement,
}

/// Mathematical value of what a transition asks the outside to do.
pub enum EffectView {
    /// Nothing.
    Nothing,
    /// Send a request.
    Run { call: CallView },
    /// Store a record that has no identifier yet.
    Create { record: RequestView },
    /// Store a record again under its identifier.
    Update { id: Seq<char>, record: RequestView },
    /// Remove the record stored under an identifier.
    Delete { id: Seq<char> },
}

/// Number of edit buffers.
pub open spec fn field_count() -> nat {
    REQ_FIELD_COUNT as nat
}

/// The edit buffers that show `request`.
pub open spec fn fields_of(request: RequestView) -> Seq<FieldView> {
    seq![
        FieldView::of(request.name),
        FieldView::of(request.req_type),
        FieldView::of(request.url),
        FieldView::of(request.body),
    ]
}

/// Four empty edit buffers.
pub open spec fn blank_fields() -> Seq<FieldView> {
    seq![FieldView::blank(), FieldView::blank(), FieldView::blank(), FieldView::blank()]
}

/// The edit buffers that show the request at `index`: blank where there is
/// none.
pub open spec fn shown(requests: Seq<RequestView>, index: nat) -> Seq<FieldView> {
    if index < requests.len() {
        fields_of(requests[index as int])
    } else {
        blank_fields()
    }
}

/// `request` with `text` as the value of the field at `index`. A method is
/// only taken where it is a verb of the vocabulary.
pub open spec fn with_field(request: RequestView, index: nat, text: Seq<char>) -> RequestView {
    if index == 0 {
        RequestView { name: text, ..request }
    } else if index == 1 {
        if is_http_verb(text) {
            RequestView { req_type: text, ..request }
        } else {
            request
        }
    } else if index == 2 {
        RequestView { url: text, ..request }
    } else if index == 3 {
        RequestView { body: text, ..request }
    } else {
        request
    }
}

/// What storing `record` asks for: a first save where it has no identifier,
/// a save under its identifier where it has one.
pub open spec fn save_effect(record: RequestView) -> EffectView {
    if record.db_id.len() == 0 {
        EffectView::Create { record }
    } else {
        EffectView::Update { id: record.db_id, record }
    }
}

/// One more than `offset`, as far as the offset can count.
pub open spec fn offset_after(offset: u16) -> u16 {
    if offset < u16::MAX {
        (offset + 1) as u16
    } else {
        offset
    }
}

/// One less than `offset`, but not less than zero.
pub open spec fn offset_before(offset: u16) -> u16 {
    if offset > 0 {
        (offset - 1) as u16
    } else {
        offset
    }
}

impl AppView {
    /// The invariant of the interaction state: there are four edit buffers
    /// and one of them is focused, the selection is an index into the
    /// request list unless the list is empty, and text is only edited with
    /// the focus on the detail panel.
    pub open spec fn wf(self) -> bool {
        &&& self.inputs.len() == field_count()
        &&& forall|i: int| 0 <= i < self.inputs.len() ==> (#[trigger] self.inputs[i]).wf()
        &&& self.input_index < field_count()
        &&& (self.req_index == 0 || self.req_index < self.requests.len())
        &&& (self.input_status == InputStatus::INSERT ==> self.sel_element
            == SelElement::INFOPANEL)
    }

    /// The state in which the client starts, with the requests that the
    /// store held.
    pub open spec fn initial(requests: Seq<RequestView>) -> AppView {
        AppView {
            is_running: true,
            req_index: 0,
            requests,
            inputs: shown(requests, 0),
            input_index: 0,
            text_offset: (0, 0),
            input_status: InputStatus::NORMAL,
            sel_element: SelElement::LIST,
        }
    }

    /// True where a request is selected.
    pub open spec fn has_selection(self) -> bool {
        self.req_index < self.requests.len()
    }

    /// The edit buffers filled again from the selected request.
    pub open spec fn refreshed(self) -> AppView {
        AppView { inputs: shown(self.requests, self.req_index), ..self }
    }

    /// The client told to quit.
    pub open spec fn stopped(self) -> AppView {
        AppView { is_running: false, ..self }
    }

    /// The selection moved to the next request, to the first after the
    /// last, and the edit buffers filled from it.
    pub open spec fn next_record(self) -> AppView {
        if self.requests.len() == 0 {
            self
        } else {
            AppView {
                req_index: (self.req_index + 1) % self.requests.len(),
                ..self
            }.refreshed()
        }
    }

    /// The selection moved to the previous request and the edit buffers
    /// filled from it; from the first request the selection moves to the
    /// last, and the edit buffers stay as they are.
    pub open spec fn previous_record(self) -> AppView {
        if self.requests.len() == 0 {
            self
        } else if self.req_index == 0 {
            AppView { req_index: (self.requests.len() - 1) as nat, ..self }
        } else {
            AppView { req_index: (self.req_index - 1) as nat, ..self }.refreshed()
        }
    }

    /// True where the selected request has one behind it.
    pub open spec fn can_lower(self) -> bool {
        self.sel_element == SelElement::LIST && self.req_index + 1 < self.requests.len()
    }

    /// The selected request swapped with the next, the selection with it.
    pub open spec fn lowered(self) -> AppView {
        if self.can_lower() {
            let i = self.req_index as int;
            AppView {
                requests: self.requests.update(i, self.requests[i + 1]).update(
                    i + 1,
                    self.requests[i],
                ),
                req_index: self.req_index + 1,
                ..self
            }
        } else {
            self
        }
    }

    /// True where the selected request has one in front of it.
    pub open spec fn can_raise(self) -> bool {
        self.sel_element == SelElement::LIST && 0 < self.req_index < self.requests.len()
    }

    /// The selected request swapped with the previous, the selection with
    /// it.
    pub open spec fn raised(self) -> AppView {
        if self.can_raise() {
            let i = self.req_index as int;
            AppView {
                requests: self.requests.update(i, self.requests[i - 1]).update(
                    i - 1,
                    self.requests[i],
                ),
                req_index: (self.req_index - 1) as nat,
                ..self
            }
        } else {
            self
        }
    }

    /// The focus moved to the next edit buffer, to the first after the
    /// last, and the response scrolled back to its start.
    pub open spec fn next_field(self) -> AppView {
        AppView {
            text_offset: (0, 0),
            input_index: (self.input_index + 1) % field_count(),
            ..self
        }
    }

    /// The focus moved to the previous edit buffer, to the last from the
    /// first, and the response scrolled back to its start.
    pub open spec fn previous_field(self) -> AppView {
        AppView {
            text_offset: (0, 0),
            input_index: if self.input_index == 0 {
                (field_count() - 1) as nat
            } else {
                (self.input_index - 1) as nat
            },
            ..self
        }
    }

    /// `j`: the next request in the list, the next edit buffer in the
    /// detail panel.
    pub open spec fn stepped_down(self) -> AppView {
        match self.sel_element {
            SelElement::LIST => self.next_record(),
            SelElement::INFOPANEL => self.next_field(),
        }
    }

    /// `k`: the previous request in the list, the previous edit buffer in
    /// the detail panel.
    pub open spec fn stepped_up(self) -> AppView {
        match self.sel_element {
            SelElement::LIST => self.previous_record(),
            SelElement::INFOPANEL => self.previous_field(),
        }
    }

    /// The response scrolled down by a row, in the detail panel.
    pub open spec fn scrolled_down(self) -> AppView {
        if self.sel_element == SelElement::INFOPANEL {
            AppView { text_offset: (offset_after(self.text_offset.0), self.text_offset.1), ..self }
        } else {
            self
        }
    }

    /// The response scrolled up by a row, in the detail panel.
    pub open spec fn scrolled_up(self) -> AppView {
        if self.sel_element == SelElement::INFOPANEL {
            AppView {
                text_offset: (offset_before(self.text_offset.0), self.text_offset.1),
                ..self
            }
        } else {
            self
        }
    }

    /// The response scrolled left by a column.
    pub open spec fn scrolled_left(self) -> AppView {
        AppView { text_offset: (self.text_offset.0, offset_before(self.text_offset.1)), ..self }
    }

    /// The response scrolled right by a column.
    pub open spec fn scrolled_right(self) -> AppView {
        AppView { text_offset: (self.text_offset.0, offset_after(self.text_offset.1)), ..self }
    }

    /// The focus moved to the other half of the screen. On the way back to
    /// the list the first edit buffer is focused and the response scrolled
    /// back to its start.
    pub open spec fn toggled(self) -> AppView {
        match self.sel_element {
            SelElement::LIST => AppView { sel_element: SelElement::INFOPANEL, ..self },
            SelElement::INFOPANEL => AppView {
                sel_element: SelElement::LIST,
                input_index: 0,
                text_offset: (0, 0),
                ..self
            },
        }
    }

    /// Text entry begun, with the focus on the detail panel.
    pub open spec fn editing(self) -> AppView {
        AppView {
            input_status: InputStatus::INSERT,
            sel_element: SelElement::INFOPANEL,
            ..self
        }
    }

    /// The selected request with a run started.
    pub open spec fn run_started(self) -> AppView {
        if self.has_selection() {
            let i = self.req_index as int;
            AppView { requests: self.requests.update(i, self.requests[i].started()), ..self }
        } else {
            self
        }
    }

    /// What starting a run asks for.
    pub open spec fn run_effect(self) -> EffectView {
        if self.has_selection() {
            match self.requests[self.req_index as int].call() {
                Some(call) => EffectView::Run { call },
                None => EffectView::Nothing,
            }
        } else {
            EffectView::Nothing
        }
    }

    /// The request that `n` appends.
    pub open spec fn new_record(self) -> RequestView {
        RequestView::blank(default_name(self.requests.len() + 1))
    }

    /// A new request appended, selected and shown in the edit buffers.
    pub open spec fn with_new_record(self) -> AppView {
        AppView {
            requests: self.requests.push(self.new_record()),
            req_index: self.requests.len(),
            ..self
        }.refreshed()
    }

    /// True where the list can take one more request.
    pub open spec fn has_room(self) -> bool {
        self.requests.len() < usize::MAX
    }

    /// What `x` asks for: the selected request removed from the store.
    pub open spec fn delete_effect(self) -> EffectView {
        if self.has_selection() {
            EffectView::Delete { id: self.requests[self.req_index as int].db_id }
        } else {
            EffectView::Nothing
        }
    }

    /// The state after a key was pressed while navigating. `x` changes
    /// nothing by itself, and `n` changes nothing once the list holds as
    /// many requests as the machine can count.
    pub open spec fn navigated(self, code: KeyCode) -> AppView {
        match code {
            KeyCode::Esc => self.stopped(),
            KeyCode::Down => self.scrolled_down(),
            KeyCode::Up => self.scrolled_up(),
            KeyCode::Left => self.scrolled_left(),
            KeyCode::Right => self.scrolled_right(),
            KeyCode::Enter => self.run_started(),
            KeyCode::Char(c) => {
                if c == 'q' {
                    self.stopped()
                } else if c == 'j' {
                    self.stepped_down()
                } else if c == 'J' {
                    self.lowered()
                } else if c == 'k' {
                    self.stepped_up()
                } else if c == 'K' {
                    self.raised()
                } else if c == 'i' {
                    self.editing()
                } else if c == 'h' || c == 'l' {
                    self.toggled()
                } else if c == 'n' && self.has_room() {
                    self.with_new_record()
                } else {
                    self
                }
            },
            _ => self,
        }
    }

    /// What a key pressed while navigating asks for.
    pub open spec fn navigation_effect(self, code: KeyCode) -> EffectView {
        match code {
            KeyCode::Enter => self.run_effect(),
            KeyCode::Char(c) => {
                if c == 'n' && self.has_room() {
                    EffectView::Create { record: self.new_record() }
                } else if c == 'x' {
                    self.delete_effect()
                } else {
                    EffectView::Nothing
                }
            },
            _ => EffectView::Nothing,
        }
    }

    /// Text entry left without taking the edit: the edit buffers are filled
    /// again from the selected request.
    pub open spec fn edit_cancelled(self) -> AppView {
        AppView { input_status: InputStatus::NORMAL, ..self }.refreshed()
    }

    /// The text of the focused edit buffer.
    pub open spec fn focused_text(self) -> Seq<char> {
        self.inputs[self.input_index as int].text
    }

    /// The selected request with the text of the focused edit buffer taken
    /// as the value of its field.
    pub open spec fn committed_record(self) -> RequestView {
        with_field(self.requests[self.req_index as int], self.input_index, self.focused_text())
    }

    /// The selected request with the edit of the focused buffer taken. The
    /// edit buffers are filled again where a method was edited, whether it
    /// was taken or not.
    pub open spec fn field_taken(self) -> AppView {
        let taken = AppView {
            requests: self.requests.update(self.req_index as int, self.committed_record()),
            ..self
        };
        if self.input_index == 1 {
            taken.refreshed()
        } else {
            taken
        }
    }

    /// Text entry left with the edit taken. With no request selected
    /// nothing happens, and text entry goes on.
    pub open spec fn edit_committed(self) -> AppView {
        if self.has_selection() {
            AppView { input_status: InputStatus::NORMAL, ..self.field_taken() }
        } else {
            self
        }
    }

    /// What taking an edit asks for: the selected request stored.
    pub open spec fn commit_effect(self) -> EffectView {
        if self.has_selection() {
            save_effect(self.committed_record())
        } else {
            EffectView::Nothing
        }
    }

    /// The focused edit buffer after `key` was pressed in it.
    pub open spec fn typed(self, key: KeyEvent) -> AppView {
        AppView {
            inputs: self.inputs.update(
                self.input_index as int,
                self.inputs[self.input_index as int].edited(key),
            ),
            ..self
        }
    }

    /// The state after a key was pressed during text entry.
    pub open spec fn edited(self, key: KeyEvent) -> AppView {
        match key.code {
            KeyCode::Esc => self.edit_cancelled(),
            KeyCode::Enter => self.edit_committed(),
            _ => self.typed(key),
        }
    }

    /// What a key pressed during text entry asks for.
    pub open spec fn edit_effect(self, key: KeyEvent) -> EffectView {
        match key.code {
            KeyCode::Enter => self.commit_effect(),
            _ => EffectView::Nothing,
        }
    }

    /// The state after `event`.
    pub open spec fn step(self, event: Event) -> AppView {
        match event {
            Event::Tick => self,
            Event::Key(key) => match self.input_status {
                InputStatus::INSERT => self.edited(key),
                InputStatus::NORMAL => self.navigated(key.code),
            },
        }
    }

    /// What `event` asks the outside to do.
    pub open spec fn effect(self, event: Event) -> EffectView {
        match event {
            Event::Tick => EffectView::Nothing,
            Event::Key(key) => match self.input_status {
                InputStatus::INSERT => self.edit_effect(key),
                InputStatus::NORMAL => self.navigation_effect(key.code),
            },
        }
    }

    /// The state after the runner answered the call of the selected
    /// request.
    pub open spec fn run_finished(self, reply: ReplyView) -> AppView {
        if self.has_selection() {
            let i = self.req_index as int;
            AppView { requests: self.requests.update(i, self.requests[i].answered(reply)), ..self }
        } else {
            self
        }
    }

    /// The state after the store gave `id` to the selected request: the
    /// request takes it unless it has an identifier already.
    pub open spec fn stored(self, id: Seq<char>) -> AppView {
        if self.has_selection() && self.requests[self.req_index as int].db_id.len() == 0 {
            let i = self.req_index as int;
            AppView {
                requests: self.requests.update(i, RequestView { db_id: id, ..self.requests[i] }),
                ..self
            }
        } else {
            self
        }
    }

    /// The state after the store removed the selected request: the request
    /// leaves the list, the edit buffers are filled from the request that
    /// took its place, blank where none did, and the selection moves one up
    /// unless it was on the first request.
    pub open spec fn deleted(self) -> AppView {
        if self.has_selection() {
            let rest = self.requests.remove(self.req_index as int);
            AppView {
                requests: rest,
                inputs: shown(rest, self.req_index),
                req_index: if self.req_index > 0 {
                    (self.req_index - 1) as nat
                } else {
                    0
                },
                ..self
            }
        } else {
            self
        }
    }

    /// The invariant holds of every state that an event leads to.
    pub proof fn lemma_step_wf(self, event: Event)
        requires
            self.wf(),
        ensures
            self.step(event).wf(),
    {
    }
}

} // verus!

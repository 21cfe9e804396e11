//! The steps of the interaction state machine.

use vstd::prelude::*;
use vstd::string::StringExecFns;

use crate::app::field::Field;
use crate::app::method::checked_verb;
use crate::app::model::{save_effect, shown, AppView, EffectView};
use crate::app::naming::request_name;
use crate::app::request::{Reply, Request};
use crate::app::{field_views, request_views, Effect, InputStatus, SelElement};
use crate::event::{Event, KeyCode, KeyEvent};

verus! {

/// The parts of the interaction state, with nothing said of how they fit
/// together.
#[derive(Debug)]
pub(crate) struct State {
    is_running: bool,
    req_index: usize,
    requests: Vec<Request>,
    inputs: Vec<Field>,
    input_index: usize,
    text_offset: (u16, u16),
    input_status: InputStatus,
    sel_element: SelElement,
}

impl View for State {
    type V = AppView;

    closed spec fn view(&self) -> AppView {
        AppView {
            is_running: self.is_running,
            req_index: self.req_index as nat,
            requests: request_views(self.requests@),
            inputs: field_views(self.inputs@),
            input_index: self.input_index as nat,
            text_offset: self.text_offset,
            input_status: self.input_status,
            sel_element: self.sel_element,
        }
    }
}

/// Makes the edit buffers that show the request at `index`.
fn show(requests: &Vec<Request>, index: usize) -> (fields: Vec<Field>)
    ensures
        field_views(fields@) == shown(request_views(requests@), index as nat),
{
    let mut fields: Vec<Field> = Vec::new();
    if index < requests.len() {
        let request = &requests[index];
        fields.push(Field::new(request.name.clone()));
        fields.push(Field::new(request.req_type.clone()));
        fields.push(Field::new(request.url.clone()));
        fields.push(Field::new(request.body.clone()));
    } else {
        fields.push(Field::blank());
        fields.push(Field::blank());
        fields.push(Field::blank());
        fields.push(Field::blank());
    }
    fields
}

impl State {
    /// The state in which the client starts.
    pub(crate) fn new(requests: Vec<Request>) -> (state: State)
        ensures
            state@ == AppView::initial(request_views(requests@)),
            state@.wf(),
    {
        let inputs = show(&requests, 0);
        State {
            is_running: true,
            req_index: 0,
            requests,
            inputs,
            input_index: 0,
            text_offset: (0, 0),
            input_status: InputStatus::NORMAL,
            sel_element: SelElement::LIST,
        }
    }

    pub(crate) fn is_running(&self) -> (running: bool)
        ensures
            running == self@.is_running,
    {
        self.is_running
    }

    pub(crate) fn req_index(&self) -> (index: usize)
        ensures
            index == self@.req_index,
    {
        self.req_index
    }

    pub(crate) fn requests(&self) -> (requests: &Vec<Request>)
        ensures
            request_views(requests@) == self@.requests,
    {
        &self.requests
    }

    pub(crate) fn inputs(&self) -> (inputs: &Vec<Field>)
        ensures
            field_views(inputs@) == self@.inputs,
    {
        &self.inputs
    }

    pub(crate) fn input_index(&self) -> (index: usize)
        ensures
            index == self@.input_index,
    {
        self.input_index
    }

    pub(crate) fn text_offset(&self) -> (offset: (u16, u16))
        ensures
            offset == self@.text_offset,
    {
        self.text_offset
    }

    pub(crate) fn input_status(&self) -> (status: InputStatus)
        ensures
            status == self@.input_status,
    {
        self.input_status
    }

    pub(crate) fn sel_element(&self) -> (element: SelElement)
        ensures
            element == self@.sel_element,
    {
        self.sel_element
    }

    /// Fills the edit buffers from the selected request.
    fn update_inputs(&mut self)
        ensures
            final(self)@ == old(self)@.refreshed(),
    {
        self.inputs = show(&self.requests, self.req_index);
    }

    /// Selects the next request of the list.
    fn next_record(&mut self)
        requires
            old(self)@.wf(),
        ensures
            final(self)@ == old(self)@.next_record(),
    {
        if self.requests.len() > 0 {
            self.req_index = (self.req_index + 1) % self.requests.len();
            self.update_inputs();
        }
    }

    /// Selects the previous request of the list.
    fn previous_record(&mut self)
        requires
            old(self)@.wf(),
        ensures
            final(self)@ == old(self)@.previous_record(),
    {
        if self.requests.len() > 0 {
            if self.req_index == 0 {
                self.req_index = self.requests.len() - 1;
            } else {
                self.req_index = self.req_index - 1;
                self.update_inputs();
            }
        }
    }

    /// Swaps the selected request with the next.
    fn lower_record(&mut self)
        requires
            old(self)@.wf(),
        ensures
            final(self)@ == old(self)@.lowered(),
    {
        let i = self.req_index;
        if self.sel_element == SelElement::LIST && i < self.requests.len() && i + 1
            < self.requests.len() {
            let moved = self.requests.remove(i);
            self.requests.insert(i + 1, moved);
            self.req_index = i + 1;
            assert(self@.requests =~= old(self)@.lowered().requests);
        }
    }

    /// Swaps the selected request with the previous.
    fn raise_record(&mut self)
        requires
            old(self)@.wf(),
        ensures
            final(self)@ == old(self)@.raised(),
    {
        let i = self.req_index;
        if self.sel_element == SelElement::LIST && 0 < i && i < self.requests.len() {
            self.req_index = i - 1;
            let moved = self.requests.remove(i);
            self.requests.insert(i - 1, moved);
            assert(self@.requests =~= old(self)@.raised().requests);
        }
    }

    /// Focuses the next edit buffer.
    fn next_field(&mut self)
        requires
            old(self)@.wf(),
        ensures
            final(self)@ == old(self)@.next_field(),
    {
        self.text_offset = (0, 0);
        self.input_index = (self.input_index + 1) % self.inputs.len();
    }

    /// Focuses the previous edit buffer.
    fn previous_field(&mut self)
        requires
            old(self)@.wf(),
        ensures
            final(self)@ == old(self)@.previous_field(),
    {
        self.text_offset = (0, 0);
        if self.input_index == 0 {
            self.input_index = self.inputs.len() - 1;
        } else {
            self.input_index = self.input_index - 1;
        }
    }

    /// Moves the focus to the other half of the screen.
    fn toggle_focus(&mut self)
        requires
            old(self)@.wf(),
        ensures
            final(self)@ == old(self)@.toggled(),
    {
        match self.sel_element {
            SelElement::LIST => {
                self.sel_element = SelElement::INFOPANEL;
            },
            SelElement::INFOPANEL => {
                self.input_index = 0;
                self.text_offset = (0, 0);
                self.sel_element = SelElement::LIST;
            },
        }
    }

    /// Starts a run of the selected request.
    fn start_run(&mut self) -> (effect: Effect)
        requires
            old(self)@.wf(),
        ensures
            final(self)@ == old(self)@.run_started(),
            effect@ == old(self)@.run_effect(),
    {
        let i = self.req_index;
        if i < self.requests.len() {
            let call = self.requests[i].run_req();
            assert(self@.requests =~= old(self)@.run_started().requests);
            match call {
                Some(call) => Effect::Run { call },
                None => Effect::Nothing,
            }
        } else {
            Effect::Nothing
        }
    }

    /// Appends a new request and selects it.
    fn add_record(&mut self) -> (effect: Effect)
        requires
            old(self)@.wf(),
            old(self)@.has_room(),
        ensures
            final(self)@ == old(self)@.with_new_record(),
            effect@ == (EffectView::Create { record: old(self)@.new_record() }),
    {
        let count = self.requests.len();
        let name = request_name(count + 1);
        let record = Request::new(name.as_str());
        let copy = record.clone();
        self.requests.push(record);
        self.req_index = count;
        assert(self@.requests =~= old(self)@.requests.push(old(self)@.new_record()));
        self.update_inputs();
        Effect::Create { record: copy }
    }

    /// Asks for the selected request to be removed from the store.
    fn ask_delete(&self) -> (effect: Effect)
        requires
            self@.wf(),
        ensures
            effect@ == self@.delete_effect(),
    {
        if self.req_index < self.requests.len() {
            Effect::Delete { id: self.requests[self.req_index].db_id.clone() }
        } else {
            Effect::Nothing
        }
    }

    /// Handles a key pressed while navigating.
    fn normal_mode_keys(&mut self, code: KeyCode) -> (effect: Effect)
        requires
            old(self)@.wf(),
        ensures
            final(self)@ == old(self)@.navigated(code),
            effect@ == old(self)@.navigation_effect(code),
    {
        match code {
            KeyCode::Esc => {
                self.is_running = false;
                Effect::Nothing
            },
            KeyCode::Down => {
                if self.sel_element == SelElement::INFOPANEL {
                    self.text_offset.0 = self.text_offset.0.saturating_add(1);
                }
                Effect::Nothing
            },
            KeyCode::Up => {
                if self.sel_element == SelElement::INFOPANEL {
                    self.text_offset.0 = self.text_offset.0.saturating_sub(1);
                }
                Effect::Nothing
            },
            KeyCode::Left => {
                self.text_offset.1 = self.text_offset.1.saturating_sub(1);
                Effect::Nothing
            },
            KeyCode::Right => {
                self.text_offset.1 = self.text_offset.1.saturating_add(1);
                Effect::Nothing
            },
            KeyCode::Enter => self.start_run(),
            KeyCode::Char(c) => {
                if c == 'q' {
                    self.is_running = false;
                    Effect::Nothing
                } else if c == 'j' {
                    match self.sel_element {
                        SelElement::LIST => self.next_record(),
                        SelElement::INFOPANEL => self.next_field(),
                    }
                    Effect::Nothing
                } else if c == 'J' {
                    self.lower_record();
                    Effect::Nothing
                } else if c == 'k' {
                    match self.sel_element {
                        SelElement::LIST => self.previous_record(),
                        SelElement::INFOPANEL => self.previous_field(),
                    }
                    Effect::Nothing
                } else if c == 'K' {
                    self.raise_record();
                    Effect::Nothing
                } else if c == 'i' {
                    self.sel_element = SelElement::INFOPANEL;
                    self.input_status = InputStatus::INSERT;
                    Effect::Nothing
                } else if c == 'h' || c == 'l' {
                    self.toggle_focus();
                    Effect::Nothing
                } else if c == 'n' && self.requests.len() < usize::MAX {
                    self.add_record()
                } else if c == 'x' {
                    self.ask_delete()
                } else {
                    Effect::Nothing
                }
            },
            _ => Effect::Nothing,
        }
    }

    /// Takes the text of the focused edit buffer as the value of the field
    /// of the selected request that the buffer stands for.
    fn update_req_info(&mut self)
        requires
            old(self)@.wf(),
            old(self)@.has_selection(),
        ensures
            final(self)@ == old(self)@.field_taken(),
    {
        let text = String::from_str(self.inputs[self.input_index].value());
        let i = self.req_index;
        if self.input_index == 0 {
            self.requests[i].name = text;
        } else if self.input_index == 1 {
            match checked_verb(text.as_str()) {
                Some(verb) => {
                    self.requests[i].req_type = verb;
                },
                None => {},
            }
            self.update_inputs();
        } else if self.input_index == 2 {
            self.requests[i].url = text;
        } else {
            self.requests[i].body = text;
        }
        assert(self@.requests =~= old(self)@.field_taken().requests);
    }

    /// Asks for the selected request to be stored.
    fn save_current_request(&self) -> (effect: Effect)
        requires
            self@.has_selection(),
        ensures
            effect@ == save_effect(self@.requests[self@.req_index as int]),
    {
        let record = self.requests[self.req_index].clone();
        if record.db_id.as_str().is_empty() {
            Effect::Create { record }
        } else {
            Effect::Update { id: record.db_id.clone(), record }
        }
    }

    /// Handles a key pressed during text entry.
    fn insert_mode_keys(&mut self, key: KeyEvent) -> (effect: Effect)
        requires
            old(self)@.wf(),
        ensures
            final(self)@ == old(self)@.edited(key),
            effect@ == old(self)@.edit_effect(key),
    {
        match key.code {
            KeyCode::Esc => {
                self.input_status = InputStatus::NORMAL;
                self.update_inputs();
                Effect::Nothing
            },
            KeyCode::Enter => {
                if self.req_index < self.requests.len() {
                    self.update_req_info();
                    let effect = self.save_current_request();
                    self.input_status = InputStatus::NORMAL;
                    effect
                } else {
                    Effect::Nothing
                }
            },
            _ => {
                self.inputs[self.input_index].handle(&key);
                assert(self@.inputs =~= old(self)@.typed(key).inputs);
                Effect::Nothing
            },
        }
    }

    /// Handles one event: a tick changes nothing, a key is read as text
    /// during text entry and as a command otherwise. What the event asks
    /// the outside to do is handed back.
    pub(crate) fn handle_keys(&mut self, event: Event) -> (effect: Effect)
        requires
            old(self)@.wf(),
        ensures
            final(self)@ == old(self)@.step(event),
            effect@ == old(self)@.effect(event),
            final(self)@.wf(),
    {
        proof {
            old(self)@.lemma_step_wf(event);
        }
        match event {
            Event::Tick => Effect::Nothing,
            Event::Key(key) => match self.input_status {
                InputStatus::INSERT => self.insert_mode_keys(key),
                InputStatus::NORMAL => self.normal_mode_keys(key.code),
            },
        }
    }

    /// Records what the runner answered to the call of the selected
    /// request.
    pub(crate) fn run_finished(&mut self, reply: Reply)
        requires
            old(self)@.wf(),
        ensures
            final(self)@ == old(self)@.run_finished(reply@),
            final(self)@.wf(),
    {
        let i = self.req_index;
        if i < self.requests.len() {
            self.requests[i].record_reply(reply);
            assert(self@.requests =~= old(self)@.run_finished(reply@).requests);
        }
    }

    /// Records the identifier that the store gave to the selected request
    /// on its first save.
    pub(crate) fn stored(&mut self, id: String)
        requires
            old(self)@.wf(),
        ensures
            final(self)@ == old(self)@.stored(id@),
            final(self)@.wf(),
    {
        let i = self.req_index;
        if i < self.requests.len() && self.requests[i].db_id.as_str().is_empty() {
            self.requests[i].db_id = id;
            assert(self@.requests =~= old(self)@.stored(id@).requests);
        }
    }

    /// Takes the selected request out of the list, once the store removed
    /// it.
    pub(crate) fn deleted(&mut self)
        requires
            old(self)@.wf(),
        ensures
            final(self)@ == old(self)@.deleted(),
            final(self)@.wf(),
    {
        let i = self.req_index;
        if i < self.requests.len() {
            self.requests.remove(i);
            assert(self@.requests =~= old(self)@.requests.remove(i as int));
            self.update_inputs();
            if i > 0 {
                self.req_index = i - 1;
            }
        }
    }
}

} // verus!

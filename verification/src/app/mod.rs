//! The interaction state machine.

use vstd::prelude::*;

use crate::app::field::{Field, FieldView};
use crate::app::model::{AppView, EffectView};
use crate::app::request::{Call, Reply, Request, RequestView};
use crate::app::state::State;
use crate::event::Event;

pub mod field;
pub mod laws;
pub mod method;
pub mod model;
pub mod naming;
pub mod request;
mod state;
pub mod ui;

verus! {

/// Whether keys are read as text or as commands.
#[derive(Clone, Copy, Debug, PartialEq, Eq, Structural)]
pub enum InputStatus {
    INSERT,
    NORMAL,
}

/// Which half of the screen receives list-style navigation.
#[derive(Clone, Copy, Debug, PartialEq, Eq, Structural)]
pub enum SelElement {
    LIST,
    INFOPANEL,
}

/// What the state machine asks its caller to do after an event. The caller
/// answers a call that went out with [`App::run_finished`], a first save
/// that succeeded with [`App::stored`] and a removal that succeeded with
/// [`App::deleted`].
#[derive(Debug, PartialEq, Eq)]
pub enum Effect {
    /// Nothing.
    Nothing,
    /// Send a request.
    Run { call: Call },
    /// Store a record that has no identifier yet.
    Create { record: Request },
    /// Store a record again under its identifier.
    Update { id: String, record: Request },
    /// Remove the record stored under an identifier.
    Delete { id: String },
}

impl View for Effect {
    type V = EffectView;

    open spec fn view(&self) -> EffectView {
        match self {
            Effect::Nothing => EffectView::Nothing,
            Effect::Run { call } => EffectView::Run { call: call@ },
            Effect::Create { record } => EffectView::Create { record: record@ },
            Effect::Update { id, record } => EffectView::Update { id: id@, record: record@ },
            Effect::Delete { id } => EffectView::Delete { id: id@ },
        }
    }
}

/// The values of a list of requests.
pub open spec fn request_views(requests: Seq<Request>) -> Seq<RequestView> {
    Seq::new(requests.len(), |i: int| requests[i]@)
}

/// The values of a list of edit buffers.
pub open spec fn field_views(fields: Seq<Field>) -> Seq<FieldView> {
    Seq::new(fields.len(), |i: int| fields[i]@)
}

/// The interaction state: the list of requests, the selection, the edit
/// buffers and the mode. Every value meets [`AppView::wf`].
#[derive(Debug)]
pub struct App {
    state: State,
}

impl View for App {
    type V = AppView;

    closed spec fn view(&self) -> AppView {
        self.state@
    }
}

impl App {
    #[verifier::type_invariant]
    spec fn inv(&self) -> bool {
        self.state@.wf()
    }

    /// Starts the client with the requests that the store held: the first
    /// of them selected and shown, the focus on the list.
    pub fn new(requests: Vec<Request>) -> (app: App)
        ensures
            app@ == AppView::initial(request_views(requests@)),
            app@.wf(),
    {
        App { state: State::new(requests) }
    }

    /// False once the client was told to quit.
    pub fn is_running(&self) -> (running: bool)
        ensures
            running == self@.is_running,
    {
        self.state.is_running()
    }

    /// Index of the selected request: an index into the list unless the
    /// list is empty.
    pub fn req_index(&self) -> (index: usize)
        ensures
            index == self@.req_index,
            self@.wf(),
    {
        proof {
            use_type_invariant(self);
        }
        self.state.req_index()
    }

    /// The requests, in the order of the list.
    pub fn requests(&self) -> (requests: &Vec<Request>)
        ensures
            request_views(requests@) == self@.requests,
    {
        self.state.requests()
    }

    /// The edit buffers of name, method, url and body.
    pub fn inputs(&self) -> (inputs: &Vec<Field>)
        ensures
            field_views(inputs@) == self@.inputs,
            self@.wf(),
    {
        proof {
            use_type_invariant(self);
        }
        self.state.inputs()
    }

    /// Index of the focused edit buffer.
    pub fn input_index(&self) -> (index: usize)
        ensures
            index == self@.input_index,
            self@.wf(),
    {
        proof {
            use_type_invariant(self);
        }
        self.state.input_index()
    }

    /// Row and column by which the response is scrolled.
    pub fn text_offset(&self) -> (offset: (u16, u16))
        ensures
            offset == self@.text_offset,
    {
        self.state.text_offset()
    }

    /// Whether keys are read as text or as commands.
    pub fn input_status(&self) -> (status: InputStatus)
        ensures
            status == self@.input_status,
            self@.wf(),
    {
        proof {
            use_type_invariant(self);
        }
        self.state.input_status()
    }

    /// Which half of the screen has the focus.
    pub fn sel_element(&self) -> (element: SelElement)
        ensures
            element == self@.sel_element,
    {
        self.state.sel_element()
    }

    /// Takes the state out to be worked on. Until it is put back the
    /// starting state of an empty list stands in for it.
    fn take(&mut self) -> (state: State)
        ensures
            state@ == old(self)@,
            state@.wf(),
    {
        proof {
            use_type_invariant(&*self);
        }
        let mut state = State::new(Vec::new());
        core::mem::swap(&mut self.state, &mut state);
        state
    }

    /// Handles one event: a tick changes nothing, a key is read as text
    /// during text entry and as a command otherwise. What the event asks
    /// the outside to do is handed back.
    pub fn handle_keys(&mut self, event: Event) -> (effect: Effect)
        ensures
            final(self)@ == old(self)@.step(event),
            effect@ == old(self)@.effect(event),
            final(self)@.wf(),
    {
        let mut state = self.take();
        let effect = state.handle_keys(event);
        self.state = state;
        effect
    }

    /// Records what the runner answered to the call of the selected
    /// request.
    pub fn run_finished(&mut self, reply: Reply)
        ensures
            final(self)@ == old(self)@.run_finished(reply@),
            final(self)@.wf(),
    {
        let mut state = self.take();
        state.run_finished(reply);
        self.state = state;
    }

    /// Records the identifier that the store gave to the selected request
    /// on its first save. A request that has an identifier keeps it.
    pub fn stored(&mut self, id: String)
        ensures
            final(self)@ == old(self)@.stored(id@),
            final(self)@.wf(),
    {
        let mut state = self.take();
        state.stored(id);
        self.state = state;
    }

    /// Takes the selected request out of the list, once the store removed
    /// it.
    pub fn deleted(&mut self)
        ensures
            final(self)@ == old(self)@.deleted(),
            final(self)@.wf(),
    {
        let mut state = self.take();
        state.deleted();
        self.state = state;
    }
}

} // verus!

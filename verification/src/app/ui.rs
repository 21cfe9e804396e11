//! The projection of the interaction state into what the screen shows.

use tui::layout::{Constraint, Direction as TermDirection, Layout, Rect as TermRect};
use vstd::prelude::*;
use vstd::string::StringExecFns;
use vstd::utf8::encode_utf8;

use crate::app::model::AppView;
use crate::app::request::REQ_FIELD_COUNT;
use crate::app::{field_views, App, InputStatus, SelElement};

verus! {

/// A rectangle of cells of the terminal.
#[derive(Clone, Copy, Debug, PartialEq, Eq, Structural)]
pub struct Rect {
    pub x: u16,
    pub y: u16,
    pub width: u16,
    pub height: u16,
}

/// The direction in which an area is split.
#[derive(Clone, Copy)]
enum Direction {
    Horizontal,
    Vertical,
}

/// The length of `area` along `direction`.
spec fn extent(direction: Direction, area: Rect) -> u16 {
    match direction {
        Direction::Horizontal => area.width,
        Direction::Vertical => area.height,
    }
}

/// The areas that the layout solver can be given: the area ends within the
/// range of the coordinates, twice the margin is a coordinate, and so is
/// the product of each percentage with the length that is split.
spec fn can_split(direction: Direction, margin: u16, percentages: Seq<u16>, area: Rect) -> bool {
    &&& 2 * margin <= u16::MAX
    &&& area.x + area.width <= u16::MAX
    &&& area.y + area.height <= u16::MAX
    &&& forall|i: int|
        0 <= i < percentages.len() ==> (#[trigger] percentages[i]) * extent(direction, area)
            <= u16::MAX
}

/// Splits `area` with `tui::layout::Layout::split`: along `direction`,
/// inside a margin of `margin` cells, into one part for each percentage.
/// The solver works on floating point numbers and walks hash maps, so the
/// contract claims of the parts only that there is one for each
/// percentage. The areas left out are those on which the layout code
/// overflows a coordinate or gives the solver demands that it cannot meet.
#[verifier::external_body]
fn split(direction: Direction, margin: u16, percentages: &Vec<u16>, area: Rect) -> (parts: Vec<
    Rect,
>)
    requires
        can_split(direction, margin, percentages@, area),
    ensures
        parts@.len() == percentages@.len(),
{
    let direction = match direction {
        Direction::Horizontal => TermDirection::Horizontal,
        Direction::Vertical => TermDirection::Vertical,
    };
    let sizes: Vec<Constraint> = percentages.iter().map(|p| Constraint::Percentage(*p)).collect();
    let layout = Layout::default().direction(direction).margin(margin).constraints(sizes);
    let parts = layout.split(TermRect { x: area.x, y: area.y, width: area.width, height: area.height });
    parts.iter().map(|r| Rect { x: r.x, y: r.y, width: r.width, height: r.height }).collect()
}

impl Rect {
    /// True where the rectangle lies within `area`.
    pub open spec fn inside(self, area: Rect) -> bool {
        &&& area.x <= self.x
        &&& area.y <= self.y
        &&& self.x + self.width <= area.x + area.width
        &&& self.y + self.height <= area.y + area.height
    }

    /// The part of the rectangle that lies within `area`: the rectangle
    /// itself where all of it does.
    pub open spec fn clipped(self, area: Rect) -> Rect {
        let left = clamped(self.x as int, area.x as int, area.x + area.width);
        let right = clamped(self.x + self.width, left, area.x + area.width);
        let top = clamped(self.y as int, area.y as int, area.y + area.height);
        let bottom = clamped(self.y + self.height, top, area.y + area.height);
        Rect {
            x: left as u16,
            y: top as u16,
            width: (right - left) as u16,
            height: (bottom - top) as u16,
        }
    }

    /// Cuts the rectangle down to the part that lies within `area`.
    pub fn clip(self, area: Rect) -> (part: Rect)
        ensures
            part == self.clipped(area),
            part.inside(area),
            self.inside(area) ==> part == self,
    {
        let (x, width) = clip_span(self.x, self.width, area.x, area.width);
        let (y, height) = clip_span(self.y, self.height, area.y, area.height);
        Rect { x, y, width, height }
    }
}

/// `value`, or the bound of the range from `low` to `high` that is nearest
/// to it.
pub open spec fn clamped(value: int, low: int, high: int) -> int {
    if value < low {
        low
    } else if value > high {
        high
    } else {
        value
    }
}

/// Cuts the span that starts at `start` and is `length` long down to the
/// span that starts at `low` and is `room` long.
fn clip_span(start: u16, length: u16, low: u16, room: u16) -> (span: (u16, u16))
    ensures
        span.0 == clamped(start as int, low as int, low + room),
        span.0 + span.1 == clamped(start + length, span.0 as int, low + room),
{
    let high: u32 = low as u32 + room as u32;
    let end: u32 = start as u32 + length as u32;
    let first: u32 = if start < low {
        low as u32
    } else if start as u32 > high {
        high
    } else {
        start as u32
    };
    let last: u32 = if end < first {
        first
    } else if end > high {
        high
    } else {
        end
    };
    (first as u16, (last - first) as u16)
}

/// The areas of the screen: the request list on the left, and on the right
/// the four edit buffers, the status line and the response.
#[derive(Clone, Copy, Debug, PartialEq, Eq, Structural)]
pub struct Panels {
    pub list: Rect,
    pub name: Rect,
    pub method: Rect,
    pub url: Rect,
    pub body: Rect,
    pub status: Rect,
    pub response: Rect,
}

impl Panels {
    /// The area of the edit buffer at `index`.
    pub open spec fn field(self, index: nat) -> Rect {
        if index == 0 {
            self.name
        } else if index == 1 {
            self.method
        } else if index == 2 {
            self.url
        } else {
            self.body
        }
    }

    /// True where every panel lies within `area`.
    pub open spec fn inside(self, area: Rect) -> bool {
        &&& self.list.inside(area)
        &&& self.name.inside(area)
        &&& self.method.inside(area)
        &&& self.url.inside(area)
        &&& self.body.inside(area)
        &&& self.status.inside(area)
        &&& self.response.inside(area)
    }

    /// The area of the edit buffer at `index`.
    pub fn field_area(&self, index: usize) -> (area: Rect)
        ensures
            area == self.field(index as nat),
    {
        if index == 0 {
            self.name
        } else if index == 1 {
            self.method
        } else if index == 2 {
            self.url
        } else {
            self.body
        }
    }
}

/// The widest area that can be laid out: the widest whose width is still a
/// coordinate when it is taken eighty times.
pub const MAX_WIDTH: u16 = 819;

/// The highest area that can be laid out: the highest whose height is still
/// a coordinate when it is taken a hundred times.
pub const MAX_HEIGHT: u16 = 655;

/// The areas in which the screen can be laid out: those that end within
/// the range of the coordinates and are no wider than [`MAX_WIDTH`] and no
/// higher than [`MAX_HEIGHT`].
pub open spec fn can_lay_out(area: Rect) -> bool {
    &&& area.x + area.width <= u16::MAX
    &&& area.y + area.height <= u16::MAX
    &&& 80 * area.width <= u16::MAX
    &&& 100 * area.height <= u16::MAX
}

/// Lays the screen out in `area`: a margin of one cell around everything,
/// a fifth of the width for the request list, and the rest divided from
/// top to bottom between the edit buffers, the status line and the
/// response, in the shares 10, 10, 10, 20, 10 and 40 of a hundred. The
/// shares are what the layout solver is asked for; of what it hands back
/// the part within the area it was given is taken, so that every panel
/// lies within `area`.
pub fn panels(area: Rect) -> (laid: Option<Panels>)
    ensures
        laid is Some <==> can_lay_out(area),
        laid is Some ==> laid->Some_0.inside(area),
{
    if area.x > u16::MAX - area.width || area.y > u16::MAX - area.height || area.width
        > MAX_WIDTH || area.height > MAX_HEIGHT {
        return None;
    }
    let whole = vec![100u16];
    assert forall|i: int| 0 <= i < whole@.len() implies (#[trigger] whole@[i]) * area.height
        <= u16::MAX by {
        assert(whole@[i] == 100);
    }
    let outer = split(Direction::Vertical, 1, &whole, area);
    let inner = outer[0].clip(area);

    let columns = vec![20u16, 80u16];
    let halves = split(Direction::Horizontal, 0, &columns, inner);
    let left = halves[0].clip(inner);
    let right = halves[1].clip(inner);

    let heights = vec![10u16, 10u16, 10u16, 20u16, 10u16, 40u16];
    let rows = split(Direction::Vertical, 0, &heights, right);
    Some(
        Panels {
            list: left,
            name: rows[0].clip(right),
            method: rows[1].clip(right),
            url: rows[2].clip(right),
            body: rows[3].clip(right),
            status: rows[4].clip(right),
            response: rows[5].clip(right),
        },
    )
}

/// A framed text of the screen.
#[derive(Debug, PartialEq, Eq)]
pub struct TextBox {
    pub area: Rect,
    pub title: String,
    pub text: String,
    /// True where the box is shown as the focused one.
    pub selected: bool,
}

/// Mathematical value of a [`TextBox`].
pub struct TextBoxView {
    pub area: Rect,
    pub title: Seq<char>,
    pub text: Seq<char>,
    pub selected: bool,
}

impl View for TextBox {
    type V = TextBoxView;

    open spec fn view(&self) -> TextBoxView {
        TextBoxView {
            area: self.area,
            title: self.title@,
            text: self.text@,
            selected: self.selected,
        }
    }
}

/// What the screen shows.
#[derive(Debug, PartialEq, Eq)]
pub struct Screen {
    pub list_area: Rect,
    pub list_title: String,
    /// The names of the requests, in the order of the list.
    pub names: Vec<String>,
    /// Index of the name that is shown as the selected one.
    pub selected: usize,
    /// The four edit buffers.
    pub fields: Vec<TextBox>,
    /// Where the cursor stands; none where it is hidden.
    pub cursor: Option<(u16, u16)>,
    pub status: TextBox,
    pub response: TextBox,
    /// Row and column by which the response is scrolled.
    pub scroll: (u16, u16),
}

/// Mathematical value of a [`Screen`].
pub struct ScreenView {
    pub list_area: Rect,
    pub list_title: Seq<char>,
    pub names: Seq<Seq<char>>,
    pub selected: nat,
    pub fields: Seq<TextBoxView>,
    pub cursor: Option<(u16, u16)>,
    pub status: TextBoxView,
    pub response: TextBoxView,
    pub scroll: (u16, u16),
}

/// The values of a list of texts.
pub open spec fn text_views(texts: Seq<String>) -> Seq<Seq<char>> {
    Seq::new(texts.len(), |i: int| texts[i]@)
}

/// The values of a list of framed texts.
pub open spec fn box_views(boxes: Seq<TextBox>) -> Seq<TextBoxView> {
    Seq::new(boxes.len(), |i: int| boxes[i]@)
}

impl View for Screen {
    type V = ScreenView;

    open spec fn view(&self) -> ScreenView {
        ScreenView {
            list_area: self.list_area,
            list_title: self.list_title@,
            names: text_views(self.names@),
            selected: self.selected as nat,
            fields: box_views(self.fields@),
            cursor: self.cursor,
            status: self.status@,
            response: self.response@,
            scroll: self.scroll,
        }
    }
}

/// The title of the edit buffer at `index`.
pub open spec fn field_title(index: nat) -> Seq<char> {
    if index == 0 {
        "Name"@
    } else if index == 1 {
        "Request Type"@
    } else if index == 2 {
        "Url"@
    } else {
        "Body"@
    }
}

/// The number of bytes that `text` takes.
pub open spec fn byte_count(text: Seq<char>) -> nat {
    encode_utf8(text).len()
}

/// Where the cursor of an edit buffer is shown: in the column of the cursor
/// and in the row to which a text of `bytes` bytes reaches in a box as wide
/// as `area`, both counted from inside the frame. The cursor is hidden
/// where the area has no width or the place is no coordinate.
pub open spec fn cursor_place(area: Rect, cursor: nat, bytes: nat) -> Option<(u16, u16)> {
    if area.width == 0 {
        None
    } else {
        let column = area.x + cursor + 1;
        let row = area.y + bytes / (area.width as nat) + 1;
        if column <= u16::MAX && row <= u16::MAX {
            Some((column as u16, row as u16))
        } else {
            None
        }
    }
}

/// Computes where the cursor of an edit buffer is shown.
pub fn cursor_position(area: Rect, cursor: usize, bytes: usize) -> (place: Option<(u16, u16)>)
    ensures
        place == cursor_place(area, cursor as nat, bytes as nat),
{
    if area.width == 0 {
        return None;
    }
    let rows = bytes / (area.width as usize);
    if cursor >= 0xffff || rows >= 0xffff {
        return None;
    }
    let column: u32 = area.x as u32 + cursor as u32 + 1;
    let row: u32 = area.y as u32 + rows as u32 + 1;
    if column <= 0xffff && row <= 0xffff {
        Some((column as u16, row as u16))
    } else {
        None
    }
}

impl AppView {
    /// The names of the requests.
    pub open spec fn names(self) -> Seq<Seq<char>> {
        Seq::new(self.requests.len(), |i: int| self.requests[i].name)
    }

    /// The box that shows the edit buffer at `index`.
    pub open spec fn field_box(self, panels: Panels, index: nat) -> TextBoxView {
        TextBoxView {
            area: panels.field(index),
            title: field_title(index),
            text: self.inputs[index as int].text,
            selected: index == self.input_index && self.sel_element == SelElement::INFOPANEL,
        }
    }

    /// Where the cursor is shown: in the focused edit buffer during text
    /// entry, nowhere otherwise.
    pub open spec fn cursor(self, panels: Panels) -> Option<(u16, u16)> {
        if self.input_status == InputStatus::INSERT {
            let focused = self.inputs[self.input_index as int];
            cursor_place(panels.field(self.input_index), focused.cursor, byte_count(focused.text))
        } else {
            None
        }
    }

    /// The status of the last run of the selected request; empty where no
    /// request is selected.
    pub open spec fn shown_status(self) -> Seq<char> {
        if self.has_selection() {
            self.requests[self.req_index as int].status
        } else {
            Seq::empty()
        }
    }

    /// The response of the last run of the selected request; empty where no
    /// request is selected.
    pub open spec fn shown_response(self) -> Seq<char> {
        if self.has_selection() {
            self.requests[self.req_index as int].resp
        } else {
            Seq::empty()
        }
    }

    /// What the screen shows of the state, laid out in `panels`.
    pub open spec fn screen(self, panels: Panels) -> ScreenView {
        ScreenView {
            list_area: panels.list,
            list_title: "Requests"@,
            names: self.names(),
            selected: self.req_index,
            fields: Seq::new(REQ_FIELD_COUNT as nat, |i: int| self.field_box(panels, i as nat)),
            cursor: self.cursor(panels),
            status: TextBoxView {
                area: panels.status,
                title: "Status Code"@,
                text: self.shown_status(),
                selected: false,
            },
            response: TextBoxView {
                area: panels.response,
                title: "Response"@,
                text: self.shown_response(),
                selected: false,
            },
            scroll: self.text_offset,
        }
    }
}

/// The title of the edit buffer at `index`.
fn title_of(index: usize) -> (title: String)
    ensures
        title@ == field_title(index as nat),
{
    if index == 0 {
        String::from_str("Name")
    } else if index == 1 {
        String::from_str("Request Type")
    } else if index == 2 {
        String::from_str("Url")
    } else {
        String::from_str("Body")
    }
}

impl App {
    /// Collects the names of the requests.
    fn names(&self) -> (names: Vec<String>)
        ensures
            text_views(names@) == self@.names(),
    {
        let requests = self.requests();
        let mut names: Vec<String> = Vec::new();
        let mut i: usize = 0;
        while i < requests.len()
            invariant
                i <= requests.len(),
                names@.len() == i,
                forall|j: int| 0 <= j < i ==> (#[trigger] names@[j])@ == requests@[j]@.name,
            decreases requests.len() - i,
        {
            names.push(requests[i].name.clone());
            i += 1;
        }
        names
    }

    /// Describes what the screen shows of the state, laid out in `panels`.
    pub fn screen(&self, panels: &Panels) -> (screen: Screen)
        ensures
            screen@ == self@.screen(*panels),
    {
        let inputs = self.inputs();
        let focus = self.input_index();
        let in_panel = self.sel_element() == SelElement::INFOPANEL;
        let mut fields: Vec<TextBox> = Vec::new();
        let mut i: usize = 0;
        while i < REQ_FIELD_COUNT
            invariant
                i <= REQ_FIELD_COUNT,
                self@.wf(),
                field_views(inputs@) == self@.inputs,
                focus == self@.input_index,
                in_panel == (self@.sel_element == SelElement::INFOPANEL),
                fields@.len() == i,
                forall|j: int| 0 <= j < i ==> (#[trigger] fields@[j])@ == self@.field_box(*panels, j as nat),
            decreases REQ_FIELD_COUNT - i,
        {
            fields.push(
                TextBox {
                    area: panels.field_area(i),
                    title: title_of(i),
                    text: String::from_str(inputs[i].value()),
                    selected: i == focus && in_panel,
                },
            );
            i += 1;
        }
        let cursor = match self.input_status() {
            InputStatus::INSERT => {
                let focused = &inputs[focus];
                cursor_position(
                    panels.field_area(focus),
                    focused.cursor(),
                    focused.value().as_bytes().len(),
                )
            },
            InputStatus::NORMAL => None,
        };
        let requests = self.requests();
        let selected = self.req_index();
        let (status, response) = if selected < requests.len() {
            (requests[selected].status.clone(), requests[selected].resp.clone())
        } else {
            (String::new(), String::new())
        };
        let screen = Screen {
            list_area: panels.list,
            list_title: String::from_str("Requests"),
            names: self.names(),
            selected,
            fields,
            cursor,
            status: TextBox {
                area: panels.status,
                title: String::from_str("Status Code"),
                text: status,
                selected: false,
            },
            response: TextBox {
                area: panels.response,
                title: String::from_str("Response"),
                text: response,
                selected: false,
            },
            scroll: self.text_offset(),
        };
        assert(screen@.fields =~= self@.screen(*panels).fields);
        screen
    }

    /// Describes what the screen shows of the state in the area `area`:
    /// the state laid out in the panels that [`panels`] gives, which lie
    /// within `area`. Nothing is described where the area cannot be laid
    /// out.
    pub fn draw_ui(&self, area: Rect) -> (screen: Option<Screen>)
        ensures
            screen is Some <==> can_lay_out(area),
            screen is Some ==> exists|laid: Panels|
                laid.inside(area) && screen->Some_0@ == #[trigger] self@.screen(laid),
    {
        match panels(area) {
            Some(laid) => Some(self.screen(&laid)),
            None => None,
        }
    }
}

} // verus!

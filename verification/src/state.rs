use vstd::prelude::*;

verus! {

/// Whether the simulation advances.
#[derive(Clone, Copy, Debug, PartialEq, Eq, Structural)]
pub enum Mode {
    Simulating,
    Paused,
}

impl Mode {
    /// The label of the status button.
    pub open spec fn label(&self) -> Seq<char> {
        match self {
            Mode::Simulating => "SIMULATING"@,
            Mode::Paused => "PAUSED"@,
        }
    }

    pub fn status(&self) -> (s: String)
        ensures
            s@ == self.label(),
    {
        match self {
            Mode::Simulating => "SIMULATING".to_owned(),
            Mode::Paused => "PAUSED".to_owned(),
        }
    }

    /// The mode that a press of the status button switches to.
    pub fn toggled(&self) -> (m: Mode)
        ensures
            m != *self,
    {
        match self {
            Mode::Simulating => Mode::Paused,
            Mode::Paused => Mode::Simulating,
        }
    }
}

/// Pressing the status button twice leaves the mode as it was.
pub proof fn lemma_toggle_twice(mode: Mode, once: Mode, twice: Mode)
    requires
        once != mode,
        twice != once,
    ensures
        twice == mode,
{
}

/// What the left mouse button is doing.
#[derive(Clone, Copy, Debug, PartialEq, Eq, Structural)]
pub enum MouseStatus {
    Released,
    /// Holding the body with this index.
    Dragging(usize),
    /// Held down away from every body.
    Held,
    /// Waiting for the click that places a new body.
    Creating,
    /// The create button was pressed; waiting for its click to end.
    CreatingStart,
}

/// `hit` is the first body under the cursor, or `None` when no body is.
pub open spec fn first_hit_is(hits: Seq<bool>, hit: Option<usize>) -> bool {
    match hit {
        Some(i) => i < hits.len() && hits[i as int] && forall|j: int| 0 <= j < i ==> !hits[j],
        None => forall|j: int| 0 <= j < hits.len() ==> !hits[j],
    }
}

/// The index of the first body under the cursor; `hits[i]` says whether the
/// cursor lies within body `i`'s marker.
pub fn first_hit(hits: &Vec<bool>) -> (hit: Option<usize>)
    ensures
        first_hit_is(hits@, hit),
{
    let n = hits.len();
    for i in 0..n
        invariant
            n == hits@.len(),
            forall|j: int| 0 <= j < i ==> !hits@[j],
    {
        if hits[i] {
            return Some(i);
        }
    }
    None
}

/// The decisions taken on the left mouse button in one frame.
#[derive(Clone, Copy, Debug, PartialEq, Eq, Structural)]
pub struct PointerOutcome {
    /// The button's status after the frame.
    pub mouse_state: MouseStatus,
    /// Close the open context menu.
    pub close_menu: bool,
    /// Place a new body at the cursor.
    pub create_object: bool,
    /// Draw the marker of the body about to be placed.
    pub show_placement_preview: bool,
    /// Move this body to the cursor.
    pub drag_object: Option<usize>,
    /// The predictions must be recomputed.
    pub prediction_dirty: bool,
}

/// One frame of the left-button state machine.
///
/// With the button down: from `Released`, a click outside an open context menu
/// closes it, and the button grabs the first body under the cursor (`Dragging`)
/// or nothing (`Held`); from `Creating`, the click places a new body and the
/// status returns to `Released`; any other status is kept. With the button up:
/// `CreatingStart` becomes `Creating`, `Creating` stays and shows the placement
/// marker, and every other status becomes `Released`. Then, while paused, a
/// dragged body follows the cursor.
pub fn handle_pointer(
    status: MouseStatus,
    mode: Mode,
    left_down: bool,
    menu_open: bool,
    cursor_in_menu: bool,
    hits: &Vec<bool>,
) -> (out: PointerOutcome)
    ensures
        left_down && status is Released ==> (match out.mouse_state {
            MouseStatus::Dragging(i) => first_hit_is(hits@, Some(i)),
            MouseStatus::Held => first_hit_is(hits@, None),
            _ => false,
        }),
        left_down && status is Creating ==> out.mouse_state is Released,
        left_down && !(status is Released) && !(status is Creating) ==> out.mouse_state == status,
        !left_down && status is CreatingStart ==> out.mouse_state is Creating,
        !left_down && status is Creating ==> out.mouse_state is Creating,
        !left_down && !(status is CreatingStart) && !(status is Creating) ==> out.mouse_state is Released,
        out.close_menu <==> left_down && status is Released && menu_open && !cursor_in_menu,
        out.create_object <==> left_down && status is Creating,
        out.show_placement_preview <==> !left_down && status is Creating,
        out.drag_object == (match (mode, out.mouse_state) {
            (Mode::Paused, MouseStatus::Dragging(i)) => Some(i),
            _ => None,
        }),
        out.prediction_dirty <==> out.create_object || out.drag_object is Some,
{
    let mut mouse_state = status;
    let mut close_menu = false;
    let mut create_object = false;
    let mut show_placement_preview = false;
    if left_down {
        match status {
            MouseStatus::Released => {
                if menu_open && !cursor_in_menu {
                    close_menu = true;
                }
                mouse_state = match first_hit(hits) {
                    Some(idx) => MouseStatus::Dragging(idx),
                    None => MouseStatus::Held,
                };
            },
            MouseStatus::Creating => {
                create_object = true;
                mouse_state = MouseStatus::Released;
            },
            _ => {},
        }
    } else {
        if status == MouseStatus::CreatingStart {
            mouse_state = MouseStatus::Creating;
        } else if status == MouseStatus::Creating {
            show_placement_preview = true;
        } else {
            mouse_state = MouseStatus::Released;
        }
    }
    let drag_object = match mode {
        Mode::Simulating => None,
        Mode::Paused => match mouse_state {
            MouseStatus::Dragging(index) => Some(index),
            _ => None,
        },
    };
    PointerOutcome {
        mouse_state,
        close_menu,
        create_object,
        show_placement_preview,
        prediction_dirty: create_object || drag_object.is_some(),
        drag_object,
    }
}

/// What the right mouse button does to the context menu.
#[derive(Clone, Copy, Debug, PartialEq, Eq, Structural)]
pub enum MenuCommand {
    Keep,
    Close,
    /// Open the menu of this body at the cursor.
    Open(usize),
}

/// A right click opens the menu of the first body under the cursor; a right
/// click that misses every body closes the menu (when there is any body at all).
pub fn context_menu_command(right_down: bool, hits: &Vec<bool>) -> (cmd: MenuCommand)
    ensures
        !right_down ==> cmd is Keep,
        right_down ==> (match cmd {
            MenuCommand::Open(i) => first_hit_is(hits@, Some(i)),
            MenuCommand::Close => first_hit_is(hits@, None) && hits@.len() > 0,
            MenuCommand::Keep => hits@.len() == 0,
        }),
{
    if !right_down {
        return MenuCommand::Keep;
    }
    match first_hit(hits) {
        Some(idx) => MenuCommand::Open(idx),
        None => if hits.len() > 0 {
            MenuCommand::Close
        } else {
            MenuCommand::Keep
        },
    }
}

} // verus!

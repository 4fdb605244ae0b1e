//! Camera modes: the first-person player camera and the strategic camera.

use vstd::prelude::*;

verus! {

/// Which camera is active.
#[derive(Clone, Copy, Debug, PartialEq, Eq, Structural)]
pub enum CameraMode {
    FirstPerson,
    RTS,
}

/// The player's active camera.
#[derive(Clone, Copy, Debug, PartialEq, Eq, Structural)]
pub struct ActiveCamera {
    pub mode: CameraMode,
}

/// How the scene looks and reacts in a camera mode.
#[derive(Clone, Copy, Debug, PartialEq, Eq, Structural)]
pub struct CameraView {
    /// The player's head meshes are shown.
    pub head_meshes_visible: bool,
    /// The mouse is captured by the game window.
    pub mouse_captured: bool,
    /// Mouse motion turns the player's body and camera.
    pub mouse_look: bool,
}

pub open spec fn toggled_spec(mode: CameraMode) -> CameraMode {
    match mode {
        CameraMode::FirstPerson => CameraMode::RTS,
        CameraMode::RTS => CameraMode::FirstPerson,
    }
}

/// The other camera mode.
pub fn toggled(mode: CameraMode) -> (next: CameraMode)
    ensures
        next == toggled_spec(mode),
{
    match mode {
        CameraMode::FirstPerson => CameraMode::RTS,
        CameraMode::RTS => CameraMode::FirstPerson,
    }
}

/// Toggling twice gives back the mode, and toggling always changes it.
pub proof fn lemma_toggle_involution(mode: CameraMode)
    ensures
        toggled_spec(toggled_spec(mode)) == mode,
        toggled_spec(mode) != mode,
{
}

pub open spec fn camera_view_spec(mode: CameraMode) -> CameraView {
    match mode {
        CameraMode::FirstPerson => CameraView {
            head_meshes_visible: false,
            mouse_captured: true,
            mouse_look: true,
        },
        CameraMode::RTS => CameraView {
            head_meshes_visible: true,
            mouse_captured: false,
            mouse_look: false,
        },
    }
}

/// First person: head meshes hidden, mouse captured, mouse look on. Strategic view:
/// head meshes shown, mouse free, mouse look off.
pub fn camera_view(mode: CameraMode) -> (view: CameraView)
    ensures
        view == camera_view_spec(mode),
        view.mouse_look <==> mode == CameraMode::FirstPerson,
        view.mouse_captured == view.mouse_look,
        view.head_meshes_visible == !view.mouse_look,
{
    match mode {
        CameraMode::FirstPerson => CameraView {
            head_meshes_visible: false,
            mouse_captured: true,
            mouse_look: true,
        },
        CameraMode::RTS => CameraView {
            head_meshes_visible: true,
            mouse_captured: false,
            mouse_look: false,
        },
    }
}

/// The mode after `n` toggles.
pub open spec fn mode_after(mode: CameraMode, n: nat) -> CameraMode
    decreases n,
{
    if n == 0 {
        mode
    } else {
        toggled_spec(mode_after(mode, (n - 1) as nat))
    }
}

/// An even number of toggles leaves the mode as it was, an odd number switches it.
pub proof fn lemma_mode_after_parity(mode: CameraMode, n: nat)
    ensures
        mode_after(mode, n) == (if n % 2 == 0 {
            mode
        } else {
            toggled_spec(mode)
        }),
    decreases n,
{
    if n > 0 {
        lemma_mode_after_parity(mode, (n - 1) as nat);
    }
}

/// Applies the camera toggle events of a frame: each event switches the mode. Gives the
/// mode entered by each event, in order (whose view is then applied).
pub fn camera_toggle_system(active: &mut ActiveCamera, event_count: usize) -> (entered: Vec<CameraMode>)
    ensures
        entered@.len() == event_count,
        forall|i: int|
            0 <= i < event_count ==> #[trigger] entered@[i] == mode_after(
                old(active).mode,
                (i + 1) as nat,
            ),
        final(active).mode == mode_after(old(active).mode, event_count as nat),
{
    let mut entered: Vec<CameraMode> = Vec::new();
    let ghost start = active.mode;
    let mut k: usize = 0;
    while k < event_count
        invariant
            0 <= k <= event_count,
            entered@.len() == k,
            forall|i: int| 0 <= i < k ==> #[trigger] entered@[i] == mode_after(start, (i + 1) as nat),
            active.mode == mode_after(start, k as nat),
        decreases event_count - k,
    {
        let next = toggled(active.mode);
        active.mode = next;
        entered.push(next);
        k = k + 1;
    }
    entered
}

/// The strategic camera's movement keys: -1, 0 or +1 along each axis (W forward and S
/// backward on the second axis, A left and D right on the first).
pub fn rts_key_axes(w: bool, s: bool, a: bool, d: bool) -> (axes: (i8, i8))
    ensures
        axes.0 == (if d { 1int } else { 0int }) - (if a { 1int } else { 0int }),
        axes.1 == (if s { 1int } else { 0int }) - (if w { 1int } else { 0int }),
{
    let mut x: i8 = 0;
    let mut y: i8 = 0;
    if w {
        y = y - 1;
    }
    if s {
        y = y + 1;
    }
    if a {
        x = x - 1;
    }
    if d {
        x = x + 1;
    }
    (x, y)
}

/// The strategic camera's rotation keys: Q turns one way, E the other, both cancel.
pub fn rts_rotate_axis(q: bool, e: bool) -> (axis: i8)
    ensures
        axis == (if e { 1int } else { 0int }) - (if q { 1int } else { 0int }),
{
    let mut r: i8 = 0;
    if q {
        r = r - 1;
    }
    if e {
        r = r + 1;
    }
    r
}

} // verus!

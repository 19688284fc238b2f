//! The 3D viewport's decisions on input: which camera motion a mouse drag
//! makes, which way the keys move the camera, and the size of the view.
//! Positions are of any type `P`; the arithmetic on them is the caller's.

pub mod renderer;

use vstd::prelude::*;

verus! {

/// The pointer and modifier state of one frame.
pub struct PointerInput<P> {
    /// Where the pointer is, if it is over the window.
    pub pos: Option<P>,
    /// Whether the pointer is inside the viewport.
    pub over: bool,
    pub middle: bool,
    pub right: bool,
    pub shift: bool,
    pub ctrl: bool,
}

/// A drag with the middle button and a modifier.
#[derive(Debug, Clone, Copy, PartialEq, Eq)]
pub enum MiddleDrag<P> {
    /// With `ctrl`: zoom by the vertical motion from the first position to the second.
    Zoom(P, P),
    /// With `shift` only: pan by the motion from the first position to the second.
    Pan(P, P),
}

/// What the camera must do for one frame of pointer input.
pub struct DragResponse<P> {
    /// Whether the pointer is over the viewport; when it is not, keys and
    /// the scroll wheel are ignored too.
    pub active: bool,
    /// Rotate by the motion from the first position to the second.
    pub rotate: Option<(P, P)>,
    pub middle: Option<MiddleDrag<P>>,
}

/// The positions of the last frame of an ongoing rotating drag and of an
/// ongoing middle-button drag.
pub struct PointerTracker<P> {
    pub last_mouse_pos: Option<P>,
    pub last_mmb_pos: Option<P>,
}

/// Whether the input rotates: the right button, or the middle button without modifiers.
pub open spec fn rotates<P>(input: PointerInput<P>) -> bool {
    input.right || (input.middle && !input.shift && !input.ctrl)
}

/// The rotation of a frame: from the last rotating position to the current one.
pub open spec fn rotation_of<P>(last: Option<P>, input: PointerInput<P>) -> Option<(P, P)> {
    if rotates(input) && input.pos is Some && last is Some {
        Some((last.unwrap(), input.pos.unwrap()))
    } else {
        None
    }
}

/// The last rotating position after a frame.
pub open spec fn next_mouse_pos<P>(last: Option<P>, input: PointerInput<P>) -> Option<P> {
    if !input.over {
        None
    } else if rotates(input) {
        if input.pos is Some {
            input.pos
        } else {
            last
        }
    } else {
        None
    }
}

/// Whether the input is a middle-button drag with a modifier.
pub open spec fn middle_drags<P>(input: PointerInput<P>) -> bool {
    input.middle && (input.shift || input.ctrl)
}

/// The middle-button motion of a frame.
pub open spec fn middle_of<P>(last: Option<P>, input: PointerInput<P>) -> Option<MiddleDrag<P>> {
    if middle_drags(input) && input.pos is Some && last is Some {
        if input.ctrl {
            Some(MiddleDrag::Zoom(last.unwrap(), input.pos.unwrap()))
        } else {
            Some(MiddleDrag::Pan(last.unwrap(), input.pos.unwrap()))
        }
    } else {
        None
    }
}

/// The last middle-button position after a frame.
pub open spec fn next_mmb_pos<P>(last: Option<P>, input: PointerInput<P>) -> Option<P> {
    if !input.over || !input.middle {
        None
    } else if input.shift || input.ctrl {
        if input.pos is Some {
            input.pos
        } else {
            last
        }
    } else {
        last
    }
}

/// In a rotating drag over the viewport, each frame rotates by the motion
/// from the previous frame's pointer position to its own: after a frame at
/// `first`, the next frame at `second` rotates from `first` to `second`,
/// whatever position the drag started from.
pub proof fn lemma_rotation_follows_the_pointer<P>(
    last: Option<P>,
    first: PointerInput<P>,
    second: PointerInput<P>,
)
    requires
        first.over && rotates(first) && first.pos is Some,
        second.over && rotates(second) && second.pos is Some,
    ensures
        next_mouse_pos(last, first) == first.pos,
        rotation_of(next_mouse_pos(last, first), second) == Some((first.pos.unwrap(), second.pos.unwrap())),
        next_mouse_pos(next_mouse_pos(last, first), second) == second.pos,
{
}

impl<P: Copy> PointerTracker<P> {
    /// No drag in progress.
    pub fn new() -> (r: Self)
        ensures
            r.last_mouse_pos is None,
            r.last_mmb_pos is None,
    {
        PointerTracker { last_mouse_pos: None, last_mmb_pos: None }
    }

    /// Takes one frame of input: outside the viewport every drag ends;
    /// inside, a rotating drag rotates by the pointer's motion and a
    /// middle-button drag with `ctrl` zooms, with `shift` pans.
    pub fn track(&mut self, input: PointerInput<P>) -> (r: DragResponse<P>)
        ensures
            r.active == input.over,
            r.rotate == (if input.over {
                rotation_of(old(self).last_mouse_pos, input)
            } else {
                None
            }),
            r.middle == (if input.over {
                middle_of(old(self).last_mmb_pos, input)
            } else {
                None
            }),
            final(self).last_mouse_pos == next_mouse_pos(old(self).last_mouse_pos, input),
            final(self).last_mmb_pos == next_mmb_pos(old(self).last_mmb_pos, input),
            input.over && rotates(input) && input.pos is Some ==> final(self).last_mouse_pos == input.pos,
            input.over && rotates(input) && input.pos is Some && old(self).last_mouse_pos is Some
                ==> r.rotate == Some((old(self).last_mouse_pos.unwrap(), input.pos.unwrap())),
            !input.over || !rotates(input) ==> final(self).last_mouse_pos is None && r.rotate is None,
    {
        if !input.over {
            self.last_mouse_pos = None;
            self.last_mmb_pos = None;
            return DragResponse { active: false, rotate: None, middle: None };
        }
        let rotate = input.right || (input.middle && !input.shift && !input.ctrl);
        let mut rotation: Option<(P, P)> = None;
        if rotate {
            if let Some(pos) = input.pos {
                if let Some(last) = self.last_mouse_pos {
                    rotation = Some((last, pos));
                }
                self.last_mouse_pos = Some(pos);
            }
        } else {
            self.last_mouse_pos = None;
        }
        if !input.middle {
            self.last_mmb_pos = None;
        }
        let mut middle: Option<MiddleDrag<P>> = None;
        if input.middle && (input.shift || input.ctrl) {
            if let Some(pos) = input.pos {
                if let Some(last) = self.last_mmb_pos {
                    if input.ctrl {
                        middle = Some(MiddleDrag::Zoom(last, pos));
                    } else {
                        middle = Some(MiddleDrag::Pan(last, pos));
                    }
                }
                self.last_mmb_pos = Some(pos);
            }
        }
        DragResponse { active: true, rotate: rotation, middle }
    }
}

/// The direction that the movement keys ask for, as multiples of the
/// camera's forward and right vectors: `W` moves against forward, `S`
/// along it, `A` against right, `D` along it. `None` when they cancel out.
pub fn move_direction(w: bool, s: bool, a: bool, d: bool) -> (r: Option<(i8, i8)>)
    ensures
        ({
            let f = (if s { 1int } else { 0int }) - (if w { 1int } else { 0int });
            let g = (if d { 1int } else { 0int }) - (if a { 1int } else { 0int });
            if f == 0 && g == 0 {
                r is None
            } else {
                r == Some((f as i8, g as i8))
            }
        }),
{
    let f: i8 = (if s { 1i8 } else { 0i8 }) - (if w { 1i8 } else { 0i8 });
    let g: i8 = (if d { 1i8 } else { 0i8 }) - (if a { 1i8 } else { 0i8 });
    if f == 0 && g == 0 {
        None
    } else {
        Some((f, g))
    }
}

/// The size of the view after the space given to it became `width` by
/// `height`: unchanged if equal, else that size with each side at least `1`.
pub fn fit_viewport_size(size: [i32; 2], width: i32, height: i32) -> (r: [i32; 2])
    ensures
        if width == size[0] && height == size[1] {
            r == size
        } else {
            r[0] == (if width < 1 { 1 } else { width }) && r[1] == (if height < 1 { 1 } else { height })
        },
{
    if width != size[0] || height != size[1] {
        [if width < 1 { 1 } else { width }, if height < 1 { 1 } else { height }]
    } else {
        size
    }
}

} // verus!

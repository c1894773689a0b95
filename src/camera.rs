use vstd::prelude::*;

verus! {

/// Keys that the input layer tells apart.
#[derive(Clone, Copy, Debug, PartialEq, Eq, Structural)]
pub enum Key {
    W,
    A,
    S,
    D,
    Up,
    Down,
    Left,
    Right,
    Space,
    LShift,
    Escape,
    Other,
}

/// Whether a key or button went down or came up.
#[derive(Clone, Copy, Debug, PartialEq, Eq, Structural)]
pub enum KeyState {
    Pressed,
    Released,
}

/// The six movement intents of a first-person controller. Each is on while
/// its key is held and stays on across frames until the key is released.
#[derive(Clone, Copy, Debug, PartialEq, Eq, Structural)]
pub struct Controller {
    pub forward: bool,
    pub backward: bool,
    pub left: bool,
    pub right: bool,
    pub up: bool,
    pub down: bool,
}

/// One movement intent.
#[derive(Clone, Copy, Debug, PartialEq, Eq, Structural)]
pub enum Intent {
    Forward,
    Backward,
    Left,
    Right,
    Up,
    Down,
}

/// The intent that a key drives, if any.
pub open spec fn key_intent(key: Key) -> Option<Intent> {
    match key {
        Key::W | Key::Up => Some(Intent::Forward),
        Key::A | Key::Left => Some(Intent::Left),
        Key::S | Key::Down => Some(Intent::Backward),
        Key::D | Key::Right => Some(Intent::Right),
        Key::Space => Some(Intent::Up),
        Key::LShift => Some(Intent::Down),
        _ => None,
    }
}

/// `c` with one intent switched on or off.
pub open spec fn with_intent(c: Controller, i: Intent, on: bool) -> Controller {
    match i {
        Intent::Forward => Controller { forward: on, ..c },
        Intent::Backward => Controller { backward: on, ..c },
        Intent::Left => Controller { left: on, ..c },
        Intent::Right => Controller { right: on, ..c },
        Intent::Up => Controller { up: on, ..c },
        Intent::Down => Controller { down: on, ..c },
    }
}

/// The controller after a key event: a recognised key sets its intent to
/// whether the key is down; any other key changes nothing.
pub open spec fn after_key(c: Controller, key: Key, state: KeyState) -> Controller {
    match key_intent(key) {
        Some(i) => with_intent(c, i, state == KeyState::Pressed),
        None => c,
    }
}

/// 1 for an intent that is on, 0 for one that is off.
pub open spec fn amount(on: bool) -> int {
    if on { 1 } else { 0 }
}

impl Controller {
    /// Every intent off.
    pub open spec fn new_spec() -> Controller {
        Controller { forward: false, backward: false, left: false, right: false, up: false, down: false }
    }

    /// A controller with every intent off.
    pub fn new() -> (r: Controller)
        ensures
            r == Controller::new_spec(),
    {
        Controller { forward: false, backward: false, left: false, right: false, up: false, down: false }
    }

    /// Records a key event. Returns whether the key drives a movement intent.
    pub fn process_keyboard(&mut self, key: Key, state: KeyState) -> (recognized: bool)
        ensures
            recognized == key_intent(key).is_some(),
            *final(self) == after_key(*old(self), key, state),
    {
        let on = match state {
            KeyState::Pressed => true,
            KeyState::Released => false,
        };
        match key {
            Key::W | Key::Up => {
                self.forward = on;
                true
            },
            Key::A | Key::Left => {
                self.left = on;
                true
            },
            Key::S | Key::Down => {
                self.backward = on;
                true
            },
            Key::D | Key::Right => {
                self.right = on;
                true
            },
            Key::Space => {
                self.up = on;
                true
            },
            Key::LShift => {
                self.down = on;
                true
            },
            _ => false,
        }
    }

    /// The net intent along the camera's horizontal forward axis, its right
    /// axis and the world's up axis, each -1, 0 or 1.
    pub fn axes(&self) -> (r: (i8, i8, i8))
        ensures
            r.0 == amount(self.forward) - amount(self.backward),
            r.1 == amount(self.right) - amount(self.left),
            r.2 == amount(self.up) - amount(self.down),
    {
        (
            Self::net(self.forward, self.backward),
            Self::net(self.right, self.left),
            Self::net(self.up, self.down),
        )
    }

    fn net(plus: bool, minus: bool) -> (r: i8)
        ensures
            r == amount(plus) - amount(minus),
    {
        let p: i8 = if plus { 1 } else { 0 };
        let m: i8 = if minus { 1 } else { 0 };
        p - m
    }
}

/// The aspect ratio of a perspective projection, kept as the exact fraction
/// `width / height` of the surface it draws to. Both sides are positive.
#[derive(Clone, Copy, Debug, PartialEq, Eq, Structural)]
pub struct Projection {
    pub(crate) width: u32,
    pub(crate) height: u32,
}

/// The fraction `num / den` equals `w / h`, compared without division.
pub open spec fn ratio_eq(num: int, den: int, w: int, h: int) -> bool {
    num * h == den * w
}

impl Projection {
    pub open(crate) spec fn width_spec(self) -> int {
        self.width as int
    }

    pub open(crate) spec fn height_spec(self) -> int {
        self.height as int
    }

    /// Neither side is zero, so the ratio is defined and positive.
    pub open(crate) spec fn wf(self) -> bool {
        self.width > 0 && self.height > 0
    }

    /// The projection after `resize(w, h)`: the new size when both sides are
    /// positive, else the old one.
    pub open(crate) spec fn resized(self, w: int, h: int) -> Projection {
        if w > 0 && h > 0 && w <= u32::MAX && h <= u32::MAX {
            Projection { width: w as u32, height: h as u32 }
        } else {
            self
        }
    }

    /// The projection's aspect ratio equals `w / h`.
    pub open(crate) spec fn has_aspect(self, w: int, h: int) -> bool {
        ratio_eq(self.width as int, self.height as int, w, h)
    }

    /// A projection for a surface of `width` by `height`; `None` when either
    /// side is zero, as the ratio would then be zero or undefined.
    pub fn new(width: u32, height: u32) -> (r: Option<Projection>)
        ensures
            r.is_some() <==> width > 0 && height > 0,
            r matches Some(p) ==> p.wf() && p.width_spec() == width && p.height_spec() == height,
    {
        if width > 0 && height > 0 {
            Some(Projection { width, height })
        } else {
            None
        }
    }

    /// Sets the aspect ratio to `width / height`. A size with a zero side
    /// leaves the projection as it was.
    pub fn resize(&mut self, width: u32, height: u32)
        ensures
            *final(self) == old(self).resized(width as int, height as int),
            width == 0 || height == 0 ==> *final(self) == *old(self),
            width > 0 && height > 0 ==> final(self).has_aspect(width as int, height as int),
    {
        if width > 0 && height > 0 {
            self.width = width;
            self.height = height;
        }
    }

    /// The width side of the ratio.
    pub fn width(&self) -> (r: u32)
        ensures
            r == self.width_spec(),
    {
        self.width
    }

    /// The height side of the ratio.
    pub fn height(&self) -> (r: u32)
        ensures
            r == self.height_spec(),
    {
        self.height
    }
}

/// Resizing to a size with positive sides yields that size's aspect ratio,
/// whatever the projection held before: two projections resized alike are
/// equal afterwards. A size with a zero side changes no projection.
pub proof fn lemma_resize_forgets_prior(a: Projection, b: Projection, w: u32, h: u32)
    requires
        a.wf(),
        b.wf(),
    ensures
        w > 0 && h > 0 ==> a.resized(w as int, h as int) == b.resized(w as int, h as int),
        w > 0 && h > 0 ==> a.resized(w as int, h as int).has_aspect(w as int, h as int),
        w > 0 && h > 0 ==> a.resized(w as int, h as int).wf(),
        w == 0 || h == 0 ==> a.resized(w as int, h as int) == a,
{
    assert((w as int) * (h as int) == (h as int) * (w as int)) by (nonlinear_arith);
}

} // verus!

use vstd::prelude::*;

verus! {

/// The number of key codes tracked.
pub const MAX_KEYS: usize = 512;

/// The number of mouse buttons tracked.
pub const MAX_BUTTONS: usize = 32;

/// Whether the cursor moves freely or is held inside the window, hidden.
#[allow(non_camel_case_types, clippy::upper_case_acronyms)]
#[derive(Clone, Copy, Debug, PartialEq, Eq, Structural)]
pub enum CursorMode {
    FREE,
    LOCKED,
}

/// A mouse button, as the windowing layer reports it.
#[derive(Clone, Copy, Debug, PartialEq, Eq, Structural)]
pub enum MouseButton {
    Left,
    Right,
    Middle,
    Other(u16),
}

/// A mouse button as the debug UI knows it.
#[derive(Clone, Copy, Debug, PartialEq, Eq, Structural)]
pub enum DebugUiButton {
    Left,
    Right,
    Middle,
    Extra1,
    Extra2,
}

/// The slot that tracks `button`.
pub open spec fn button_index(button: MouseButton) -> nat {
    match button {
        MouseButton::Right => 0,
        MouseButton::Middle => 1,
        MouseButton::Left => 2,
        MouseButton::Other(i) => (3 + i) as nat,
    }
}

/// The slot that tracks `button`.
pub fn mb_to_idx(button: MouseButton) -> (r: usize)
    ensures
        r == button_index(button),
{
    match button {
        MouseButton::Right => 0,
        MouseButton::Middle => 1,
        MouseButton::Left => 2,
        MouseButton::Other(i) => 3 + i as usize,
    }
}

/// The debug UI's name for `button`: extra button 1 is the first extra one,
/// every other extra button is the second.
pub fn to_debug_ui_button(button: MouseButton) -> (r: DebugUiButton)
    ensures
        r == match button {
            MouseButton::Left => DebugUiButton::Left,
            MouseButton::Middle => DebugUiButton::Middle,
            MouseButton::Right => DebugUiButton::Right,
            MouseButton::Other(i) => if i == 1 {
                DebugUiButton::Extra1
            } else {
                DebugUiButton::Extra2
            },
        },
{
    match button {
        MouseButton::Left => DebugUiButton::Left,
        MouseButton::Middle => DebugUiButton::Middle,
        MouseButton::Right => DebugUiButton::Right,
        MouseButton::Other(i) => {
            if i == 1 {
                DebugUiButton::Extra1
            } else {
                DebugUiButton::Extra2
            }
        },
    }
}

/// The mode that toggling leaves the cursor in.
pub open spec fn toggled(mode: CursorMode) -> CursorMode {
    match mode {
        CursorMode::FREE => CursorMode::LOCKED,
        CursorMode::LOCKED => CursorMode::FREE,
    }
}

fn all_false(n: usize) -> (r: Vec<bool>)
    ensures
        r@ == Seq::new(n as nat, |i: int| false),
{
    let mut v: Vec<bool> = Vec::with_capacity(n);
    let mut i: usize = 0;
    while i < n
        invariant
            i <= n,
            v@ == Seq::new(i as nat, |k: int| false),
        decreases n - i,
    {
        v.push(false);
        i = i + 1;
    }
    v
}

fn copy_into(dst: &mut Vec<bool>, src: &Vec<bool>)
    requires
        old(dst)@.len() == src@.len(),
    ensures
        final(dst)@ == src@,
{
    let mut i: usize = 0;
    while i < src.len()
        invariant
            i <= src@.len(),
            dst@.len() == src@.len(),
            forall|k: int| 0 <= k < i ==> dst@[k] == src@[k],
        decreases src@.len() - i,
    {
        dst[i] = src[i];
        i = i + 1;
    }
    assert(dst@ =~= src@);
}

/// The keyboard and mouse state of the current frame and of the frame before.
pub struct Input {
    keys: Vec<bool>,
    keys_prev: Vec<bool>,
    buttons: Vec<bool>,
    buttons_prev: Vec<bool>,
    mouse_pos: (i32, i32),
    cursor_mode: CursorMode,
}

impl Input {
    /// Which keys are held this frame.
    pub closed spec fn keys(&self) -> Seq<bool> {
        self.keys@
    }

    /// Which keys were held the frame before.
    pub closed spec fn keys_prev(&self) -> Seq<bool> {
        self.keys_prev@
    }

    /// Which mouse buttons are held this frame.
    pub closed spec fn buttons(&self) -> Seq<bool> {
        self.buttons@
    }

    /// Which mouse buttons were held the frame before.
    pub closed spec fn buttons_prev(&self) -> Seq<bool> {
        self.buttons_prev@
    }

    pub closed spec fn spec_mouse_pos(&self) -> (i32, i32) {
        self.mouse_pos
    }

    pub closed spec fn spec_cursor_mode(&self) -> CursorMode {
        self.cursor_mode
    }

    pub open spec fn wf(&self) -> bool {
        &&& self.keys().len() == MAX_KEYS
        &&& self.keys_prev().len() == MAX_KEYS
        &&& self.buttons().len() == MAX_BUTTONS
        &&& self.buttons_prev().len() == MAX_BUTTONS
    }

    /// Nothing held, the mouse at the origin and the cursor free.
    pub fn new() -> (r: Input)
        ensures
            r.wf(),
            r.keys() == Seq::new(MAX_KEYS as nat, |i: int| false),
            r.keys_prev() == Seq::new(MAX_KEYS as nat, |i: int| false),
            r.buttons() == Seq::new(MAX_BUTTONS as nat, |i: int| false),
            r.buttons_prev() == Seq::new(MAX_BUTTONS as nat, |i: int| false),
            r.spec_mouse_pos() == (0i32, 0i32),
            r.spec_cursor_mode() == CursorMode::FREE,
    {
        Input {
            keys: all_false(MAX_KEYS),
            keys_prev: all_false(MAX_KEYS),
            buttons: all_false(MAX_BUTTONS),
            buttons_prev: all_false(MAX_BUTTONS),
            mouse_pos: (0, 0),
            cursor_mode: CursorMode::FREE,
        }
    }

    /// Moves on to the next frame: what is held now becomes what was held
    /// the frame before.
    pub fn update(&mut self)
        requires
            old(self).wf(),
        ensures
            final(self).wf(),
            final(self).keys() == old(self).keys(),
            final(self).keys_prev() == old(self).keys(),
            final(self).buttons() == old(self).buttons(),
            final(self).buttons_prev() == old(self).buttons(),
            final(self).spec_mouse_pos() == old(self).spec_mouse_pos(),
            final(self).spec_cursor_mode() == old(self).spec_cursor_mode(),
    {
        copy_into(&mut self.keys_prev, &self.keys);
        copy_into(&mut self.buttons_prev, &self.buttons);
    }

    /// Whether the key with code `key_code` is held.
    pub fn key(&self, key_code: usize) -> (r: bool)
        requires
            self.wf(),
            key_code < MAX_KEYS,
        ensures
            r == self.keys()[key_code as int],
    {
        self.keys[key_code]
    }

    /// Whether the key with code `key_code` went down this frame.
    pub fn key_down(&self, key_code: usize) -> (r: bool)
        requires
            self.wf(),
            key_code < MAX_KEYS,
        ensures
            r == (self.keys()[key_code as int] && !self.keys_prev()[key_code as int]),
    {
        self.keys[key_code] && !self.keys_prev[key_code]
    }

    /// Whether `button` is held.
    pub fn mouse_button(&self, button: MouseButton) -> (r: bool)
        requires
            self.wf(),
            button_index(button) < MAX_BUTTONS,
        ensures
            r == self.buttons()[button_index(button) as int],
    {
        self.buttons[mb_to_idx(button)]
    }

    /// Whether `button` went down this frame.
    pub fn mouse_button_down(&self, button: MouseButton) -> (r: bool)
        requires
            self.wf(),
            button_index(button) < MAX_BUTTONS,
        ensures
            r == (self.buttons()[button_index(button) as int]
                && !self.buttons_prev()[button_index(button) as int]),
    {
        let i = mb_to_idx(button);
        self.buttons[i] && !self.buttons_prev[i]
    }

    /// The position of the mouse in the window, in pixels.
    pub fn mouse_pos(&self) -> (r: (i32, i32))
        ensures
            r == self.spec_mouse_pos(),
    {
        self.mouse_pos
    }

    pub fn get_cursor_mode(&self) -> (r: CursorMode)
        ensures
            r == self.spec_cursor_mode(),
    {
        self.cursor_mode
    }

    /// Records the cursor mode; the window is to be told of it.
    pub fn set_cursor_mode(&mut self, mode: CursorMode)
        ensures
            final(self).spec_cursor_mode() == mode,
            final(self).keys() == old(self).keys(),
            final(self).keys_prev() == old(self).keys_prev(),
            final(self).buttons() == old(self).buttons(),
            final(self).buttons_prev() == old(self).buttons_prev(),
            final(self).spec_mouse_pos() == old(self).spec_mouse_pos(),
    {
        self.cursor_mode = mode;
    }

    /// Switches the cursor between free and locked, and returns the new mode,
    /// which the window is to be told of.
    pub fn toggle_cursor_mode(&mut self) -> (r: CursorMode)
        ensures
            r == toggled(old(self).spec_cursor_mode()),
            final(self).spec_cursor_mode() == r,
            final(self).keys() == old(self).keys(),
            final(self).keys_prev() == old(self).keys_prev(),
            final(self).buttons() == old(self).buttons(),
            final(self).buttons_prev() == old(self).buttons_prev(),
            final(self).spec_mouse_pos() == old(self).spec_mouse_pos(),
    {
        let mode = if self.cursor_mode == CursorMode::FREE {
            CursorMode::LOCKED
        } else {
            CursorMode::FREE
        };
        self.set_cursor_mode(mode);
        mode
    }

    /// Records whether the key with code `key_code` is held.
    pub fn set_key(&mut self, key_code: usize, value: bool)
        requires
            old(self).wf(),
            key_code < MAX_KEYS,
        ensures
            final(self).wf(),
            final(self).keys() == old(self).keys().update(key_code as int, value),
            final(self).keys_prev() == old(self).keys_prev(),
            final(self).buttons() == old(self).buttons(),
            final(self).buttons_prev() == old(self).buttons_prev(),
            final(self).spec_mouse_pos() == old(self).spec_mouse_pos(),
            final(self).spec_cursor_mode() == old(self).spec_cursor_mode(),
    {
        self.keys[key_code] = value;
    }

    /// Records whether `button` is held.
    pub fn set_mouse_button(&mut self, button: MouseButton, value: bool)
        requires
            old(self).wf(),
            button_index(button) < MAX_BUTTONS,
        ensures
            final(self).wf(),
            final(self).buttons() == old(self).buttons().update(button_index(button) as int, value),
            final(self).keys() == old(self).keys(),
            final(self).keys_prev() == old(self).keys_prev(),
            final(self).buttons_prev() == old(self).buttons_prev(),
            final(self).spec_mouse_pos() == old(self).spec_mouse_pos(),
            final(self).spec_cursor_mode() == old(self).spec_cursor_mode(),
    {
        let i = mb_to_idx(button);
        self.buttons[i] = value;
    }

    /// Records the position of the mouse.
    pub fn set_mouse_pos(&mut self, mouse_pos: (i32, i32))
        ensures
            final(self).spec_mouse_pos() == mouse_pos,
            final(self).keys() == old(self).keys(),
            final(self).keys_prev() == old(self).keys_prev(),
            final(self).buttons() == old(self).buttons(),
            final(self).buttons_prev() == old(self).buttons_prev(),
            final(self).spec_cursor_mode() == old(self).spec_cursor_mode(),
    {
        self.mouse_pos = mouse_pos;
    }
}

} // verus!

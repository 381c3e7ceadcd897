use vstd::prelude::*;

verus! {

/// Identity of a protocol object on the display connection.
#[derive(Clone, Copy, Debug, PartialEq, Eq, Structural)]
pub struct Handle {
    pub id: u32,
}

/// The injection backend selected from the advertised globals.
#[derive(Clone, Copy, Debug, PartialEq, Eq, Structural)]
pub enum BackendKind {
    Unavailable,
    PrivilegedInjection,
    GenericVirtualInput,
}

/// The kind of an advertised global, as far as backend selection cares.
#[derive(Clone, Copy, Debug, PartialEq, Eq, Structural)]
pub enum Interface {
    /// `org_kde_kwin_fake_input`: the privileged fake-input capability.
    FakeInput,
    /// `zwp_virtual_keyboard_v1`: the generic virtual keyboard.
    VirtualKeyboard,
    /// `zwp_input_method_v1`: the input method that pushes input contexts.
    InputMethod,
    /// `zwp_input_panel_v1`: the panel that places the keyboard surface.
    InputPanel,
    Other,
}

/// A protocol object that the binder asks the transport to create from a global.
#[derive(Clone, Copy, Debug, PartialEq, Eq, Structural)]
pub enum Role {
    InputMethod,
    InputPanel,
    FakeInput,
}

/// A key of the on-screen keyboard that is not plain text.
#[derive(Clone, Copy, Debug, PartialEq, Eq, Structural)]
pub enum Key {
    Backspace,
    Tab,
    LeftShift,
    Other,
}

/// A request that the core hands to the transport, in order.
#[derive(Debug, PartialEq, Eq)]
pub enum Request {
    /// Bind the global `name` as `role` at `version`.
    Bind { name: u32, role: Role, version: u32 },
    /// Create an input-panel surface of `panel` for the window `surface`.
    GetPanelSurface { panel: Handle, surface: Handle },
    /// Complete the fake-input handshake.
    Authenticate { fake_input: Handle, application: String, reason: String },
    /// Press (`pressed`) or release a key through fake input.
    KeyboardKey { fake_input: Handle, key: u32, pressed: bool },
    /// Release an object.
    Destroy { object: Handle },
    /// Commit `text` at the cursor of the input context.
    CommitString { context: Handle, serial: u32, text: String },
    /// Delete `length` units after `index` around the cursor.
    DeleteSurroundingText { context: Handle, index: i32, length: u32 },
    /// Set the modifier state of the input context.
    Modifiers {
        context: Handle,
        serial: u32,
        depressed: u32,
        latched: u32,
        locked: u32,
        group: u32,
    },
}

/// What a [`Request`] says, with its text as a sequence of characters.
pub ghost enum RequestView {
    Bind { name: u32, role: Role, version: u32 },
    GetPanelSurface { panel: Handle, surface: Handle },
    Authenticate { fake_input: Handle, application: Seq<char>, reason: Seq<char> },
    KeyboardKey { fake_input: Handle, key: u32, pressed: bool },
    Destroy { object: Handle },
    CommitString { context: Handle, serial: u32, text: Seq<char> },
    DeleteSurroundingText { context: Handle, index: i32, length: u32 },
    Modifiers {
        context: Handle,
        serial: u32,
        depressed: u32,
        latched: u32,
        locked: u32,
        group: u32,
    },
}

impl View for Request {
    type V = RequestView;

    open spec fn view(&self) -> RequestView {
        match self {
            Request::Bind { name, role, version } => RequestView::Bind {
                name: *name,
                role: *role,
                version: *version,
            },
            Request::GetPanelSurface { panel, surface } => RequestView::GetPanelSurface {
                panel: *panel,
                surface: *surface,
            },
            Request::Authenticate { fake_input, application, reason } => RequestView::Authenticate {
                fake_input: *fake_input,
                application: application@,
                reason: reason@,
            },
            Request::KeyboardKey { fake_input, key, pressed } => RequestView::KeyboardKey {
                fake_input: *fake_input,
                key: *key,
                pressed: *pressed,
            },
            Request::Destroy { object } => RequestView::Destroy { object: *object },
            Request::CommitString { context, serial, text } => RequestView::CommitString {
                context: *context,
                serial: *serial,
                text: text@,
            },
            Request::DeleteSurroundingText { context, index, length } =>
                RequestView::DeleteSurroundingText {
                context: *context,
                index: *index,
                length: *length,
            },
            Request::Modifiers { context, serial, depressed, latched, locked, group } =>
                RequestView::Modifiers {
                context: *context,
                serial: *serial,
                depressed: *depressed,
                latched: *latched,
                locked: *locked,
                group: *group,
            },
        }
    }
}

/// The requests of `v`, in order, as views.
pub open spec fn requests_view(v: Seq<Request>) -> Seq<RequestView> {
    v.map_values(|q: Request| q@)
}

/// Equality of two texts.
pub fn text_eq(a: &str, b: &str) -> (r: bool)
    ensures
        r == (a@ == b@),
{
    let x = a.to_owned();
    let y = b.to_owned();
    x == y
}

/// The key that the keyboard layout names `name`.
pub open spec fn key_of(name: Seq<char>) -> Key {
    if name == "BS"@ {
        Key::Backspace
    } else if name == "TAB"@ {
        Key::Tab
    } else if name == "LSHFT"@ {
        Key::LeftShift
    } else {
        Key::Other
    }
}

impl Key {
    /// Reads a key name of the keyboard layout (`BS`, `TAB`, `LSHFT`).
    pub fn from_name(name: &str) -> (k: Key)
        ensures
            k == key_of(name@),
    {
        if text_eq(name, "BS") {
            Key::Backspace
        } else if text_eq(name, "TAB") {
            Key::Tab
        } else if text_eq(name, "LSHFT") {
            Key::LeftShift
        } else {
            Key::Other
        }
    }
}

} // verus!

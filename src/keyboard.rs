use vstd::prelude::*;

use crate::registry::{
    interface_of, interface_of_role, Registry, RegistryError, FAKE_INPUT_VERSION,
};
use crate::session::{after_activate, after_deactivate, deactivate_requests, SessionState};
use crate::translate::{insert_requests, insert_text, key_requests, press_key};
use crate::types::{
    key_of, requests_view, BackendKind, Handle, Interface, Key, Request, RequestView, Role,
};

verus! {

/// The fake-input object: inert until its handshake has been sent.
#[derive(Clone, Copy, Debug, PartialEq, Eq, Structural)]
pub enum FakeInput {
    Unauthenticated { handle: Handle, version: u32 },
    Ready { handle: Handle, version: u32 },
}

/// Why an injection through fake input was refused.
#[derive(Clone, Copy, Debug, PartialEq, Eq, Structural)]
pub enum InjectError {
    /// No fake-input object is bound.
    NotBound,
    /// The handshake has not been sent: using the object would be fatal.
    Unauthenticated,
    /// The bound version has no keyboard keys.
    Unsupported,
}

/// An event that the server pushes.
#[derive(Debug)]
pub enum Event {
    /// A global was advertised.
    Global { name: u32, interface: String, version: u32 },
    /// The input method activated a fresh input context.
    Activate { id: Handle },
    /// The input method deactivated an input context.
    Deactivate { context: Handle },
}

/// What a key request through fake input yields.
pub open spec fn fake_key_outcome(f: Option<FakeInput>, key: u32, pressed: bool) -> Result<
    RequestView,
    InjectError,
> {
    match f {
        None => Err(InjectError::NotBound),
        Some(FakeInput::Unauthenticated { .. }) => Err(InjectError::Unauthenticated),
        Some(FakeInput::Ready { handle, version }) => if version < FAKE_INPUT_VERSION {
            Err(InjectError::Unsupported)
        } else {
            Ok(RequestView::KeyboardKey { fake_input: handle, key, pressed })
        },
    }
}

/// The whole negotiated state: registry, bound objects and input session.
#[derive(Debug)]
pub struct InputCore {
    pub registry: Registry,
    pub session: SessionState,
    pub input_method: Option<Handle>,
    pub panel: Option<Handle>,
    pub surface: Option<Handle>,
    pub panel_surface_requested: bool,
    pub panel_surface: Option<Handle>,
    pub fake_input: Option<FakeInput>,
    pub synced: bool,
}

impl InputCore {
    /// The registry is well formed, and every bound object, and so the
    /// session, comes from a global that was observed.
    pub open spec fn wf(&self) -> bool {
        &&& self.registry.wf()
        &&& self.session.active is Some ==> self.input_method is Some
        &&& self.input_method is Some ==> self.registry.offers(Interface::InputMethod)
        &&& self.panel is Some ==> self.registry.offers(Interface::InputPanel)
        &&& self.fake_input is Some ==> self.registry.offers(Interface::FakeInput)
        &&& self.panel_surface is Some ==> self.panel_surface_requested
    }

    /// The request for a panel surface, owed once both the panel and the
    /// window surface are known and it was not made for this panel yet.
    pub open spec fn owes_panel_surface(&self) -> bool {
        self.panel is Some && self.surface is Some && !self.panel_surface_requested
    }

    pub open spec fn panel_surface_request(&self) -> Seq<RequestView> {
        if self.owes_panel_surface() {
            seq![
                RequestView::GetPanelSurface {
                    panel: self.panel->Some_0,
                    surface: self.surface->Some_0,
                },
            ]
        } else {
            seq![]
        }
    }

    pub fn new() -> (r: InputCore)
        ensures
            r.wf(),
            r.registry.globals@.len() == 0,
            r.registry.backend == BackendKind::Unavailable,
            r.session.active is None,
            r.input_method is None,
            r.panel is None,
            r.surface is None,
            !r.panel_surface_requested,
            r.panel_surface is None,
            r.fake_input is None,
            !r.synced,
    {
        InputCore {
            registry: Registry::new(),
            session: SessionState::new(),
            input_method: None,
            panel: None,
            surface: None,
            panel_surface_requested: false,
            panel_surface: None,
            fake_input: None,
            synced: false,
        }
    }

    /// The active input context, if any.
    pub fn current(&self) -> (r: Option<Handle>)
        ensures
            r == self.session.active,
    {
        self.session.current()
    }

    /// The selected backend.
    pub fn select(&self) -> (r: BackendKind)
        ensures
            r == self.registry.backend,
    {
        self.registry.select()
    }

    /// Records an advertised global; see [`Registry::observe`].
    pub fn observe(&mut self, name: u32, interface: &str, version: u32) -> (r: Result<
        Vec<Request>,
        RegistryError,
    >)
        requires
            old(self).wf(),
        ensures
            final(self).wf(),
            final(self).session == old(self).session,
            final(self).input_method == old(self).input_method,
            final(self).panel == old(self).panel,
            final(self).fake_input == old(self).fake_input,
            old(self).registry.has_name(name) ==> {
                &&& final(self).registry.globals@ == old(self).registry.globals@
                &&& final(self).registry.backend == old(self).registry.backend
                &&& (r is Ok <==> exists|k: int|
                    0 <= k < old(self).registry.globals@.len()
                        && old(self).registry.globals@[k].name == name
                        && old(self).registry.globals@[k].interface@ == interface@)
                &&& r is Ok ==> r->Ok_0@.len() == 0
                &&& r is Err ==> r == Err::<Vec<Request>, RegistryError>(
                    RegistryError::Conflict { name },
                )
            },
            !old(self).registry.has_name(name) ==> {
                &&& r is Ok
                &&& requests_view(r->Ok_0@) == crate::registry::binding_of(
                    interface_of(interface@),
                    name,
                    version,
                )
                &&& final(self).registry.globals@.len() == old(self).registry.globals@.len() + 1
                &&& final(self).registry.globals@.drop_last() == old(self).registry.globals@
                &&& final(self).registry.globals@.last().name == name
                &&& final(self).registry.globals@.last().interface@ == interface@
                &&& final(self).registry.globals@.last().version == version
                &&& final(self).registry.backend == crate::registry::next_backend(
                    old(self).registry.backend,
                    interface_of(interface@),
                )
            },
    {
        let ghost before = self.registry;
        let r = self.registry.observe(name, interface, version);
        proof {
            if before.has_name(name) {
            } else {
                let n = before.globals@.len();
                assert forall|i: Interface| before.offers(i) implies self.registry.offers(i) by {
                    let k = choose|k: int|
                        0 <= k < n && interface_of(before.globals@[k].interface@) == i;
                    assert(self.registry.globals@.drop_last()[k] == self.registry.globals@[k]);
                }
            }
        }
        r
    }

    /// Activation by the input method. The context becomes the active one;
    /// one that arrives while no input method is bound is released.
    pub fn activate(&mut self, id: Handle) -> (r: Vec<Request>)
        requires
            old(self).wf(),
        ensures
            final(self).wf(),
            final(self).registry == old(self).registry,
            final(self).input_method == old(self).input_method,
            old(self).input_method is Some ==> {
                &&& final(self).session.active == after_activate(old(self).session.active, id)
                &&& r@.len() == 0
            },
            old(self).input_method is None ==> {
                &&& final(self).session == old(self).session
                &&& requests_view(r@) == seq![RequestView::Destroy { object: id }]
            },
    {
        let mut r: Vec<Request> = Vec::new();
        if self.input_method.is_some() {
            self.session.activate(id);
        } else {
            r.push(Request::Destroy { object: id });
            assert(requests_view(r@) =~= seq![RequestView::Destroy { object: id }]);
        }
        r
    }

    /// Deactivation by the input method; the context is released in any case.
    pub fn deactivate(&mut self, context: Handle) -> (r: Vec<Request>)
        requires
            old(self).wf(),
        ensures
            final(self).wf(),
            final(self).registry == old(self).registry,
            final(self).input_method == old(self).input_method,
            final(self).session.active == after_deactivate(old(self).session.active, context),
            requests_view(r@) == deactivate_requests(context),
    {
        self.session.deactivate(context)
    }

    /// Feeds one server event through registry and session.
    pub fn apply_event(&mut self, event: Event) -> (r: Result<Vec<Request>, RegistryError>)
        requires
            old(self).wf(),
        ensures
            final(self).wf(),
            match event {
                Event::Global { name, interface, version } => (old(self).registry.has_name(name)
                    ==> final(self).registry.globals@ == old(self).registry.globals@
                    && final(self).registry.backend == old(self).registry.backend && (r is Ok
                    <==> exists|k: int|
                    0 <= k < old(self).registry.globals@.len()
                        && old(self).registry.globals@[k].name == name
                        && old(self).registry.globals@[k].interface@ == interface@) && (r is Ok
                    ==> r->Ok_0@.len() == 0)) && (!old(self).registry.has_name(name)
                    ==> r is Ok && requests_view(r->Ok_0@) == crate::registry::binding_of(
                    interface_of(interface@),
                    name,
                    version,
                ) && final(self).registry.backend == crate::registry::next_backend(
                    old(self).registry.backend,
                    interface_of(interface@),
                )),
                Event::Activate { id } => r is Ok && (old(self).input_method is Some
                    ==> final(self).session.active == Some(id) && r->Ok_0@.len() == 0) && (
                old(self).input_method is None ==> final(self).session == old(self).session
                    && requests_view(r->Ok_0@) == seq![RequestView::Destroy { object: id }]),
                Event::Deactivate { context } => r is Ok && final(self).session.active
                    == after_deactivate(old(self).session.active, context) && requests_view(
                    r->Ok_0@,
                ) == deactivate_requests(context),
            },
    {
        match event {
            Event::Global { name, interface, version } => self.observe(
                name,
                interface.as_str(),
                version,
            ),
            Event::Activate { id } => Ok(self.activate(id)),
            Event::Deactivate { context } => Ok(self.deactivate(context)),
        }
    }

    /// Issues the panel-surface request if it is owed, and marks it made.
    fn request_panel_surface(&mut self) -> (r: Vec<Request>)
        requires
            old(self).wf(),
        ensures
            final(self).wf(),
            requests_view(r@) == old(self).panel_surface_request(),
            old(self).owes_panel_surface() || r@.len() == 0,
            final(self).panel_surface_requested == (old(self).panel_surface_requested
                || old(self).owes_panel_surface()),
            final(self).registry == old(self).registry,
            final(self).session == old(self).session,
            final(self).input_method == old(self).input_method,
            final(self).panel == old(self).panel,
            final(self).surface == old(self).surface,
            final(self).panel_surface == old(self).panel_surface,
            final(self).fake_input == old(self).fake_input,
            final(self).synced == old(self).synced,
    {
        let mut r: Vec<Request> = Vec::new();
        if !self.panel_surface_requested {
            match (self.panel, self.surface) {
                (Some(panel), Some(surface)) => {
                    self.panel_surface_requested = true;
                    r.push(Request::GetPanelSurface { panel, surface });
                },
                _ => {},
            }
        }
        assert(requests_view(r@) =~= old(self).panel_surface_request());
        r
    }

    /// Reports the object that the transport created for a bind request.
    /// A bind for an interface that was never observed is released.
    pub fn bound(&mut self, role: Role, handle: Handle, version: u32) -> (r: Vec<Request>)
        requires
            old(self).wf(),
        ensures
            final(self).wf(),
            final(self).registry == old(self).registry,
            final(self).session == old(self).session,
            final(self).surface == old(self).surface,
            !old(self).registry.offers(interface_of_role(role)) ==> {
                &&& requests_view(r@) == seq![RequestView::Destroy { object: handle }]
                &&& final(self).input_method == old(self).input_method
                &&& final(self).panel == old(self).panel
                &&& final(self).fake_input == old(self).fake_input
            },
            old(self).registry.offers(interface_of_role(role)) ==> match role {
                Role::InputMethod => {
                    &&& final(self).input_method == Some(handle)
                    &&& r@.len() == 0
                },
                Role::InputPanel => {
                    &&& final(self).panel == Some(handle)
                    &&& final(self).panel_surface is None
                    &&& old(self).surface is Some ==> requests_view(r@) == seq![
                        RequestView::GetPanelSurface {
                            panel: handle,
                            surface: old(self).surface->Some_0,
                        },
                    ]
                    &&& old(self).surface is None ==> r@.len() == 0
                },
                Role::FakeInput => {
                    &&& final(self).fake_input == Some(
                        FakeInput::Unauthenticated { handle, version },
                    )
                    &&& r@.len() == 0
                },
            },
    {
        let offered = match role {
            Role::InputMethod => self.registry.offers_interface(Interface::InputMethod),
            Role::InputPanel => self.registry.offers_interface(Interface::InputPanel),
            Role::FakeInput => self.registry.offers_interface(Interface::FakeInput),
        };
        if !offered {
            let mut r: Vec<Request> = Vec::new();
            r.push(Request::Destroy { object: handle });
            assert(requests_view(r@) =~= seq![RequestView::Destroy { object: handle }]);
            return r;
        }
        match role {
            Role::InputMethod => {
                self.input_method = Some(handle);
                Vec::new()
            },
            Role::InputPanel => {
                self.panel = Some(handle);
                self.panel_surface_requested = false;
                self.panel_surface = None;
                self.request_panel_surface()
            },
            Role::FakeInput => {
                self.fake_input = Some(FakeInput::Unauthenticated { handle, version });
                Vec::new()
            },
        }
    }

    /// Reports the panel surface that the transport created.
    pub fn panel_surface_created(&mut self, handle: Handle) -> (r: Vec<Request>)
        requires
            old(self).wf(),
        ensures
            final(self).wf(),
            old(self).panel_surface_requested && old(self).panel_surface is None ==> {
                &&& final(self).panel_surface == Some(handle)
                &&& r@.len() == 0
            },
            !(old(self).panel_surface_requested && old(self).panel_surface is None) ==> {
                &&& final(self).panel_surface == old(self).panel_surface
                &&& requests_view(r@) == seq![RequestView::Destroy { object: handle }]
            },
            final(self).registry == old(self).registry,
            final(self).session == old(self).session,
    {
        let mut r: Vec<Request> = Vec::new();
        if self.panel_surface_requested && self.panel_surface.is_none() {
            self.panel_surface = Some(handle);
        } else {
            r.push(Request::Destroy { object: handle });
            assert(requests_view(r@) =~= seq![RequestView::Destroy { object: handle }]);
        }
        r
    }

    /// Hands over the window surface once the interface has realised it.
    /// The panel surface is requested at most once per bound panel.
    pub fn provide_surface(&mut self, surface: Handle) -> (r: Vec<Request>)
        requires
            old(self).wf(),
        ensures
            final(self).wf(),
            final(self).surface == Some(surface),
            final(self).registry == old(self).registry,
            final(self).session == old(self).session,
            old(self).panel is Some && !old(self).panel_surface_requested ==> requests_view(r@)
                == seq![
                RequestView::GetPanelSurface { panel: old(self).panel->Some_0, surface },
            ],
            !(old(self).panel is Some && !old(self).panel_surface_requested) ==> r@.len() == 0,
            final(self).panel_surface_requested == (old(self).panel_surface_requested
                || old(self).panel is Some),
    {
        self.surface = Some(surface);
        self.request_panel_surface()
    }

    /// Sends the fake-input handshake: who asks, and why.
    pub fn authenticate(&mut self, application: &str, reason: &str) -> (r: Result<
        Request,
        InjectError,
    >)
        requires
            old(self).wf(),
        ensures
            final(self).wf(),
            final(self).registry == old(self).registry,
            final(self).session == old(self).session,
            match old(self).fake_input {
                None => r == Err::<Request, InjectError>(InjectError::NotBound)
                    && final(self).fake_input is None,
                Some(FakeInput::Unauthenticated { handle, version }) | Some(
                    FakeInput::Ready { handle, version },
                ) => {
                    &&& r is Ok
                    &&& r->Ok_0@ == (RequestView::Authenticate {
                        fake_input: handle,
                        application: application@,
                        reason: reason@,
                    })
                    &&& final(self).fake_input == Some(FakeInput::Ready { handle, version })
                },
            },
    {
        match self.fake_input {
            None => Err(InjectError::NotBound),
            Some(FakeInput::Unauthenticated { handle, version }) | Some(
                FakeInput::Ready { handle, version },
            ) => {
                self.fake_input = Some(FakeInput::Ready { handle, version });
                Ok(
                    Request::Authenticate {
                        fake_input: handle,
                        application: application.to_owned(),
                        reason: reason.to_owned(),
                    },
                )
            },
        }
    }

    /// A key press or release through fake input; refused unless the
    /// handshake was sent and the bound version has keyboard keys.
    pub fn fake_key(&self, key: u32, pressed: bool) -> (r: Result<Request, InjectError>)
        ensures
            match fake_key_outcome(self.fake_input, key, pressed) {
                Ok(v) => r is Ok && r->Ok_0@ == v,
                Err(e) => r == Err::<Request, InjectError>(e),
            },
    {
        match self.fake_input {
            None => Err(InjectError::NotBound),
            Some(FakeInput::Unauthenticated { .. }) => Err(InjectError::Unauthenticated),
            Some(FakeInput::Ready { handle, version }) => {
                if version < FAKE_INPUT_VERSION {
                    Err(InjectError::Unsupported)
                } else {
                    Ok(Request::KeyboardKey { fake_input: handle, key, pressed })
                }
            },
        }
    }

    /// Inserts text at the cursor of the active context.
    pub fn insert_text(&self, text: &str) -> (r: Vec<Request>)
        ensures
            requests_view(r@) == insert_requests(self.session.active, text@),
    {
        insert_text(self.current(), text)
    }

    /// Sends a special key to the active context.
    pub fn press_key(&self, key: Key) -> (r: Vec<Request>)
        ensures
            requests_view(r@) == key_requests(self.session.active, key),
    {
        press_key(self.current(), key)
    }

    /// Sends the key that the keyboard layout names `name`.
    pub fn key(&self, name: &str) -> (r: Vec<Request>)
        ensures
            requests_view(r@) == key_requests(self.session.active, key_of(name@)),
    {
        press_key(self.current(), Key::from_name(name))
    }

    /// Notes a completed round trip; true the first time, when the core
    /// becomes ready for input.
    pub fn resynced(&mut self) -> (first: bool)
        requires
            old(self).wf(),
        ensures
            final(self).wf(),
            first == !old(self).synced,
            final(self).synced,
            final(self).registry == old(self).registry,
            final(self).session == old(self).session,
    {
        let first = !self.synced;
        self.synced = true;
        first
    }

    /// True once the core is ready and no backend can be reached: typing is
    /// then disabled.
    pub fn unreachable(&self) -> (r: bool)
        ensures
            r == (self.synced && self.registry.backend == BackendKind::Unavailable),
    {
        self.synced && self.select() == BackendKind::Unavailable
    }
}

/// A core that has observed no global has no active context, and every
/// action on it yields no request.
pub proof fn lemma_nothing_observed(c: &InputCore, text: Seq<char>, key: Key)
    requires
        c.wf(),
        c.registry.globals@.len() == 0,
    ensures
        c.session.active is None,
        insert_requests(c.session.active, text).len() == 0,
        key_requests(c.session.active, key).len() == 0,
{
    crate::translate::lemma_no_context_no_requests(text, key);
}

/// A fake-input object whose handshake was never sent refuses every key.
pub proof fn lemma_unauthenticated_refused(handle: Handle, version: u32, key: u32, pressed: bool)
    ensures
        fake_key_outcome(Some(FakeInput::Unauthenticated { handle, version }), key, pressed)
            == Err::<RequestView, InjectError>(InjectError::Unauthenticated),
{
}

} // verus!

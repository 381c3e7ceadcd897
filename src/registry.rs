use vstd::prelude::*;

use crate::types::{requests_view, text_eq, BackendKind, Interface, Request, RequestView, Role};

verus! {

/// Highest version of `zwp_input_method_v1` that the binder speaks.
pub const INPUT_METHOD_VERSION: u32 = 1;

/// Highest version of `zwp_input_panel_v1` that the binder speaks.
pub const INPUT_PANEL_VERSION: u32 = 1;

/// Highest version of `org_kde_kwin_fake_input` that the binder speaks
/// (the first one with keyboard keys).
pub const FAKE_INPUT_VERSION: u32 = 4;

/// A global that the server advertised.
#[derive(Debug)]
pub struct GlobalCapability {
    pub name: u32,
    pub interface: String,
    pub version: u32,
}

/// A second advertisement of a known name that claims another interface.
#[derive(Clone, Copy, Debug, PartialEq, Eq, Structural)]
pub enum RegistryError {
    Conflict { name: u32 },
}

/// The kind of the interface called `s`.
pub open spec fn interface_of(s: Seq<char>) -> Interface {
    if s == "org_kde_kwin_fake_input"@ {
        Interface::FakeInput
    } else if s == "zwp_virtual_keyboard_v1"@ {
        Interface::VirtualKeyboard
    } else if s == "zwp_input_method_v1"@ {
        Interface::InputMethod
    } else if s == "zwp_input_panel_v1"@ {
        Interface::InputPanel
    } else {
        Interface::Other
    }
}

/// Classifies an interface name.
pub fn classify(s: &str) -> (r: Interface)
    ensures
        r == interface_of(s@),
{
    if text_eq(s, "org_kde_kwin_fake_input") {
        Interface::FakeInput
    } else if text_eq(s, "zwp_virtual_keyboard_v1") {
        Interface::VirtualKeyboard
    } else if text_eq(s, "zwp_input_method_v1") {
        Interface::InputMethod
    } else if text_eq(s, "zwp_input_panel_v1") {
        Interface::InputPanel
    } else {
        Interface::Other
    }
}

/// Selection policy: fake input always wins; the generic backend is chosen
/// for a virtual keyboard or an input method unless fake input was chosen.
pub open spec fn next_backend(b: BackendKind, i: Interface) -> BackendKind {
    match i {
        Interface::FakeInput => BackendKind::PrivilegedInjection,
        Interface::VirtualKeyboard | Interface::InputMethod => if b
            == BackendKind::PrivilegedInjection {
            b
        } else {
            BackendKind::GenericVirtualInput
        },
        _ => b,
    }
}

/// The selection after observing the interfaces `seen`, in order, from `b`.
pub open spec fn backend_after(b: BackendKind, seen: Seq<Interface>) -> BackendKind
    decreases seen.len(),
{
    if seen.len() == 0 {
        b
    } else {
        next_backend(backend_after(b, seen.drop_last()), seen.last())
    }
}

/// The smaller of the advertised version and the one the binder speaks.
pub open spec fn capped(advertised: u32, spoken: u32) -> u32 {
    if advertised < spoken {
        advertised
    } else {
        spoken
    }
}

/// The bind requests for a newly observed global `name` of kind `i`.
pub open spec fn binding_of(i: Interface, name: u32, version: u32) -> Seq<RequestView> {
    match i {
        Interface::InputMethod => seq![
            RequestView::Bind {
                name,
                role: Role::InputMethod,
                version: capped(version, INPUT_METHOD_VERSION),
            },
        ],
        Interface::InputPanel => seq![
            RequestView::Bind {
                name,
                role: Role::InputPanel,
                version: capped(version, INPUT_PANEL_VERSION),
            },
        ],
        Interface::FakeInput => seq![
            RequestView::Bind {
                name,
                role: Role::FakeInput,
                version: capped(version, FAKE_INPUT_VERSION),
            },
        ],
        _ => seq![],
    }
}

/// The interface that a bound object of `role` was created from.
pub open spec fn interface_of_role(role: Role) -> Interface {
    match role {
        Role::InputMethod => Interface::InputMethod,
        Role::InputPanel => Interface::InputPanel,
        Role::FakeInput => Interface::FakeInput,
    }
}

/// The globals observed so far, each name once, and the selected backend.
#[derive(Debug)]
pub struct Registry {
    pub globals: Vec<GlobalCapability>,
    pub backend: BackendKind,
}

impl Registry {
    /// The kinds of the recorded globals, in the order they were observed.
    pub open spec fn interfaces(&self) -> Seq<Interface> {
        self.globals@.map_values(|g: GlobalCapability| interface_of(g.interface@))
    }

    pub open spec fn has_name(&self, name: u32) -> bool {
        exists|k: int| 0 <= k < self.globals@.len() && self.globals@[k].name == name
    }

    pub open spec fn offers(&self, i: Interface) -> bool {
        exists|k: int| 0 <= k < self.globals@.len() && interface_of(self.globals@[k].interface@) == i
    }

    /// Names are unique and the backend is the one the policy selects from
    /// the recorded globals.
    pub open spec fn wf(&self) -> bool {
        &&& forall|j: int, k: int|
            0 <= j < k < self.globals@.len() ==> self.globals@[j].name != self.globals@[k].name
        &&& self.backend == backend_after(BackendKind::Unavailable, self.interfaces())
    }

    pub fn new() -> (r: Registry)
        ensures
            r.wf(),
            r.globals@.len() == 0,
            r.backend == BackendKind::Unavailable,
    {
        let r = Registry { globals: Vec::new(), backend: BackendKind::Unavailable };
        assert(r.interfaces() =~= Seq::<Interface>::empty());
        r
    }

    /// The selected backend.
    pub fn select(&self) -> (r: BackendKind)
        ensures
            r == self.backend,
    {
        self.backend
    }

    /// Whether a global of kind `i` was observed.
    pub fn offers_interface(&self, i: Interface) -> (r: bool)
        ensures
            r == self.offers(i),
    {
        let mut k: usize = 0;
        while k < self.globals.len()
            invariant
                0 <= k <= self.globals@.len(),
                forall|j: int| 0 <= j < k ==> interface_of(self.globals@[j].interface@) != i,
            decreases self.globals@.len() - k,
        {
            if classify(self.globals[k].interface.as_str()) == i {
                return true;
            }
            k += 1;
        }
        false
    }

    /// Records one advertised global and returns the bind requests it calls
    /// for. A name seen before changes nothing: with the same interface it is
    /// accepted with no request, with another one it is a conflict.
    pub fn observe(&mut self, name: u32, interface: &str, version: u32) -> (r: Result<
        Vec<Request>,
        RegistryError,
    >)
        requires
            old(self).wf(),
        ensures
            final(self).wf(),
            old(self).has_name(name) ==> {
                &&& final(self).globals@ == old(self).globals@
                &&& final(self).backend == old(self).backend
                &&& (r is Ok <==> exists|k: int|
                    0 <= k < old(self).globals@.len() && old(self).globals@[k].name == name
                        && old(self).globals@[k].interface@ == interface@)
                &&& r is Ok ==> r->Ok_0@.len() == 0
                &&& r is Err ==> r == Err::<Vec<Request>, RegistryError>(
                    RegistryError::Conflict { name },
                )
            },
            !old(self).has_name(name) ==> {
                &&& r is Ok
                &&& requests_view(r->Ok_0@) == binding_of(interface_of(interface@), name, version)
                &&& final(self).globals@.len() == old(self).globals@.len() + 1
                &&& final(self).globals@.drop_last() == old(self).globals@
                &&& final(self).globals@.last().name == name
                &&& final(self).globals@.last().interface@ == interface@
                &&& final(self).globals@.last().version == version
                &&& final(self).backend == next_backend(
                    old(self).backend,
                    interface_of(interface@),
                )
            },
    {
        let mut k: usize = 0;
        while k < self.globals.len()
            invariant
                0 <= k <= self.globals@.len(),
                forall|j: int| 0 <= j < k ==> self.globals@[j].name != name,
                self.wf(),
                self.globals@ == old(self).globals@,
                self.backend == old(self).backend,
            decreases self.globals@.len() - k,
        {
            if self.globals[k].name == name {
                if text_eq(self.globals[k].interface.as_str(), interface) {
                    return Ok(Vec::new());
                } else {
                    return Err(RegistryError::Conflict { name });
                }
            }
            k += 1;
        }
        let kind = classify(interface);
        let ghost before = self.interfaces();
        self.globals.push(GlobalCapability { name, interface: interface.to_owned(), version });
        self.backend = next_backend_exec(self.backend, kind);
        assert(self.interfaces().drop_last() =~= before);
        assert(self.globals@.drop_last() =~= old(self).globals@);
        let reqs = bind_requests(kind, name, version);
        Ok(reqs)
    }
}

/// Executable form of the selection policy.
pub fn next_backend_exec(b: BackendKind, i: Interface) -> (r: BackendKind)
    ensures
        r == next_backend(b, i),
{
    match i {
        Interface::FakeInput => BackendKind::PrivilegedInjection,
        Interface::VirtualKeyboard | Interface::InputMethod => {
            if b == BackendKind::PrivilegedInjection {
                b
            } else {
                BackendKind::GenericVirtualInput
            }
        },
        _ => b,
    }
}

fn cap(advertised: u32, spoken: u32) -> (r: u32)
    ensures
        r == capped(advertised, spoken),
{
    if advertised < spoken {
        advertised
    } else {
        spoken
    }
}

/// The bind requests for a newly observed global.
pub fn bind_requests(i: Interface, name: u32, version: u32) -> (r: Vec<Request>)
    ensures
        requests_view(r@) == binding_of(i, name, version),
{
    let mut r: Vec<Request> = Vec::new();
    match i {
        Interface::InputMethod => {
            r.push(
                Request::Bind {
                    name,
                    role: Role::InputMethod,
                    version: cap(version, INPUT_METHOD_VERSION),
                },
            );
        },
        Interface::InputPanel => {
            r.push(
                Request::Bind {
                    name,
                    role: Role::InputPanel,
                    version: cap(version, INPUT_PANEL_VERSION),
                },
            );
        },
        Interface::FakeInput => {
            r.push(
                Request::Bind { name, role: Role::FakeInput, version: cap(version, FAKE_INPUT_VERSION) },
            );
        },
        _ => {},
    }
    assert(requests_view(r@) =~= binding_of(i, name, version));
    r
}

/// Any sequence of observations that holds fake input selects the
/// privileged backend, whatever was observed before or after it.
pub proof fn lemma_privileged_wins(b: BackendKind, seen: Seq<Interface>, i: int)
    requires
        0 <= i < seen.len(),
        seen[i] == Interface::FakeInput,
    ensures
        backend_after(b, seen) == BackendKind::PrivilegedInjection,
    decreases seen.len(),
{
    if i < seen.len() - 1 {
        lemma_privileged_wins(b, seen.drop_last(), i);
    }
}

/// Once fake input has been observed, `select` returns the privileged
/// backend after every later observation, never the generic one.
pub proof fn lemma_privileged_is_kept(b: BackendKind, seen: Seq<Interface>, i: int)
    requires
        0 <= i < seen.len(),
        seen[i] == Interface::FakeInput,
    ensures
        forall|j: int|
            i < j <= seen.len() ==> backend_after(b, #[trigger] seen.take(j))
                == BackendKind::PrivilegedInjection,
{
    assert forall|j: int| i < j <= seen.len() implies backend_after(b, #[trigger] seen.take(j))
        == BackendKind::PrivilegedInjection by {
        lemma_privileged_wins(b, seen.take(j), i);
    }
}

/// A registry that has recorded fake input selects the privileged backend.
pub proof fn lemma_registry_keeps_privileged(r: &Registry)
    requires
        r.wf(),
        r.offers(Interface::FakeInput),
    ensures
        r.backend == BackendKind::PrivilegedInjection,
        r.backend != BackendKind::GenericVirtualInput,
{
    let k = choose|k: int|
        0 <= k < r.globals@.len() && interface_of(r.globals@[k].interface@) == Interface::FakeInput;
    lemma_privileged_wins(BackendKind::Unavailable, r.interfaces(), k);
}

} // verus!

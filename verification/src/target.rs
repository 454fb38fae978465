use vstd::prelude::*;

verus! {

/// A Niri compositor window id: the first real target key.
#[derive(Debug, Clone, Copy, PartialEq, Eq, Hash, Structural)]
pub struct NiriWindowId(pub u64);

impl NiriWindowId {
    pub fn new(value: u64) -> (id: Self)
        ensures
            id.0 == value,
    {
        Self(value)
    }

    pub fn value(self) -> (value: u64)
        ensures
            value == self.0,
    {
        self.0
    }
}

/// A Niri window, named by its id.
#[derive(Debug, Clone, Copy, PartialEq, Eq, Hash, Structural)]
pub struct NiriWindow {
    pub id: NiriWindowId,
}

impl NiriWindow {
    pub fn new(id: NiriWindowId) -> (window: Self)
        ensures
            window.id == id,
    {
        Self { id }
    }
}

/// A portable system target; Niri windows are the only backend today.
#[derive(Debug, Clone, Copy, PartialEq, Eq, Hash, Structural)]
pub enum SystemTarget {
    NiriWindow(NiriWindow),
}

impl SystemTarget {
    /// The Niri window id that a target names, if it names one.
    pub open spec fn spec_niri_window_id(self) -> Option<NiriWindowId> {
        match self {
            SystemTarget::NiriWindow(window) => Some(window.id),
        }
    }

    pub fn niri_window(id: u64) -> (target: Self)
        ensures
            target == SystemTarget::NiriWindow(NiriWindow { id: NiriWindowId(id) }),
    {
        Self::NiriWindow(NiriWindow::new(NiriWindowId::new(id)))
    }

    pub fn niri_window_id(self) -> (id: Option<NiriWindowId>)
        ensures
            id == self.spec_niri_window_id(),
    {
        match self {
            Self::NiriWindow(window) => Some(window.id),
        }
    }
}

/// The abstract value of a harness target: its name and the system target it owns.
pub struct HarnessTargetView {
    pub name: Seq<char>,
    pub target: SystemTarget,
}

/// A named harness surface and the one system target that it owns.
#[derive(Debug, Clone, PartialEq, Eq)]
pub struct HarnessTarget {
    name: String,
    target: SystemTarget,
}

impl View for HarnessTarget {
    type V = HarnessTargetView;

    closed spec fn view(&self) -> HarnessTargetView {
        HarnessTargetView { name: self.name@, target: self.target }
    }
}

impl HarnessTarget {
    pub fn new(name: &str, target: SystemTarget) -> (harness: Self)
        ensures
            harness@.name == name@,
            harness@.target == target,
    {
        Self { name: name.to_owned(), target }
    }

    pub fn name(&self) -> (name: &str)
        ensures
            name@ == self@.name,
    {
        self.name.as_str()
    }

    pub fn owns_target(&self, target: SystemTarget) -> (owns: bool)
        ensures
            owns == (self@.target == target),
    {
        self.target == target
    }
}

/// A target built from a Niri window id names that same id back.
pub proof fn lemma_niri_window_id_round_trip(id: u64)
    ensures
        (SystemTarget::NiriWindow(NiriWindow { id: NiriWindowId(id) })).spec_niri_window_id()
            == Some(NiriWindowId(id)),
{
}

} // verus!

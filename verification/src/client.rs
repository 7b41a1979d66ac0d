//! What the compositor reports about its windows and workspaces.

use vstd::prelude::*;
use vstd::string::*;
use crate::text::same_text;

verus! {

/// The name of the workspace that holds windows which are out of sight.
pub const SPECIAL_WORKSPACE: &'static str = "hyprdrop";

/// The identifier that the compositor gave a window.  It says nothing about
/// the window and cannot be known before the window exists.
#[derive(Debug, PartialEq, Eq)]
pub struct WindowHandle {
    pub address: String,
}

impl View for WindowHandle {
    type V = Seq<char>;

    open spec fn view(&self) -> Seq<char> {
        self.address@
    }
}

impl Clone for WindowHandle {
    fn clone(&self) -> (copy: Self)
        ensures
            copy == *self,
    {
        WindowHandle { address: self.address.clone() }
    }
}

impl WindowHandle {
    pub fn new(address: &str) -> (handle: Self)
        ensures
            handle@ == address@,
    {
        WindowHandle { address: String::from_str(address) }
    }

    /// Whether both handles name the same window.
    pub fn same_as(&self, other: &WindowHandle) -> (same: bool)
        ensures
            same == (self@ == other@),
    {
        self.address == other.address
    }
}

/// A workspace as plain values.
pub struct WorkspaceView {
    pub id: i32,
    pub name: Seq<char>,
}

/// A workspace: its number and its name.
#[derive(Debug, PartialEq, Eq)]
pub struct WorkspaceState {
    pub id: i32,
    pub name: String,
}

impl View for WorkspaceState {
    type V = WorkspaceView;

    open spec fn view(&self) -> WorkspaceView {
        WorkspaceView { id: self.id, name: self.name@ }
    }
}

impl Clone for WorkspaceState {
    fn clone(&self) -> (copy: Self)
        ensures
            copy == *self,
    {
        WorkspaceState { id: self.id, name: self.name.clone() }
    }
}

impl WorkspaceView {
    /// Whether this is the workspace for windows that are out of sight.
    pub open spec fn is_special(self) -> bool {
        self.name == SPECIAL_WORKSPACE@
    }
}

impl WorkspaceState {
    pub fn new(id: i32, name: &str) -> (workspace: Self)
        ensures
            workspace@ == (WorkspaceView { id, name: name@ }),
    {
        WorkspaceState { id, name: String::from_str(name) }
    }

    /// Whether this is the workspace for windows that are out of sight.
    pub fn is_special(&self) -> (special: bool)
        ensures
            special == self@.is_special(),
    {
        same_text(self.name.as_str(), SPECIAL_WORKSPACE)
    }
}

/// A window as plain values.
pub struct ClientView {
    pub handle: Seq<char>,
    pub class: Seq<char>,
    pub title: Seq<char>,
    pub initial_title: Seq<char>,
    pub workspace: WorkspaceView,
}

/// One window as the compositor reported it.  The initial title is the title
/// the window had when it was created; it stays while the title may change.
#[derive(Debug, PartialEq, Eq)]
pub struct LiveClient {
    pub handle: WindowHandle,
    pub class: String,
    pub title: String,
    pub initial_title: String,
    pub workspace: WorkspaceState,
}

impl View for LiveClient {
    type V = ClientView;

    open spec fn view(&self) -> ClientView {
        ClientView {
            handle: self.handle@,
            class: self.class@,
            title: self.title@,
            initial_title: self.initial_title@,
            workspace: self.workspace@,
        }
    }
}

impl Clone for LiveClient {
    fn clone(&self) -> (copy: Self)
        ensures
            copy == *self,
    {
        LiveClient {
            handle: self.handle.clone(),
            class: self.class.clone(),
            title: self.title.clone(),
            initial_title: self.initial_title.clone(),
            workspace: self.workspace.clone(),
        }
    }
}

/// The clients of a snapshot as plain values, in the order reported.
pub open spec fn snapshot(clients: Seq<LiveClient>) -> Seq<ClientView> {
    clients.map_values(|c: LiveClient| c@)
}

/// Whether some client of the snapshot has the handle.
pub open spec fn is_live(clients: Seq<ClientView>, handle: Seq<char>) -> bool {
    exists|i: int| 0 <= i < clients.len() && (#[trigger] clients[i]).handle == handle
}

/// Whether a window of the snapshot bears the handle.
pub fn handle_is_live(clients: &Vec<LiveClient>, handle: &WindowHandle) -> (live: bool)
    ensures
        live == is_live(snapshot(clients@), handle@),
{
    let mut i: usize = 0;
    while i < clients.len()
        invariant
            i <= clients.len(),
            forall|j: int| 0 <= j < i ==> (#[trigger] snapshot(clients@)[j]).handle != handle@,
        decreases clients.len() - i,
    {
        if clients[i].handle.same_as(handle) {
            assert(snapshot(clients@)[i as int].handle == handle@);
            return true;
        }
        i += 1;
    }
    false
}

} // verus!

//! The secondary editor window.
//!
//! Opening a window is the host runtime's work. What is decided here is what
//! the runtime is asked for, and what its answer means to the caller:
//! [`open_editor`] describes the window for an editor id, and
//! [`open_editor_result`] turns the runtime's reply into the result of the
//! command. Between the two the embedding program talks to the runtime.

use vstd::prelude::*;
use crate::menu::{Submenu, SubmenuView, file_menu, file_menu_view};

verus! {

/// Route prefix of every editor window; the editor id follows it.
pub const EDITOR_ROUTE: &'static str = "editor/";

/// Title of every editor window.
pub const EDITOR_TITLE: &'static str = "Editor";

/// What the host runtime is asked to open.
#[derive(Debug)]
pub struct EditorWindow {
    /// The name under which the runtime registers the window: the editor id.
    pub label: String,
    /// The path that the front end's router resolves inside the window.
    pub target: String,
    /// The window's title.
    pub title: String,
    /// The window's menu bar, one submenu after the other.
    pub menu: Vec<Submenu>,
}

/// What an [`EditorWindow`] holds, as sequences.
pub ghost struct EditorWindowView {
    pub label: Seq<char>,
    pub target: Seq<char>,
    pub title: Seq<char>,
    pub menu: Seq<SubmenuView>,
}

impl View for EditorWindow {
    type V = EditorWindowView;

    open spec fn view(&self) -> EditorWindowView {
        EditorWindowView {
            label: self.label@,
            target: self.target@,
            title: self.title@,
            menu: self.menu@.map_values(|submenu: Submenu| submenu@),
        }
    }
}

/// The navigation target of the editor `editor_id`: the route prefix, then
/// the id as it was given.
pub open spec fn navigation_path(editor_id: Seq<char>) -> Seq<char> {
    EDITOR_ROUTE@ + editor_id
}

/// The window of the editor `editor_id`: registered under the id, showing
/// the id's navigation target, titled "Editor", with the "File" submenu as
/// its whole menu bar.
pub open spec fn editor_window(editor_id: Seq<char>) -> EditorWindowView {
    EditorWindowView {
        label: editor_id,
        target: navigation_path(editor_id),
        title: EDITOR_TITLE@,
        menu: seq![file_menu_view()],
    }
}

/// Builds the navigation target of an editor window.
///
/// The id is appended as it is: no character of it is checked, escaped or
/// dropped. Whether the outcome is a usable path is the host runtime's to say.
pub fn navigation_target(editor_id: &str) -> (target: String)
    ensures
        target@ == navigation_path(editor_id@),
{
    EDITOR_ROUTE.to_string().concat(editor_id)
}

/// Describes the window to open for the editor `editor_id`.
///
/// Every id is accepted and gives a description; the title and the menu do
/// not depend on it.
pub fn open_editor(editor_id: &str) -> (window: EditorWindow)
    ensures
        window@ == editor_window(editor_id@),
{
    let mut menu: Vec<Submenu> = Vec::new();
    menu.push(file_menu());
    let window = EditorWindow {
        label: editor_id.to_string(),
        target: navigation_target(editor_id),
        title: EDITOR_TITLE.to_string(),
        menu,
    };
    assert(window@.menu =~= editor_window(editor_id@).menu);
    window
}

/// What the host runtime answered when it was asked for a window.
#[derive(Debug, Clone, Copy, PartialEq, Eq, Structural)]
pub enum HostReply {
    /// The window exists and carries the requested title.
    Opened,
    /// The editor id was of no use to the runtime: the navigation target
    /// built from it did not come out as a valid URL.
    MalformedPath,
    /// The windowing subsystem did not create the window: the label is
    /// taken, or a resource ran out.
    CreationFailed,
}

/// Why an editor window was not opened.
#[derive(Debug, Clone, Copy, PartialEq, Eq, Structural)]
pub enum OpenEditorError {
    /// The editor id does not give a valid navigation target.
    InvalidWindowId,
    /// The host runtime failed to create the window.
    WindowCreationFailed,
}

/// The result of the command, given the runtime's reply.
pub open spec fn open_result(reply: HostReply) -> Result<(), OpenEditorError> {
    match reply {
        HostReply::Opened => Ok(()),
        HostReply::MalformedPath => Err(OpenEditorError::InvalidWindowId),
        HostReply::CreationFailed => Err(OpenEditorError::WindowCreationFailed),
    }
}

/// Turns the host runtime's reply into the result of opening the window.
///
/// The command succeeds exactly when the runtime opened the window; each
/// failure of the runtime comes back as the error kind that names it.
pub fn open_editor_result(reply: HostReply) -> (result: Result<(), OpenEditorError>)
    ensures
        result == open_result(reply),
        result is Ok <==> reply is Opened,
        (result matches Err(kind) && kind is InvalidWindowId) <==> reply is MalformedPath,
        (result matches Err(kind) && kind is WindowCreationFailed) <==> reply is CreationFailed,
{
    match reply {
        HostReply::Opened => Ok(()),
        HostReply::MalformedPath => Err(OpenEditorError::InvalidWindowId),
        HostReply::CreationFailed => Err(OpenEditorError::WindowCreationFailed),
    }
}

/// The window of any id is registered under that id, shows `editor/` followed
/// by the id, and is titled "Editor".
pub proof fn lemma_window_shows_its_id(editor_id: Seq<char>)
    ensures
        editor_window(editor_id).label == editor_id,
        editor_window(editor_id).target == seq!['e', 'd', 'i', 't', 'o', 'r', '/'] + editor_id,
        editor_window(editor_id).target.len() == 7 + editor_id.len(),
        editor_window(editor_id).title == seq!['E', 'd', 'i', 't', 'o', 'r'],
{
    reveal_strlit("editor/");
    reveal_strlit("Editor");
    assert(EDITOR_ROUTE@ =~= seq!['e', 'd', 'i', 't', 'o', 'r', '/']);
    assert(EDITOR_TITLE@ =~= seq!['E', 'd', 'i', 't', 'o', 'r']);
}

/// Two editor windows share their title and their menu, and differ in label
/// and in navigation target exactly when their ids differ: distinct ids never
/// collide, and the same id always names the same window.
pub proof fn lemma_windows_differ_by_id(a: Seq<char>, b: Seq<char>)
    ensures
        editor_window(a).title == editor_window(b).title,
        editor_window(a).menu == editor_window(b).menu,
        editor_window(a).label == editor_window(b).label <==> a == b,
        editor_window(a).target == editor_window(b).target <==> a == b,
{
    let prefix = EDITOR_ROUTE@;
    if navigation_path(a) == navigation_path(b) {
        assert(a =~= navigation_path(a).subrange(prefix.len() as int, navigation_path(a).len() as int));
        assert(b =~= navigation_path(b).subrange(prefix.len() as int, navigation_path(b).len() as int));
    }
}

} // verus!

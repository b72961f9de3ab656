//! The entry in the file manager's context menu.
//!
//! What has to be written to the registry or removed from the disk differs
//! from platform to platform, and doing it is the caller's work. The
//! functions of this module make the list of what is to be done, in order.
//! The caller stops at the first registry write that fails.

use vstd::prelude::*;
use vstd::string::StringExecFns;
use crate::settings::Platform;
use crate::text::join_text;

verus! {

/// One step of installing or removing the menu entry.
#[derive(Debug, Clone, PartialEq, Eq)]
pub enum ShellAction {
    /// Remove this directory below the user's home directory, if it exists.
    RemoveLegacyWorkflow(String),
    /// Make the system read its list of services again.
    FlushServices,
    /// Set the value `name` of the key `key` below the current user's root.
    SetRegistryValue { key: String, name: String, value: String },
    /// Delete the key `key` below the current user's root with all below it.
    DeleteRegistryTree(String),
    /// Restart the file manager so that it reads the menu again.
    RestartExplorer,
}

/// A [`ShellAction`] over character sequences.
pub enum ShellActionView {
    RemoveLegacyWorkflow(Seq<char>),
    FlushServices,
    SetRegistryValue { key: Seq<char>, name: Seq<char>, value: Seq<char> },
    DeleteRegistryTree(Seq<char>),
    RestartExplorer,
}

impl View for ShellAction {
    type V = ShellActionView;

    open spec fn view(&self) -> ShellActionView {
        match *self {
            ShellAction::RemoveLegacyWorkflow(path) => ShellActionView::RemoveLegacyWorkflow(
                path@,
            ),
            ShellAction::FlushServices => ShellActionView::FlushServices,
            ShellAction::SetRegistryValue { key, name, value } =>
                ShellActionView::SetRegistryValue { key: key@, name: name@, value: value@ },
            ShellAction::DeleteRegistryTree(key) => ShellActionView::DeleteRegistryTree(key@),
            ShellAction::RestartExplorer => ShellActionView::RestartExplorer,
        }
    }
}

/// A list of steps over character sequences.
pub open spec fn actions_view(actions: Seq<ShellAction>) -> Seq<ShellActionView> {
    actions.map_values(|action: ShellAction| action@)
}

/// Why the menu entry cannot be installed.
#[derive(Debug, Clone, Copy, PartialEq, Eq, Structural)]
pub enum ContextMenuError {
    /// The platform has no context menu that the application could extend.
    Unsupported,
}

/// The directory of a service that earlier versions installed under `name`.
pub open spec fn legacy_workflow_path(name: Seq<char>) -> Seq<char> {
    "Library/Services/"@ + name + ".workflow"@
}

/// The removal of what earlier versions installed.
pub open spec fn legacy_cleanup() -> Seq<ShellActionView> {
    seq![
        ShellActionView::RemoveLegacyWorkflow(legacy_workflow_path("用TinyImage压缩"@)),
        ShellActionView::RemoveLegacyWorkflow(legacy_workflow_path("TinyImage"@)),
    ]
}

/// The registry key of the menu entry for files with `extension`.
pub open spec fn menu_key(extension: Seq<char>) -> Seq<char> {
    "Software\\Classes\\SystemFileAssociations\\."@ + extension + "\\shell\\TinyImage"@
}

/// The command that the menu entry runs: the executable with the flag for
/// silent compression and the file that was clicked.
pub open spec fn menu_command(exe_path: Seq<char>) -> Seq<char> {
    "\""@ + exe_path + "\" --compress \"%1\""@
}

/// The registry values of the menu entry for files with `extension`. With
/// `Player` a selection of several files runs the command once per file.
pub open spec fn menu_entry(extension: Seq<char>, exe_path: Seq<char>) -> Seq<ShellActionView> {
    seq![
        ShellActionView::SetRegistryValue {
            key: menu_key(extension),
            name: ""@,
            value: "用TinyImage压缩"@,
        },
        ShellActionView::SetRegistryValue {
            key: menu_key(extension),
            name: "Icon"@,
            value: exe_path + ",0"@,
        },
        ShellActionView::SetRegistryValue {
            key: menu_key(extension),
            name: "MultiSelectModel"@,
            value: "Player"@,
        },
        ShellActionView::SetRegistryValue {
            key: menu_key(extension) + "\\command"@,
            name: ""@,
            value: menu_command(exe_path),
        },
    ]
}

/// What installing the menu entry takes on `platform`, for the executable at
/// `exe_path`.
pub open spec fn registration(platform: Platform, exe_path: Seq<char>) -> Result<
    Seq<ShellActionView>,
    ContextMenuError,
> {
    match platform {
        Platform::MacOs => Ok(legacy_cleanup() + seq![ShellActionView::FlushServices]),
        Platform::Windows => Ok(
            menu_entry("png"@, exe_path) + menu_entry("jpg"@, exe_path) + menu_entry(
                "jpeg"@,
                exe_path,
            ) + menu_entry("webp"@, exe_path) + seq![ShellActionView::RestartExplorer],
        ),
        Platform::Other => Err(ContextMenuError::Unsupported),
    }
}

/// What removing the menu entry takes on `platform`.
pub open spec fn unregistration(platform: Platform) -> Seq<ShellActionView> {
    match platform {
        Platform::MacOs => legacy_cleanup(),
        Platform::Windows => seq![
            ShellActionView::DeleteRegistryTree(menu_key("png"@)),
            ShellActionView::DeleteRegistryTree(menu_key("jpg"@)),
            ShellActionView::DeleteRegistryTree(menu_key("jpeg"@)),
            ShellActionView::DeleteRegistryTree(menu_key("webp"@)),
            ShellActionView::RestartExplorer,
        ],
        Platform::Other => Seq::empty(),
    }
}

/// The contents of a plan or the error that stands in its place.
pub open spec fn plan_view(plan: Result<Vec<ShellAction>, ContextMenuError>) -> Result<
    Seq<ShellActionView>,
    ContextMenuError,
> {
    match plan {
        Ok(actions) => Ok(actions_view(actions@)),
        Err(error) => Err(error),
    }
}

fn push_action(actions: &mut Vec<ShellAction>, action: ShellAction)
    ensures
        actions_view(final(actions)@) == actions_view(old(actions)@).push(action@),
{
    actions.push(action);
    assert(actions_view(actions@) =~= actions_view(old(actions)@).push(action@));
}

fn workflow_path(name: &str) -> (path: String)
    ensures
        path@ == legacy_workflow_path(name@),
{
    let mut path = String::from_str("Library/Services/");
    path.append(name);
    path.append(".workflow");
    path
}

fn registry_key(extension: &str) -> (key: String)
    ensures
        key@ == menu_key(extension@),
{
    let mut key = String::from_str("Software\\Classes\\SystemFileAssociations\\.");
    key.append(extension);
    key.append("\\shell\\TinyImage");
    key
}

fn push_menu_entry(actions: &mut Vec<ShellAction>, extension: &str, exe_path: &str)
    ensures
        actions_view(final(actions)@) == actions_view(old(actions)@) + menu_entry(
            extension@,
            exe_path@,
        ),
{
    push_action(
        actions,
        ShellAction::SetRegistryValue {
            key: registry_key(extension),
            name: String::from_str(""),
            value: String::from_str("用TinyImage压缩"),
        },
    );
    push_action(
        actions,
        ShellAction::SetRegistryValue {
            key: registry_key(extension),
            name: String::from_str("Icon"),
            value: join_text(exe_path, ",0"),
        },
    );
    push_action(
        actions,
        ShellAction::SetRegistryValue {
            key: registry_key(extension),
            name: String::from_str("MultiSelectModel"),
            value: String::from_str("Player"),
        },
    );
    let mut command = String::from_str("\"");
    command.append(exe_path);
    command.append("\" --compress \"%1\"");
    push_action(
        actions,
        ShellAction::SetRegistryValue {
            key: join_text(registry_key(extension).as_str(), "\\command"),
            name: String::from_str(""),
            value: command,
        },
    );
    assert(actions_view(actions@) =~= actions_view(old(actions)@) + menu_entry(
        extension@,
        exe_path@,
    ));
}

/// Lists the removal of what earlier versions installed on macOS.
pub fn cleanup_legacy_workflows() -> (actions: Vec<ShellAction>)
    ensures
        actions_view(actions@) == legacy_cleanup(),
{
    let mut actions: Vec<ShellAction> = Vec::new();
    assert(actions_view(actions@) =~= Seq::empty());
    push_action(&mut actions, ShellAction::RemoveLegacyWorkflow(workflow_path("用TinyImage压缩")));
    push_action(&mut actions, ShellAction::RemoveLegacyWorkflow(workflow_path("TinyImage")));
    assert(actions_view(actions@) =~= legacy_cleanup());
    actions
}

/// Lists what installing the menu entry takes. On a platform without such a
/// menu there is nothing to install, which is an error for the caller to
/// show.
pub fn register(platform: Platform, exe_path: &str) -> (plan: Result<
    Vec<ShellAction>,
    ContextMenuError,
>)
    ensures
        plan_view(plan) == registration(platform, exe_path@),
{
    match platform {
        Platform::MacOs => {
            let mut actions = cleanup_legacy_workflows();
            push_action(&mut actions, ShellAction::FlushServices);
            assert(actions_view(actions@) =~= legacy_cleanup() + seq![
                ShellActionView::FlushServices,
            ]);
            Ok(actions)
        },
        Platform::Windows => {
            let mut actions: Vec<ShellAction> = Vec::new();
            assert(actions_view(actions@) =~= Seq::empty());
            push_menu_entry(&mut actions, "png", exe_path);
            push_menu_entry(&mut actions, "jpg", exe_path);
            push_menu_entry(&mut actions, "jpeg", exe_path);
            push_menu_entry(&mut actions, "webp", exe_path);
            push_action(&mut actions, ShellAction::RestartExplorer);
            assert(actions_view(actions@) =~= menu_entry("png"@, exe_path@) + menu_entry(
                "jpg"@,
                exe_path@,
            ) + menu_entry("jpeg"@, exe_path@) + menu_entry("webp"@, exe_path@) + seq![
                ShellActionView::RestartExplorer,
            ]);
            Ok(actions)
        },
        Platform::Other => Err(ContextMenuError::Unsupported),
    }
}

/// Lists what removing the menu entry takes. There is always such a list; on
/// a platform without a menu it is empty.
pub fn unregister(platform: Platform) -> (plan: Result<Vec<ShellAction>, ContextMenuError>)
    ensures
        plan_view(plan) == Ok::<Seq<ShellActionView>, ContextMenuError>(unregistration(platform)),
{
    match platform {
        Platform::MacOs => Ok(cleanup_legacy_workflows()),
        Platform::Windows => {
            let mut actions: Vec<ShellAction> = Vec::new();
            assert(actions_view(actions@) =~= Seq::empty());
            push_action(&mut actions, ShellAction::DeleteRegistryTree(registry_key("png")));
            push_action(&mut actions, ShellAction::DeleteRegistryTree(registry_key("jpg")));
            push_action(&mut actions, ShellAction::DeleteRegistryTree(registry_key("jpeg")));
            push_action(&mut actions, ShellAction::DeleteRegistryTree(registry_key("webp")));
            push_action(&mut actions, ShellAction::RestartExplorer);
            assert(actions_view(actions@) =~= unregistration(platform));
            Ok(actions)
        },
        Platform::Other => {
            let actions: Vec<ShellAction> = Vec::new();
            assert(actions_view(actions@) =~= Seq::empty());
            Ok(actions)
        },
    }
}

} // verus!

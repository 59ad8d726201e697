//! The working folder of a conversation.
use crate::files::{is_object_number, object_number};
use crate::paths::{components, join_path, path_joined, same_path};
use vstd::prelude::*;

verus! {

/// The working folder of a conversation below the private state.
pub open spec fn conversation_folder(state_dir: Seq<char>, id: Seq<char>) -> Seq<char> {
    path_joined(path_joined(state_dir, "workspaces"@), id)
}

/// The working folder of a conversation below the private state.
pub fn ensure_conversation_workspace(state_dir: &str, discord_thread_id: &str) -> (r: Result<
    String,
    &'static str,
>)
    ensures
        object_number(discord_thread_id@) ==> r is Ok && r->Ok_0@ == conversation_folder(
            state_dir@,
            discord_thread_id@,
        ),
        !object_number(discord_thread_id@) ==> r is Err && r->Err_0@
            == "invalid Discord conversation ID"@,
{
    let root = join_path(state_dir, "workspaces");
    ensure_conversation_workspace_at(root.as_str(), discord_thread_id)
}

/// The working folder of a conversation below a root.
pub fn ensure_conversation_workspace_at(root: &str, discord_thread_id: &str) -> (r: Result<
    String,
    &'static str,
>)
    ensures
        object_number(discord_thread_id@) ==> r is Ok && r->Ok_0@ == path_joined(
            root@,
            discord_thread_id@,
        ),
        !object_number(discord_thread_id@) ==> r is Err && r->Err_0@
            == "invalid Discord conversation ID"@,
{
    if is_object_number(discord_thread_id) {
        Ok(join_path(root, discord_thread_id))
    } else {
        Err("invalid Discord conversation ID")
    }
}

/// What is wrong with the directories of a working folder, as the file system shows them.
pub open spec fn folder_objection(
    root: Seq<char>,
    canonical_root: Seq<char>,
    folder: Seq<char>,
    canonical_folder: Seq<char>,
    is_dir: bool,
    owned: bool,
) -> Option<Seq<char>> {
    if components(canonical_root) != components(root) {
        Some("workspace root path changed"@)
    } else if components(canonical_folder) != components(folder) {
        Some("workspace path changed"@)
    } else if !is_dir || !owned {
        Some("workspace identity invalid"@)
    } else {
        None
    }
}

/// Whether a working folder is the plain directory that it should be.
pub fn check_workspace(
    root: &str,
    canonical_root: &str,
    folder: &str,
    canonical_folder: &str,
    is_dir: bool,
    owned: bool,
) -> (r: Result<(), &'static str>)
    ensures
        match folder_objection(
            root@,
            canonical_root@,
            folder@,
            canonical_folder@,
            is_dir,
            owned,
        ) {
            None => r is Ok,
            Some(e) => r is Err && r->Err_0@ == e,
        },
{
    if !same_path(canonical_root, root) {
        Err("workspace root path changed")
    } else if !same_path(canonical_folder, folder) {
        Err("workspace path changed")
    } else if !is_dir || !owned {
        Err("workspace identity invalid")
    } else {
        Ok(())
    }
}

/// Each conversation has a working folder of its own.
pub proof fn conversations_do_not_share_folders(root: Seq<char>, a: Seq<char>, b: Seq<char>)
    requires
        a != b,
    ensures
        path_joined(root, a) != path_joined(root, b),
{
    let (x, y) = (path_joined(root, a), path_joined(root, b));
    if x == y {
        let head: Seq<char> = if root.len() == 0 {
            Seq::empty()
        } else if root.last() == '/' {
            root
        } else {
            root + "/"@
        };
        assert(x =~= head + a);
        assert(y =~= head + b);
        assert(a =~= x.skip(head.len() as int));
        assert(b =~= y.skip(head.len() as int));
    }
}

} // verus!

//! What the panels exchange with a session's host: records, requests and failures, as plain values.

use vstd::prelude::*;

use crate::text;

verus! {

/// The largest file the host sends for a preview, in bytes.
pub const WORKSPACE_FILE_PREVIEW_LIMIT: u64 = 524288;

/// The selected chat: its id and the device that holds its checkout.
#[derive(Debug, Clone, PartialEq, Eq)]
pub struct ChatRow {
    pub id: String,
    pub device_id: String,
}

/// One hit of a file search in a checkout.
#[derive(Debug, Clone, PartialEq, Eq)]
pub struct FileSearchMatch {
    pub path: String,
    pub is_dir: bool,
}

/// What the host answers about one file.
#[derive(Debug, Clone, PartialEq, Eq)]
pub enum WorkspaceFileContent {
    /// The file's UTF-8 text.
    Text { text: String },
    /// There is no such file.
    NotFound,
    /// The path leads out of the checkout.
    OutsideWorkspace,
    /// The path is a folder.
    Directory,
    /// The file is binary or not readable as text.
    NotPreviewable,
    /// The file is larger than the limit.
    TooLarge { byte_len: u64, limit: u64 },
    /// The host may not read the file.
    PermissionDenied,
}

/// The host's answer to a read: the path as it resolved it, and what it found there.
#[derive(Debug, Clone, PartialEq, Eq)]
pub struct WorkspaceFileRead {
    pub path: String,
    pub content: WorkspaceFileContent,
}

/// One worktree on the device.
#[derive(Debug, Clone, PartialEq, Eq)]
pub struct WorktreeEntry {
    pub repo_name: String,
    pub name: String,
    pub path: String,
}

/// Where the device creates worktrees, and which ones it has.
#[derive(Debug, Clone, PartialEq, Eq)]
pub struct WorktreeSettings {
    /// The location saved by the user, where there is one.
    pub custom_root: Option<String>,
    /// The location in use.
    pub effective_root: String,
    /// Whether an environment variable overrides the saved location.
    pub environment_override: bool,
    pub worktrees: Vec<WorktreeEntry>,
}

/// Why a call to the engine failed.
#[derive(Debug, Clone, PartialEq, Eq)]
pub enum RpcError {
    UnknownMethod(String),
    BadParams(String),
    Failed(String),
    Transport(String),
    Closed,
}

impl RpcError {
    /// The connection is at fault, not the request.
    pub open spec fn connection_lost(self) -> bool {
        self is Transport || self is Closed
    }

    /// Whether the connection is at fault, not the request.
    pub fn is_connection_lost(&self) -> (r: bool)
        ensures
            r == self.connection_lost(),
            r == (self is Transport || self is Closed),
    {
        matches!(self, RpcError::Transport(_) | RpcError::Closed)
    }
}

/// A failed call: why it failed, and the text that the engine's client shows for it.
#[derive(Debug, Clone, PartialEq, Eq)]
pub struct CallError {
    pub error: RpcError,
    pub shown: String,
}

/// The engine as a panel finds it.
#[derive(Debug, Clone, PartialEq, Eq)]
pub enum Engine {
    Connected,
    Missing,
}

/// The engine methods that the panels call.
#[derive(Debug, Clone, Copy, PartialEq, Eq, Structural)]
pub enum Method {
    SearchFiles,
    ReadWorkspaceFile,
    GetWorktreeSettings,
    SetWorktreeRoot,
}

/// One named parameter of a call; without a value it is null.
#[derive(Debug, Clone, PartialEq, Eq)]
pub struct Param {
    pub name: &'static str,
    pub value: Option<String>,
}

impl View for Param {
    type V = (Seq<char>, Option<Seq<char>>);

    open spec fn view(&self) -> (Seq<char>, Option<Seq<char>>) {
        (self.name@, text::optional(self.value))
    }
}

/// A call to the engine.
#[derive(Debug, Clone, PartialEq, Eq)]
pub struct RpcCall {
    pub method: Method,
    pub params: Vec<Param>,
}

impl View for RpcCall {
    type V = (Method, Seq<(Seq<char>, Option<Seq<char>>)>);

    open spec fn view(&self) -> (Method, Seq<(Seq<char>, Option<Seq<char>>)>) {
        (self.method, self.params@.map_values(|p: Param| p@))
    }
}

/// The call that searches a chat's checkout.
pub open spec fn search_files(query: Seq<char>, chat: ChatRow) -> (
    Method,
    Seq<(Seq<char>, Option<Seq<char>>)>,
) {
    (
        Method::SearchFiles,
        seq![
            ("query"@, Some(query)),
            ("chatId"@, Some(chat.id@)),
            ("targetDeviceId"@, Some(chat.device_id@)),
        ],
    )
}

/// The call that reads a file of a chat's checkout on the device that holds it.
pub open spec fn read_workspace_file(path: Seq<char>, chat: ChatRow) -> (
    Method,
    Seq<(Seq<char>, Option<Seq<char>>)>,
) {
    (
        Method::ReadWorkspaceFile,
        seq![
            ("chatId"@, Some(chat.id@)),
            ("path"@, Some(path)),
            ("targetDeviceId"@, Some(chat.device_id@)),
        ],
    )
}

/// The call that asks for the worktree settings.
pub open spec fn get_worktree_settings() -> (Method, Seq<(Seq<char>, Option<Seq<char>>)>) {
    (Method::GetWorktreeSettings, seq![])
}

/// The call that saves the worktree location; null resets it to the default.
pub open spec fn set_worktree_root(root: Option<Seq<char>>) -> (
    Method,
    Seq<(Seq<char>, Option<Seq<char>>)>,
) {
    (Method::SetWorktreeRoot, seq![("customRoot"@, root)])
}

/// There is one parameter of this name, and it has this value.
pub open spec fn carries(params: Seq<Param>, name: Seq<char>, value: Option<Seq<char>>) -> bool {
    exists|i: int|
        {
            &&& 0 <= i < params.len()
            &&& (#[trigger] params[i]).name@ == name
            &&& text::optional(params[i].value) == value
            &&& forall|j: int|
                0 <= j < params.len() && (#[trigger] params[j]).name@ == name ==> j == i
        }
}

impl RpcCall {
    /// The call asks this device for the file at this path, of this chat's checkout.
    pub open spec fn reads(self, path: Seq<char>, chat_id: Seq<char>, device_id: Seq<char>) -> bool {
        &&& self.method is ReadWorkspaceFile
        &&& self.params@.len() == 3
        &&& carries(self.params@, "path"@, Some(path))
        &&& carries(self.params@, "chatId"@, Some(chat_id))
        &&& carries(self.params@, "targetDeviceId"@, Some(device_id))
    }

    /// The call asks this device for the files that match this query, of this chat's checkout.
    pub open spec fn searches(
        self,
        query: Seq<char>,
        chat_id: Seq<char>,
        device_id: Seq<char>,
    ) -> bool {
        &&& self.method is SearchFiles
        &&& self.params@.len() == 3
        &&& carries(self.params@, "query"@, Some(query))
        &&& carries(self.params@, "chatId"@, Some(chat_id))
        &&& carries(self.params@, "targetDeviceId"@, Some(device_id))
    }

    /// The call asks for the worktree settings, and says nothing else.
    pub open spec fn fetches_settings(self) -> bool {
        self.method is GetWorktreeSettings && self.params@.len() == 0
    }

    /// The call saves this worktree location, or resets it, and says nothing else.
    pub open spec fn saves_root(self, root: Option<Seq<char>>) -> bool {
        &&& self.method is SetWorktreeRoot
        &&& self.params@.len() == 1
        &&& carries(self.params@, "customRoot"@, root)
    }
}

/// A call to read a file carries the path, the chat and the device as they are, each once.
pub proof fn law_read_calls_carry_the_path(call: RpcCall, path: Seq<char>, chat: ChatRow)
    requires
        call@ == read_workspace_file(path, chat),
    ensures
        call.reads(path, chat.id@, chat.device_id@),
{
    reveal_strlit("chatId");
    reveal_strlit("path");
    reveal_strlit("targetDeviceId");
    let params = call.params@;
    let sent = call@.1;
    assert(sent.len() == 3);
    assert(params[0]@ == sent[0] && params[1]@ == sent[1] && params[2]@ == sent[2]);
    assert("chatId"@.len() == 6 && "path"@.len() == 4 && "targetDeviceId"@.len() == 14);
}

/// A call to search carries the query, the chat and the device as they are, each once.
pub proof fn law_search_calls_carry_the_query(call: RpcCall, query: Seq<char>, chat: ChatRow)
    requires
        call@ == search_files(query, chat),
    ensures
        call.searches(query, chat.id@, chat.device_id@),
{
    reveal_strlit("chatId");
    reveal_strlit("query");
    reveal_strlit("targetDeviceId");
    let params = call.params@;
    let sent = call@.1;
    assert(sent.len() == 3);
    assert(params[0]@ == sent[0] && params[1]@ == sent[1] && params[2]@ == sent[2]);
    assert("chatId"@.len() == 6 && "query"@.len() == 5 && "targetDeviceId"@.len() == 14);
}

/// A call to save the location carries the location as it is, or none, and a call for the settings
/// carries nothing.
pub proof fn law_settings_calls_carry_the_root(call: RpcCall, root: Option<Seq<char>>)
    ensures
        call@ == set_worktree_root(root) ==> call.saves_root(root),
        call@ == get_worktree_settings() ==> call.fetches_settings(),
{
    let params = call.params@;
    let sent = call@.1;
    if call@ == set_worktree_root(root) {
        assert(sent.len() == 1);
        assert(params[0]@ == sent[0]);
        assert(carries(params, "customRoot"@, root));
    }
    if call@ == get_worktree_settings() {
        assert(sent.len() == 0);
    }
}

impl RpcCall {
    /// The call that searches a chat's checkout.
    pub fn search_files(query: &str, chat: &ChatRow) -> (r: RpcCall)
        ensures
            r@ == search_files(query@, *chat),
            r.searches(query@, chat.id@, chat.device_id@),
    {
        let mut params: Vec<Param> = Vec::new();
        params.push(Param { name: "query", value: Some(query.to_string()) });
        params.push(Param { name: "chatId", value: Some(chat.id.clone()) });
        params.push(Param { name: "targetDeviceId", value: Some(chat.device_id.clone()) });
        let call = RpcCall { method: Method::SearchFiles, params };
        assert(call@.1 =~= search_files(query@, *chat).1);
        proof {
            law_search_calls_carry_the_query(call, query@, *chat);
        }
        call
    }

    /// The call that reads a file of a chat's checkout.
    pub fn read_workspace_file(path: &str, chat: &ChatRow) -> (r: RpcCall)
        ensures
            r@ == read_workspace_file(path@, *chat),
            r.reads(path@, chat.id@, chat.device_id@),
    {
        let mut params: Vec<Param> = Vec::new();
        params.push(Param { name: "chatId", value: Some(chat.id.clone()) });
        params.push(Param { name: "path", value: Some(path.to_string()) });
        params.push(Param { name: "targetDeviceId", value: Some(chat.device_id.clone()) });
        let call = RpcCall { method: Method::ReadWorkspaceFile, params };
        assert(call@.1 =~= read_workspace_file(path@, *chat).1);
        proof {
            law_read_calls_carry_the_path(call, path@, *chat);
        }
        call
    }

    /// The call that asks for the worktree settings.
    pub fn get_worktree_settings() -> (r: RpcCall)
        ensures
            r@ == get_worktree_settings(),
            r.fetches_settings(),
    {
        let call = RpcCall { method: Method::GetWorktreeSettings, params: Vec::new() };
        assert(call@.1 =~= get_worktree_settings().1);
        call
    }

    /// The call that saves the worktree location.
    pub fn set_worktree_root(root: Option<String>) -> (r: RpcCall)
        ensures
            r@ == set_worktree_root(text::optional(root)),
            r.saves_root(text::optional(root)),
    {
        let mut params: Vec<Param> = Vec::new();
        params.push(Param { name: "customRoot", value: root });
        let call = RpcCall { method: Method::SetWorktreeRoot, params };
        assert(call@.1 =~= set_worktree_root(text::optional(root)).1);
        proof {
            law_settings_calls_carry_the_root(call, text::optional(root));
        }
        call
    }
}

} // verus!

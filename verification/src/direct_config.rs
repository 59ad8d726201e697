//! Configuration of the runtime that the gateway owns itself.
use crate::codec::{compact, document, sha256_hex};
use crate::codex_execution::ExecutionOptions;
use crate::codex_transport::LaunchConfig;
use crate::config::{digest_of_four, is_nonzero_id, nonzero_id, Discord, Limits, Storage};
use crate::json::JsonView;
use crate::paths::{
    absolute, climbs, has_parent_step, is_absolute, is_within, join_path, path_joined, path_within,
};
use crate::text::{blank, byte_len, is_blank, same, utf8_len, views};
use vstd::prelude::*;

verus! {

#[derive(Debug)]
pub struct DirectConfig {
    pub discord: Discord,
    pub codex: Codex,
    pub storage: Storage,
    pub limits: Limits,
    pub default_model: String,
    pub default_reasoning_effort: String,
}

#[derive(Debug)]
pub struct Codex {
    pub command: String,
    pub home: String,
    pub workspace_root: Option<String>,
    pub model_provider: String,
    pub sandbox: String,
    pub approval_policy: String,
    pub network_access: bool,
}

/// The model provider unless configured.
pub fn default_provider() -> (r: String)
    ensures
        r@ == "openai"@,
{
    "openai".to_owned()
}

/// The sandbox unless configured.
pub fn default_sandbox() -> (r: String)
    ensures
        r@ == "workspace-write"@,
{
    "workspace-write".to_owned()
}

/// The approval policy unless configured.
pub fn default_approval() -> (r: String)
    ensures
        r@ == "on-request"@,
{
    "on-request".to_owned()
}

/// What the file system says of the command and the home of Codex, where they are there.
#[derive(Clone, Copy, Debug)]
pub struct CodexFiles {
    pub command: Option<CommandFile>,
    pub home: Option<HomeDirectory>,
}

#[derive(Clone, Copy, Debug)]
pub struct CommandFile {
    pub is_file: bool,
    /// Permission bits.
    pub mode: u32,
}

#[derive(Clone, Copy, Debug)]
pub struct HomeDirectory {
    pub is_dir: bool,
    pub is_symlink: bool,
    pub owned: bool,
    /// Permission bits.
    pub mode: u32,
}

/// What is wrong with the configured workspace root.
pub open spec fn root_objection(c: DirectConfig) -> Option<Seq<char>> {
    match c.codex.workspace_root {
        None => None,
        Some(root) => if !absolute(root@) {
            Some("Codex workspace root must be absolute"@)
        } else if climbs(root@) {
            Some("Codex workspace root must be normalized"@)
        } else if path_within(root@, c.codex.home@) || path_within(root@, c.storage.state_dir@)
            || path_within(c.storage.state_dir@, root@) {
            Some("Codex workspace root overlaps private runtime state"@)
        } else {
            None
        },
    }
}

/// Whether the limits are positive and consistent.
pub open spec fn consistent_limits(l: Limits) -> bool {
    l.positive() && l.covered()
}

/// What is wrong with a configuration, given what the file system says.
pub open spec fn direct_objection(c: DirectConfig, files: CodexFiles) -> Option<Seq<char>> {
    if !nonzero_id(c.discord.guild_id@) || !nonzero_id(c.discord.allowed_user_id@) {
        Some("Discord IDs must be nonzero"@)
    } else if !(absolute(c.discord.token_file@) && absolute(c.codex.command@) && absolute(
        c.codex.home@,
    ) && absolute(c.storage.state_dir@) && absolute(c.storage.temp_dir@) && absolute(
        c.storage.socket_path@,
    )) {
        Some("Gateway paths must be absolute"@)
    } else if root_objection(c) is Some {
        root_objection(c)
    } else if files.command is None {
        Some("Codex command unavailable"@)
    } else if !(files.command->0.is_file && files.command->0.mode & 0o111 != 0) {
        Some("Codex command is not executable"@)
    } else if files.home is None {
        Some("Codex home unavailable"@)
    } else if !(files.home->0.is_dir && !files.home->0.is_symlink && files.home->0.owned
        && files.home->0.mode & 0o077 == 0) {
        Some("Codex home must be a private directory owned by the Gateway user"@)
    } else if blank(c.default_model@) || utf8_len(c.default_model@) > 128 || blank(
        c.codex.model_provider@,
    ) || utf8_len(c.codex.model_provider@) > 128 {
        Some("Codex model or provider is invalid"@)
    } else if c.codex.sandbox@ != "workspace-write"@ && c.codex.sandbox@ != "read-only"@ {
        Some("unsupported Codex sandbox"@)
    } else if c.codex.approval_policy@ != "on-request"@ {
        Some("interactive Codex approval policy is required"@)
    } else if !consistent_limits(c.limits) {
        Some("resource limits must be positive and internally consistent"@)
    } else {
        None
    }
}

impl DirectConfig {
    /// The digest of what identifies this instance and never changes.
    pub fn fixed_digest(&self) -> (r: String)
        ensures
            r@ == sha256_hex(
                compact(
                    document(
                        JsonView::Array(
                            seq![
                                JsonView::Text(self.discord.guild_id@),
                                JsonView::Text(self.discord.allowed_user_id@),
                                JsonView::Text(self.storage.state_dir@),
                                JsonView::Text(self.codex.home@),
                            ],
                        ),
                    ),
                ),
            ),
    {
        digest_of_four(
            self.discord.guild_id.as_str(),
            self.discord.allowed_user_id.as_str(),
            self.storage.state_dir.as_str(),
            self.codex.home.as_str(),
        )
    }

    /// The directory below which each conversation has its working folder.
    pub fn workspace_root(&self) -> (r: String)
        ensures
            r@ == match self.codex.workspace_root {
                Some(root) => root@,
                None => path_joined(self.storage.state_dir@, "workspaces"@),
            },
    {
        match &self.codex.workspace_root {
            Some(root) => root.clone(),
            None => join_path(self.storage.state_dir.as_str(), "workspaces"),
        }
    }

    fn check_root(&self) -> (r: Result<(), &'static str>)
        ensures
            match root_objection(*self) {
                None => r is Ok,
                Some(e) => r is Err && r->Err_0@ == e,
            },
    {
        match &self.codex.workspace_root {
            None => Ok(()),
            Some(root) => {
                let root = root.as_str();
                let state = self.storage.state_dir.as_str();
                if !is_absolute(root) {
                    Err("Codex workspace root must be absolute")
                } else if has_parent_step(root) {
                    Err("Codex workspace root must be normalized")
                } else if is_within(root, self.codex.home.as_str()) || is_within(root, state)
                    || is_within(state, root) {
                    Err("Codex workspace root overlaps private runtime state")
                } else {
                    Ok(())
                }
            },
        }
    }

    /// Checks the configuration against what the file system says.
    pub fn validate(&self, files: &CodexFiles) -> (r: Result<(), &'static str>)
        ensures
            match direct_objection(*self, *files) {
                None => r is Ok,
                Some(e) => r is Err && r->Err_0@ == e,
            },
    {
        if !is_nonzero_id(self.discord.guild_id.as_str()) || !is_nonzero_id(
            self.discord.allowed_user_id.as_str(),
        ) {
            return Err("Discord IDs must be nonzero");
        }
        if !(is_absolute(self.discord.token_file.as_str()) && is_absolute(
            self.codex.command.as_str(),
        ) && is_absolute(self.codex.home.as_str()) && is_absolute(self.storage.state_dir.as_str())
            && is_absolute(self.storage.temp_dir.as_str()) && is_absolute(
            self.storage.socket_path.as_str(),
        )) {
            return Err("Gateway paths must be absolute");
        }
        match self.check_root() {
            Ok(()) => {},
            Err(e) => return Err(e),
        }
        match files.command {
            None => return Err("Codex command unavailable"),
            Some(f) => {
                if !(f.is_file && f.mode & 0o111 != 0) {
                    return Err("Codex command is not executable");
                }
            },
        }
        match files.home {
            None => return Err("Codex home unavailable"),
            Some(h) => {
                if !(h.is_dir && !h.is_symlink && h.owned && h.mode & 0o077 == 0) {
                    return Err("Codex home must be a private directory owned by the Gateway user");
                }
            },
        }
        if is_blank(self.default_model.as_str()) || byte_len(self.default_model.as_str()) > 128
            || is_blank(self.codex.model_provider.as_str()) || byte_len(
            self.codex.model_provider.as_str(),
        ) > 128 {
            return Err("Codex model or provider is invalid");
        }
        if !same(self.codex.sandbox.as_str(), "workspace-write") && !same(
            self.codex.sandbox.as_str(),
            "read-only",
        ) {
            return Err("unsupported Codex sandbox");
        }
        if !same(self.codex.approval_policy.as_str(), "on-request") {
            return Err("interactive Codex approval policy is required");
        }
        if !(self.limits.is_positive() && self.limits.is_covered()) {
            return Err("resource limits must be positive and internally consistent");
        }
        Ok(())
    }

    /// How the app server is started.
    pub fn launch(&self) -> (r: LaunchConfig)
        ensures
            r.command@ == self.codex.command@,
            views(r.args@) == seq!["app-server"@, "--listen"@, "stdio://"@],
            r.codex_home@ == self.codex.home@,
            r.initialize_timeout == 15_000,
            r.request_timeout == 30_000,
            r.experimental_api,
    {
        let mut args: Vec<String> = Vec::new();
        args.push("app-server".to_owned());
        args.push("--listen".to_owned());
        args.push("stdio://".to_owned());
        assert(views(args@) =~= seq!["app-server"@, "--listen"@, "stdio://"@]);
        LaunchConfig {
            command: self.codex.command.clone(),
            args,
            codex_home: self.codex.home.clone(),
            initialize_timeout: 15_000,
            request_timeout: 30_000,
            experimental_api: true,
        }
    }

    /// How turns are executed; the working folder is filled in for each conversation.
    pub fn execution(&self) -> (r: ExecutionOptions)
        ensures
            r.cwd@.len() == 0,
            r.model@ == self.default_model@,
            r.model_provider@ == self.codex.model_provider@,
            r.sandbox@ == self.codex.sandbox@,
            r.approval_policy@ == self.codex.approval_policy@,
            r.network_access == self.codex.network_access,
    {
        ExecutionOptions {
            cwd: String::new(),
            model: self.default_model.clone(),
            model_provider: self.codex.model_provider.clone(),
            sandbox: self.codex.sandbox.clone(),
            approval_policy: self.codex.approval_policy.clone(),
            network_access: self.codex.network_access,
        }
    }
}

/// A workspace root that is accepted never holds the private state nor lies in it.
pub proof fn private_state_is_apart(c: DirectConfig, files: CodexFiles)
    requires
        direct_objection(c, files) is None,
        c.codex.workspace_root is Some,
    ensures
        !path_within(c.codex.workspace_root->0@, c.codex.home@),
        !path_within(c.codex.workspace_root->0@, c.storage.state_dir@),
        !path_within(c.storage.state_dir@, c.codex.workspace_root->0@),
{
}

} // verus!

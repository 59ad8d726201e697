//! Configuration of the gateway and the rules that it must keep.
use crate::codec::{
    canonical_uuid, compact, document, encode, parse_url, parse_uuid, sha256_hex, url_parts, UrlView,
};
use crate::domain::digest;
use crate::json::{array, text, trees, Json, JsonView};
use crate::numbers::{parse_unsigned, unsigned_of};
use crate::paths::{absolute, components, is_absolute, is_within, paths_overlap, same_path};
use crate::text::{borrowed, byte_len, same, some_same, trim, trimmed, utf8_len};
use vstd::prelude::*;

verus! {

/// Which messages the bot answers.
#[derive(Clone, Copy, Debug, PartialEq, Eq, Structural)]
pub enum ResponseMode {
    All,
    Mention,
}

impl ResponseMode {
    /// Every message is answered unless the configuration says otherwise.
    pub fn default_mode() -> (r: ResponseMode)
        ensures
            r == ResponseMode::All,
    {
        ResponseMode::All
    }

    /// Reads the name of a mode.
    pub fn parse(s: &str) -> (r: Option<ResponseMode>)
        ensures
            s@ == "all"@ ==> r == Some(ResponseMode::All),
            s@ != "all"@ && s@ == "mention"@ ==> r == Some(ResponseMode::Mention),
            s@ != "all"@ && s@ != "mention"@ ==> r is None,
    {
        if same(s, "all") {
            Some(ResponseMode::All)
        } else if same(s, "mention") {
            Some(ResponseMode::Mention)
        } else {
            None
        }
    }
}

#[derive(Debug, PartialEq)]
pub struct Config {
    pub discord: Discord,
    pub proxy: Proxy,
    pub storage: Storage,
    pub limits: Limits,
    pub projects: Vec<Project>,
}

#[derive(Debug, PartialEq)]
pub struct Discord {
    pub guild_id: String,
    pub allowed_user_id: String,
    pub token_file: String,
    pub response_mode: ResponseMode,
}

impl Discord {
    /// The settings of Discord from the fields of a configuration file.
    pub fn read(
        guild_id: &str,
        allowed_user_id: &str,
        token_file: &str,
        response_mode: Option<&str>,
    ) -> (r: Result<Discord, &'static str>)
        ensures
            r is Ok <==> response_mode is None || response_mode->0@ == "all"@ || response_mode->0@
                == "mention"@,
            r is Err ==> r->Err_0@ == "unknown response mode"@,
            r is Ok ==> {
                let d = r->Ok_0;
                &&& d.guild_id@ == guild_id@
                &&& d.allowed_user_id@ == allowed_user_id@
                &&& d.token_file@ == token_file@
                &&& d.response_mode == if response_mode is Some && response_mode->0@ != "all"@ {
                    ResponseMode::Mention
                } else {
                    ResponseMode::All
                }
            },
    {
        let response_mode = match response_mode {
            None => ResponseMode::default_mode(),
            Some(s) => match ResponseMode::parse(s) {
                Some(mode) => mode,
                None => return Err("unknown response mode"),
            },
        };
        Ok(
            Discord {
                guild_id: guild_id.to_owned(),
                allowed_user_id: allowed_user_id.to_owned(),
                token_file: token_file.to_owned(),
                response_mode,
            },
        )
    }
}

#[derive(Debug, PartialEq)]
pub struct Proxy {
    pub base_url: String,
    pub api_key_file: String,
    pub contract_version: String,
}

#[derive(Debug, PartialEq)]
pub struct Storage {
    pub state_dir: String,
    pub temp_dir: String,
    pub socket_path: String,
}

#[derive(Clone, Copy, Debug, PartialEq, Eq, Structural)]
pub struct Limits {
    pub attachments: usize,
    pub attachment_bytes: usize,
    pub input_bytes: usize,
    pub text_bytes: usize,
    pub image_pixels: u64,
    pub artifact_bytes: usize,
    pub temp_bytes: u64,
    pub output_bytes: usize,
    pub output_total_bytes: usize,
    pub delivery_retention_secs: u64,
    pub queue_conversation: usize,
    pub queue_global: usize,
    pub validation_secs: u64,
}

/// Requests that may wait in one conversation unless configured.
pub fn queue_conversation() -> (r: usize)
    ensures
        r == 5,
{
    5
}

/// Requests that may wait in all conversations unless configured.
pub fn queue_global() -> (r: usize)
    ensures
        r == 20,
{
    20
}

/// Seconds that the validation of an input may take unless configured.
pub fn validation_secs() -> (r: u64)
    ensures
        r == 120,
{
    120
}

#[derive(Debug, PartialEq)]
pub struct Project {
    pub id: String,
    pub name: String,
    pub channel_id: String,
    pub cwd: String,
    pub default_model: String,
    pub lifecycle: String,
}

/// The lifecycle of a project unless configured.
pub fn active() -> (r: String)
    ensures
        r@ == "ACTIVE"@,
{
    "ACTIVE".to_owned()
}

impl Project {
    /// A copy of the project.
    pub fn copy(&self) -> (r: Project)
        ensures
            r == *self,
    {
        Project {
            id: self.id.clone(),
            name: self.name.clone(),
            channel_id: self.channel_id.clone(),
            cwd: self.cwd.clone(),
            default_model: self.default_model.clone(),
            lifecycle: self.lifecycle.clone(),
        }
    }

    pub open spec fn in_use(&self) -> bool {
        self.lifecycle@ != "RETIRED"@
    }
}

/// What the file system says of a directory: its path without links, and its identity.
#[derive(Debug)]
pub struct Located {
    pub path: String,
    pub is_dir: bool,
    pub dev: u64,
    pub ino: u64,
}

#[derive(Debug)]
pub struct Workspace {
    pub project: Project,
    pub path: String,
    pub dev: u64,
    pub ino: u64,
}

impl Workspace {
    /// The directory of the project must still be the one that was found at the start.
    pub fn verify(&self, found: &Located) -> (r: Result<(), &'static str>)
        ensures
            r is Ok <==> components(found.path@) == components(self.path@) && found.dev == self.dev
                && found.ino == self.ino,
            r is Err ==> r->Err_0@ == "workspace identity changed"@,
    {
        if same_path(found.path.as_str(), self.path.as_str()) && found.dev == self.dev && found.ino
            == self.ino {
            Ok(())
        } else {
            Err("workspace identity changed")
        }
    }
}

/// Whether a text is the decimal notation of a nonzero 64-bit number.
pub open spec fn nonzero_id(s: Seq<char>) -> bool {
    unsigned_of(s, u64::MAX as nat) is Some && unsigned_of(s, u64::MAX as nat)->0 > 0
}

pub fn is_nonzero_id(s: &str) -> (r: bool)
    ensures
        r == nonzero_id(s@),
{
    match parse_unsigned(s, 0xffff_ffff_ffff_ffff) {
        Some(n) => n > 0,
        None => false,
    }
}

impl Limits {
    /// Whether every limit is positive and the totals cover their parts.
    pub open spec fn positive(self) -> bool {
        self.attachments > 0 && self.attachment_bytes > 0 && self.input_bytes > 0 && self.text_bytes
            > 0 && self.image_pixels > 0 && self.artifact_bytes > 0 && self.temp_bytes > 0
            && self.output_bytes > 0 && self.output_total_bytes >= self.output_bytes
            && self.delivery_retention_secs > 0 && self.queue_conversation > 0 && self.queue_global
            >= self.queue_conversation && self.validation_secs > 0
    }

    /// Whether the temporary budget covers one input and one artifact.
    pub open spec fn covered(self) -> bool {
        self.temp_bytes >= self.input_bytes && self.temp_bytes >= self.artifact_bytes
    }

    pub fn is_positive(&self) -> (r: bool)
        ensures
            r == self.positive(),
    {
        self.attachments > 0 && self.attachment_bytes > 0 && self.input_bytes > 0 && self.text_bytes
            > 0 && self.image_pixels > 0 && self.artifact_bytes > 0 && self.temp_bytes > 0
            && self.output_bytes > 0 && self.output_total_bytes >= self.output_bytes
            && self.delivery_retention_secs > 0 && self.queue_conversation > 0 && self.queue_global
            >= self.queue_conversation && self.validation_secs > 0
    }

    pub fn is_covered(&self) -> (r: bool)
        ensures
            r == self.covered(),
    {
        self.temp_bytes >= self.input_bytes as u64 && self.temp_bytes >= self.artifact_bytes as u64
    }
}

/// Whether a URL carries nothing but a place.
pub open spec fn plain_url(u: UrlView) -> bool {
    u.username.len() == 0 && u.password is None && u.query is None && u.fragment is None
}

/// Whether a URL is encrypted or stays on this machine.
pub open spec fn safe_transport(u: UrlView) -> bool {
    u.scheme == "https"@ || (u.scheme == "http"@ && (u.host == Some("127.0.0.1"@) || u.host == Some(
        "localhost"@,
    ) || u.host == Some("[::1]"@)))
}

/// What is wrong with a configuration apart from its projects.
pub open spec fn config_objection(c: Config) -> Option<Seq<char>> {
    let url = url_parts(c.proxy.base_url@);
    if !nonzero_id(c.discord.guild_id@) || !nonzero_id(c.discord.allowed_user_id@) {
        Some("Discord IDs must be nonzero"@)
    } else if c.proxy.contract_version@ != "1.0"@ {
        Some("unsupported control contract"@)
    } else if url is Err {
        Some(url->Err_0)
    } else if !plain_url(url->Ok_0) {
        Some("invalid Proxy URL"@)
    } else if !safe_transport(url->Ok_0) {
        Some("Proxy requires HTTPS or loopback HTTP"@)
    } else if !(absolute(c.storage.state_dir@) && absolute(c.storage.temp_dir@) && absolute(
        c.storage.socket_path@,
    ) && absolute(c.discord.token_file@) && absolute(c.proxy.api_key_file@)) {
        Some("paths must be absolute"@)
    } else if !c.limits.positive() {
        Some("resource limits must be explicitly positive"@)
    } else if !c.limits.covered() {
        Some("temporary budget must cover one input and one artifact individually"@)
    } else {
        None
    }
}

/// What is wrong with a project, given those before it.
pub open spec fn project_objection(
    projects: Seq<Project>,
    found: Seq<Option<Located>>,
    i: int,
) -> Option<Seq<char>> {
    let p = projects[i];
    if canonical_uuid(p.id@) is None || exists|j: int| 0 <= j < i && (#[trigger] projects[j]).id@ == p.id@ {
        Some("project ID must be a unique UUID"@)
    } else if p.name@.len() == 0 || p.default_model@.len() == 0 {
        Some("missing project name/model"@)
    } else if !nonzero_id(p.channel_id@) {
        Some("invalid channel ID"@)
    } else if p.lifecycle@ != "ACTIVE"@ && p.lifecycle@ != "RETIRED"@ {
        Some("invalid project lifecycle"@)
    } else if !p.in_use() {
        None
    } else if exists|j: int|
        0 <= j < i && (#[trigger] projects[j]).in_use() && projects[j].channel_id@
            == p.channel_id@ {
        Some("duplicate active project channel"@)
    } else if !absolute(p.cwd@) {
        Some("cwd must be absolute"@)
    } else if found[i] is None {
        Some("workspace unavailable"@)
    } else if !found[i]->0.is_dir {
        Some("workspace must be directory"@)
    } else if exists|j: int|
        0 <= j < i && (#[trigger] projects[j]).in_use() && paths_overlap(
            found[i]->0.path@,
            found[j]->0.path@,
        ) {
        Some("overlapping workspaces"@)
    } else {
        None
    }
}

/// What is wrong with the first faulty project from position `i` on.
pub open spec fn first_project_objection(
    projects: Seq<Project>,
    found: Seq<Option<Located>>,
    i: int,
) -> Option<Seq<char>>
    decreases projects.len() - i,
{
    if i < 0 || i >= projects.len() {
        None
    } else if project_objection(projects, found, i) is Some {
        project_objection(projects, found, i)
    } else {
        first_project_objection(projects, found, i + 1)
    }
}

/// The positions of the projects in use among the first `n`.
pub open spec fn in_use_positions(projects: Seq<Project>, n: nat) -> Seq<int>
    decreases n,
{
    if n == 0 || n > projects.len() {
        Seq::empty()
    } else if projects[n - 1].in_use() {
        in_use_positions(projects, (n - 1) as nat).push(n - 1)
    } else {
        in_use_positions(projects, (n - 1) as nat)
    }
}

/// The digest of what identifies an instance and never changes.
pub open spec fn fixed_identity(c: Config) -> Seq<char> {
    sha256_hex(
        compact(
            document(
                JsonView::Array(
                    seq![
                        JsonView::Text(c.discord.guild_id@),
                        JsonView::Text(c.discord.allowed_user_id@),
                        JsonView::Text(c.proxy.base_url@),
                        JsonView::Text(c.storage.state_dir@),
                    ],
                ),
            ),
        ),
    )
}

/// The digest of four texts.
pub fn digest_of_four(a: &str, b: &str, c: &str, d: &str) -> (r: String)
    ensures
        r@ == sha256_hex(
            compact(
                document(
                    JsonView::Array(
                        seq![
                            JsonView::Text(a@),
                            JsonView::Text(b@),
                            JsonView::Text(c@),
                            JsonView::Text(d@),
                        ],
                    ),
                ),
            ),
        ),
{
    let mut v: Vec<Json> = Vec::new();
    v.push(text(a));
    v.push(text(b));
    v.push(text(c));
    v.push(text(d));
    assert(trees(v@) =~= seq![
        JsonView::Text(a@),
        JsonView::Text(b@),
        JsonView::Text(c@),
        JsonView::Text(d@),
    ]);
    digest(encode(&array(v)).as_slice())
}

/// Whether a project of one list is in another, by its identity.
pub open spec fn has_project(projects: Seq<Project>, id: Seq<char>) -> bool {
    exists|j: int| 0 <= j < projects.len() && (#[trigger] projects[j]).id@ == id
}

/// Position of the first project with an identity.
pub open spec fn project_position(projects: Seq<Project>, id: Seq<char>, from: nat) -> nat
    decreases projects.len() - from,
{
    if from >= projects.len() {
        projects.len()
    } else if projects[from as int].id@ == id {
        from
    } else {
        project_position(projects, id, from + 1)
    }
}

/// Whether a project keeps its directory and channel in another list.
pub open spec fn keeps_place(p: Project, next: Seq<Project>) -> bool {
    let at = project_position(next, p.id@, 0);
    at >= next.len() || (components(next[at as int].cwd@) == components(p.cwd@)
        && next[at as int].channel_id@ == p.channel_id@)
}

/// What forbids a change of configuration while the gateway runs.
pub open spec fn reload_objection(old: Config, next: Config) -> Option<Seq<char>> {
    if exists|i: int|
        0 <= i < old.projects@.len() && !has_project(
            next.projects@,
            (#[trigger] old.projects@[i]).id@,
        ) {
        Some("project removal requires explicit RETIRED entry"@)
    } else if fixed_identity(old) != fixed_identity(next) {
        Some("immutable setting changed"@)
    } else if components(old.discord.token_file@) != components(next.discord.token_file@)
        || components(old.storage.state_dir@) != components(next.storage.state_dir@) || components(
        old.storage.temp_dir@,
    ) != components(next.storage.temp_dir@) || components(old.storage.socket_path@) != components(
        next.storage.socket_path@,
    ) {
        Some("restart required"@)
    } else if exists|i: int|
        0 <= i < old.projects@.len() && !keeps_place(#[trigger] old.projects@[i], next.projects@) {
        Some("project identity is immutable"@)
    } else {
        None
    }
}

impl Config {
    /// What is wrong with the configuration apart from its projects.
    fn check_settings(&self) -> (r: Result<(), String>)
        ensures
            match config_objection(*self) {
                None => r is Ok,
                Some(e) => r is Err && r->Err_0@ == e,
            },
    {
        if !is_nonzero_id(self.discord.guild_id.as_str()) || !is_nonzero_id(
            self.discord.allowed_user_id.as_str(),
        ) {
            return Err(String::from_str("Discord IDs must be nonzero"));
        }
        if !same(self.proxy.contract_version.as_str(), "1.0") {
            return Err(String::from_str("unsupported control contract"));
        }
        let url = match parse_url(self.proxy.base_url.as_str()) {
            Ok(u) => u,
            Err(e) => return Err(e),
        };
        if !(url.username.as_str().is_empty() && url.password.is_none() && url.query.is_none()
            && url.fragment.is_none()) {
            return Err(String::from_str("invalid Proxy URL"));
        }
        let host = borrowed(&url.host);
        if !(same(url.scheme.as_str(), "https") || (same(url.scheme.as_str(), "http") && (some_same(
            host,
            "127.0.0.1",
        ) || some_same(host, "localhost") || some_same(host, "[::1]")))) {
            return Err(String::from_str("Proxy requires HTTPS or loopback HTTP"));
        }
        if !(is_absolute(self.storage.state_dir.as_str()) && is_absolute(
            self.storage.temp_dir.as_str(),
        ) && is_absolute(self.storage.socket_path.as_str()) && is_absolute(
            self.discord.token_file.as_str(),
        ) && is_absolute(self.proxy.api_key_file.as_str())) {
            return Err(String::from_str("paths must be absolute"));
        }
        if !self.limits.is_positive() {
            return Err(String::from_str("resource limits must be explicitly positive"));
        }
        if !self.limits.is_covered() {
            return Err(String::from_str("temporary budget must cover one input and one artifact individually"));
        }
        Ok(())
    }

    /// What is wrong with the project at a position.
    fn check_project(&self, found: &Vec<Option<Located>>, i: usize) -> (r: Result<(), String>)
        requires
            i < self.projects@.len(),
            found@.len() == self.projects@.len(),
            forall|j: int|
                0 <= j < i && (#[trigger] self.projects@[j]).in_use() ==> found@[j] is Some,
        ensures
            match project_objection(self.projects@, found@, i as int) {
                None => r is Ok,
                Some(e) => r is Err && r->Err_0@ == e,
            },
    {
        let ghost projects = self.projects@;
        let p = &self.projects[i];
        let mut seen = false;
        let mut channel_taken = false;
        let mut overlap = false;
        let here: Option<&Located> = found[i].as_ref();
        let mut j: usize = 0;
        while j < i
            invariant
                j <= i < self.projects@.len(),
                projects == self.projects@,
                found@.len() == projects.len(),
                *p == projects[i as int],
                here is Some <==> found@[i as int] is Some,
                here is Some ==> *here->0 == found@[i as int]->0,
                forall|k: int| 0 <= k < i && (#[trigger] projects[k]).in_use() ==> found@[k] is Some,
                seen == exists|k: int| 0 <= k < j && (#[trigger] projects[k]).id@ == p.id@,
                channel_taken == exists|k: int|
                    0 <= k < j && (#[trigger] projects[k]).in_use() && projects[k].channel_id@
                        == p.channel_id@,
                here is Some ==> overlap == exists|k: int|
                    0 <= k < j && (#[trigger] projects[k]).in_use() && paths_overlap(
                        here->0.path@,
                        found@[k]->0.path@,
                    ),
            decreases i - j,
        {
            let q = &self.projects[j];
            assert(*q == projects[j as int]);
            if same(q.id.as_str(), p.id.as_str()) {
                seen = true;
            }
            if !same(q.lifecycle.as_str(), "RETIRED") {
                assert(projects[j as int].in_use());
                if same(q.channel_id.as_str(), p.channel_id.as_str()) {
                    channel_taken = true;
                }
                if let (Some(a), Some(b)) = (here, found[j].as_ref()) {
                    if is_within(a.path.as_str(), b.path.as_str()) || is_within(
                        b.path.as_str(),
                        a.path.as_str(),
                    ) {
                        overlap = true;
                    }
                }
            }
            j += 1;
        }
        if parse_uuid(p.id.as_str()).is_none() || seen {
            return Err(String::from_str("project ID must be a unique UUID"));
        }
        if p.name.as_str().is_empty() || p.default_model.as_str().is_empty() {
            return Err(String::from_str("missing project name/model"));
        }
        if !is_nonzero_id(p.channel_id.as_str()) {
            return Err(String::from_str("invalid channel ID"));
        }
        if !same(p.lifecycle.as_str(), "ACTIVE") && !same(p.lifecycle.as_str(), "RETIRED") {
            return Err(String::from_str("invalid project lifecycle"));
        }
        if same(p.lifecycle.as_str(), "RETIRED") {
            return Ok(());
        }
        if channel_taken {
            return Err(String::from_str("duplicate active project channel"));
        }
        if !is_absolute(p.cwd.as_str()) {
            return Err(String::from_str("cwd must be absolute"));
        }
        match here {
            None => Err(String::from_str("workspace unavailable")),
            Some(h) => {
                if !h.is_dir {
                    Err(String::from_str("workspace must be directory"))
                } else if overlap {
                    Err(String::from_str("overlapping workspaces"))
                } else {
                    Ok(())
                }
            },
        }
    }

    /// Checks the configuration against what the file system says of the directories of its
    /// projects, and returns the workspaces of the projects in use.
    pub fn validate(&self, found: &Vec<Option<Located>>) -> (r: Result<
        Vec<Workspace>,
        String,
    >)
        requires
            found@.len() == self.projects@.len(),
        ensures
            match config_objection(*self) {
                Some(e) => r is Err && r->Err_0@ == e,
                None => match first_project_objection(self.projects@, found@, 0) {
                    Some(e) => r is Err && r->Err_0@ == e,
                    None => {
                        let at = in_use_positions(self.projects@, self.projects@.len());
                        &&& r is Ok
                        &&& r->Ok_0@.len() == at.len()
                        &&& forall|k: int|
                            0 <= k < at.len() ==> {
                                let w = #[trigger] r->Ok_0@[k];
                                &&& w.project == self.projects@[at[k]]
                                &&& w.path@ == found@[at[k]]->0.path@
                                &&& w.dev == found@[at[k]]->0.dev
                                &&& w.ino == found@[at[k]]->0.ino
                            }
                    },
                },
            },
    {
        match self.check_settings() {
            Ok(()) => {},
            Err(e) => return Err(e),
        }
        let ghost projects = self.projects@;
        let mut out: Vec<Workspace> = Vec::new();
        let mut i: usize = 0;
        while i < self.projects.len()
            invariant
                config_objection(*self) is None,
                i <= self.projects@.len(),
                projects == self.projects@,
                found@.len() == projects.len(),
                first_project_objection(projects, found@, 0) == first_project_objection(
                    projects,
                    found@,
                    i as int,
                ),
                forall|j: int|
                    0 <= j < i && (#[trigger] projects[j]).in_use() ==> found@[j] is Some,
                out@.len() == in_use_positions(projects, i as nat).len(),
                forall|k: int|
                    0 <= k < out@.len() ==> {
                        let at = in_use_positions(projects, i as nat);
                        let w = #[trigger] out@[k];
                        &&& w.project == projects[at[k]]
                        &&& w.path@ == found@[at[k]]->0.path@
                        &&& w.dev == found@[at[k]]->0.dev
                        &&& w.ino == found@[at[k]]->0.ino
                    },
            decreases self.projects@.len() - i,
        {
            match self.check_project(found, i) {
                Ok(()) => {},
                Err(e) => return Err(e),
            }
            let p = &self.projects[i];
            if !same(p.lifecycle.as_str(), "RETIRED") {
                if let Some(h) = found[i].as_ref() {
                    out.push(
                        Workspace {
                            project: p.copy(),
                            path: h.path.clone(),
                            dev: h.dev,
                            ino: h.ino,
                        },
                    );
                }
            }
            i += 1;
        }
        Ok(out)
    }

    /// The digest of what identifies this instance and never changes.
    pub fn fixed_digest(&self) -> (r: String)
        ensures
            r@ == fixed_identity(*self),
    {
        digest_of_four(
            self.discord.guild_id.as_str(),
            self.discord.allowed_user_id.as_str(),
            self.proxy.base_url.as_str(),
            self.storage.state_dir.as_str(),
        )
    }

    /// Whether a new configuration may replace this one while the gateway runs.
    pub fn check_reload(&self, next: &Config) -> (r: Result<(), &'static str>)
        ensures
            match reload_objection(*self, *next) {
                None => r is Ok,
                Some(e) => r is Err && r->Err_0@ == e,
            },
    {
        let ghost projects = self.projects@;
        let mut removed = false;
        let mut moved = false;
        let mut i: usize = 0;
        while i < self.projects.len()
            invariant
                i <= self.projects@.len(),
                projects == self.projects@,
                removed == exists|k: int|
                    0 <= k < i && !has_project(next.projects@, (#[trigger] projects[k]).id@),
                moved == exists|k: int|
                    0 <= k < i && !keeps_place(#[trigger] projects[k], next.projects@),
            decreases self.projects@.len() - i,
        {
            let p = &self.projects[i];
            assert(*p == projects[i as int]);
            match find_project(&next.projects, p.id.as_str()) {
                None => {
                    removed = true;
                },
                Some(j) => {
                    if !same_path(next.projects[j].cwd.as_str(), p.cwd.as_str()) || !same(
                        next.projects[j].channel_id.as_str(),
                        p.channel_id.as_str(),
                    ) {
                        moved = true;
                    }
                },
            }
            i += 1;
        }
        if removed {
            return Err("project removal requires explicit RETIRED entry");
        }
        if !same(self.fixed_digest().as_str(), next.fixed_digest().as_str()) {
            return Err("immutable setting changed");
        }
        if !same_path(self.discord.token_file.as_str(), next.discord.token_file.as_str())
            || !same_path(self.storage.state_dir.as_str(), next.storage.state_dir.as_str())
            || !same_path(self.storage.temp_dir.as_str(), next.storage.temp_dir.as_str())
            || !same_path(self.storage.socket_path.as_str(), next.storage.socket_path.as_str()) {
            return Err("restart required");
        }
        if moved {
            return Err("project identity is immutable");
        }
        Ok(())
    }
}

fn find_project(projects: &Vec<Project>, id: &str) -> (r: Option<usize>)
    ensures
        match r {
            Some(i) => i < projects@.len() && i == project_position(projects@, id@, 0) && has_project(
                projects@,
                id@,
            ),
            None => project_position(projects@, id@, 0) == projects@.len() && !has_project(
                projects@,
                id@,
            ),
        },
{
    let mut i: usize = 0;
    while i < projects.len()
        invariant
            i <= projects@.len(),
            project_position(projects@, id@, 0) == project_position(projects@, id@, i as nat),
            forall|j: int| 0 <= j < i ==> (#[trigger] projects@[j]).id@ != id@,
        decreases projects@.len() - i,
    {
        if same(projects[i].id.as_str(), id) {
            assert(projects@[i as int].id@ == id@);
            return Some(i);
        }
        i += 1;
    }
    None
}

/// What the file system says of a credential file.
#[derive(Clone, Copy, Debug, PartialEq, Eq, Structural)]
pub struct CredentialFile {
    pub regular: bool,
    /// Permission bits.
    pub mode: u32,
    pub owned: bool,
}

/// The credential that a file holds: the file must be the owner's alone, and the text one to 8192
/// bytes without the white space around it.
pub fn secret(file: &CredentialFile, content: &str) -> (r: Result<String, &'static str>)
    ensures
        !(file.regular && file.mode & 0o077 == 0 && file.owned) ==> r is Err && r->Err_0@
            == "credential must be an owner-only regular file"@,
        (file.regular && file.mode & 0o077 == 0 && file.owned) && !(0 < trimmed(content@).len()
            && utf8_len(trimmed(content@)) <= 8192) ==> r is Err && r->Err_0@
            == "invalid credential length"@,
        (file.regular && file.mode & 0o077 == 0 && file.owned) && 0 < trimmed(content@).len()
            && utf8_len(trimmed(content@)) <= 8192 ==> r is Ok && r->Ok_0@ == trimmed(content@),
{
    if !(file.regular && file.mode & 0o077 == 0 && file.owned) {
        return Err("credential must be an owner-only regular file");
    }
    let s = trim(content);
    if s.as_str().is_empty() || byte_len(s.as_str()) > 8192 {
        return Err("invalid credential length");
    }
    Ok(s)
}

/// Workspaces of projects in use never lie inside one another.
pub proof fn workspaces_are_apart(projects: Seq<Project>, found: Seq<Option<Located>>, i: int, j: int)
    requires
        first_project_objection(projects, found, 0) is None,
        0 <= j < i < projects.len(),
        projects[i].in_use(),
        projects[j].in_use(),
    ensures
        found[i] is Some,
        found[j] is Some,
        !paths_overlap(found[i]->0.path@, found[j]->0.path@),
        projects[i].channel_id@ != projects[j].channel_id@,
        projects[i].id@ != projects[j].id@,
{
    lemma_no_objection(projects, found, 0, i);
    lemma_no_objection(projects, found, 0, j);
}

proof fn lemma_no_objection(projects: Seq<Project>, found: Seq<Option<Located>>, from: int, i: int)
    requires
        first_project_objection(projects, found, from) is None,
        0 <= from <= i < projects.len(),
    ensures
        project_objection(projects, found, i) is None,
    decreases i - from,
{
    if from < i {
        lemma_no_objection(projects, found, from + 1, i);
    }
}

/// A reload never changes which instance this is.
pub proof fn reload_keeps_identity(old: Config, next: Config)
    requires
        reload_objection(old, next) is None,
    ensures
        fixed_identity(old) == fixed_identity(next),
        forall|i: int|
            0 <= i < old.projects@.len() ==> has_project(
                next.projects@,
                (#[trigger] old.projects@[i]).id@,
            ) && keeps_place(old.projects@[i], next.projects@),
{
}

} // verus!

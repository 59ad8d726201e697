//! The projects of a configuration keep apart, and keep their place when it is read again.
use crate::config::{
    first_project_objection, project_objection, project_position, Config, Located, Project,
    Workspace,
};
use crate::paths::components;
use vstd::prelude::*;

verus! {

proof fn every_project_is_sound(
    projects: Seq<Project>,
    found: Seq<Option<Located>>,
    from: int,
    i: int,
)
    requires
        0 <= from <= i < projects.len(),
        first_project_objection(projects, found, from) is None,
    ensures
        project_objection(projects, found, i) is None,
    decreases i - from,
{
    if from < i {
        every_project_is_sound(projects, found, from + 1, i);
    }
}

/// Two projects never share an identity, and two that are in use share neither a channel nor a folder;
/// each folder is there.
pub proof fn projects_keep_apart(
    c: &Config,
    found: &Vec<Option<Located>>,
    r: Result<Vec<Workspace>, String>,
    i: int,
    j: int,
)
    requires
        call_ensures(Config::validate, (c, found), r),
        r is Ok,
        found@.len() == c.projects@.len(),
        0 <= i < j < c.projects@.len(),
    ensures
        c.projects@[i].id@ != c.projects@[j].id@,
        c.projects@[j].lifecycle@ == "ACTIVE"@ || c.projects@[j].lifecycle@ == "RETIRED"@,
        c.projects@[i].lifecycle@ == "ACTIVE"@ && c.projects@[j].lifecycle@ == "ACTIVE"@ ==> {
            &&& c.projects@[i].channel_id@ != c.projects@[j].channel_id@
            &&& found@[j] is Some && found@[j]->0.is_dir
            &&& components(found@[i]->0.path@) != components(found@[j]->0.path@)
        },
{
    reveal_strlit("ACTIVE");
    reveal_strlit("RETIRED");
    assert("ACTIVE"@.len() == 6 && "RETIRED"@.len() == 7);
    let all = c.projects@;
    every_project_is_sound(all, found@, 0, i);
    every_project_is_sound(all, found@, 0, j);
    assert(all[i].id@ != all[j].id@);
    if all[i].lifecycle@ == "ACTIVE"@ && all[j].lifecycle@ == "ACTIVE"@ {
        assert(all[i].in_use());
        let p = components(found@[i]->0.path@);
        assert(p.take(p.len() as int) =~= p);
    }
}

/// A configuration is accepted only for a server that is reached over a secure address or on the
/// machine itself.
pub proof fn servers_are_reached_securely(
    c: &Config,
    found: &Vec<Option<Located>>,
    r: Result<Vec<Workspace>, String>,
)
    requires
        call_ensures(Config::validate, (c, found), r),
        r is Ok,
    ensures
        crate::codec::url_parts(c.proxy.base_url@) is Ok,
        ({
            let u = crate::codec::url_parts(c.proxy.base_url@)->Ok_0;
            &&& u.scheme == "https"@ || u.scheme == "http"@ && (u.host == Some("127.0.0.1"@)
                || u.host == Some("localhost"@) || u.host == Some("[::1]"@))
            &&& u.username.len() == 0
            &&& u.password is None
        }),
        c.storage.state_dir@.len() > 0 && c.storage.state_dir@[0] == '/',
        c.discord.token_file@.len() > 0 && c.discord.token_file@[0] == '/',
        c.limits.queue_conversation > 0 && c.limits.queue_global >= c.limits.queue_conversation,
        c.limits.temp_bytes >= c.limits.input_bytes && c.limits.temp_bytes
            >= c.limits.artifact_bytes,
{
}

proof fn projects_are_placed(all: Seq<Project>, id: Seq<char>, from: nat)
    requires
        from <= all.len(),
    ensures
        ({
            let at = project_position(all, id, from);
            &&& from <= at <= all.len()
            &&& at < all.len() ==> all[at as int].id@ == id
            &&& forall|u: int| from <= u < at ==> (#[trigger] all[u]).id@ != id
        }),
    decreases all.len() - from,
{
    if from < all.len() && all[from as int].id@ != id {
        projects_are_placed(all, id, from + 1);
    }
}

/// A configuration that is read again keeps every project, in its folder and channel, and the places
/// of the gateway itself.
pub proof fn projects_keep_their_place(
    c: &Config,
    next: &Config,
    r: Result<(), &'static str>,
    i: int,
)
    requires
        call_ensures(Config::check_reload, (c, next), r),
        r is Ok,
    ensures
        components(c.storage.state_dir@) == components(next.storage.state_dir@),
        components(c.storage.temp_dir@) == components(next.storage.temp_dir@),
        components(c.storage.socket_path@) == components(next.storage.socket_path@),
        components(c.discord.token_file@) == components(next.discord.token_file@),
        0 <= i < c.projects@.len() ==> exists|k: int|
            0 <= k < next.projects@.len() && (#[trigger] next.projects@[k]).id@
                == c.projects@[i].id@ && next.projects@[k].channel_id@ == c.projects@[i].channel_id@
                && components(next.projects@[k].cwd@) == components(c.projects@[i].cwd@),
{
    if 0 <= i < c.projects@.len() {
        let p = c.projects@[i];
        let all = next.projects@;
        assert(crate::config::has_project(all, p.id@));
        assert(crate::config::keeps_place(p, all));
        projects_are_placed(all, p.id@, 0);
        let k = project_position(all, p.id@, 0) as int;
        let j = choose|j: int| 0 <= j < all.len() && (#[trigger] all[j]).id@ == p.id@;
        assert(k <= j);
        assert(all[k].id@ == p.id@);
    }
}

} // verus!

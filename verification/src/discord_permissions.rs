//! Permissions of Discord: those of everyone, then of all roles, then of the member.
use crate::codec::{parse_timestamp, timestamp_nanos};
use crate::json::{alike, Json, JsonView};
use crate::numbers::{unsigned_fault, unsigned_number, unsigned_of};
use vstd::prelude::*;

verus! {

/// The bits of a set of permissions.
pub open spec fn bits_of(j: JsonView) -> Result<u64, Seq<char>> {
    match j.text() {
        None => Err("permission bits missing"@),
        Some(s) => match unsigned_of(s, u64::MAX as nat) {
            None => Err(unsigned_fault(s, u64::MAX as nat)->0),
            Some(n) => Ok(n as u64),
        },
    }
}

fn bits(j: &Json) -> (r: Result<u64, &'static str>)
    ensures
        match bits_of(j@) {
            Ok(n) => r == Ok::<u64, &'static str>(n),
            Err(e) => r is Err && r->Err_0@ == e,
        },
{
    match j.as_str() {
        None => Err("permission bits missing"),
        Some(s) => unsigned_number(s, 0xffff_ffff_ffff_ffff),
    }
}

/// Whether a document is in a list.
pub open spec fn contained(list: Seq<JsonView>, j: JsonView) -> bool {
    exists|i: int| 0 <= i < list.len() && alike(#[trigger] list[i], j)
}

fn is_contained(list: &Vec<Json>, j: &Json, Ghost(all): Ghost<Seq<JsonView>>) -> (r: bool)
    requires
        list@.len() == all.len(),
        forall|i: int| 0 <= i < all.len() ==> #[trigger] list@[i]@ == all[i],
    ensures
        r == contained(all, j@),
{
    let mut i: usize = 0;
    while i < list.len()
        invariant
            i <= list@.len(),
            list@.len() == all.len(),
            forall|k: int| 0 <= k < all.len() ==> #[trigger] list@[k]@ == all[k],
            forall|k: int| 0 <= k < i ==> !alike(#[trigger] all[k], j@),
        decreases list@.len() - i,
    {
        assert(list@[i as int]@ == all[i as int]);
        if list[i].same_as(j) {
            return true;
        }
        i += 1;
    }
    false
}

/// The first role with an identity, from a position on.
pub open spec fn role_from(roles: Seq<JsonView>, id: Seq<char>, from: nat) -> Option<JsonView>
    decreases roles.len() - from,
{
    if from >= roles.len() {
        None
    } else if roles[from as int].at("id"@).says(id) {
        Some(roles[from as int])
    } else {
        role_from(roles, id, from + 1)
    }
}

/// The permissions of everyone together with those of the first `n` roles that the member has.
pub open spec fn role_bits(
    roles: Seq<JsonView>,
    own: Seq<JsonView>,
    everyone: u64,
    n: nat,
) -> Result<u64, Seq<char>>
    decreases n,
{
    if n == 0 || n > roles.len() {
        Ok(everyone)
    } else {
        match role_bits(roles, own, everyone, (n - 1) as nat) {
            Err(e) => Err(e),
            Ok(p) => if contained(own, roles[n - 1].at("id"@)) {
                match bits_of(roles[n - 1].at("permissions"@)) {
                    Err(e) => Err(e),
                    Ok(b) => Ok(p | b),
                }
            } else {
                Ok(p)
            },
        }
    }
}

/// Whose override an override is: everyone's, that of a role of the member, or the member's own.
#[derive(Clone, Copy, Debug, PartialEq, Eq, Structural)]
pub enum Class {
    Everyone,
    Roles,
    Member,
}

/// Whether an override belongs to a class.
pub open spec fn in_class(
    o: JsonView,
    class: Class,
    guild: Seq<char>,
    bot: Seq<char>,
    own: Seq<JsonView>,
) -> bool {
    match class {
        Class::Everyone => o.at("type"@) == JsonView::Unsigned(0) && o.at("id"@).says(guild),
        Class::Roles => o.at("type"@) == JsonView::Unsigned(0) && !o.at("id"@).says(guild) && contained(
            own,
            o.at("id"@),
        ),
        Class::Member => o.at("type"@) == JsonView::Unsigned(1) && o.at("id"@).says(bot),
    }
}

/// What the first `n` overrides of a class deny and allow.
pub open spec fn class_bits(
    list: Seq<JsonView>,
    class: Class,
    guild: Seq<char>,
    bot: Seq<char>,
    own: Seq<JsonView>,
    n: nat,
) -> Result<(u64, u64), Seq<char>>
    decreases n,
{
    if n == 0 || n > list.len() {
        Ok((0u64, 0u64))
    } else {
        match class_bits(list, class, guild, bot, own, (n - 1) as nat) {
            Err(e) => Err(e),
            Ok((deny, allow)) => {
                let o = list[n - 1];
                if !in_class(o, class, guild, bot, own) {
                    Ok((deny, allow))
                } else {
                    match bits_of(o.at("deny"@)) {
                        Err(e) => Err(e),
                        Ok(d) => match bits_of(o.at("allow"@)) {
                            Err(e) => Err(e),
                            Ok(a) => Ok((deny | d, allow | a)),
                        },
                    }
                }
            },
        }
    }
}

/// Permissions after the overrides of a class: what it denies is taken away, then what it allows is
/// added.
pub open spec fn overridden(
    p: Result<u64, Seq<char>>,
    c: Result<(u64, u64), Seq<char>>,
) -> Result<u64, Seq<char>> {
    match p {
        Err(e) => Err(e),
        Ok(p) => match c {
            Err(e) => Err(e),
            Ok((deny, allow)) => Ok((p & !deny) | allow),
        },
    }
}

/// What sending an attachment takes: seeing the channel, attaching files, reading the history, and
/// sending there.
pub open spec fn needed(in_thread: bool) -> u64 {
    if in_thread {
        0x40_0001_8400
    } else {
        0x1_8c00
    }
}

/// Permissions with which everything is allowed.
pub open spec fn administrator(p: u64) -> bool {
    p & 8 != 0
}

/// Whether the bot may send an attachment.
pub open spec fn may_attach(
    guild: Seq<char>,
    bot: Seq<char>,
    roles: JsonView,
    member: JsonView,
    overwrites: JsonView,
    in_thread: bool,
    now: int,
) -> Result<bool, Seq<char>> {
    let own = member.at("roles"@).array();
    let everyone = role_from(roles.array()->0, guild, 0);
    let timeout = member.at("communication_disabled_until"@).text();
    if roles.array() is None {
        Err("guild roles missing"@)
    } else if own is None {
        Err("member roles missing"@)
    } else if !member.at("user"@).at("id"@).says(bot) {
        Err("Discord member identity mismatch"@)
    } else if everyone is None {
        Err("everyone role missing"@)
    } else {
        match bits_of(everyone->0.at("permissions"@)) {
            Err(e) => Err(e),
            Ok(start) => match role_bits(
                roles.array()->0,
                own->0,
                start,
                roles.array()->0.len(),
            ) {
                Err(e) => Err(e),
                Ok(p) => if administrator(p) {
                    Ok(true)
                } else if timeout is Some && timestamp_nanos(timeout->0) is Err {
                    Err(timestamp_nanos(timeout->0)->Err_0)
                } else if timeout is Some && timestamp_nanos(timeout->0)->Ok_0 > now {
                    Ok(false)
                } else if overwrites.array() is None {
                    Err("channel overwrites missing"@)
                } else {
                    let list = overwrites.array()->0;
                    let a = overridden(
                        Ok(p),
                        class_bits(list, Class::Everyone, guild, bot, own->0, list.len()),
                    );
                    let b = overridden(
                        a,
                        class_bits(list, Class::Roles, guild, bot, own->0, list.len()),
                    );
                    let c = overridden(
                        b,
                        class_bits(list, Class::Member, guild, bot, own->0, list.len()),
                    );
                    match c {
                        Err(e) => Err(e),
                        Ok(p) => Ok(p & needed(in_thread) == needed(in_thread)),
                    }
                },
            },
        }
    }
}

proof fn lemma_role_error(roles: Seq<JsonView>, own: Seq<JsonView>, everyone: u64, n: nat)
    requires
        n <= roles.len(),
        role_bits(roles, own, everyone, n) is Err,
    ensures
        role_bits(roles, own, everyone, roles.len()) == role_bits(roles, own, everyone, n),
    decreases roles.len() - n,
{
    if n < roles.len() {
        lemma_role_error(roles, own, everyone, n + 1);
    }
}

proof fn lemma_class_error(
    list: Seq<JsonView>,
    class: Class,
    guild: Seq<char>,
    bot: Seq<char>,
    own: Seq<JsonView>,
    n: nat,
)
    requires
        n <= list.len(),
        class_bits(list, class, guild, bot, own, n) is Err,
    ensures
        class_bits(list, class, guild, bot, own, list.len()) == class_bits(
            list,
            class,
            guild,
            bot,
            own,
            n,
        ),
    decreases list.len() - n,
{
    if n < list.len() {
        lemma_class_error(list, class, guild, bot, own, n + 1);
    }
}

fn add_roles(
    roles: &Vec<Json>,
    own: &Vec<Json>,
    everyone: u64,
    Ghost(all): Ghost<Seq<JsonView>>,
    Ghost(mine): Ghost<Seq<JsonView>>,
) -> (r: Result<u64, &'static str>)
    requires
        roles@.len() == all.len(),
        forall|i: int| 0 <= i < all.len() ==> #[trigger] roles@[i]@ == all[i],
        own@.len() == mine.len(),
        forall|i: int| 0 <= i < mine.len() ==> #[trigger] own@[i]@ == mine[i],
    ensures
        match role_bits(all, mine, everyone, all.len()) {
            Ok(n) => r == Ok::<u64, &'static str>(n),
            Err(e) => r is Err && r->Err_0@ == e,
        },
{
    let mut p: u64 = everyone;
    let mut i: usize = 0;
    while i < roles.len()
        invariant
            i <= roles@.len(),
            roles@.len() == all.len(),
            forall|k: int| 0 <= k < all.len() ==> #[trigger] roles@[k]@ == all[k],
            own@.len() == mine.len(),
            forall|k: int| 0 <= k < mine.len() ==> #[trigger] own@[k]@ == mine[k],
            role_bits(all, mine, everyone, i as nat) == Ok::<u64, Seq<char>>(p),
        decreases roles@.len() - i,
    {
        assert(roles@[i as int]@ == all[i as int]);
        if is_contained(own, roles[i].at("id"), Ghost(mine)) {
            match bits(roles[i].at("permissions")) {
                Ok(b) => {
                    p = p | b;
                },
                Err(e) => {
                    proof {
                        lemma_role_error(all, mine, everyone, (i + 1) as nat);
                    }
                    return Err(e);
                },
            }
        }
        i += 1;
    }
    Ok(p)
}

fn add_class(
    list: &Vec<Json>,
    class: Class,
    guild: &str,
    bot: &str,
    own: &Vec<Json>,
    Ghost(all): Ghost<Seq<JsonView>>,
    Ghost(mine): Ghost<Seq<JsonView>>,
) -> (r: Result<(u64, u64), &'static str>)
    requires
        list@.len() == all.len(),
        forall|i: int| 0 <= i < all.len() ==> #[trigger] list@[i]@ == all[i],
        own@.len() == mine.len(),
        forall|i: int| 0 <= i < mine.len() ==> #[trigger] own@[i]@ == mine[i],
    ensures
        match class_bits(all, class, guild@, bot@, mine, all.len()) {
            Ok(n) => r == Ok::<(u64, u64), &'static str>(n),
            Err(e) => r is Err && r->Err_0@ == e,
        },
{
    let mut deny: u64 = 0;
    let mut allow: u64 = 0;
    let mut i: usize = 0;
    while i < list.len()
        invariant
            i <= list@.len(),
            list@.len() == all.len(),
            forall|k: int| 0 <= k < all.len() ==> #[trigger] list@[k]@ == all[k],
            own@.len() == mine.len(),
            forall|k: int| 0 <= k < mine.len() ==> #[trigger] own@[k]@ == mine[k],
            class_bits(all, class, guild@, bot@, mine, i as nat) == Ok::<(u64, u64), Seq<char>>(
                (deny, allow),
            ),
        decreases list@.len() - i,
    {
        let o = &list[i];
        assert(o@ == all[i as int]);
        let matched = match class {
            Class::Everyone => o.at("type").is_number(0) && o.at("id").is_text(guild),
            Class::Roles => o.at("type").is_number(0) && !o.at("id").is_text(guild) && is_contained(
                own,
                o.at("id"),
                Ghost(mine),
            ),
            Class::Member => o.at("type").is_number(1) && o.at("id").is_text(bot),
        };
        if matched {
            let d = match bits(o.at("deny")) {
                Ok(n) => n,
                Err(e) => {
                    proof {
                        lemma_class_error(all, class, guild@, bot@, mine, (i + 1) as nat);
                    }
                    return Err(e);
                },
            };
            let a = match bits(o.at("allow")) {
                Ok(n) => n,
                Err(e) => {
                    proof {
                        lemma_class_error(all, class, guild@, bot@, mine, (i + 1) as nat);
                    }
                    return Err(e);
                },
            };
            deny = deny | d;
            allow = allow | a;
        }
        i += 1;
    }
    Ok((deny, allow))
}

/// Whether the bot may send an attachment. `now` is the present moment in nanoseconds since 1970.
pub fn attachment_allowed(
    guild: &str,
    bot: &str,
    roles: &Json,
    member: &Json,
    overwrites: &Json,
    in_thread: bool,
    now: i128,
) -> (r: Result<bool, String>)
    ensures
        match may_attach(guild@, bot@, roles@, member@, overwrites@, in_thread, now as int) {
            Ok(b) => r == Ok::<bool, String>(b),
            Err(e) => r is Err && r->Err_0@ == e,
        },
{
    let list = match roles.as_array() {
        Some(v) => v,
        None => return Err(String::from_str("guild roles missing")),
    };
    let own = match member.at("roles").as_array() {
        Some(v) => v,
        None => return Err(String::from_str("member roles missing")),
    };
    if !member.at("user").at("id").is_text(bot) {
        return Err(String::from_str("Discord member identity mismatch"));
    }
    let ghost all = roles@.array()->0;
    let ghost mine = member@.at("roles"@).array()->0;
    let mut i: usize = 0;
    while i < list.len() && !list[i].at("id").is_text(guild)
        invariant
            i <= list@.len(),
            list@.len() == all.len(),
            forall|k: int| 0 <= k < all.len() ==> #[trigger] list@[k]@ == all[k],
            role_from(all, guild@, 0) == role_from(all, guild@, i as nat),
        decreases list@.len() - i,
    {
        assert(list@[i as int]@ == all[i as int]);
        i += 1;
    }
    if i == list.len() {
        return Err(String::from_str("everyone role missing"));
    }
    assert(list@[i as int]@ == all[i as int]);
    let start: u64 = match bits(list[i].at("permissions")) {
        Ok(n) => n,
        Err(e) => return Err(String::from_str(e)),
    };
    let p: u64 = match add_roles(list, own, start, Ghost(all), Ghost(mine)) {
        Ok(n) => n,
        Err(e) => return Err(String::from_str(e)),
    };
    if p & 8 != 0 {
        return Ok(true);
    }
    if let Some(until) = member.at("communication_disabled_until").as_str() {
        match parse_timestamp(until) {
            Err(e) => return Err(e),
            Ok(t) => {
                if t > now {
                    return Ok(false);
                }
            },
        }
    }
    let changes = match overwrites.as_array() {
        Some(v) => v,
        None => return Err(String::from_str("channel overwrites missing")),
    };
    let ghost over = overwrites@.array()->0;
    let (d0, a0): (u64, u64) = match add_class(
        changes,
        Class::Everyone,
        guild,
        bot,
        own,
        Ghost(over),
        Ghost(mine),
    ) {
        Ok(x) => x,
        Err(e) => return Err(String::from_str(e)),
    };
    let (d1, a1): (u64, u64) = match add_class(
        changes,
        Class::Roles,
        guild,
        bot,
        own,
        Ghost(over),
        Ghost(mine),
    ) {
        Ok(x) => x,
        Err(e) => return Err(String::from_str(e)),
    };
    let (d2, a2): (u64, u64) = match add_class(
        changes,
        Class::Member,
        guild,
        bot,
        own,
        Ghost(over),
        Ghost(mine),
    ) {
        Ok(x) => x,
        Err(e) => return Err(String::from_str(e)),
    };
    let first: u64 = (p & !d0) | a0;
    let second: u64 = (first & !d1) | a1;
    let third: u64 = (second & !d2) | a2;
    let wanted: u64 = if in_thread { 0x40_0001_8400 } else { 0x1_8c00 };
    Ok(third & wanted == wanted)
}

/// What the member's own override allows is allowed, whatever the roles are denied.
pub proof fn member_override_wins(p: u64, deny: u64, allow: u64, bit: u64)
    requires
        allow & bit == bit,
    ensures
        ((p & !deny) | allow) & bit == bit,
{
    assert(((p & !deny) | allow) & bit == bit) by (bit_vector)
        requires
            allow & bit == bit,
    ;
}

} // verus!

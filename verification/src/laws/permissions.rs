//! Where the bot may attach files.
use crate::codec::timestamp_nanos;
use crate::discord_permissions::{
    attachment_allowed, bits_of, class_bits, contained, role_bits, role_from, Class,
};
use crate::json::{alike, Json, JsonView};
use crate::numbers::{decimal, lemma_unsigned_round_trip};
use vstd::prelude::*;

verus! {

/// Whether permissions hold the one at a position.
pub open spec fn grants(p: u64, k: u64) -> bool {
    p & (1u64 << k) != 0
}

/// The permissions are written in decimal notation, as the service writes them.
pub open spec fn written(list: Seq<JsonView>, name: Seq<char>, values: Seq<u64>) -> bool {
    &&& values.len() == list.len()
    &&& forall|i: int|
        0 <= i < list.len() ==> (#[trigger] list[i]).at(name) == JsonView::Text(
            decimal(values[i] as nat),
        )
}

/// Whether some role of a member, or the role of everyone, has a permission.
pub open spec fn by_roles(
    roles: Seq<JsonView>,
    perms: Seq<u64>,
    own: Seq<JsonView>,
    everyone: u64,
    n: int,
    k: u64,
) -> bool {
    grants(everyone, k) || exists|i: int|
        0 <= i < n && own.contains((#[trigger] roles[i]).at("id"@)) && grants(perms[i], k)
}

/// Whether an override of everyone (0), of a role of the member (1) or of the member (2) has a
/// permission among `values`.
pub open spec fn overrides(
    list: Seq<JsonView>,
    values: Seq<u64>,
    own: Seq<JsonView>,
    guild: Seq<char>,
    bot: Seq<char>,
    level: int,
    n: int,
    k: u64,
) -> bool {
    exists|i: int|
        0 <= i < n && grants(values[i], k) && {
            let o = #[trigger] list[i];
            ||| level == 0 && o.at("type"@) == JsonView::Unsigned(0) && o.at("id"@)
                == JsonView::Text(guild)
            ||| level == 1 && o.at("type"@) == JsonView::Unsigned(0) && o.at("id"@)
                != JsonView::Text(guild) && own.contains(o.at("id"@))
            ||| level == 2 && o.at("type"@) == JsonView::Unsigned(1) && o.at("id"@)
                == JsonView::Text(bot)
        }
}

proof fn numbers_are_read(n: u64)
    ensures
        bits_of(JsonView::Text(decimal(n as nat))) == Ok::<u64, Seq<char>>(n),
{
    lemma_unsigned_round_trip(n as nat, u64::MAX as nat);
}

proof fn identities_are_compared(list: Seq<JsonView>, id: JsonView)
    requires
        id is Text,
    ensures
        contained(list, id) == list.contains(id),
{
    reveal_with_fuel(alike, 2);
    if contained(list, id) {
        let i = choose|i: int| 0 <= i < list.len() && alike(#[trigger] list[i], id);
        assert(list[i] == id);
    }
    if list.contains(id) {
        let i = choose|i: int| 0 <= i < list.len() && list[i] == id;
        assert(alike(list[i], id));
    }
}

/// Before overrides a permission is held exactly where the role of everyone has it or some role of
/// the member has it. So a role never takes a permission away.
pub proof fn roles_add_permissions(
    roles: Seq<JsonView>,
    perms: Seq<u64>,
    own: Seq<JsonView>,
    everyone: u64,
    n: nat,
    k: u64,
)
    requires
        n <= roles.len(),
        k < 64,
        written(roles, "permissions"@, perms),
        forall|i: int| 0 <= i < roles.len() ==> (#[trigger] roles[i]).at("id"@) is Text,
    ensures
        role_bits(roles, own, everyone, n) is Ok,
        grants(role_bits(roles, own, everyone, n)->Ok_0, k) <==> by_roles(
            roles,
            perms,
            own,
            everyone,
            n as int,
            k,
        ),
    decreases n,
{
    if n > 0 {
        let m = (n - 1) as nat;
        roles_add_permissions(roles, perms, own, everyone, m, k);
        let p = role_bits(roles, own, everyone, m)->Ok_0;
        let b = perms[m as int];
        let role = roles[m as int];
        assert(role.at("id"@) is Text);
        assert(role.at("permissions"@) == JsonView::Text(decimal(b as nat)));
        numbers_are_read(b);
        identities_are_compared(own, role.at("id"@));
        assert((p | b) & (1u64 << k) != 0 <==> (p & (1u64 << k) != 0 || b & (1u64 << k) != 0))
            by (bit_vector);
        if by_roles(roles, perms, own, everyone, m as int, k) && !grants(everyone, k) {
            let i = choose|i: int|
                0 <= i < m && own.contains((#[trigger] roles[i]).at("id"@)) && grants(perms[i], k);
            assert(0 <= i < n && own.contains(roles[i].at("id"@)) && grants(perms[i], k));
        }
        if by_roles(roles, perms, own, everyone, n as int, k) && !grants(everyone, k) {
            let i = choose|i: int|
                0 <= i < n && own.contains((#[trigger] roles[i]).at("id"@)) && grants(perms[i], k);
            if i < m {
                assert(by_roles(roles, perms, own, everyone, m as int, k));
            }
        }
        if own.contains(role.at("id"@)) && grants(b, k) {
            assert(own.contains(roles[m as int].at("id"@)) && grants(perms[m as int], k));
        }
    }
}

proof fn levels_collect(
    list: Seq<JsonView>,
    denied: Seq<u64>,
    allowed: Seq<u64>,
    own: Seq<JsonView>,
    guild: Seq<char>,
    bot: Seq<char>,
    class: Class,
    level: int,
    n: nat,
    k: u64,
)
    requires
        n <= list.len(),
        k < 64,
        level == match class {
            Class::Everyone => 0int,
            Class::Roles => 1int,
            Class::Member => 2int,
        },
        written(list, "deny"@, denied),
        written(list, "allow"@, allowed),
        forall|i: int| 0 <= i < list.len() ==> (#[trigger] list[i]).at("id"@) is Text,
    ensures
        class_bits(list, class, guild, bot, own, n) is Ok,
        grants(class_bits(list, class, guild, bot, own, n)->Ok_0.0, k) <==> overrides(
            list,
            denied,
            own,
            guild,
            bot,
            level,
            n as int,
            k,
        ),
        grants(class_bits(list, class, guild, bot, own, n)->Ok_0.1, k) <==> overrides(
            list,
            allowed,
            own,
            guild,
            bot,
            level,
            n as int,
            k,
        ),
    decreases n,
{
    assert(0u64 & (1u64 << k) == 0) by (bit_vector);
    if n > 0 {
        let m = (n - 1) as nat;
        levels_collect(list, denied, allowed, own, guild, bot, class, level, m, k);
        let c = class_bits(list, class, guild, bot, own, m)->Ok_0;
        let deny = c.0;
        let allow = c.1;
        let d = denied[m as int];
        let a = allowed[m as int];
        let o = list[m as int];
        assert(o.at("id"@) is Text);
        assert(o.at("deny"@) == JsonView::Text(decimal(d as nat)));
        assert(o.at("allow"@) == JsonView::Text(decimal(a as nat)));
        numbers_are_read(d);
        numbers_are_read(a);
        identities_are_compared(own, o.at("id"@));
        assert((deny | d) & (1u64 << k) != 0 <==> (deny & (1u64 << k) != 0 || d & (1u64 << k)
            != 0)) by (bit_vector);
        assert((allow | a) & (1u64 << k) != 0 <==> (allow & (1u64 << k) != 0 || a & (1u64 << k)
            != 0)) by (bit_vector);
        overrides_grow(list, denied, own, guild, bot, level, m as int, k);
        overrides_grow(list, allowed, own, guild, bot, level, m as int, k);
    }
}

proof fn overrides_grow(
    list: Seq<JsonView>,
    values: Seq<u64>,
    own: Seq<JsonView>,
    guild: Seq<char>,
    bot: Seq<char>,
    level: int,
    m: int,
    k: u64,
)
    requires
        0 <= m < list.len(),
    ensures
        overrides(list, values, own, guild, bot, level, m + 1, k) <==> overrides(
            list,
            values,
            own,
            guild,
            bot,
            level,
            m,
            k,
        ) || grants(values[m], k) && {
            let o = list[m];
            ||| level == 0 && o.at("type"@) == JsonView::Unsigned(0) && o.at("id"@)
                == JsonView::Text(guild)
            ||| level == 1 && o.at("type"@) == JsonView::Unsigned(0) && o.at("id"@)
                != JsonView::Text(guild) && own.contains(o.at("id"@))
            ||| level == 2 && o.at("type"@) == JsonView::Unsigned(1) && o.at("id"@)
                == JsonView::Text(bot)
        },
{
    let o = list[m];
}

proof fn everyone_is_found(roles: Seq<JsonView>, guild: Seq<char>, from: nat, e: int)
    requires
        from <= e < roles.len(),
        roles[e].at("id"@) == JsonView::Text(guild),
        forall|u: int| 0 <= u < e ==> (#[trigger] roles[u]).at("id"@) != JsonView::Text(guild),
    ensures
        role_from(roles, guild, from) == Some(roles[e]),
    decreases e - from,
{
    if from < e {
        assert(roles[from as int].at("id"@) != JsonView::Text(guild));
        everyone_is_found(roles, guild, from + 1, e);
    }
}

/// Whether a permission is held once the overrides of a channel are applied: those of everyone,
/// then those of the roles of the member, then those of the member; at each level a permission that
/// is denied is taken away and one that is allowed is given.
pub open spec fn held(
    list: Seq<JsonView>,
    denied: Seq<u64>,
    allowed: Seq<u64>,
    own: Seq<JsonView>,
    guild: Seq<char>,
    bot: Seq<char>,
    before: bool,
    k: u64,
) -> bool {
    let n = list.len() as int;
    let a = before && !overrides(list, denied, own, guild, bot, 0, n, k) || overrides(
        list,
        allowed,
        own,
        guild,
        bot,
        0,
        n,
        k,
    );
    let b = a && !overrides(list, denied, own, guild, bot, 1, n, k) || overrides(
        list,
        allowed,
        own,
        guild,
        bot,
        1,
        n,
        k,
    );
    b && !overrides(list, denied, own, guild, bot, 2, n, k) || overrides(
        list,
        allowed,
        own,
        guild,
        bot,
        2,
        n,
        k,
    )
}

proof fn levels_apply(
    list: Seq<JsonView>,
    denied: Seq<u64>,
    allowed: Seq<u64>,
    own: Seq<JsonView>,
    guild: Seq<char>,
    bot: Seq<char>,
    p: u64,
    k: u64,
)
    requires
        k < 64,
        written(list, "deny"@, denied),
        written(list, "allow"@, allowed),
        forall|i: int| 0 <= i < list.len() ==> (#[trigger] list[i]).at("id"@) is Text,
    ensures
        ({
            let c0 = class_bits(list, Class::Everyone, guild, bot, own, list.len());
            let c1 = class_bits(list, Class::Roles, guild, bot, own, list.len());
            let c2 = class_bits(list, Class::Member, guild, bot, own, list.len());
            let q0 = (p & !c0->Ok_0.0) | c0->Ok_0.1;
            let q1 = (q0 & !c1->Ok_0.0) | c1->Ok_0.1;
            let q2 = (q1 & !c2->Ok_0.0) | c2->Ok_0.1;
            &&& c0 is Ok
            &&& c1 is Ok
            &&& c2 is Ok
            &&& grants(q2, k) <==> held(list, denied, allowed, own, guild, bot, grants(p, k), k)
        }),
{
    levels_collect(list, denied, allowed, own, guild, bot, Class::Everyone, 0, list.len(), k);
    levels_collect(list, denied, allowed, own, guild, bot, Class::Roles, 1, list.len(), k);
    levels_collect(list, denied, allowed, own, guild, bot, Class::Member, 2, list.len(), k);
    let c0 = class_bits(list, Class::Everyone, guild, bot, own, list.len())->Ok_0;
    let c1 = class_bits(list, Class::Roles, guild, bot, own, list.len())->Ok_0;
    let c2 = class_bits(list, Class::Member, guild, bot, own, list.len())->Ok_0;
    let q0 = (p & !c0.0) | c0.1;
    let q1 = (q0 & !c1.0) | c1.1;
    one_level(p, c0.0, c0.1, k);
    one_level(q0, c1.0, c1.1, k);
    one_level(q1, c2.0, c2.1, k);
}

proof fn one_level(p: u64, d: u64, a: u64, k: u64)
    requires
        k < 64,
    ensures
        grants((p & !d) | a, k) <==> (grants(p, k) && !grants(d, k) || grants(a, k)),
{
    assert(((p & !d) | a) & (1u64 << k) != 0 <==> (p & (1u64 << k) != 0 && !(d & (1u64 << k) != 0)
        || a & (1u64 << k) != 0)) by (bit_vector)
        requires
            k < 64,
    ;
}

proof fn needed_positions(p: u64)
    ensures
        p & 8 != 0 <==> grants(p, 3),
        p & 0x1_8c00 == 0x1_8c00 <==> grants(p, 10) && grants(p, 11) && grants(p, 15) && grants(p, 16),
        p & 0x40_0001_8400 == 0x40_0001_8400 <==> grants(p, 10) && grants(p, 38) && grants(p, 15) && grants(
            p,
            16,
        ),
{
    assert(p & 8 != 0 <==> p & (1u64 << 3) != 0) by (bit_vector);
    assert(p & 0x1_8c00 == 0x1_8c00 <==> p & (1u64 << 10) != 0 && p & (1u64 << 11) != 0 && p & (1u64
        << 15) != 0 && p & (1u64 << 16) != 0) by (bit_vector);
    assert(p & 0x40_0001_8400 == 0x40_0001_8400 <==> p & (1u64 << 10) != 0 && p & (1u64 << 38) != 0
        && p & (1u64 << 15) != 0 && p & (1u64 << 16) != 0) by (bit_vector);
}

/// Files may be attached by an administrator, and else by a member that is not timed out and holds,
/// after the overrides of the channel, the permissions to view the channel (10), to attach files
/// (15), to read the history (16) and to send messages: those of the channel (11), or in a thread
/// those of threads (38).
pub proof fn attachments_need_permissions(
    guild: &str,
    bot: &str,
    roles: &Json,
    member: &Json,
    overwrites: &Json,
    in_thread: bool,
    now: i128,
    r: Result<bool, String>,
    perms: Seq<u64>,
    e: int,
    denied: Seq<u64>,
    allowed: Seq<u64>,
)
    requires
        call_ensures(
            attachment_allowed,
            (guild, bot, roles, member, overwrites, in_thread, now),
            r,
        ),
        roles@ is Array,
        member@.at("roles"@) is Array,
        overwrites@ is Array,
        member@.at("user"@).at("id"@) == JsonView::Text(bot@),
        member@.at("communication_disabled_until"@) is Text ==> timestamp_nanos(
            member@.at("communication_disabled_until"@)->Text_0,
        ) is Ok,
        written(roles@->Array_0, "permissions"@, perms),
        forall|i: int|
            0 <= i < roles@->Array_0.len() ==> (#[trigger] roles@->Array_0[i]).at("id"@) is Text,
        0 <= e < roles@->Array_0.len(),
        roles@->Array_0[e].at("id"@) == JsonView::Text(guild@),
        forall|u: int|
            0 <= u < e ==> (#[trigger] roles@->Array_0[u]).at("id"@) != JsonView::Text(guild@),
        written(overwrites@->Array_0, "deny"@, denied),
        written(overwrites@->Array_0, "allow"@, allowed),
        forall|i: int|
            0 <= i < overwrites@->Array_0.len() ==> (#[trigger] overwrites@->Array_0[i]).at(
                "id"@,
            ) is Text,
    ensures
        ({
            let all = roles@->Array_0;
            let list = overwrites@->Array_0;
            let own = member@.at("roles"@)->Array_0;
            let until = member@.at("communication_disabled_until"@);
            let base = |k: u64| by_roles(all, perms, own, perms[e], all.len() as int, k);
            let holds = |k: u64| held(list, denied, allowed, own, guild@, bot@, base(k), k);
            &&& r is Ok
            &&& r->Ok_0 <==> (base(3) || (!(until is Text && timestamp_nanos(until->Text_0)->Ok_0
                > now) && holds(10) && holds(15) && holds(16) && holds(
                if in_thread {
                    38
                } else {
                    11
                },
            )))
        }),
{
    let all = roles@->Array_0;
    let list = overwrites@->Array_0;
    let own = member@.at("roles"@)->Array_0;
    everyone_is_found(all, guild@, 0, e);
    assert(all[e].at("permissions"@) == JsonView::Text(decimal(perms[e] as nat)));
    numbers_are_read(perms[e]);
    roles_add_permissions(all, perms, own, perms[e], all.len(), 3);
    roles_add_permissions(all, perms, own, perms[e], all.len(), 10);
    roles_add_permissions(all, perms, own, perms[e], all.len(), 11);
    roles_add_permissions(all, perms, own, perms[e], all.len(), 15);
    roles_add_permissions(all, perms, own, perms[e], all.len(), 16);
    roles_add_permissions(all, perms, own, perms[e], all.len(), 38);
    let p = role_bits(all, own, perms[e], all.len())->Ok_0;
    needed_positions(p);
    levels_apply(list, denied, allowed, own, guild@, bot@, p, 10);
    levels_apply(list, denied, allowed, own, guild@, bot@, p, 11);
    levels_apply(list, denied, allowed, own, guild@, bot@, p, 15);
    levels_apply(list, denied, allowed, own, guild@, bot@, p, 16);
    levels_apply(list, denied, allowed, own, guild@, bot@, p, 38);
    let c0 = class_bits(list, Class::Everyone, guild@, bot@, own, list.len())->Ok_0;
    let c1 = class_bits(list, Class::Roles, guild@, bot@, own, list.len())->Ok_0;
    let c2 = class_bits(list, Class::Member, guild@, bot@, own, list.len())->Ok_0;
    let q0 = (p & !c0.0) | c0.1;
    let q1 = (q0 & !c1.0) | c1.1;
    let q2 = (q1 & !c2.0) | c2.1;
    needed_positions(q2);
}

/// Without overrides and timeout a member may attach files whenever each permission that is needed
/// is one of everyone or of one of the roles of the member.
pub proof fn permissions_of_roles_suffice(
    guild: &str,
    bot: &str,
    roles: &Json,
    member: &Json,
    overwrites: &Json,
    in_thread: bool,
    now: i128,
    r: Result<bool, String>,
    perms: Seq<u64>,
    e: int,
)
    requires
        call_ensures(
            attachment_allowed,
            (guild, bot, roles, member, overwrites, in_thread, now),
            r,
        ),
        roles@ is Array,
        member@.at("roles"@) is Array,
        overwrites@ == JsonView::Array(Seq::empty()),
        member@.at("user"@).at("id"@) == JsonView::Text(bot@),
        !(member@.at("communication_disabled_until"@) is Text),
        written(roles@->Array_0, "permissions"@, perms),
        forall|i: int|
            0 <= i < roles@->Array_0.len() ==> (#[trigger] roles@->Array_0[i]).at("id"@) is Text,
        0 <= e < roles@->Array_0.len(),
        roles@->Array_0[e].at("id"@) == JsonView::Text(guild@),
        forall|u: int|
            0 <= u < e ==> (#[trigger] roles@->Array_0[u]).at("id"@) != JsonView::Text(guild@),
        forall|k: u64|
            #![trigger grants(perms[e], k)]
            (k == 10 || k == 15 || k == 16 || k == if in_thread {
                38u64
            } else {
                11u64
            }) ==> grants(perms[e], k) || exists|i: int|
                0 <= i < roles@->Array_0.len() && member@.at("roles"@)->Array_0.contains(
                    (#[trigger] roles@->Array_0[i]).at("id"@),
                ) && grants(perms[i], k),
    ensures
        r == Ok::<bool, String>(true),
{
    let none = Seq::<u64>::empty();
    attachments_need_permissions(
        guild,
        bot,
        roles,
        member,
        overwrites,
        in_thread,
        now,
        r,
        perms,
        e,
        none,
        none,
    );
    assert(grants(perms[e], 10) || !grants(perms[e], 10));
    assert(grants(perms[e], 11) || !grants(perms[e], 11));
    assert(grants(perms[e], 15) || !grants(perms[e], 15));
    assert(grants(perms[e], 16) || !grants(perms[e], 16));
    assert(grants(perms[e], 38) || !grants(perms[e], 38));
}

} // verus!

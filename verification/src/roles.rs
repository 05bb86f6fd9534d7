//! `/roles`: a role menu where members pick their own roles, within the
//! guild's blacklist and the member's place in the hierarchy.
use vstd::prelude::*;
use crate::moderation::{rank_le, role_le, RoleRank};
use crate::number::{parse_u64, parse_u64_spec};
use crate::response::{EmbedData, EmbedFieldView, EmbedView};
use crate::text::{dec_nat, push_dec_u64, push_str, str_eq, string_of};

verus! {

/// `/roles menu`: set up a role menu. Its buttons give the rules, adult and
/// bait roles.
#[derive(Debug)]
pub struct Menu {
    pub rules: Option<u64>,
    pub adult: Option<u64>,
    pub bait: Option<u64>,
}

/// `/roles blacklist add`: add a role to the blacklist.
#[derive(Debug)]
pub struct Add {
    /// The role to add
    pub role: u64,
}

/// `/roles blacklist`: add or remove roles from the blacklist.
#[derive(Debug)]
pub enum Blacklist {
    Add(Add),
}

/// `/roles`: manage your roles, or set up a role menu.
#[derive(Debug)]
pub enum RoleCommands {
    Menu(Menu),
    Blacklist(Blacklist),
}

/// Inserts `x` into the sorted `s` before the first role that is above it.
pub open spec fn insert_sorted(s: Seq<RoleRank>, x: RoleRank) -> Seq<RoleRank>
    decreases s.len(),
{
    if s.len() == 0 {
        seq![x]
    } else if rank_le(x, s[0]) {
        seq![x] + s
    } else {
        seq![s[0]] + insert_sorted(s.drop_first(), x)
    }
}

/// The roles sorted in hierarchy order.
pub open spec fn sort_spec(s: Seq<RoleRank>) -> Seq<RoleRank>
    decreases s.len(),
{
    if s.len() == 0 {
        seq![]
    } else {
        insert_sorted(sort_spec(s.drop_last()), s.last())
    }
}

/// Sorted in hierarchy order.
pub open spec fn is_sorted(s: Seq<RoleRank>) -> bool {
    forall|i: int, j: int| 0 <= i < j < s.len() ==> rank_le(s[i], s[j])
}

proof fn lemma_insert_sorted(s: Seq<RoleRank>, x: RoleRank)
    requires
        is_sorted(s),
    ensures
        is_sorted(insert_sorted(s, x)),
        insert_sorted(s, x).to_multiset() == s.to_multiset().insert(x),
    decreases s.len(),
{
    broadcast use vstd::multiset::group_multiset_axioms;
    broadcast use vstd::seq_lib::group_to_multiset_ensures;
    if s.len() == 0 {
        assert(seq![x] =~= Seq::<RoleRank>::empty().push(x));
    } else if rank_le(x, s[0]) {
        assert forall|i: int, j: int| 0 <= i < j < (seq![x] + s).len() implies rank_le((seq![x] + s)[i], (seq![x] + s)[j]) by {
            if i == 0 && j > 1 {
                assert(rank_le(s[0], s[j - 1]));
            }
        }
        assert(seq![x] + s =~= s.insert(0, x));
        s.to_multiset_ensures();
        vstd::seq_lib::lemma_seq_union_to_multiset_commutative(seq![x], s);
    } else {
        let t = s.drop_first();
        lemma_insert_sorted(t, x);
        let r = insert_sorted(t, x);
        vstd::seq_lib::lemma_multiset_commutative(seq![s[0]], r);
        vstd::seq_lib::lemma_multiset_commutative(seq![s[0]], t);
        assert(seq![s[0]] + t =~= s);
        assert forall|i: int, j: int| 0 <= i < j < (seq![s[0]] + r).len() implies rank_le((seq![s[0]] + r)[i], (seq![s[0]] + r)[j]) by {
            if i == 0 {
                let y = r[j - 1];
                assert(r.to_multiset().count(y) > 0);
                assert(t.to_multiset().insert(x).count(y) > 0);
                if y != x {
                    assert(t.to_multiset().count(y) > 0);
                    let k = choose|k: int| 0 <= k < t.len() && t[k] == y;
                    assert(s[k + 1] == y);
                }
            }
        }
    }
}

/// Sorting orders the roles and keeps them all.
pub proof fn law_sort_orders_roles(s: Seq<RoleRank>)
    ensures
        is_sorted(sort_spec(s)),
        sort_spec(s).to_multiset() == s.to_multiset(),
    decreases s.len(),
{
    broadcast use vstd::seq_lib::group_to_multiset_ensures;
    if s.len() > 0 {
        law_sort_orders_roles(s.drop_last());
        lemma_insert_sorted(sort_spec(s.drop_last()), s.last());
        assert(s.drop_last().push(s.last()) =~= s);
    }
}

fn insert_role(v: &mut Vec<RoleRank>, x: RoleRank)
    ensures
        final(v)@ == insert_sorted(old(v)@, x),
{
    let n = v.len();
    let mut i: usize = 0;
    assert(old(v)@.skip(0) =~= old(v)@);
    assert(old(v)@.take(0) + insert_sorted(old(v)@, x) =~= insert_sorted(old(v)@, x));
    while i < n && !role_le(x, v[i])
        invariant
            n == v@.len(),
            v@ == old(v)@,
            i <= n,
            insert_sorted(old(v)@, x) == old(v)@.take(i as int) + insert_sorted(old(v)@.skip(i as int), x),
        decreases n - i,
    {
        let ghost rest = old(v)@.skip(i as int);
        assert(rest[0] == v@[i as int]);
        assert(rest.drop_first() =~= old(v)@.skip(i + 1));
        assert(old(v)@.take(i + 1) =~= old(v)@.take(i as int) + seq![rest[0]]);
        i = i + 1;
    }
    proof {
        let rest = old(v)@.skip(i as int);
        if i == n {
            assert(rest =~= Seq::<RoleRank>::empty());
        } else {
            assert(rest[0] == v@[i as int]);
        }
        assert(insert_sorted(rest, x) =~= seq![x] + rest);
        assert(old(v)@.take(i as int) + (seq![x] + rest) =~= old(v)@.insert(i as int, x));
    }
    v.insert(i, x);
}

/// Sorts roles in hierarchy order.
pub fn sort_roles(roles: &Vec<RoleRank>) -> (r: Vec<RoleRank>)
    ensures
        r@ == sort_spec(roles@),
{
    let mut r: Vec<RoleRank> = Vec::new();
    let n = roles.len();
    for i in 0..n
        invariant
            n == roles@.len(),
            r@ == sort_spec(roles@.take(i as int)),
    {
        insert_role(&mut r, roles[i]);
        assert(roles@.take(i + 1).drop_last() =~= roles@.take(i as int));
    }
    assert(roles@.take(n as int) =~= roles@);
    r
}

} // verus!

verus! {

/// The role lists the menu works out.
pub struct RoleLists {
    pub current: Seq<u64>,
    pub add: Seq<u64>,
    pub remove: Seq<u64>,
    pub blacklisted: Seq<u64>,
    pub too_high: Seq<u64>,
}

/// The role lists the menu works out: the member's current roles, those
/// to add and remove, the requested ones that are blacklisted, and those
/// above the member.
#[derive(Debug)]
pub struct RoleOutcome {
    pub current: Vec<u64>,
    pub add: Vec<u64>,
    pub remove: Vec<u64>,
    pub blacklisted: Vec<u64>,
    pub too_high: Vec<u64>,
}

impl View for RoleOutcome {
    type V = RoleLists;

    open spec fn view(&self) -> RoleLists {
        RoleLists {
            current: self.current@,
            add: self.add@,
            remove: self.remove@,
            blacklisted: self.blacklisted@,
            too_high: self.too_high@,
        }
    }
}

/// No lists yet.
pub open spec fn no_lists() -> RoleLists {
    RoleLists { current: seq![], add: seq![], remove: seq![], blacklisted: seq![], too_high: seq![] }
}

/// One guild role, in hierarchy order: a role the member has is current,
/// and is removed unless blacklisted or the member's highest; a requested
/// role is refused when blacklisted, is too high when above the member's
/// highest, and is added when the member lacks it.
pub open spec fn classify_role(
    acc: RoleLists,
    role: RoleRank,
    member: Seq<RoleRank>,
    blacklist: Seq<u64>,
    requested: Seq<u64>,
    highest: RoleRank,
) -> RoleLists {
    let member_has = member.contains(role);
    let current = if member_has { acc.current.push(role.id) } else { acc.current };
    let remove = if member_has && !blacklist.contains(role.id) && highest != role { acc.remove.push(role.id) } else { acc.remove };
    let wanted = requested.contains(role.id);
    let blacklisted = if wanted && blacklist.contains(role.id) { acc.blacklisted.push(role.id) } else { acc.blacklisted };
    let too_high = if wanted && !blacklist.contains(role.id) && !rank_le(highest, role) { acc.too_high.push(role.id) } else { acc.too_high };
    let add = if wanted && !blacklist.contains(role.id) && rank_le(highest, role) && !member_has { acc.add.push(role.id) } else { acc.add };
    RoleLists { current, add, remove, blacklisted, too_high }
}

/// The lists over the guild's roles in order.
pub open spec fn classify(
    roles: Seq<RoleRank>,
    member: Seq<RoleRank>,
    blacklist: Seq<u64>,
    requested: Seq<u64>,
    highest: RoleRank,
) -> RoleLists
    decreases roles.len(),
{
    if roles.len() == 0 {
        no_lists()
    } else {
        classify_role(classify(roles.drop_last(), member, blacklist, requested, highest), roles.last(), member, blacklist, requested, highest)
    }
}

/// The requested role IDs: each selected value that reads as a number.
pub open spec fn requested_ids(values: Seq<String>) -> Seq<u64>
    decreases values.len(),
{
    if values.len() == 0 {
        seq![]
    } else {
        match parse_u64_spec(values.last()@) {
            Some(v) => requested_ids(values.drop_last()).push(v as u64),
            None => requested_ids(values.drop_last()),
        }
    }
}

/// The IDs of the member's roles equal to `id`, one for each.
pub open spec fn matching_ids(member: Seq<RoleRank>, id: u64) -> Seq<u64>
    decreases member.len(),
{
    if member.len() == 0 {
        seq![]
    } else if member.last().id == id {
        matching_ids(member.drop_last(), id).push(id)
    } else {
        matching_ids(member.drop_last(), id)
    }
}

/// The menu's buttons replace what is removed and added: the rules button
/// gives the rules role and takes away the adult role, the adult button the
/// reverse, and the bait button gives the bait role.
pub open spec fn apply_button(lists: RoleLists, member: Seq<RoleRank>, menu: Option<Menu>, button: Seq<char>) -> RoleLists {
    match menu {
        Some(m) => if button == "roles-button-rules"@ {
            RoleLists {
                add: lists.add.push(m.rules->0),
                remove: match m.adult { Some(a) => matching_ids(member, a), None => seq![] },
                ..lists
            }
        } else if button == "roles-button-adult"@ {
            RoleLists {
                add: lists.add.push(m.adult->0),
                remove: match m.rules { Some(r) => matching_ids(member, r), None => seq![] },
                ..lists
            }
        } else if button == "roles-button-bait"@ {
            RoleLists { add: lists.add.push(m.bait->0), remove: seq![], ..lists }
        } else {
            lists
        },
        None => lists,
    }
}

/// The smallest role in hierarchy order.
pub open spec fn lowest(s: Seq<RoleRank>) -> RoleRank
    recommends
        s.len() > 0,
    decreases s.len(),
{
    if s.len() <= 1 {
        s[0]
    } else if rank_le(s.last(), lowest(s.drop_last())) {
        s.last()
    } else {
        lowest(s.drop_last())
    }
}

/// One of a role menu's buttons was pressed.
pub open spec fn menu_button_pressed(menu: Option<Menu>, button: Seq<char>) -> bool {
    menu is Some && (button == "roles-button-rules"@ || button == "roles-button-adult"@ || button == "roles-button-bait"@)
}

/// The pressed button of a menu has its role configured.
pub open spec fn button_configured(menu: Option<Menu>, button: Seq<char>) -> bool {
    menu matches Some(m) ==> (
        (button == "roles-button-rules"@ ==> m.rules is Some)
        && (button == "roles-button-adult"@ ==> m.adult is Some)
        && (button == "roles-button-bait"@ ==> m.bait is Some))
}

/// No selected value reads as role 0, which is no role ID.
pub open spec fn no_zero_request(values: Seq<String>) -> bool {
    forall|i: int| 0 <= i < values.len() ==> parse_u64_spec(#[trigger] values[i]@) != Some(0int)
}

/// Why the menu could not work out the roles.
#[derive(PartialEq, Eq, Structural, Clone, Copy, Debug)]
pub enum RoleMenuError {
    /// There are no roles recorded for the member.
    NoRoles,
}

fn contains_id(v: &Vec<u64>, id: u64) -> (b: bool)
    ensures
        b == v@.contains(id),
{
    let n = v.len();
    for i in 0..n
        invariant
            n == v@.len(),
            forall|k: int| 0 <= k < i ==> v@[k] != id,
    {
        if v[i] == id {
            assert(v@[i as int] == id);
            return true;
        }
    }
    false
}

fn contains_role(v: &Vec<RoleRank>, r: RoleRank) -> (b: bool)
    ensures
        b == v@.contains(r),
{
    let n = v.len();
    for i in 0..n
        invariant
            n == v@.len(),
            forall|k: int| 0 <= k < i ==> v@[k] != r,
    {
        if v[i] == r {
            assert(v@[i as int] == r);
            return true;
        }
    }
    false
}

fn lowest_role(v: &Vec<RoleRank>) -> (r: RoleRank)
    requires
        v@.len() > 0,
    ensures
        r == lowest(v@),
{
    let mut best = v[0];
    let n = v.len();
    assert(v@.take(1) =~= seq![v@[0]]);
    for i in 1..n
        invariant
            n == v@.len(),
            n > 0,
            best == lowest(v@.take(i as int)),
    {
        assert(v@.take(i + 1).drop_last() =~= v@.take(i as int));
        if role_le(v[i], best) {
            best = v[i];
        }
    }
    assert(v@.take(n as int) =~= v@);
    best
}

fn requested_role_ids(values: &Vec<String>) -> (r: Vec<u64>)
    ensures
        r@ == requested_ids(values@),
{
    let mut r: Vec<u64> = Vec::new();
    let n = values.len();
    for i in 0..n
        invariant
            n == values@.len(),
            r@ == requested_ids(values@.take(i as int)),
    {
        assert(values@.take(i + 1).drop_last() =~= values@.take(i as int));
        match parse_u64(values[i].as_str()) {
            Some(v) => r.push(v),
            None => {},
        }
    }
    assert(values@.take(n as int) =~= values@);
    r
}

fn matching_role_ids(member: &Vec<RoleRank>, id: u64) -> (r: Vec<u64>)
    ensures
        r@ == matching_ids(member@, id),
{
    let mut r: Vec<u64> = Vec::new();
    let n = member.len();
    for i in 0..n
        invariant
            n == member@.len(),
            r@ == matching_ids(member@.take(i as int), id),
    {
        assert(member@.take(i + 1).drop_last() =~= member@.take(i as int));
        if member[i].id == id {
            r.push(id);
        }
    }
    assert(member@.take(n as int) =~= member@);
    r
}

/// The menu's work on a press: the guild's roles in hierarchy order are
/// sorted into the member's current roles, those to add and to remove,
/// blacklisted requests and requests above the member (whose highest role
/// is the first of theirs in hierarchy order); then a button of a role
/// menu replaces what is added and removed.
pub fn role_menu_update(
    guild_roles: &Vec<RoleRank>,
    member_roles: &Vec<RoleRank>,
    blacklist: &Vec<u64>,
    values: &Vec<String>,
    menu: Option<&Menu>,
    button: &str,
) -> (r: Result<RoleOutcome, RoleMenuError>)
    requires
        button_configured(match menu { Some(m) => Some(*m), None => None }, button@),
        no_zero_request(values@),
    ensures
        member_roles@.len() == 0 ==> r == Err::<RoleOutcome, RoleMenuError>(RoleMenuError::NoRoles),
        member_roles@.len() > 0 ==> (r matches Ok(o) && o@ == apply_button(
            classify(sort_spec(guild_roles@), member_roles@, blacklist@, requested_ids(values@), lowest(member_roles@)),
            member_roles@,
            match menu { Some(m) => Some(*m), None => None },
            button@,
        )),
        member_roles@.len() > 0 && !menu_button_pressed(match menu { Some(m) => Some(*m), None => None }, button@) ==> (r matches Ok(o)
            && forall|i: int| 0 <= i < o.remove@.len() ==> {
                &&& !blacklist@.contains(#[trigger] o.remove@[i])
                &&& exists|j: int| 0 <= j < guild_roles@.len() && guild_roles@[j].id == o.remove@[i]
                    && member_roles@.contains(guild_roles@[j]) && guild_roles@[j] != lowest(member_roles@)
            } && forall|i: int| 0 <= i < o.add@.len() ==> {
                &&& !blacklist@.contains(#[trigger] o.add@[i])
                &&& exists|j: int| 0 <= j < guild_roles@.len() && guild_roles@[j].id == o.add@[i]
                    && rank_le(lowest(member_roles@), guild_roles@[j])
            }),
{
    if member_roles.len() == 0 {
        return Err(RoleMenuError::NoRoles);
    }
    let highest = lowest_role(member_roles);
    let requested = requested_role_ids(values);
    let roles = sort_roles(guild_roles);
    let mut o = RoleOutcome { current: Vec::new(), add: Vec::new(), remove: Vec::new(), blacklisted: Vec::new(), too_high: Vec::new() };
    assert(o@ =~= no_lists());
    let n = roles.len();
    for i in 0..n
        invariant
            n == roles@.len(),
            o@ == classify(roles@.take(i as int), member_roles@, blacklist@, requested@, highest),
    {
        let role = roles[i];
        assert(roles@.take(i + 1).drop_last() =~= roles@.take(i as int));
        let member_has = contains_role(member_roles, role);
        let blacklisted = contains_id(blacklist, role.id);
        let wanted = contains_id(&requested, role.id);
        if member_has {
            o.current.push(role.id);
            if !blacklisted && highest != role {
                o.remove.push(role.id);
            }
        }
        if wanted {
            if blacklisted {
                o.blacklisted.push(role.id);
            } else if !role_le(highest, role) {
                o.too_high.push(role.id);
            } else if !member_has {
                o.add.push(role.id);
            }
        }
        assert(o@ =~= classify(roles@.take(i + 1), member_roles@, blacklist@, requested@, highest));
    }
    assert(roles@.take(n as int) =~= roles@);
    if let Some(m) = menu {
        if str_eq(button, "roles-button-rules") {
            o.remove = match m.adult { Some(a) => matching_role_ids(member_roles, a), None => Vec::new() };
            o.add.push(m.rules.unwrap());
        } else if str_eq(button, "roles-button-adult") {
            o.remove = match m.rules { Some(r) => matching_role_ids(member_roles, r), None => Vec::new() };
            o.add.push(m.adult.unwrap());
        } else if str_eq(button, "roles-button-bait") {
            o.remove = Vec::new();
            o.add.push(m.bait.unwrap());
        }
    }
    let ghost want = apply_button(
        classify(sort_spec(guild_roles@), member_roles@, blacklist@, requested_ids(values@), lowest(member_roles@)),
        member_roles@,
        match menu { Some(m) => Some(*m), None => None },
        button@,
    );
    assert(o@.remove =~= want.remove);
    proof {
        let mo = match menu { Some(m) => Some(*m), None => None };
        if !menu_button_pressed(mo, button@) {
            law_menu_keeps_blacklisted_roles(guild_roles@, member_roles@, blacklist@, values@, mo, button@);
        }
    }
    Ok(o)
}

/// A role mention line, `- <@&id>`.
pub open spec fn role_line(id: u64) -> Seq<char> {
    "- <@&"@ + dec_nat(id as nat) + ">\n"@
}

/// The lines of a list of roles.
pub open spec fn role_lines(roles: Seq<u64>) -> Seq<char>
    decreases roles.len(),
{
    if roles.len() == 0 {
        seq![]
    } else {
        role_lines(roles.drop_last()) + role_line(roles.last())
    }
}

/// Appends a list of roles to an embed with the given name; an empty list
/// adds no field.
pub fn add_role_field(embed: &mut EmbedData, roles: &[u64], name: &str)
    ensures
        roles@.len() == 0 ==> final(embed)@ == old(embed)@,
        roles@.len() > 0 ==> final(embed)@ == (EmbedView {
            fields: old(embed)@.fields.push(EmbedFieldView { name: name@, value: role_lines(roles@), inline: true }),
            ..old(embed)@
        }),
{
    let n = roles.len();
    if n == 0 {
        return;
    }
    let mut description = String::new();
    for i in 0..n
        invariant
            n == roles@.len(),
            description@ == role_lines(roles@.take(i as int)),
    {
        push_str(&mut description, "- <@&");
        push_dec_u64(&mut description, roles[i]);
        push_str(&mut description, ">\n");
        assert(roles@.take(i + 1).drop_last() =~= roles@.take(i as int));
        assert(description@ =~= role_lines(roles@.take(i + 1)));
    }
    assert(roles@.take(n as int) =~= roles@);
    embed.add_field(name, description.as_str(), true);
}

/// The select menu only takes away a role the member holds, never one on
/// the blacklist, and never the member's highest role.
pub proof fn law_blacklisted_roles_stay(
    roles: Seq<RoleRank>,
    member: Seq<RoleRank>,
    blacklist: Seq<u64>,
    requested: Seq<u64>,
    highest: RoleRank,
)
    ensures
        forall|i: int| 0 <= i < classify(roles, member, blacklist, requested, highest).remove.len() ==> ({
            let id = #[trigger] classify(roles, member, blacklist, requested, highest).remove[i];
            &&& !blacklist.contains(id)
            &&& exists|j: int| 0 <= j < roles.len() && roles[j].id == id && member.contains(roles[j]) && roles[j] != highest
        }),
    decreases roles.len(),
{
    if roles.len() > 0 {
        let init = roles.drop_last();
        law_blacklisted_roles_stay(init, member, blacklist, requested, highest);
        let prev = classify(init, member, blacklist, requested, highest);
        let cur = classify(roles, member, blacklist, requested, highest);
        assert forall|i: int| 0 <= i < cur.remove.len() implies ({
            let id = #[trigger] cur.remove[i];
            &&& !blacklist.contains(id)
            &&& exists|j: int| 0 <= j < roles.len() && roles[j].id == id && member.contains(roles[j]) && roles[j] != highest
        }) by {
            if i < prev.remove.len() {
                assert(cur.remove[i] == prev.remove[i]);
                let id = prev.remove[i];
                let j = choose|j: int| 0 <= j < init.len() && init[j].id == id && member.contains(init[j]) && init[j] != highest;
                assert(roles[j] == init[j]);
            } else {
                assert(roles[roles.len() - 1] == roles.last());
            }
        }
    }
}

/// The whole select-menu outcome: without a menu button pressed, the roles
/// removed are roles of the guild that the member holds, none of them on
/// the blacklist and none the member's highest; the roles added are roles
/// of the guild off the blacklist and not above the member's highest.
pub proof fn law_menu_keeps_blacklisted_roles(
    guild_roles: Seq<RoleRank>,
    member: Seq<RoleRank>,
    blacklist: Seq<u64>,
    values: Seq<String>,
    menu: Option<Menu>,
    button: Seq<char>,
)
    requires
        !menu_button_pressed(menu, button),
    ensures
        ({
            let o = apply_button(classify(sort_spec(guild_roles), member, blacklist, requested_ids(values), lowest(member)), member, menu, button);
            &&& forall|i: int| 0 <= i < o.remove.len() ==> {
                &&& !blacklist.contains(#[trigger] o.remove[i])
                &&& exists|j: int| 0 <= j < guild_roles.len() && guild_roles[j].id == o.remove[i] && member.contains(guild_roles[j])
                    && guild_roles[j] != lowest(member)
            }
            &&& forall|i: int| 0 <= i < o.add.len() ==> {
                &&& !blacklist.contains(#[trigger] o.add[i])
                &&& exists|j: int| 0 <= j < guild_roles.len() && guild_roles[j].id == o.add[i] && rank_le(lowest(member), guild_roles[j])
            }
        }),
{
    broadcast use vstd::seq_lib::group_to_multiset_ensures;
    let sorted = sort_spec(guild_roles);
    let lists = classify(sorted, member, blacklist, requested_ids(values), lowest(member));
    law_blacklisted_roles_stay(sorted, member, blacklist, requested_ids(values), lowest(member));
    law_sort_orders_roles(guild_roles);
    assert(apply_button(lists, member, menu, button) == lists);
    assert forall|i: int| 0 <= i < lists.remove.len() implies {
        &&& !blacklist.contains(#[trigger] lists.remove[i])
        &&& exists|j: int| 0 <= j < guild_roles.len() && guild_roles[j].id == lists.remove[i] && member.contains(guild_roles[j])
            && guild_roles[j] != lowest(member)
    } by {
        let id = lists.remove[i];
        let k = choose|k: int| 0 <= k < sorted.len() && sorted[k].id == id && member.contains(sorted[k]) && sorted[k] != lowest(member);
        assert(sorted.contains(sorted[k]));
        assert(sorted.to_multiset().count(sorted[k]) > 0);
        assert(guild_roles.contains(sorted[k]));
        let j = choose|j: int| 0 <= j < guild_roles.len() && guild_roles[j] == sorted[k];
    }
    law_no_escalation(sorted, member, blacklist, requested_ids(values), lowest(member));
    assert forall|i: int| 0 <= i < lists.add.len() implies {
        &&& !blacklist.contains(#[trigger] lists.add[i])
        &&& exists|j: int| 0 <= j < guild_roles.len() && guild_roles[j].id == lists.add[i] && rank_le(lowest(member), guild_roles[j])
    } by {
        let id = lists.add[i];
        let k = choose|k: int| 0 <= k < sorted.len() && sorted[k].id == id && rank_le(lowest(member), sorted[k]);
        assert(sorted.contains(sorted[k]));
        assert(sorted.to_multiset().count(sorted[k]) > 0);
        assert(guild_roles.contains(sorted[k]));
        let j = choose|j: int| 0 <= j < guild_roles.len() && guild_roles[j] == sorted[k];
    }
}

/// Without a button of the menu, a role above the member is never added,
/// nor a blacklisted one.
pub proof fn law_no_escalation(
    roles: Seq<RoleRank>,
    member: Seq<RoleRank>,
    blacklist: Seq<u64>,
    requested: Seq<u64>,
    highest: RoleRank,
)
    ensures
        forall|i: int| 0 <= i < classify(roles, member, blacklist, requested, highest).add.len() ==> ({
            let id = #[trigger] classify(roles, member, blacklist, requested, highest).add[i];
            &&& !blacklist.contains(id)
            &&& exists|j: int| 0 <= j < roles.len() && roles[j].id == id && rank_le(highest, roles[j])
        }),
    decreases roles.len(),
{
    if roles.len() > 0 {
        let init = roles.drop_last();
        law_no_escalation(init, member, blacklist, requested, highest);
        let prev = classify(init, member, blacklist, requested, highest);
        let cur = classify(roles, member, blacklist, requested, highest);
        assert forall|i: int| 0 <= i < cur.add.len() implies ({
            let id = #[trigger] cur.add[i];
            &&& !blacklist.contains(id)
            &&& exists|j: int| 0 <= j < roles.len() && roles[j].id == id && rank_le(highest, roles[j])
        }) by {
            if i < prev.add.len() {
                assert(cur.add[i] == prev.add[i]);
                let id = prev.add[i];
                let j = choose|j: int| 0 <= j < init.len() && init[j].id == id && rank_le(highest, init[j]);
                assert(roles[j] == init[j]);
            } else {
                assert(roles[roles.len() - 1] == roles.last());
            }
        }
    }
}

} // verus!

verus! {

/// Appends the field of a role list when it is not empty.
pub open spec fn with_role_field(e: EmbedView, roles: Seq<u64>, name: Seq<char>) -> EmbedView {
    if roles.len() == 0 {
        e
    } else {
        EmbedView { fields: e.fields.push(EmbedFieldView { name, value: role_lines(roles), inline: true }), ..e }
    }
}

/// The embed that tells the member what changed: the lists as fields under
/// the member's name.
pub open spec fn role_menu_embed_spec(base: EmbedView, o: RoleLists, author_name: Seq<char>, author_avatar: Seq<char>) -> EmbedView {
    let e = with_role_field(
        with_role_field(
            with_role_field(
                with_role_field(with_role_field(base, o.current, "Your current roles"@), o.add, "Roles I have added"@),
                o.remove,
                "Roles I have removed"@,
            ),
            o.blacklisted,
            "Blacklisted roles"@,
        ),
        o.too_high,
        "Roles above you"@,
    );
    EmbedView { author_name: Some(author_name + " - Roles Updated"@), author_icon_url: Some(author_avatar), ..e }
}

/// The embed that tells the member what changed.
pub fn role_menu_embed(embed: &mut EmbedData, o: &RoleOutcome, author_name: &str, author_avatar: &str)
    ensures
        final(embed)@ == role_menu_embed_spec(old(embed)@, o@, author_name@, author_avatar@),
{
    add_role_field(embed, o.current.as_slice(), "Your current roles");
    add_role_field(embed, o.add.as_slice(), "Roles I have added");
    add_role_field(embed, o.remove.as_slice(), "Roles I have removed");
    add_role_field(embed, o.blacklisted.as_slice(), "Blacklisted roles");
    add_role_field(embed, o.too_high.as_slice(), "Roles above you");
    let mut name = string_of(author_name);
    push_str(&mut name, " - Roles Updated");
    embed.author_name = Some(name);
    embed.author_icon_url = Some(string_of(author_avatar));
}

/// The alert sent to the moderators' log when a member asked for roles
/// above them.
pub open spec fn escalation_alert_spec(base: EmbedView, too_high: Seq<u64>, author_id: u64, author_name: Seq<char>, author_avatar: Seq<char>, danger: u32) -> EmbedView {
    EmbedView {
        colour: Some(danger),
        title: Some("Privilege Escalation Attempt"@),
        description: Some("The user <@"@ + dec_nat(author_id as nat) + "> just attempted to give themselves higher roles than they should have"@),
        author_name: Some(author_name),
        author_icon_url: Some(author_avatar),
        ..with_role_field(base, too_high, "Selected Roles - Too High"@)
    }
}

/// The alert of a privilege escalation attempt.
pub fn escalation_alert(embed: &mut EmbedData, too_high: &[u64], author_id: u64, author_name: &str, author_avatar: &str, danger: u32)
    ensures
        final(embed)@ == escalation_alert_spec(old(embed)@, too_high@, author_id, author_name@, author_avatar@, danger),
{
    add_role_field(embed, too_high, "Selected Roles - Too High");
    embed.colour = Some(danger);
    embed.title = Some(string_of("Privilege Escalation Attempt"));
    let mut d = string_of("The user <@");
    push_dec_u64(&mut d, author_id);
    push_str(&mut d, "> just attempted to give themselves higher roles than they should have");
    embed.description = Some(d);
    embed.author_name = Some(string_of(author_name));
    embed.author_icon_url = Some(string_of(author_avatar));
}

} // verus!

verus! {

/// `/roles blacklist remove`: remove a role from the blacklist.
#[derive(Debug)]
pub struct Remove {
    /// The role to remove
    pub role: u64,
}

/// Only the bot's staff may change the blacklist.
#[derive(PartialEq, Eq, Structural, Clone, Copy, Debug)]
pub enum BlacklistError {
    PermissionNotBotStaff,
}

/// The list without `role`, in order.
pub open spec fn without_role(s: Seq<u64>, role: u64) -> Seq<u64>
    decreases s.len(),
{
    if s.len() == 0 {
        seq![]
    } else if s.last() == role {
        without_role(s.drop_last(), role)
    } else {
        without_role(s.drop_last(), role).push(s.last())
    }
}

impl Remove {
    /// For a member of the bot's staff, takes the role off the guild's
    /// blacklist and confirms (with the words of the add command), to the
    /// author alone; anyone else is refused and the blacklist stays.
    pub fn interaction_command(&self, author_id: u64, staff: &Vec<u64>, blacklist: &mut Vec<u64>) -> (r: Result<crate::response::Reply, BlacklistError>)
        ensures
            !staff@.contains(author_id) ==> r == Err::<crate::response::Reply, BlacklistError>(BlacklistError::PermissionNotBotStaff)
                && final(blacklist)@ == old(blacklist)@,
            staff@.contains(author_id) ==> final(blacklist)@ == without_role(old(blacklist)@, self.role),
            staff@.contains(author_id) ==> (r matches Ok(reply) && reply@ == (crate::response::ReplyView {
                content: Some("Added role <@&"@ + dec_nat(self.role as nat) + "> to the guild blacklist!"@),
                ephemeral: true,
                ..crate::response::empty_reply()
            })),
    {
        let mut owner_match = false;
        let n = staff.len();
        for i in 0..n
            invariant
                n == staff@.len(),
                owner_match <==> exists|k: int| 0 <= k < i && staff@[k] == author_id,
        {
            if staff[i] == author_id {
                owner_match = true;
            }
        }
        if !owner_match {
            return Err(BlacklistError::PermissionNotBotStaff);
        }
        let mut old_list: Vec<u64> = Vec::new();
        std::mem::swap(&mut old_list, blacklist);
        let m = old_list.len();
        for i in 0..m
            invariant
                m == old_list@.len(),
                old_list@ == old(blacklist)@,
                blacklist@ == without_role(old_list@.take(i as int), self.role),
        {
            assert(old_list@.take(i + 1).drop_last() =~= old_list@.take(i as int));
            if old_list[i] != self.role {
                blacklist.push(old_list[i]);
            }
        }
        assert(old_list@.take(m as int) =~= old_list@);
        let mut s = string_of("Added role <@&");
        push_dec_u64(&mut s, self.role);
        push_str(&mut s, "> to the guild blacklist!");
        Ok(crate::response::Reply { content: Some(s), ephemeral: true, ..crate::response::Reply::new() })
    }
}

} // verus!

verus! {

/// Once removed, the role is nowhere on the blacklist, and every other role
/// on it stays.
pub proof fn law_removed_role_is_gone(s: Seq<u64>, role: u64, other: u64)
    requires
        other != role,
    ensures
        !without_role(s, role).contains(role),
        without_role(s, role).contains(other) == s.contains(other),
    decreases s.len(),
{
    if s.len() > 0 {
        let d = s.drop_last();
        law_removed_role_is_gone(d, role, other);
        let w = without_role(d, role);
        if s.last() != role {
            assert(without_role(s, role) == w.push(s.last()));
            assert forall|x: u64| w.push(s.last()).contains(x) == (w.contains(x) || x == s.last()) by {
                if w.push(s.last()).contains(x) {
                    let i = choose|i: int| 0 <= i < w.push(s.last()).len() && w.push(s.last())[i] == x;
                    if i < w.len() {
                        assert(w[i] == x);
                    }
                }
                if w.contains(x) {
                    let i = choose|i: int| 0 <= i < w.len() && w[i] == x;
                    assert(w.push(s.last())[i] == x);
                }
                if x == s.last() {
                    assert(w.push(s.last())[w.len() as int] == x);
                }
            }
        }
        assert forall|x: u64| s.contains(x) == (d.contains(x) || x == s.last()) by {
            if s.contains(x) {
                let i = choose|i: int| 0 <= i < s.len() && s[i] == x;
                if i < d.len() {
                    assert(d[i] == x);
                }
            }
            if d.contains(x) {
                let i = choose|i: int| 0 <= i < d.len() && d[i] == x;
                assert(s[i] == x);
            }
            if x == s.last() {
                assert(s[s.len() - 1] == x);
            }
        }
    }
}

} // verus!

//! The roles the bot works with: the ones it wants to find in the
//! community, and the ones that let a member schedule races.

use vstd::prelude::*;
use crate::text::str_eq;

verus! {

/// A role as the community has it.
#[derive(Debug, Clone, PartialEq, Eq)]
pub struct GuildRole {
    pub id: u64,
    pub name: String,
    /// The permission bits of the role.
    pub permissions: u64,
    /// The colour, as an RGB value.
    pub color: u32,
    /// Whether members with the role are listed apart.
    pub hoist: bool,
    pub mentionable: bool,
}

/// A role the bot wants to exist. What is left open is not compared when an
/// existing role is held against it, and is left to the platform when the
/// role is created.
#[derive(Debug, Clone, PartialEq, Eq)]
pub struct DesiredRole {
    pub name: String,
    pub permissions: Option<u64>,
    pub color: u32,
    pub hoist: Option<bool>,
    pub mentionable: Option<bool>,
}

/// The role given to those who showed interest in a race and have not
/// confirmed yet.
pub open spec fn unconfirmed_name() -> Seq<char> {
    "unconfirmed-racer"@
}

/// The role given to those who confirmed.
pub open spec fn confirmed_name() -> Seq<char> {
    "active-racer"@
}

impl DesiredRole {
    /// An existing role is the desired one: the names and colours agree, and
    /// so does everything else that the desired role settles.
    pub open spec fn fits(&self, other: &GuildRole) -> bool {
        &&& self.name@ == other.name@
        &&& self.permissions matches Some(p) ==> p == other.permissions
        &&& self.color == other.color
        &&& self.hoist matches Some(h) ==> h == other.hoist
        &&& self.mentionable matches Some(m) ==> m == other.mentionable
    }

    pub fn matches(&self, other: &GuildRole) -> (same: bool)
        ensures
            same == self.fits(other),
    {
        if !str_eq(self.name.as_str(), other.name.as_str()) {
            return false;
        }
        if let Some(perms) = self.permissions {
            if perms != other.permissions {
                return false;
            }
        }
        if self.color != other.color {
            return false;
        }
        if let Some(h) = self.hoist {
            if h != other.hoist {
                return false;
            }
        }
        if let Some(m) = self.mentionable {
            if m != other.mentionable {
                return false;
            }
        }
        true
    }

    /// A mentionable role of the given name and colour, with the rest left
    /// open.
    pub fn mentionable(name: &str, color: u32) -> (role: DesiredRole)
        ensures
            role.name@ == name@,
            role.permissions is None,
            role.color == color,
            role.hoist is None,
            role.mentionable == Some(true),
    {
        DesiredRole {
            name: name.to_owned(),
            permissions: None,
            color,
            hoist: None,
            mentionable: Some(true),
        }
    }
}

/// The two roles the bot wants: the one for confirmed racers, then the one
/// for those still unconfirmed.
pub fn desired_roles() -> (roles: Vec<DesiredRole>)
    ensures
        roles@.len() == 2,
        roles@[0].name@ == confirmed_name(),
        roles@[0].color == 0xE74C3C,
        roles@[1].name@ == unconfirmed_name(),
        roles@[1].color == 0xf7c9c4,
        forall|i: int|
            0 <= i < 2 ==> {
                &&& (#[trigger] roles@[i]).permissions is None
                &&& roles@[i].hoist is None
                &&& roles@[i].mentionable == Some(true)
            },
{
    let mut roles: Vec<DesiredRole> = Vec::new();
    roles.push(DesiredRole::mentionable("active-racer", 0xE74C3C));
    roles.push(DesiredRole::mentionable("unconfirmed-racer", 0xf7c9c4));
    roles
}

/// `i` is the place of the first role that is the desired one.
pub open spec fn first_fit(desired: &DesiredRole, existing: Seq<GuildRole>, i: int) -> bool {
    &&& 0 <= i < existing.len()
    &&& desired.fits(&existing[i])
    &&& forall|j: int| 0 <= j < i ==> !desired.fits(#[trigger] &existing[j])
}

/// No role is the desired one.
pub open spec fn no_fit(desired: &DesiredRole, existing: Seq<GuildRole>) -> bool {
    forall|j: int| 0 <= j < existing.len() ==> !desired.fits(#[trigger] &existing[j])
}

/// What is to become of one desired role, given the roles there are: the
/// place of an existing role to adopt, or none, in which case the role is to
/// be created.
pub open spec fn settled(desired: &DesiredRole, existing: Seq<GuildRole>, found: Option<
    usize,
>) -> bool {
    match found {
        Some(i) => first_fit(desired, existing, i as int),
        None => no_fit(desired, existing),
    }
}

/// Looks for the desired role among the existing ones. The first role that
/// is the desired one is adopted. A role that only has the name is passed
/// over.
pub fn find_role(desired: &DesiredRole, existing: &Vec<GuildRole>) -> (found: Option<usize>)
    ensures
        settled(desired, existing@, found),
{
    let mut i: usize = 0;
    while i < existing.len()
        invariant
            i <= existing.len(),
            forall|j: int| 0 <= j < i ==> !desired.fits(#[trigger] &existing@[j]),
        decreases existing.len() - i,
    {
        if desired.matches(&existing[i]) {
            return Some(i);
        }
        i += 1;
    }
    None
}

/// Settles every desired role: for each, in order, the place of the role to
/// adopt, or none where the role has to be created.
pub fn plan_roles(desired: &Vec<DesiredRole>, existing: &Vec<GuildRole>) -> (plan: Vec<
    Option<usize>,
>)
    ensures
        plan@.len() == desired@.len(),
        forall|k: int|
            0 <= k < desired@.len() ==> settled(&desired@[k], existing@, #[trigger] plan@[k]),
{
    let mut plan: Vec<Option<usize>> = Vec::new();
    let mut k: usize = 0;
    while k < desired.len()
        invariant
            k <= desired.len(),
            plan@.len() == k,
            forall|n: int| 0 <= n < k ==> settled(&desired@[n], existing@, #[trigger] plan@[n]),
        decreases desired.len() - k,
    {
        let found = find_role(&desired[k], existing);
        plan.push(found);
        k += 1;
    }
    plan
}

/// A role whose holders may schedule races.
pub open spec fn is_staff_name(name: Seq<char>) -> bool {
    name == "Moderator"@ || name == "Admin"@
}

/// A member may schedule races who holds a role of the community that is
/// named `Moderator` or `Admin`.
pub open spec fn permitted(member_roles: Seq<u64>, guild_roles: Seq<GuildRole>) -> bool {
    exists|i: int|
        0 <= i < guild_roles.len() && is_staff_name((#[trigger] guild_roles[i]).name@)
            && member_roles.contains(guild_roles[i].id)
}

fn holds(member_roles: &Vec<u64>, id: u64) -> (held: bool)
    ensures
        held == member_roles@.contains(id),
{
    let mut i: usize = 0;
    while i < member_roles.len()
        invariant
            i <= member_roles.len(),
            forall|j: int| 0 <= j < i ==> member_roles@[j] != id,
        decreases member_roles.len() - i,
    {
        if member_roles[i] == id {
            return true;
        }
        i += 1;
    }
    false
}

/// Whether a member with the given roles may schedule races.
pub fn is_permitted(member_roles: &Vec<u64>, guild_roles: &Vec<GuildRole>) -> (allowed: bool)
    ensures
        allowed == permitted(member_roles@, guild_roles@),
{
    let mut i: usize = 0;
    while i < guild_roles.len()
        invariant
            i <= guild_roles.len(),
            forall|j: int|
                0 <= j < i ==> !(is_staff_name((#[trigger] guild_roles@[j]).name@)
                    && member_roles@.contains(guild_roles@[j].id)),
        decreases guild_roles.len() - i,
    {
        let role = &guild_roles[i];
        let staff = str_eq(role.name.as_str(), "Moderator") || str_eq(role.name.as_str(), "Admin");
        if staff && holds(member_roles, role.id) {
            return true;
        }
        i += 1;
    }
    false
}

/// Whether a channel of the given name is among the channels there are.
pub fn has_channel(names: &Vec<String>, wanted: &str) -> (found: bool)
    ensures
        found == exists|i: int| 0 <= i < names@.len() && (#[trigger] names@[i])@ == wanted@,
{
    let mut i: usize = 0;
    while i < names.len()
        invariant
            i <= names.len(),
            forall|j: int| 0 <= j < i ==> (#[trigger] names@[j])@ != wanted@,
        decreases names.len() - i,
    {
        if str_eq(names[i].as_str(), wanted) {
            return true;
        }
        i += 1;
    }
    false
}

} // verus!

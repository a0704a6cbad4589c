//! The roles a creep can have, and the names its memory records them by.
use vstd::prelude::*;

verus! {

/// A creep's role.
#[derive(Clone, Copy, Debug, PartialEq, Eq, Structural)]
pub enum Role {
    Harvester,
    Filler,
    Reserver,
    Upgrader,
    Settler,
}

/// The name a creep's memory records a role by, under `type`.
pub open spec fn role_name(role: Role) -> Seq<char> {
    match role {
        Role::Harvester => "harvester"@,
        Role::Filler => "filler"@,
        Role::Reserver => "reserver"@,
        Role::Upgrader => "upgrader"@,
        Role::Settler => "settler"@,
    }
}

/// Different roles have different names.
pub proof fn lemma_role_names_distinct(a: Role, b: Role)
    ensures
        a != b ==> role_name(a) != role_name(b),
{
    reveal_strlit("harvester");
    reveal_strlit("filler");
    reveal_strlit("reserver");
    reveal_strlit("upgrader");
    reveal_strlit("settler");
    if a != b {
        if role_name(a).len() == role_name(b).len() {
            assert(role_name(a)[0] != role_name(b)[0]);
        }
    }
}

/// The name of a role, as a text.
pub fn role_text(role: Role) -> (text: String)
    ensures
        text@ == role_name(role),
{
    match role {
        Role::Harvester => "harvester".to_string(),
        Role::Filler => "filler".to_string(),
        Role::Reserver => "reserver".to_string(),
        Role::Upgrader => "upgrader".to_string(),
        Role::Settler => "settler".to_string(),
    }
}

/// The role a name stands for, if any.
pub fn role_from_name(text: &String) -> (role: Option<Role>)
    ensures
        role matches Some(r) ==> text@ == role_name(r),
        role is None ==> forall|r: Role| text@ != #[trigger] role_name(r),
{
    if *text == role_text(Role::Harvester) {
        Some(Role::Harvester)
    } else if *text == role_text(Role::Filler) {
        Some(Role::Filler)
    } else if *text == role_text(Role::Reserver) {
        Some(Role::Reserver)
    } else if *text == role_text(Role::Upgrader) {
        Some(Role::Upgrader)
    } else if *text == role_text(Role::Settler) {
        Some(Role::Settler)
    } else {
        None
    }
}

/// The role a creep is run as each tick, from the `type` in its memory:
/// harvesters, fillers, reservers and upgraders are run; settlers and
/// creeps of any other type are not.
pub fn creep_role_to_run(creep_type: &Option<String>) -> (role: Option<Role>)
    ensures
        role matches Some(r) ==> r != Role::Settler && (creep_type matches Some(t) && t@ == role_name(r)),
        role is None ==> match creep_type {
            Some(t) => forall|r: Role| r != Role::Settler ==> t@ != #[trigger] role_name(r),
            None => true,
        },
{
    match creep_type {
        Some(t) => match role_from_name(t) {
            Some(Role::Settler) => {
                proof {
                    assert forall|r: Role| r != Role::Settler implies t@ != #[trigger] role_name(r) by {
                        lemma_role_names_distinct(r, Role::Settler);
                    }
                }
                None
            },
            other => other,
        },
        None => None,
    }
}

} // verus!

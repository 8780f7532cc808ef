use vstd::prelude::*;
use crate::model::User;

verus! {

/// `i` is the position of the first user named `name`.
pub open spec fn is_first_named(users: Seq<User>, name: Seq<char>, i: int) -> bool {
    &&& 0 <= i < users.len()
    &&& users[i].name@ == name
    &&& forall|j: int| 0 <= j < i ==> (#[trigger] users[j]).name@ != name
}

/// No user is named `name`.
pub open spec fn none_named(users: Seq<User>, name: Seq<char>) -> bool {
    forall|j: int| 0 <= j < users.len() ==> (#[trigger] users[j]).name@ != name
}

/// Why no users could be chosen for export.
#[derive(Debug, PartialEq, Eq, Structural)]
pub enum SelectError {
    /// No user has the name to resume at.
    UnknownUser,
}

/// The position of the first user whose name equals `name` exactly.
pub fn find_user(users: &Vec<User>, name: &String) -> (r: Option<usize>)
    ensures
        r matches Some(i) ==> is_first_named(users@, name@, i as int),
        r is None ==> none_named(users@, name@),
{
    let mut i: usize = 0;
    while i < users.len()
        invariant
            i <= users@.len(),
            forall|j: int| 0 <= j < i ==> (#[trigger] users@[j]).name@ != name@,
        decreases users@.len() - i,
    {
        if users[i].name == *name {
            return Some(i);
        }
        i = i + 1;
    }
    None
}

/// The users to export, in the order given: all of them, or, when resuming,
/// those from the first user named `resume_at` to the end. Resuming at a name
/// that no user has is an error, and then nothing is to be exported.
pub fn select_users(users: Vec<User>, resume_at: &Option<String>) -> (r: Result<
    Vec<User>,
    SelectError,
>)
    ensures
        resume_at is None ==> (r matches Ok(v) && v@ == users@),
        resume_at matches Some(name) ==> (r is Err <==> none_named(users@, name@)),
        resume_at matches Some(name) ==> (r matches Ok(v) ==> exists|i: int|
            is_first_named(users@, name@, i) && v@ == users@.subrange(i, users@.len() as int)),
        r matches Err(e) ==> e == SelectError::UnknownUser,
{
    match resume_at {
        None => Ok(users),
        Some(name) => {
            match find_user(&users, name) {
                Some(i) => {
                    let mut users = users;
                    let chosen = users.split_off(i);
                    Ok(chosen)
                },
                None => Err(SelectError::UnknownUser),
            }
        },
    }
}

} // verus!

use vstd::prelude::*;

verus! {

/// The directory of one user's export: `{root}/{name}`.
pub open spec fn user_directory_of(root: Seq<char>, user_name: Seq<char>) -> Seq<char> {
    root + "/"@ + user_name
}

/// The message log inside a user's directory: `{dir}/messages.csv`.
pub open spec fn messages_path_of(dir: Seq<char>) -> Seq<char> {
    dir + "/messages.csv"@
}

/// Where an attachment is written: `{dir}/{timestamp} {name}`.
pub open spec fn attachment_path_of(dir: Seq<char>, date: Seq<char>, name: Seq<char>) -> Seq<char> {
    dir + "/"@ + date + " "@ + name
}

pub fn user_directory(root: &String, user_name: &String) -> (r: String)
    ensures
        r@ == user_directory_of(root@, user_name@),
{
    let mut r = root.clone();
    r.append("/");
    r.append(user_name.as_str());
    r
}

pub fn messages_path(dir: &String) -> (r: String)
    ensures
        r@ == messages_path_of(dir@),
{
    let mut r = dir.clone();
    r.append("/messages.csv");
    r
}

pub fn attachment_path(dir: &String, date: &String, name: &String) -> (r: String)
    ensures
        r@ == attachment_path_of(dir@, date@, name@),
{
    let mut r = dir.clone();
    r.append("/");
    r.append(date.as_str());
    r.append(" ");
    r.append(name.as_str());
    r
}

/// The same directory, timestamp and attachment name always give the same
/// path, so a later download of an equal attachment replaces the earlier file.
pub proof fn lemma_attachment_path_deterministic(
    dir1: Seq<char>,
    date1: Seq<char>,
    name1: Seq<char>,
    dir2: Seq<char>,
    date2: Seq<char>,
    name2: Seq<char>,
)
    requires
        dir1 == dir2,
        date1 == date2,
        name1 == name2,
    ensures
        attachment_path_of(dir1, date1, name1) == attachment_path_of(dir2, date2, name2),
{
}

} // verus!

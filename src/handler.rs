//! Decisions of the staging and commit engine: where an added file is copied
//! and staged, which commit is made, and who makes it.
use vstd::prelude::*;
use crate::error::YadmError;
use crate::paths::{
    join, join_path, lemma_relative_of_join, relative_to, strip_home_marker, strip_home_marker_of,
};

verus! {

/// Where `add` reads a file, where it copies it, and the path it stages.
#[derive(Debug, Clone, PartialEq, Eq)]
pub struct AddPlan {
    /// The file in the home directory.
    pub source: String,
    /// Its copy in the repository's working directory.
    pub destination: String,
    /// The path staged into the index, relative to the repository's root.
    pub index_path: String,
}

/// The commit that `commit` creates on top of HEAD.
#[derive(Debug, Clone, PartialEq, Eq)]
pub struct CommitPlan {
    /// The commit message.
    pub message: String,
    /// Whether the current HEAD commit is the parent; otherwise a root commit.
    pub has_parent: bool,
}

/// The author and committer of a commit.
#[derive(Debug, Clone, PartialEq, Eq)]
pub struct Identity {
    pub name: String,
    pub email: String,
}

/// A character with the Unicode property White_Space.
pub open spec fn is_white_space(c: char) -> bool {
    let u = c as u32;
    (9 <= u <= 13) || u == 0x20 || u == 0x85 || u == 0xa0 || u == 0x1680 || (0x2000 <= u
        <= 0x200a) || u == 0x2028 || u == 0x2029 || u == 0x202f || u == 0x205f || u == 0x3000
}

/// `s` without its leading whitespace.
pub open spec fn trim_start(s: Seq<char>) -> Seq<char>
    decreases s.len(),
{
    if s.len() > 0 && is_white_space(s[0]) {
        trim_start(s.skip(1))
    } else {
        s
    }
}

/// `s` without its trailing whitespace.
pub open spec fn trim_end(s: Seq<char>) -> Seq<char>
    decreases s.len(),
{
    if s.len() > 0 && is_white_space(s.last()) {
        trim_end(s.drop_last())
    } else {
        s
    }
}

/// `s` without its leading and trailing whitespace.
pub open spec fn trimmed(s: Seq<char>) -> Seq<char> {
    trim_end(trim_start(s))
}

/// Relies on str::trim: the string without the leading and trailing characters
/// that have the Unicode property White_Space.
#[verifier::external_body]
fn trim(s: &str) -> (r: String)
    ensures
        r@ == trimmed(s@),
{
    s.trim().to_string()
}

pub open spec fn add_plan_of(home: Seq<char>, workdir: Seq<char>, file_path: Seq<char>) -> (
    Seq<char>,
    Seq<char>,
    Seq<char>,
) {
    let rel = strip_home_marker(file_path);
    (join_path(home, rel), join_path(workdir, rel), rel)
}

pub open spec fn root_message() -> Seq<char> {
    seq!['I', 'n', 'i', 't', 'i', 'a', 'l', ' ', 'c', 'o', 'm', 'm', 'i', 't']
}

pub open spec fn commit_message_of(has_head: bool, message: Seq<char>) -> Seq<char> {
    if has_head {
        message
    } else {
        root_message()
    }
}

/// The paths of `add file_path`: the path is taken relative to the home
/// directory once its leading `~/` are removed, and the same relative path
/// names the copy in the working directory and the staged entry.
pub fn add_plan(home: &str, workdir: &str, file_path: &str) -> (r: AddPlan)
    ensures
        (r.source@, r.destination@, r.index_path@) == add_plan_of(home@, workdir@, file_path@),
{
    let rel = strip_home_marker_of(file_path);
    AddPlan {
        source: join(home, rel.as_str()),
        destination: join(workdir, rel.as_str()),
        index_path: rel,
    }
}

/// `add` of a file that is not in the home directory fails with `FileNotFound`.
pub fn check_source(exists: bool) -> (r: Result<(), YadmError>)
    ensures
        r == (if exists {
            Ok::<(), YadmError>(())
        } else {
            Err(YadmError::FileNotFound)
        }),
{
    if exists {
        Ok(())
    } else {
        Err(YadmError::FileNotFound)
    }
}

/// The commit made with `message`: on top of HEAD when there is one; the first
/// commit of a repository is a root commit with the message `Initial commit`,
/// whatever message was given.
pub fn commit_plan(has_head: bool, message: &str) -> (r: CommitPlan)
    ensures
        r.has_parent == has_head,
        r.message@ == commit_message_of(has_head, message@),
{
    if has_head {
        CommitPlan { message: String::from_str(message), has_parent: true }
    } else {
        let m = "Initial commit";
        proof {
            reveal_strlit("Initial commit");
        }
        assert(m@ =~= root_message());
        CommitPlan { message: String::from_str(m), has_parent: false }
    }
}

/// The user's name and email from the output of the configuration queries for
/// `user.name` and `user.email`, with surrounding whitespace removed.
pub fn get_git_user_info(name_output: &str, email_output: &str) -> (r: (String, String))
    ensures
        r.0@ == trimmed(name_output@),
        r.1@ == trimmed(email_output@),
        name_output@.len() == 0 ==> r.0@.len() == 0,
        email_output@.len() == 0 ==> r.1@.len() == 0,
{
    (trim(name_output), trim(email_output))
}

/// The identity made of `name` and `email`; an empty one of them is
/// `EmptyIdentity`.
pub fn identity(name: String, email: String) -> (r: Result<Identity, YadmError>)
    ensures
        name@.len() == 0 || email@.len() == 0 ==> r == Err::<Identity, YadmError>(
            YadmError::EmptyIdentity,
        ),
        name@.len() > 0 && email@.len() > 0 ==> (r matches Ok(id) && id.name@ == name@
            && id.email@ == email@),
{
    if name.unicode_len() == 0 || email.unicode_len() == 0 {
        Err(YadmError::EmptyIdentity)
    } else {
        Ok(Identity { name, email })
    }
}

/// The commit identity from the configuration queries' output.
pub fn user_identity(name_output: &str, email_output: &str) -> (r: Result<Identity, YadmError>)
    ensures
        trimmed(name_output@).len() == 0 || trimmed(email_output@).len() == 0 ==> r == Err::<
            Identity,
            YadmError,
        >(YadmError::EmptyIdentity),
        trimmed(name_output@).len() > 0 && trimmed(email_output@).len() > 0 ==> (r matches Ok(
            id,
        ) && id.name@ == trimmed(name_output@) && id.email@ == trimmed(email_output@)),
        name_output@.len() == 0 || email_output@.len() == 0 ==> r == Err::<Identity, YadmError>(
            YadmError::EmptyIdentity,
        ),
{
    let (name, email) = get_git_user_info(name_output, email_output);
    identity(name, email)
}

/// A file added from the home directory is staged under the very path at which
/// its copy lies in the working directory.
pub proof fn lemma_added_copy_is_staged_path(home: Seq<char>, workdir: Seq<char>, file_path: Seq<char>)
    requires
        workdir.len() > 0,
        !(strip_home_marker(file_path).len() > 0 && strip_home_marker(file_path)[0] == '/'),
    ensures
        relative_to(workdir, add_plan_of(home, workdir, file_path).1) == Some(
            add_plan_of(home, workdir, file_path).2,
        ),
        home.len() > 0 ==> relative_to(home, add_plan_of(home, workdir, file_path).0) == Some(
            add_plan_of(home, workdir, file_path).2,
        ),
{
    let rel = strip_home_marker(file_path);
    lemma_relative_of_join(workdir, rel);
    if home.len() > 0 {
        lemma_relative_of_join(home, rel);
    }
}

/// The first commit of a repository without HEAD is a root commit, and its
/// message does not depend on the message given.
pub proof fn lemma_first_commit_is_root(message: Seq<char>, other: Seq<char>)
    ensures
        commit_message_of(false, message) == commit_message_of(false, other),
        commit_message_of(false, message) == root_message(),
{
}

} // verus!

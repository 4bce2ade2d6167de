//! Access roles and their precedence.

use vstd::prelude::*;
use vstd::string::*;

verus! {

/// What a user may do with a document. `Owner` ranks above `Editor`, which
/// ranks above `Reader`.
#[derive(Clone, Copy, Debug, PartialEq, Eq, Structural)]
pub enum Role {
    Owner,
    Editor,
    Reader,
}

/// The label under which the owner role is stored.
pub open spec fn owner_label() -> Seq<char> {
    seq!['o', 'w', 'n', 'e', 'r']
}

/// The label under which the editor role is stored.
pub open spec fn editor_label() -> Seq<char> {
    seq!['e', 'd', 'i', 't', 'o', 'r']
}

/// The label under which the reader role is stored.
pub open spec fn reader_label() -> Seq<char> {
    seq!['r', 'e', 'a', 'd']
}

/// The role that a stored grant with the given label confers. A grant always
/// confers at least read access; only the two writing labels confer more.
pub open spec fn role_of_label(label: Seq<char>) -> Role {
    if label == owner_label() {
        Role::Owner
    } else if label == editor_label() {
        Role::Editor
    } else {
        Role::Reader
    }
}

/// Whether two string slices hold the same text.
pub fn same_text(a: &str, b: &str) -> (same: bool)
    ensures
        same == (a@ == b@),
{
    let left = a.to_owned();
    let right = b.to_owned();
    left == right
}

impl Role {
    /// Position in the precedence order; a higher rank wins.
    pub open spec fn rank(self) -> nat {
        match self {
            Role::Owner => 2,
            Role::Editor => 1,
            Role::Reader => 0,
        }
    }

    /// Whether the role permits changing a document.
    pub open spec fn may_write(self) -> bool {
        self == Role::Owner || self == Role::Editor
    }

    /// The label under which the role is stored.
    pub open spec fn label_text(self) -> Seq<char> {
        match self {
            Role::Owner => owner_label(),
            Role::Editor => editor_label(),
            Role::Reader => reader_label(),
        }
    }

    /// Whether the role permits changing a document: owners and editors may,
    /// readers may not.
    pub fn can_write(self) -> (allowed: bool)
        ensures
            allowed == self.may_write(),
    {
        match self {
            Role::Owner => true,
            Role::Editor => true,
            Role::Reader => false,
        }
    }

    /// Whether `self` takes precedence over `other`.
    pub fn outranks(self, other: Role) -> (higher: bool)
        ensures
            higher == (self.rank() > other.rank()),
    {
        match (self, other) {
            (Role::Owner, Role::Editor) => true,
            (Role::Owner, Role::Reader) => true,
            (Role::Editor, Role::Reader) => true,
            _ => false,
        }
    }

    /// The one of two roles that takes precedence.
    pub fn stronger(self, other: Role) -> (best: Role)
        ensures
            best == (if other.rank() > self.rank() { other } else { self }),
    {
        if other.outranks(self) {
            other
        } else {
            self
        }
    }

    /// Reads a role from the label of a stored grant.
    pub fn from_label(label: &str) -> (role: Role)
        ensures
            role == role_of_label(label@),
    {
        proof {
            reveal_strlit("owner");
            reveal_strlit("editor");
        }
        if same_text(label, "owner") {
            assert(label@ =~= owner_label());
            Role::Owner
        } else if same_text(label, "editor") {
            Role::Editor
        } else {
            assert("owner"@ =~= owner_label());
            assert("editor"@ =~= editor_label());
            Role::Reader
        }
    }

    /// The label under which the role is stored.
    pub fn label(self) -> (text: String)
        ensures
            text@ == self.label_text(),
    {
        proof {
            reveal_strlit("owner");
            reveal_strlit("editor");
            reveal_strlit("read");
        }
        match self {
            Role::Owner => String::from_str("owner"),
            Role::Editor => String::from_str("editor"),
            Role::Reader => String::from_str("read"),
        }
    }
}

/// Reading back the label of a role gives the role.
pub proof fn lemma_label_round_trip(role: Role)
    ensures
        role_of_label(role.label_text()) == role,
{
}

} // verus!

//! The requests that the service takes, and the rules that decide over them
//! before anything is stored.

use crate::document_id::DocumentId;
use crate::role::Role;
use crate::session::{Session, SessionView, Stage};
use vstd::prelude::*;
use vstd::string::*;

verus! {

/// A login: the credentials to look up.
#[derive(Debug)]
pub struct LoginRequest {
    pub email: String,
    pub password: String,
}

/// Asks for the documents, or the groups, of one user.
#[derive(Debug)]
pub struct GetDocumentRequest {
    pub email: String,
}

/// A user as the login answers it.
#[derive(Debug)]
pub struct UserRow {
    pub email: String,
    pub first_name: String,
    pub last_name: String,
}

/// A document as the durable store holds it.
#[derive(Debug)]
pub struct Document {
    pub id: Option<DocumentId>,
    pub title: String,
    pub content: String,
    pub format: String,
}

/// Asks for a new document, with the users and groups that may access it.
#[derive(Debug)]
pub struct DocumentCreateRequest {
    pub title: String,
    pub format: String,
    pub collaborators: Vec<String>,
    pub readers: Vec<String>,
    pub owner: String,
    pub groups: Vec<i32>,
}

/// Asks for a new group.
#[derive(Debug)]
pub struct GroupsRequest {
    pub owner: String,
    pub name: String,
    pub role: String,
    pub members: Vec<String>,
}

/// Asks for the groups of one user.
#[derive(Debug)]
pub struct GetGroupsRequest {
    pub email: String,
}

/// Asks for the role of a user on a document.
#[derive(Debug)]
pub struct GetUserRole {
    pub email: String,
    pub document_id: String,
}

/// The parameters with which a client connects to a document.
#[derive(Debug)]
pub struct WsParams {
    pub user_email: String,
    pub document_id: String,
}

/// Why a request is turned down before anything is stored.
#[derive(Clone, Copy, Debug, PartialEq, Eq, Structural)]
pub enum RequestError {
    /// A document needs a title.
    EmptyTitle,
    /// A document needs a format.
    EmptyFormat,
    /// A group needs a name.
    EmptyGroupName,
    /// A group needs at least one member.
    NoMembers,
}

/// A role granted to a user on a document.
#[derive(Debug)]
pub struct Grant {
    pub user: String,
    pub role: Role,
}

/// The mathematical content of a [`Grant`].
pub struct GrantView {
    pub user: Seq<char>,
    pub role: Role,
}

impl View for Grant {
    type V = GrantView;

    open spec fn view(&self) -> GrantView {
        GrantView { user: self.user@, role: self.role }
    }
}

/// The grants of a list of grants, one for one.
pub open spec fn grants_of(grants: Seq<Grant>) -> Seq<GrantView> {
    Seq::new(grants.len(), |i: int| grants[i]@)
}

/// The grants that give each of the users the role, in the order of the
/// users.
pub open spec fn grants_to(users: Seq<String>, role: Role) -> Seq<GrantView> {
    Seq::new(users.len(), |i: int| GrantView { user: users[i]@, role })
}

impl RequestError {
    /// The message that is sent to the client.
    pub fn message(self) -> (text: String)
        ensures
            text@ == match self {
                RequestError::EmptyTitle => "Title must not be empty"@,
                RequestError::EmptyFormat => "Format must not be empty"@,
                RequestError::EmptyGroupName => "Group name must not be empty"@,
                RequestError::NoMembers => "Members must not be empty"@,
            },
    {
        match self {
            RequestError::EmptyTitle => String::from_str("Title must not be empty"),
            RequestError::EmptyFormat => String::from_str("Format must not be empty"),
            RequestError::EmptyGroupName => String::from_str("Group name must not be empty"),
            RequestError::NoMembers => String::from_str("Members must not be empty"),
        }
    }
}

impl WsParams {
    /// The session of a connection that came in with these parameters.
    pub fn session(self) -> (session: Session)
        ensures
            session@ == (SessionView {
                user: self.user_email@,
                document: self.document_id@,
                role: None,
                stage: Stage::Connecting,
            }),
    {
        Session::new(self.user_email, self.document_id)
    }
}

impl Document {
    /// The same document without an identifier, as it is handed to the
    /// store for insertion: the store assigns the identifier.
    pub fn without_id(self) -> (document: Document)
        ensures
            document.id is None,
            document.title == self.title,
            document.content == self.content,
            document.format == self.format,
    {
        Document { id: None, title: self.title, content: self.content, format: self.format }
    }
}

impl DocumentCreateRequest {
    /// What is wrong with the request, if anything: the title is looked at
    /// first, then the format.
    pub open spec fn fault(&self) -> Option<RequestError> {
        if self.title@.len() == 0 {
            Some(RequestError::EmptyTitle)
        } else if self.format@.len() == 0 {
            Some(RequestError::EmptyFormat)
        } else {
            None
        }
    }

    /// The grants that the request asks for: the owner's, then one editor
    /// grant for each collaborator, then one reader grant for each reader.
    pub open spec fn wanted_grants(&self) -> Seq<GrantView> {
        seq![GrantView { user: self.owner@, role: Role::Owner }] + grants_to(
            self.collaborators@,
            Role::Editor,
        ) + grants_to(self.readers@, Role::Reader)
    }

    /// Accepts a request that has a title and a format, and says what is
    /// missing of one that has not.
    pub fn check(&self) -> (verdict: Result<(), RequestError>)
        ensures
            match verdict {
                Ok(_) => self.fault() is None,
                Err(e) => self.fault() == Some(e),
            },
    {
        if self.title.as_str().is_empty() {
            Err(RequestError::EmptyTitle)
        } else if self.format.as_str().is_empty() {
            Err(RequestError::EmptyFormat)
        } else {
            Ok(())
        }
    }

    /// The document to insert: the title and format of the request, no
    /// content and no identifier yet.
    pub fn document(&self) -> (document: Document)
        ensures
            document.id is None,
            document.title@ == self.title@,
            document.content@ == Seq::<char>::empty(),
            document.format@ == self.format@,
    {
        Document {
            id: None,
            title: self.title.clone(),
            content: String::new(),
            format: self.format.clone(),
        }
    }

    /// The grants to record for the new document.
    pub fn grants(&self) -> (grants: Vec<Grant>)
        ensures
            grants_of(grants@) == self.wanted_grants(),
    {
        let mut grants: Vec<Grant> = Vec::new();
        grants.push(Grant { user: self.owner.clone(), role: Role::Owner });
        let ghost head = seq![GrantView { user: self.owner@, role: Role::Owner }];
        let mut i: usize = 0;
        while i < self.collaborators.len()
            invariant
                i <= self.collaborators.len(),
                head == seq![GrantView { user: self.owner@, role: Role::Owner }],
                grants_of(grants@) == head + grants_to(
                    self.collaborators@.take(i as int),
                    Role::Editor,
                ),
            decreases self.collaborators.len() - i,
        {
            let ghost before = grants_of(grants@);
            grants.push(Grant { user: self.collaborators[i].clone(), role: Role::Editor });
            proof {
                let after = grants_of(grants@);
                let longer = head + grants_to(self.collaborators@.take(i + 1), Role::Editor);
                assert forall|k: int| 0 <= k < after.len() implies after[k] == longer[k] by {
                    if k < before.len() {
                        assert(after[k] == before[k]);
                    }
                }
            }
            i += 1;
        }
        let ghost middle = head + grants_to(self.collaborators@, Role::Editor);
        let mut j: usize = 0;
        while j < self.readers.len()
            invariant
                j <= self.readers.len(),
                middle == seq![GrantView { user: self.owner@, role: Role::Owner }] + grants_to(
                    self.collaborators@,
                    Role::Editor,
                ),
                grants_of(grants@) == middle + grants_to(
                    self.readers@.take(j as int),
                    Role::Reader,
                ),
            decreases self.readers.len() - j,
        {
            let ghost before = grants_of(grants@);
            grants.push(Grant { user: self.readers[j].clone(), role: Role::Reader });
            proof {
                let after = grants_of(grants@);
                let longer = middle + grants_to(self.readers@.take(j + 1), Role::Reader);
                assert forall|k: int| 0 <= k < after.len() implies after[k] == longer[k] by {
                    if k < before.len() {
                        assert(after[k] == before[k]);
                    }
                }
            }
            j += 1;
        }
        grants
    }
}

impl GroupsRequest {
    /// What is wrong with the request, if anything: the name is looked at
    /// first, then the members.
    pub open spec fn fault(&self) -> Option<RequestError> {
        if self.name@.len() == 0 {
            Some(RequestError::EmptyGroupName)
        } else if self.members@.len() == 0 {
            Some(RequestError::NoMembers)
        } else {
            None
        }
    }

    /// Accepts a request that names the group and at least one member, and
    /// says what is missing of one that does not.
    pub fn check(&self) -> (verdict: Result<(), RequestError>)
        ensures
            match verdict {
                Ok(_) => self.fault() is None,
                Err(e) => self.fault() == Some(e),
            },
    {
        if self.name.as_str().is_empty() {
            Err(RequestError::EmptyGroupName)
        } else if self.members.len() == 0 {
            Err(RequestError::NoMembers)
        } else {
            Ok(())
        }
    }
}

/// The documents shared with a user: those granted directly, then those
/// granted through groups, each list in its own order.
pub fn shared_documents(direct: Vec<String>, through_groups: Vec<String>) -> (all: Vec<String>)
    ensures
        all@ == direct@ + through_groups@,
{
    let mut all = direct;
    let mut rest = through_groups;
    all.append(&mut rest);
    all
}

} // verus!

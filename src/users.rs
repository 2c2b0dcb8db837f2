//! User records and the credential store that owns them.
use crate::username::{count_graphemes, grapheme_count, username_is_valid, valid_username};
use crate::text::push_all;
use vstd::prelude::*;

verus! {

/// A registered user. `password_hash` is a self-describing digest, never
/// the password itself.
#[derive(Debug)]
pub struct User {
    pub id: u128,
    pub name: String,
    pub password_hash: String,
    pub role: String,
}

/// A user name that passed the shape rules.
#[derive(Debug)]
pub struct NewUserName(String);

impl NewUserName {
    pub closed spec fn view(&self) -> Seq<char> {
        self.0@
    }

    /// Accepts `s` when it is a well-shaped user name; otherwise explains
    /// the refusal.
    pub fn parse(s: String) -> (r: Result<NewUserName, String>)
        ensures
            r is Ok <==> valid_username(s@, grapheme_count(s@)),
            r matches Ok(n) ==> n.view() == s@,
            r matches Err(m) ==> m@ == s@ + not_valid_suffix(),
    {
        let graphemes = count_graphemes(s.as_str());
        if username_is_valid(s.as_str(), graphemes) {
            Ok(NewUserName(s))
        } else {
            let mut m = s;
            let tail = [
                ' ', 'i', 's', ' ', 'n', 'o', 't', ' ', 'a', ' ', 'v', 'a', 'l', 'i', 'd', ' ', 'n',
                'e', 'w', ' ', 'u', 's', 'e', 'r', ' ', 'n', 'a', 'm', 'e', '.',
            ];
            assert(tail@ =~= not_valid_suffix());
            push_all(&mut m, &tail);
            Err(m)
        }
    }

    /// The validated name.
    pub fn as_str(&self) -> (r: &str)
        ensures
            r@ == self.view(),
    {
        self.0.as_str()
    }
}

/// What follows the refused name in the message of `NewUserName::parse`.
pub open spec fn not_valid_suffix() -> Seq<char> {
    seq![
        ' ', 'i', 's', ' ', 'n', 'o', 't', ' ', 'a', ' ', 'v', 'a', 'l', 'i', 'd', ' ', 'n', 'e', 'w',
        ' ', 'u', 's', 'e', 'r', ' ', 'n', 'a', 'm', 'e', '.',
    ]
}

/// A user about to be stored: a validated name, a password digest and a
/// role.
#[derive(Debug)]
pub struct NewUser {
    pub name: NewUserName,
    pub password: String,
    pub role: String,
}

/// Why the store refused a new user.
#[derive(Debug, Clone, Copy, PartialEq, Eq, Structural)]
pub enum AddUserError {
    /// A user with this name exists already.
    UsernameExists,
    /// The id chosen for the user is taken.
    DuplicateId,
}

/// The user records, with unique names and unique ids.
#[derive(Debug)]
pub struct UserStore {
    users: Vec<User>,
}

pub open spec fn has_name(users: Seq<User>, name: Seq<char>) -> bool {
    exists|i: int| 0 <= i < users.len() && #[trigger] users[i].name@ == name
}

pub open spec fn has_id(users: Seq<User>, id: u128) -> bool {
    exists|i: int| 0 <= i < users.len() && #[trigger] users[i].id == id
}

impl UserStore {
    /// The stored records, in order of insertion.
    pub closed spec fn view(&self) -> Seq<User> {
        self.users@
    }

    /// No two records share a name or an id.
    pub closed spec fn wf(&self) -> bool {
        forall|i: int, j: int|
            0 <= i < self.users@.len() && 0 <= j < self.users@.len() && i != j ==> {
                &&& (#[trigger] self.users@[i]).name@ != (#[trigger] self.users@[j]).name@
                &&& self.users@[i].id != self.users@[j].id
            }
    }

    /// An empty store.
    pub fn new() -> (r: UserStore)
        ensures
            r.wf(),
            r.view().len() == 0,
    {
        UserStore { users: Vec::new() }
    }

    /// Number of records.
    pub fn len(&self) -> (r: usize)
        ensures
            r == self.view().len(),
    {
        self.users.len()
    }

    /// The record named `name`.
    pub fn find_user_by_name(&self, name: &str) -> (r: Option<&User>)
        ensures
            r is Some <==> has_name(self.view(), name@),
            r matches Some(u) ==> u.name@ == name@ && exists|i: int|
                0 <= i < self.view().len() && self.view()[i] == *u,
    {
        let mut i: usize = 0;
        while i < self.users.len()
            invariant
                i <= self.users@.len(),
                forall|j: int| 0 <= j < i ==> (#[trigger] self.users@[j]).name@ != name@,
            decreases self.users@.len() - i,
        {
            if str_eq(self.users[i].name.as_str(), name) {
                return Some(&self.users[i]);
            }
            i = i + 1;
        }
        None
    }

    /// The record with id `id`.
    pub fn find_user_by_id(&self, id: u128) -> (r: Option<&User>)
        ensures
            r is Some <==> has_id(self.view(), id),
            r matches Some(u) ==> u.id == id && exists|i: int|
                0 <= i < self.view().len() && self.view()[i] == *u,
    {
        let mut i: usize = 0;
        while i < self.users.len()
            invariant
                i <= self.users@.len(),
                forall|j: int| 0 <= j < i ==> (#[trigger] self.users@[j]).id != id,
            decreases self.users@.len() - i,
        {
            if self.users[i].id == id {
                assert(self.view()[i as int] == self.users[i as int]);
                return Some(&self.users[i]);
            }
            i = i + 1;
        }
        None
    }

    /// Stores `new_user` under the id `id`. The store is the authority on
    /// unique names: a taken name is refused and nothing changes.
    pub fn add_user(&mut self, new_user: &NewUser, id: u128) -> (r: Result<User, AddUserError>)
        requires
            old(self).wf(),
        ensures
            final(self).wf(),
            has_name(old(self).view(), new_user.name.view()) ==> r == Err::<User, AddUserError>(
                AddUserError::UsernameExists,
            ),
            !has_name(old(self).view(), new_user.name.view()) && has_id(old(self).view(), id) ==> r
                == Err::<User, AddUserError>(AddUserError::DuplicateId),
            r is Err ==> final(self).view() == old(self).view(),
            r matches Ok(u) ==> {
                &&& u.id == id
                &&& u.name@ == new_user.name.view()
                &&& u.password_hash@ == new_user.password@
                &&& u.role@ == new_user.role@
                &&& final(self).view() == old(self).view().push(u)
            },
            !has_name(old(self).view(), new_user.name.view()) && !has_id(old(self).view(), id) ==> r is Ok,
    {
        if self.find_user_by_name(new_user.name.as_str()).is_some() {
            return Err(AddUserError::UsernameExists);
        }
        if self.find_user_by_id(id).is_some() {
            return Err(AddUserError::DuplicateId);
        }
        let stored = User {
            id,
            name: new_user.name.as_str().to_owned(),
            password_hash: new_user.password.clone(),
            role: new_user.role.clone(),
        };
        let answer = User {
            id,
            name: stored.name.clone(),
            password_hash: stored.password_hash.clone(),
            role: stored.role.clone(),
        };
        self.users.push(stored);
        proof {
            assert(self.users@.last() == stored);
            assert forall|i: int, j: int|
                0 <= i < self.users@.len() && 0 <= j < self.users@.len() && i != j implies {
                &&& (#[trigger] self.users@[i]).name@ != (#[trigger] self.users@[j]).name@
                &&& self.users@[i].id != self.users@[j].id
            } by {
                if i == self.users@.len() - 1 {
                    assert(old(self).users@[j] == self.users@[j]);
                } else if j == self.users@.len() - 1 {
                    assert(old(self).users@[i] == self.users@[i]);
                } else {
                    assert(old(self).users@[i] == self.users@[i]);
                    assert(old(self).users@[j] == self.users@[j]);
                }
            }
        }
        Ok(answer)
    }
}

/// Whether two string slices hold the same characters.
pub fn str_eq(a: &str, b: &str) -> (r: bool)
    ensures
        r == (a@ == b@),
{
    let n = a.unicode_len();
    if n != b.unicode_len() {
        return false;
    }
    let mut i: usize = 0;
    while i < n
        invariant
            n == a@.len(),
            n == b@.len(),
            i <= n,
            forall|j: int| 0 <= j < i ==> a@[j] == b@[j],
        decreases n - i,
    {
        if a.get_char(i) != b.get_char(i) {
            return false;
        }
        i = i + 1;
    }
    assert(a@ =~= b@);
    true
}

} // verus!

verus! {

impl UserStore {
    /// In a well-formed store at most one record carries a given name.
    pub proof fn lemma_unique_name(&self, name: Seq<char>)
        requires
            self.wf(),
        ensures
            forall|i: int, j: int|
                0 <= i < self.view().len() && 0 <= j < self.view().len() && #[trigger] self.view()[i].name@ == name
                    && #[trigger] self.view()[j].name@ == name ==> i == j,
    {
    }
}

} // verus!

//! User accounts: registration and password verification.
//!
//! Passwords are never stored; the store keeps a PHC hash string computed
//! from the password and the service's fixed salt. Verification re-hashes
//! the offered password and compares hash strings.

use vstd::prelude::*;
use vstd::string::StringSliceAdditionalSpecFns;

use argon2::password_hash::PasswordHasher;

use crate::error::Error;

verus! {

/// Credentials handed to a collaborator service.
pub struct Credentials {
    pub username: String,
    pub password: String,
}

impl Credentials {
    /// Packs a username and a password.
    pub fn new(username: String, password: String) -> (r: Credentials)
        ensures
            r.username@ == username@ && r.password@ == password@,
    {
        Credentials { username, password }
    }
}

/// Borrowed credentials, as posted to a user service.
pub struct UserCredentials<'a> {
    pub username: &'a str,
    pub password: &'a str,
}

/// One registered user: identifier and display name.
pub struct User {
    pub id: crate::ids::UserId,
    pub username: crate::username::Username,
}

impl User {
    /// Packs an identifier and a username.
    pub fn new(id: crate::ids::UserId, username: crate::username::Username) -> (r: User)
        ensures
            r.id == id,
            r.username@ == username@,
    {
        User { id, username }
    }
}

/// The user-service collaborator interface.
pub trait UserService {
    /// Whether this username/password pair is registered.
    fn verify_password(&self, username: &str, password: &str) -> Result<bool, Error>;

    /// Registers the user; `false` when the username is already taken.
    fn add_user(&mut self, username: &str, password: &str) -> Result<bool, Error>;

    /// Whether a user by that name exists.
    fn user_exists(&self, username: &str) -> Result<bool, Error>;
}

/// The password hash of `password` under `salt`.
pub uninterp spec fn argon2_phc_of(password: Seq<char>, salt: Seq<u8>) -> Seq<char>;

/// Relies on argon2::Argon2::hash_password_with_salt with the default
/// parameters: the PHC hash string depends on the password and the salt
/// alone, and hashing succeeds for any password of at most 0xffffffff bytes
/// with a salt of 8 to 48 bytes.
#[verifier::external_body]
fn argon2_hash(password: &str, salt: &[u8]) -> (r: Option<String>)
    ensures
        r matches Some(h) ==> h@ == argon2_phc_of(password@, salt@),
        password.spec_bytes().len() <= 0xffffffff && 8 <= salt@.len() <= 48 ==> r is Some,
{
    match argon2::Argon2::default().hash_password_with_salt(password.as_bytes(), salt) {
        Ok(h) => Some(h.to_string()),
        Err(_) => None,
    }
}

/// The registered users a record of additions denotes; a later addition for
/// a name wins (additions check for the name first, so in fact each name is
/// added at most once).
pub open spec fn users_map_of(s: Seq<(String, String)>) -> Map<Seq<char>, Seq<char>>
    decreases s.len(),
{
    if s.len() == 0 {
        Map::empty()
    } else {
        users_map_of(s.drop_last()).insert(s.last().0@, s.last().1@)
    }
}

/// A name added nowhere is not registered.
proof fn lemma_users_absent(s: Seq<(String, String)>, name: Seq<char>)
    requires
        forall|i: int| 0 <= i < s.len() ==> (#[trigger] s[i]).0@ != name,
    ensures
        !users_map_of(s).dom().contains(name),
    decreases s.len(),
{
    if s.len() > 0 {
        lemma_users_absent(s.drop_last(), name);
    }
}

/// The map holds, for each registered name, the hash of its last addition.
proof fn lemma_users_last_match(s: Seq<(String, String)>, i: int, name: Seq<char>)
    requires
        0 <= i < s.len(),
        s[i].0@ == name,
        forall|j: int| i < j < s.len() ==> (#[trigger] s[j]).0@ != name,
    ensures
        users_map_of(s).dom().contains(name),
        users_map_of(s)[name] == s[i].1@,
    decreases s.len(),
{
    if i == s.len() - 1 {
        assert(s.last() == s[i]);
    } else {
        assert(s.last().0@ != name);
        lemma_users_last_match(s.drop_last(), i, name);
    }
}

/// The in-process user store.
pub struct InMemoryUserService {
    users: Vec<(String, String)>,
    salt: Vec<u8>,
}

impl View for InMemoryUserService {
    type V = Map<Seq<char>, Seq<char>>;

    closed spec fn view(&self) -> Map<Seq<char>, Seq<char>> {
        users_map_of(self.users@)
    }
}

impl InMemoryUserService {
    /// The fixed salt every password is hashed under.
    pub closed spec fn salt_spec(&self) -> Seq<u8> {
        self.salt@
    }

    /// The salt has a length the hash function accepts.
    pub open spec fn wf(&self) -> bool {
        8 <= self.salt_spec().len() <= 48
    }

    /// An empty store hashing under the given salt.
    pub fn new(salt: Vec<u8>) -> (r: InMemoryUserService)
        ensures
            r.salt_spec() == salt@,
            r@ == Map::<Seq<char>, Seq<char>>::empty(),
    {
        InMemoryUserService { users: Vec::new(), salt }
    }

    /// A store with the given users (name, stored hash) already registered.
    pub fn with(salt: Vec<u8>, users: Vec<(String, String)>) -> (r: InMemoryUserService)
        ensures
            r.salt_spec() == salt@,
            r@ == users_map_of(users@),
    {
        InMemoryUserService { users, salt }
    }

    /// The index of the last addition of `username`, if it is registered.
    fn find(&self, username: &str) -> (r: Option<usize>)
        ensures
            r matches Some(i) ==> i < self.users@.len() && self.users@[i as int].0@ == username@
                && self@.dom().contains(username@) && self@[username@] == self.users@[i as int].1@,
            r is None ==> !self@.dom().contains(username@),
    {
        let n = self.users.len();
        let mut i: usize = n;
        while i > 0
            invariant
                i <= n,
                n == self.users@.len(),
                forall|j: int| i <= j < n ==> (#[trigger] self.users@[j]).0@ != username@,
            decreases i,
        {
            i -= 1;
            if crate::quest::str_eq(self.users[i].0.as_str(), username) {
                proof {
                    lemma_users_last_match(self.users@, i as int, username@);
                }
                return Some(i);
            }
        }
        proof {
            lemma_users_absent(self.users@, username@);
        }
        None
    }
}

impl UserService for InMemoryUserService {
    /// True exactly when the user is registered and the offered password
    /// hashes to the stored hash. Fails only when hashing fails, which a
    /// well-formed salt and a password of at most 0xffffffff bytes rule out.
    fn verify_password(&self, username: &str, password: &str) -> (r: Result<bool, Error>)
        ensures
            !self@.dom().contains(username@) ==> (r matches Ok(b) && !b),
            r matches Ok(b) ==> b == (self@.dom().contains(username@) && self@[username@]
                == argon2_phc_of(password@, self.salt_spec())),
            self.wf() && password.spec_bytes().len() <= 0xffffffff ==> r is Ok,
    {
        let i = match self.find(username) {
            Some(i) => i,
            None => {
                return Ok(false);
            },
        };
        let hash = match argon2_hash(password, self.salt.as_slice()) {
            Some(h) => h,
            None => {
                return Err(Error::IncoherentState);
            },
        };
        Ok(crate::quest::str_eq(self.users[i].1.as_str(), hash.as_str()))
    }

    /// Registers the user unless the name is taken. Fails only when hashing
    /// fails, which a well-formed salt and a password of at most 0xffffffff
    /// bytes rule out; nothing changes on failure.
    fn add_user(&mut self, username: &str, password: &str) -> (r: Result<bool, Error>)
        ensures
            old(self)@.dom().contains(username@) ==> (r matches Ok(b) && !b && final(self)@ == old(
                self,
            )@),
            r matches Ok(b) && b ==> !old(self)@.dom().contains(username@) && final(self)@ == old(
                self,
            )@.insert(username@, argon2_phc_of(password@, old(self).salt_spec())),
            r is Err ==> final(self)@ == old(self)@,
            old(self).wf() && password.spec_bytes().len() <= 0xffffffff ==> (r matches Ok(b) && b
                == !old(self)@.dom().contains(username@)),
            final(self).salt_spec() == old(self).salt_spec(),
            final(self).wf() == old(self).wf(),
    {
        if self.find(username).is_some() {
            return Ok(false);
        }
        let hash = match argon2_hash(password, self.salt.as_slice()) {
            Some(h) => h,
            None => {
                return Err(Error::IncoherentState);
            },
        };
        let ghost h = hash@;
        self.users.push((username.to_owned(), hash));
        proof {
            assert(self.users@.drop_last() == old(self).users@);
            assert(self.users@.last().0@ == username@ && self.users@.last().1@ == h);
        }
        Ok(true)
    }

    /// Whether a user by that name exists. The in-process store cannot fail.
    fn user_exists(&self, username: &str) -> (r: Result<bool, Error>)
        ensures
            r matches Ok(b) && b == self@.dom().contains(username@),
    {
        Ok(self.find(username).is_some())
    }
}

} // verus!

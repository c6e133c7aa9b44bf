//! The two server-side stores the core consumes.
//!
//! The credential store keeps at most one live session record per subject;
//! the user store resolves a username to its registered record. Both are
//! modelled as maps keyed by the subject or username string.

use vstd::prelude::*;

use crate::models::{Claims, ClaimsView, User, UserView};
use crate::rejections::RejectError;

verus! {

/// The map a sequence of claims records denotes, keyed by subject.
/// A later record for the same subject shadows an earlier one; the store's
/// invariant rules that situation out.
pub open spec fn claims_map(s: Seq<Claims>) -> Map<Seq<char>, ClaimsView>
    decreases s.len(),
{
    if s.len() == 0 {
        Map::empty()
    } else {
        claims_map(s.drop_last()).insert(s.last().sub@, s.last()@)
    }
}

/// No two records share a subject.
pub open spec fn claims_subs_unique(s: Seq<Claims>) -> bool {
    forall|i: int, j: int|
        0 <= i < s.len() && 0 <= j < s.len() && i != j ==> s[i].sub@ != s[j].sub@
}

proof fn lemma_claims_map_domain(s: Seq<Claims>, sub: Seq<char>)
    ensures
        claims_map(s).contains_key(sub) <==> exists|i: int|
            0 <= i < s.len() && s[i].sub@ == sub,
    decreases s.len(),
{
    if s.len() > 0 {
        lemma_claims_map_domain(s.drop_last(), sub);
        if s.last().sub@ == sub {
            assert(s[s.len() - 1].sub@ == sub);
        } else if claims_map(s).contains_key(sub) {
            let i = choose|i: int| 0 <= i < s.drop_last().len() && s.drop_last()[i].sub@ == sub;
            assert(s[i].sub@ == sub);
        } else if exists|i: int| 0 <= i < s.len() && s[i].sub@ == sub {
            let i = choose|i: int| 0 <= i < s.len() && s[i].sub@ == sub;
            assert(s.drop_last()[i].sub@ == sub);
        }
    }
}

proof fn lemma_claims_map_at(s: Seq<Claims>, i: int)
    requires
        claims_subs_unique(s),
        0 <= i < s.len(),
    ensures
        claims_map(s).contains_key(s[i].sub@),
        claims_map(s)[s[i].sub@] == s[i]@,
    decreases s.len(),
{
    lemma_claims_map_domain(s, s[i].sub@);
    if i < s.len() - 1 {
        assert(s.drop_last()[i] == s[i]);
        lemma_claims_map_at(s.drop_last(), i);
        assert(s.last().sub@ != s[i].sub@);
    }
}

proof fn lemma_claims_map_remove(s: Seq<Claims>, i: int)
    requires
        claims_subs_unique(s),
        0 <= i < s.len(),
    ensures
        claims_map(s.remove(i)) =~= claims_map(s).remove(s[i].sub@),
    decreases s.len(),
{
    lemma_claims_map_domain(s.drop_last(), s[i].sub@);
    if i == s.len() - 1 {
        assert(s.remove(i) =~= s.drop_last());
        assert(!claims_map(s.drop_last()).contains_key(s[i].sub@));
    } else {
        assert(s.drop_last()[i] == s[i]);
        lemma_claims_map_remove(s.drop_last(), i);
        assert(s.remove(i).drop_last() =~= s.drop_last().remove(i));
        assert(s.remove(i).last() == s.last());
        assert(s[i].sub@ != s.last().sub@);
    }
}

/// The server-side session store: at most one active record per subject.
pub struct CredentialStore {
    records: Vec<Claims>,
}

impl View for CredentialStore {
    type V = Map<Seq<char>, ClaimsView>;

    closed spec fn view(&self) -> Map<Seq<char>, ClaimsView> {
        claims_map(self.records@)
    }
}

impl CredentialStore {
    /// Well-formedness: at most one record per subject. Established by
    /// `new` and preserved by every method.
    pub closed spec fn wf(&self) -> bool {
        claims_subs_unique(self.records@)
    }

    /// An empty store, with no session record for any subject.
    pub fn new() -> (r: CredentialStore)
        ensures
            r.wf(),
            r@ == Map::<Seq<char>, ClaimsView>::empty(),
    {
        CredentialStore { records: Vec::new() }
    }

    /// The index of the record for `sub`, if one exists.
    fn find(&self, sub: &String) -> (r: Option<usize>)
        requires
            self.wf(),
        ensures
            match r {
                Some(i) => i < self.records@.len() && self.records@[i as int].sub@ == sub@,
                None => !self@.contains_key(sub@),
            },
    {
        let n = self.records.len();
        for i in 0..n
            invariant
                n == self.records@.len(),
                forall|j: int| 0 <= j < i ==> self.records@[j].sub@ != sub@,
        {
            if self.records[i].sub == *sub {
                return Some(i);
            }
        }
        proof {
            lemma_claims_map_domain(self.records@, sub@);
        }
        None
    }

    /// Look up the record for `sub`; absence is an error at this layer.
    pub fn get(&self, sub: &String) -> (r: Result<Claims, RejectError>)
        requires
            self.wf(),
        ensures
            match r {
                Ok(c) => self@.contains_key(sub@) && c@ == self@[sub@] && c.sub@ == sub@,
                Err(e) => !self@.contains_key(sub@) && e == RejectError::NotFound,
            },
    {
        match self.find(sub) {
            Some(i) => {
                proof {
                    lemma_claims_map_at(self.records@, i as int);
                }
                Ok(self.records[i].clone())
            },
            None => Err(RejectError::NotFound),
        }
    }

    /// The same lookup, but absence is an ordinary outcome. Used to decide
    /// whether a purge is needed before a new record is written.
    pub fn get_if_exists(&self, sub: &String) -> (r: Option<Claims>)
        requires
            self.wf(),
        ensures
            match r {
                Some(c) => self@.contains_key(sub@) && c@ == self@[sub@] && c.sub@ == sub@,
                None => !self@.contains_key(sub@),
            },
    {
        match self.get(sub) {
            Ok(c) => Some(c),
            Err(_) => None,
        }
    }

    /// Insert a new record. The caller must have cleared any prior record
    /// for the same subject first.
    pub fn put(&mut self, claims: Claims)
        requires
            old(self).wf(),
            !old(self)@.contains_key(claims.sub@),
        ensures
            final(self).wf(),
            final(self)@ == old(self)@.insert(claims.sub@, claims@),
    {
        proof {
            lemma_claims_map_domain(self.records@, claims.sub@);
        }
        self.records.push(claims);
        proof {
            assert(self.records@.drop_last() =~= old(self).records@);
            assert(self.records@.last() == claims);
        }
    }

    /// Remove the record for `sub`, if any; absence is not an error.
    pub fn delete(&mut self, sub: &String)
        requires
            old(self).wf(),
        ensures
            final(self).wf(),
            final(self)@ == old(self)@.remove(sub@),
    {
        match self.find(sub) {
            Some(i) => {
                proof {
                    lemma_claims_map_remove(self.records@, i as int);
                }
                self.records.remove(i);
            },
            None => {
                proof {
                    assert(self@.remove(sub@) =~= self@);
                }
            },
        }
    }
}

/// The map a sequence of user records denotes, keyed by username.
pub open spec fn user_map(s: Seq<User>) -> Map<Seq<char>, UserView>
    decreases s.len(),
{
    if s.len() == 0 {
        Map::empty()
    } else {
        user_map(s.drop_last()).insert(s.last().username@, s.last()@)
    }
}

/// No two records share a username.
pub open spec fn usernames_unique(s: Seq<User>) -> bool {
    forall|i: int, j: int|
        0 <= i < s.len() && 0 <= j < s.len() && i != j ==> s[i].username@ != s[j].username@
}

proof fn lemma_user_map_domain(s: Seq<User>, name: Seq<char>)
    ensures
        user_map(s).contains_key(name) <==> exists|i: int|
            0 <= i < s.len() && s[i].username@ == name,
    decreases s.len(),
{
    if s.len() > 0 {
        lemma_user_map_domain(s.drop_last(), name);
        if s.last().username@ == name {
            assert(s[s.len() - 1].username@ == name);
        } else if user_map(s).contains_key(name) {
            let i = choose|i: int|
                0 <= i < s.drop_last().len() && s.drop_last()[i].username@ == name;
            assert(s[i].username@ == name);
        } else if exists|i: int| 0 <= i < s.len() && s[i].username@ == name {
            let i = choose|i: int| 0 <= i < s.len() && s[i].username@ == name;
            assert(s.drop_last()[i].username@ == name);
        }
    }
}

proof fn lemma_user_map_at(s: Seq<User>, i: int)
    requires
        usernames_unique(s),
        0 <= i < s.len(),
    ensures
        user_map(s).contains_key(s[i].username@),
        user_map(s)[s[i].username@] == s[i]@,
    decreases s.len(),
{
    lemma_user_map_domain(s, s[i].username@);
    if i < s.len() - 1 {
        assert(s.drop_last()[i] == s[i]);
        lemma_user_map_at(s.drop_last(), i);
        assert(s.last().username@ != s[i].username@);
    }
}

/// The registry of users, keyed by username.
pub struct UserStore {
    users: Vec<User>,
}

impl View for UserStore {
    type V = Map<Seq<char>, UserView>;

    closed spec fn view(&self) -> Map<Seq<char>, UserView> {
        user_map(self.users@)
    }
}

impl UserStore {
    /// Well-formedness: at most one record per username.
    pub closed spec fn wf(&self) -> bool {
        usernames_unique(self.users@)
    }

    /// An empty registry.
    pub fn new() -> (r: UserStore)
        ensures
            r.wf(),
            r@ == Map::<Seq<char>, UserView>::empty(),
    {
        UserStore { users: Vec::new() }
    }

    /// Register a user under a username not yet taken.
    pub fn add_user(&mut self, user: User)
        requires
            old(self).wf(),
            !old(self)@.contains_key(user.username@),
        ensures
            final(self).wf(),
            final(self)@ == old(self)@.insert(user.username@, user@),
    {
        proof {
            lemma_user_map_domain(self.users@, user.username@);
        }
        self.users.push(user);
        proof {
            assert(self.users@.drop_last() =~= old(self).users@);
            assert(self.users@.last() == user);
        }
    }

    /// Resolve a username to its record; absence is an error.
    pub fn load_user(&self, username: &String) -> (r: Result<User, RejectError>)
        requires
            self.wf(),
        ensures
            match r {
                Ok(u) => self@.contains_key(username@) && u@ == self@[username@]
                    && u.username@ == username@,
                Err(e) => !self@.contains_key(username@) && e == RejectError::NotFound,
            },
    {
        let n = self.users.len();
        for i in 0..n
            invariant
                self.wf(),
                n == self.users@.len(),
                forall|j: int| 0 <= j < i ==> self.users@[j].username@ != username@,
        {
            if self.users[i].username == *username {
                proof {
                    lemma_user_map_at(self.users@, i as int);
                }
                return Ok(self.users[i].clone());
            }
        }
        proof {
            lemma_user_map_domain(self.users@, username@);
        }
        Err(RejectError::NotFound)
    }
}

} // verus!

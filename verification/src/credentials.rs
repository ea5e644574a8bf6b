//! The credential store: a shared username-to-password registry with
//! uniqueness enforced at registration. Registration inserts if and only if
//! the username is absent; authentication is an exact plain-text comparison
//! of the stored password (kept as designed; hashing is out of scope).

use vstd::prelude::*;

use crate::errors::ChatError;

verus! {

/// One registered account. Created on registration; never mutated or
/// deleted afterwards.
pub struct User {
    pub username: String,
    pub password: String,
}

/// The abstract content of a register list: username to password, later
/// entries winning (the store never holds two entries for one username).
pub open spec fn creds_map(s: Seq<User>) -> Map<Seq<char>, Seq<char>>
    decreases s.len(),
{
    if s.len() == 0 {
        Map::empty()
    } else {
        creds_map(s.drop_last()).insert(s.last().username@, s.last().password@)
    }
}

/// No two entries share a username.
pub open spec fn usernames_distinct(s: Seq<User>) -> bool {
    forall|i: int, j: int| 0 <= i < j < s.len() ==> s[i].username@ != s[j].username@
}

/// What one registration does to the abstract map: insert if absent,
/// otherwise leave the map untouched.
pub open spec fn register_step(
    m: Map<Seq<char>, Seq<char>>,
    u: Seq<char>,
    p: Seq<char>,
) -> Map<Seq<char>, Seq<char>> {
    if m.contains_key(u) {
        m
    } else {
        m.insert(u, p)
    }
}

/// Authentication succeeds exactly when the username is registered and the
/// stored password equals the supplied one.
pub open spec fn auth_ok(m: Map<Seq<char>, Seq<char>>, u: Seq<char>, p: Seq<char>) -> bool {
    m.contains_key(u) && m[u] == p
}

/// A username is in the abstract map exactly when some entry carries it.
pub proof fn lemma_creds_map_domain(s: Seq<User>, u: Seq<char>)
    ensures
        creds_map(s).contains_key(u) <==> exists|i: int|
            0 <= i < s.len() && s[i].username@ == u,
    decreases s.len(),
{
    if s.len() > 0 {
        lemma_creds_map_domain(s.drop_last(), u);
        if s.last().username@ == u {
            assert(s[s.len() - 1].username@ == u);
        } else if creds_map(s.drop_last()).contains_key(u) {
            let i = choose|i: int| 0 <= i < s.drop_last().len() && s.drop_last()[i].username@ == u;
            assert(s[i].username@ == u);
        } else if exists|i: int| 0 <= i < s.len() && s[i].username@ == u {
            let i = choose|i: int| 0 <= i < s.len() && s[i].username@ == u;
            assert(i < s.len() - 1);
            assert(s.drop_last()[i].username@ == u);
        }
    }
}

/// Under distinct usernames, the abstract map sends each entry's username to
/// that entry's password.
pub proof fn lemma_creds_map_at(s: Seq<User>, i: int)
    requires
        usernames_distinct(s),
        0 <= i < s.len(),
    ensures
        creds_map(s).contains_key(s[i].username@),
        creds_map(s)[s[i].username@] == s[i].password@,
    decreases s.len(),
{
    if i == s.len() - 1 {
    } else {
        assert(usernames_distinct(s.drop_last()));
        assert(s.drop_last()[i] == s[i]);
        lemma_creds_map_at(s.drop_last(), i);
        assert(s[i].username@ != s.last().username@);
    }
}

/// Appending an entry inserts its pair into the abstract map.
pub proof fn lemma_creds_map_push(s: Seq<User>, user: User)
    ensures
        creds_map(s.push(user)) == creds_map(s).insert(user.username@, user.password@),
{
    assert(s.push(user).drop_last() =~= s);
    assert(s.push(user).last() == user);
}

/// The shared registry of accounts. All mutation goes through `register`.
pub struct CredentialStore {
    users: Vec<User>,
}

impl CredentialStore {
    /// The abstract value of the store: username to password.
    pub closed spec fn spec_map(&self) -> Map<Seq<char>, Seq<char>> {
        creds_map(self.users@)
    }

    /// Well-formedness: usernames are unique within the store.
    pub closed spec fn wf(&self) -> bool {
        usernames_distinct(self.users@)
    }

    /// An empty store.
    pub fn new() -> (s: Self)
        ensures
            s.wf(),
            s.spec_map() == Map::<Seq<char>, Seq<char>>::empty(),
    {
        CredentialStore { users: Vec::new() }
    }

    /// Inserts the pair iff the username is absent; otherwise fails with
    /// `AuthConflict` and makes no change.
    pub fn register(&mut self, username: String, password: String) -> (r: Result<(), ChatError>)
        requires
            old(self).wf(),
        ensures
            final(self).wf(),
            final(self).spec_map() == register_step(old(self).spec_map(), username@, password@),
            r is Ok <==> !old(self).spec_map().contains_key(username@),
            r is Err ==> r == Err::<(), ChatError>(ChatError::AuthConflict),
    {
        let n = self.users.len();
        let mut i: usize = 0;
        while i < n
            invariant
                old(self).wf(),
                n == self.users.len(),
                i <= n,
                *self == *old(self),
                forall|k: int| 0 <= k < i ==> self.users@[k].username@ != username@,
            decreases n - i,
        {
            if self.users[i].username == username {
                proof {
                    assert(0 <= i < self.users@.len() && self.users@[i as int].username@
                        == username@);
                    lemma_creds_map_domain(self.users@, username@);
                }
                return Err(ChatError::AuthConflict);
            }
            i += 1;
        }
        proof {
            lemma_creds_map_domain(self.users@, username@);
        }
        proof {
            lemma_creds_map_push(self.users@, User { username, password });
        }
        let ghost s0 = self.users@;
        self.users.push(User { username, password });
        proof {
            assert forall|a: int, b: int|
                0 <= a < b < self.users@.len() implies self.users@[a].username@
                != self.users@[b].username@ by {
                if b == self.users@.len() - 1 {
                    assert(self.users@[a] == s0[a]);
                } else {
                    assert(self.users@[a] == s0[a]);
                    assert(self.users@[b] == s0[b]);
                }
            }
        }
        Ok(())
    }

    /// True iff the username exists and the stored password equals the
    /// supplied one exactly.
    pub fn authenticate(&self, username: &String, password: &String) -> (r: bool)
        requires
            self.wf(),
        ensures
            r == auth_ok(self.spec_map(), username@, password@),
    {
        let n = self.users.len();
        let mut i: usize = 0;
        while i < n
            invariant
                self.wf(),
                n == self.users.len(),
                i <= n,
                forall|k: int| 0 <= k < i ==> self.users@[k].username@ != username@,
            decreases n - i,
        {
            if self.users[i].username == *username {
                proof {
                    lemma_creds_map_at(self.users@, i as int);
                }
                return self.users[i].password == *password;
            }
            i += 1;
        }
        proof {
            lemma_creds_map_domain(self.users@, username@);
        }
        false
    }
}

/// For all sequences of registrations with distinct usernames, every one of
/// them succeeds (none finds its username already taken).
pub open spec fn run_registrations(
    m: Map<Seq<char>, Seq<char>>,
    regs: Seq<(Seq<char>, Seq<char>)>,
) -> Map<Seq<char>, Seq<char>>
    decreases regs.len(),
{
    if regs.len() == 0 {
        m
    } else {
        run_registrations(register_step(m, regs.first().0, regs.first().1), regs.drop_first())
    }
}

/// A username neither present at the start nor registered along the way is
/// still absent after a run of registrations.
pub proof fn lemma_run_registrations_absent(
    m: Map<Seq<char>, Seq<char>>,
    regs: Seq<(Seq<char>, Seq<char>)>,
    u: Seq<char>,
)
    requires
        !m.contains_key(u),
        forall|k: int| 0 <= k < regs.len() ==> regs[k].0 != u,
    ensures
        !run_registrations(m, regs).contains_key(u),
    decreases regs.len(),
{
    if regs.len() > 0 {
        let m1 = register_step(m, regs.first().0, regs.first().1);
        assert(regs[0].0 != u);
        assert(!m1.contains_key(u));
        assert(forall|k: int|
            0 <= k < regs.drop_first().len() ==> regs.drop_first()[k] == regs[k + 1]);
        lemma_run_registrations_absent(m1, regs.drop_first(), u);
    }
}

/// Registration `i` of a run succeeds when the map built by the first `i`
/// registrations does not yet hold its username.
pub open spec fn registration_succeeds(
    m: Map<Seq<char>, Seq<char>>,
    regs: Seq<(Seq<char>, Seq<char>)>,
    i: int,
) -> bool {
    !run_registrations(m, regs.take(i)).contains_key(regs[i].0)
}

/// For all sequences of registrations with pairwise distinct usernames, none
/// of which is registered beforehand, every registration succeeds.
pub proof fn lemma_distinct_registrations_all_succeed(
    m: Map<Seq<char>, Seq<char>>,
    regs: Seq<(Seq<char>, Seq<char>)>,
)
    requires
        forall|i: int, j: int| 0 <= i < j < regs.len() ==> regs[i].0 != regs[j].0,
        forall|i: int| 0 <= i < regs.len() ==> !m.contains_key(regs[i].0),
    ensures
        forall|i: int| 0 <= i < regs.len() ==> registration_succeeds(m, regs, i),
{
    assert forall|i: int| 0 <= i < regs.len() implies registration_succeeds(m, regs, i) by {
        assert(forall|k: int| 0 <= k < regs.take(i).len() ==> regs.take(i)[k] == regs[k]);
        lemma_run_registrations_absent(m, regs.take(i), regs[i].0);
    }
}

/// A second registration with a previously used username fails and leaves
/// the stored password for that username unchanged.
pub proof fn lemma_duplicate_registration_rejected(
    m: Map<Seq<char>, Seq<char>>,
    u: Seq<char>,
    p: Seq<char>,
)
    requires
        m.contains_key(u),
    ensures
        register_step(m, u, p) == m,
        register_step(m, u, p)[u] == m[u],
{
}

/// Login for a never-registered username always fails, whatever the
/// password supplied.
pub proof fn lemma_unregistered_login_fails(
    m: Map<Seq<char>, Seq<char>>,
    u: Seq<char>,
    p: Seq<char>,
)
    requires
        !m.contains_key(u),
    ensures
        !auth_ok(m, u, p),
{
}

} // verus!

//! The session store: server-side session records bound to cookies, under a
//! signing key drawn fresh at every process start.

use vstd::prelude::*;
use crate::auth::User;

verus! {

/// The opaque cookie a client holds: the signing key it was issued under and
/// its session token. A cookie under another key never validates.
#[derive(Clone, Copy, Debug, PartialEq, Eq, Structural)]
pub struct Cookie {
    pub key: u64,
    pub token: u64,
}

/// The session records of one process: its signing key, the next session
/// token, and the live sessions, each a token bound to a user id.
pub struct Sessions {
    pub key: u64,
    pub next_token: u64,
    pub entries: Vec<(u64, usize)>,
}

/// The user id a token is bound to, if the token is live.
pub open spec fn lookup_token(entries: Seq<(u64, usize)>, token: u64) -> Option<usize>
    decreases entries.len(),
{
    if entries.len() == 0 {
        None
    } else if entries[0].0 == token {
        Some(entries[0].1)
    } else {
        lookup_token(entries.drop_first(), token)
    }
}

/// Relies on rand::random: a signing-key identifier drawn anew at each
/// process start. Nothing can be promised of its value.
#[verifier::external_body]
fn fresh_key() -> u64 {
    rand::random::<u64>()
}

impl Sessions {
    /// Tokens are unique and below `next_token`.
    pub open spec fn wf(self) -> bool {
        &&& forall|i: int, j: int|
            0 <= i < j < self.entries@.len() ==> self.entries@[i].0 != self.entries@[j].0
        &&& forall|i: int|
            0 <= i < self.entries@.len() ==> (#[trigger] self.entries@[i]).0 < self.next_token
    }

    /// The user id a cookie identifies: none unless the cookie was issued
    /// under this process's signing key and its session is live.
    pub open spec fn lookup(self, c: Cookie) -> Option<usize> {
        if c.key != self.key {
            None
        } else {
            lookup_token(self.entries@, c.token)
        }
    }

    /// A fresh store, as each process start provides it: a new signing key
    /// and no live session.
    pub fn new() -> (s: Sessions)
        ensures
            s.wf(),
            s.entries@.len() == 0,
    {
        Sessions { key: fresh_key(), next_token: 1, entries: Vec::new() }
    }

    /// Binds a new session to the given user and returns its cookie. Fails
    /// only when the token space is exhausted.
    pub fn login(&mut self, user_id: usize) -> (r: Option<Cookie>)
        requires
            old(self).wf(),
        ensures
            final(self).wf(),
            final(self).key == old(self).key,
            match r {
                Some(c) => {
                    &&& c.key == old(self).key
                    &&& final(self).entries@ =~= old(self).entries@.push((c.token, user_id))
                    &&& final(self).lookup(c) == Some(user_id)
                    &&& forall|c2: Cookie|
                        c2.token != c.token ==> final(self).lookup(c2) == old(self).lookup(c2)
                },
                None => *final(self) == *old(self) && old(self).next_token == u64::MAX,
            },
    {
        if self.next_token == u64::MAX {
            return None;
        }
        let token = self.next_token;
        self.entries.push((token, user_id));
        self.next_token = token + 1;
        let c = Cookie { key: self.key, token };
        proof {
            lemma_lookup_token_push(old(self).entries@, token, user_id);
        }
        Some(c)
    }

    /// Ends the cookie's session, if it is live; other sessions stay.
    pub fn logout(&mut self, c: &Cookie)
        requires
            old(self).wf(),
        ensures
            final(self).wf(),
            final(self).key == old(self).key,
            final(self).next_token == old(self).next_token,
            final(self).lookup(*c) is None,
            forall|c2: Cookie|
                c2.token != c.token ==> final(self).lookup(c2) == old(self).lookup(c2),
    {
        let n = self.entries.len();
        let mut i: usize = 0;
        while i < n
            invariant
                old(self).wf(),
                *self == *old(self),
                n == self.entries@.len(),
                0 <= i <= n,
                forall|k: int| 0 <= k < i ==> self.entries@[k].0 != c.token,
            decreases n - i,
        {
            if self.entries[i].0 == c.token {
                let ghost pre = self.entries@;
                self.entries.remove(i);
                proof {
                    let post = self.entries@;
                    assert(post == pre.remove(i as int));
                    assert forall|t: u64| lookup_token(post, t) == (if t == c.token {
                        None
                    } else {
                        lookup_token(pre, t)
                    }) by {
                        lemma_lookup_token_remove(pre, i as int, t);
                    }
                }
                return ;
            }
            i = i + 1;
        }
        proof {
            lemma_lookup_token_absent(self.entries@, c.token);
        }
    }

    /// The user id the cookie identifies, if any.
    pub fn current_user_id(&self, c: &Cookie) -> (r: Option<usize>)
        ensures
            r == self.lookup(*c),
    {
        if c.key != self.key {
            return None;
        }
        let n = self.entries.len();
        let mut i: usize = 0;
        proof {
            assert(self.entries@.skip(0) =~= self.entries@);
        }
        while i < n
            invariant
                c.key == self.key,
                n == self.entries@.len(),
                0 <= i <= n,
                lookup_token(self.entries@, c.token) == lookup_token(
                    self.entries@.skip(i as int),
                    c.token,
                ),
            decreases n - i,
        {
            proof {
                assert(self.entries@.skip(i as int).drop_first() =~= self.entries@.skip(
                    i as int + 1,
                ));
                assert(self.entries@.skip(i as int)[0] == self.entries@[i as int]);
            }
            if self.entries[i].0 == c.token {
                return Some(self.entries[i].1);
            }
            i = i + 1;
        }
        proof {
            assert(self.entries@.skip(n as int) =~= Seq::<(u64, usize)>::empty());
        }
        None
    }
}

proof fn lemma_lookup_token_push(entries: Seq<(u64, usize)>, token: u64, user_id: usize)
    requires
        forall|i: int| 0 <= i < entries.len() ==> (#[trigger] entries[i]).0 != token,
    ensures
        lookup_token(entries.push((token, user_id)), token) == Some(user_id),
        forall|t: u64|
            t != token ==> lookup_token(entries.push((token, user_id)), t) == lookup_token(
                entries,
                t,
            ),
    decreases entries.len(),
{
    let post = entries.push((token, user_id));
    if entries.len() == 0 {
        assert(post[0] == (token, user_id));
        assert forall|t: u64| t != token implies lookup_token(post, t) == lookup_token(
            entries,
            t,
        ) by {
            assert(post[0] == (token, user_id));
            assert(post.drop_first() =~= Seq::<(u64, usize)>::empty());
            assert(lookup_token(post.drop_first(), t) is None);
            assert(lookup_token(post, t) == lookup_token(post.drop_first(), t));
        }
    } else {
        assert forall|i: int|
            0 <= i < entries.drop_first().len() implies (#[trigger] entries.drop_first()[i]).0
            != token by {
            assert(entries.drop_first()[i] == entries[i + 1]);
        }
        lemma_lookup_token_push(entries.drop_first(), token, user_id);
        assert(post.drop_first() =~= entries.drop_first().push((token, user_id)));
        assert(post[0] == entries[0]);
        assert(lookup_token(post, token) == Some(user_id));
        assert forall|t: u64| t != token implies lookup_token(post, t) == lookup_token(
            entries,
            t,
        ) by {
            assert(post[0] == entries[0]);
            assert(post.drop_first() =~= entries.drop_first().push((token, user_id)));
            assert(lookup_token(entries.drop_first().push((token, user_id)), t)
                == lookup_token(entries.drop_first(), t));
            assert(lookup_token(post, t) == (if entries[0].0 == t {
                Some(entries[0].1)
            } else {
                lookup_token(post.drop_first(), t)
            }));
        }
    }
}

proof fn lemma_lookup_token_remove(entries: Seq<(u64, usize)>, i: int, t: u64)
    requires
        0 <= i < entries.len(),
        forall|k: int, l: int|
            0 <= k < l < entries.len() ==> entries[k].0 != entries[l].0,
        forall|k: int| 0 <= k < i ==> entries[k].0 != entries[i].0,
    ensures
        lookup_token(entries.remove(i), t) == (if t == entries[i].0 {
            None
        } else {
            lookup_token(entries, t)
        }),
    decreases entries.len(),
{
    if i == 0 {
        assert(entries.remove(0) =~= entries.drop_first());
        if t == entries[0].0 {
            lemma_lookup_token_absent_of_distinct(entries, t);
        }
    } else {
        assert(entries.remove(i).drop_first() =~= entries.drop_first().remove(i - 1));
        assert forall|k: int, l: int|
            0 <= k < l < entries.drop_first().len() implies entries.drop_first()[k].0
            != entries.drop_first()[l].0 by {
            assert(entries.drop_first()[k] == entries[k + 1]);
            assert(entries.drop_first()[l] == entries[l + 1]);
        }
        assert forall|k: int| 0 <= k < i - 1 implies (#[trigger] entries.drop_first()[k]).0
            != entries.drop_first()[i - 1].0 by {
            assert(entries.drop_first()[k] == entries[k + 1]);
            assert(entries.drop_first()[i - 1] == entries[i]);
        }
        lemma_lookup_token_remove(entries.drop_first(), i - 1, t);
        assert(entries.drop_first()[i - 1] == entries[i]);
        assert(entries.remove(i)[0] == entries[0]);
    }
}

proof fn lemma_lookup_token_absent_of_distinct(entries: Seq<(u64, usize)>, t: u64)
    requires
        entries.len() > 0,
        t == entries[0].0,
        forall|k: int, l: int|
            0 <= k < l < entries.len() ==> entries[k].0 != entries[l].0,
    ensures
        lookup_token(entries.drop_first(), t) is None,
{
    assert forall|k: int|
        0 <= k < entries.drop_first().len() implies (#[trigger] entries.drop_first()[k]).0
        != t by {
        assert(entries.drop_first()[k] == entries[k + 1]);
    }
    lemma_lookup_token_absent(entries.drop_first(), t);
}

proof fn lemma_lookup_token_absent(entries: Seq<(u64, usize)>, t: u64)
    requires
        forall|k: int| 0 <= k < entries.len() ==> (#[trigger] entries[k]).0 != t,
    ensures
        lookup_token(entries, t) is None,
    decreases entries.len(),
{
    if entries.len() > 0 {
        assert forall|k: int|
            0 <= k < entries.drop_first().len() implies (#[trigger] entries.drop_first()[k]).0
            != t by {
            assert(entries.drop_first()[k] == entries[k + 1]);
        }
        lemma_lookup_token_absent(entries.drop_first(), t);
    }
}

/// Restarting the process invalidates every previously issued cookie: a fresh
/// session store holds no live session, so no cookie — whatever key or token
/// it carries — identifies a user.
pub proof fn lemma_restart_invalidates_cookies(s: Sessions, c: Cookie)
    requires
        s.entries@.len() == 0,
    ensures
        s.lookup(c) is None,
{
}

/// The user registry: the users known at startup, each under its id.
pub open spec fn lookup_user(users: Seq<(usize, User)>, id: usize) -> Option<User>
    decreases users.len(),
{
    if users.len() == 0 {
        None
    } else if users[0].0 == id {
        Some(users[0].1)
    } else {
        lookup_user(users.drop_first(), id)
    }
}

/// The registered user with the given id, if any.
pub fn find_user(users: &Vec<(usize, User)>, id: usize) -> (r: Option<User>)
    ensures
        match r {
            Some(u) => lookup_user(users@, id) == Some(u),
            None => lookup_user(users@, id) is None,
        },
{
    let n = users.len();
    let mut i: usize = 0;
    proof {
        assert(users@.skip(0) =~= users@);
    }
    while i < n
        invariant
            n == users@.len(),
            0 <= i <= n,
            lookup_user(users@, id) == lookup_user(users@.skip(i as int), id),
        decreases n - i,
    {
        proof {
            assert(users@.skip(i as int).drop_first() =~= users@.skip(i as int + 1));
            assert(users@.skip(i as int)[0] == users@[i as int]);
        }
        if users[i].0 == id {
            return Some(users[i].1.dup());
        }
        i = i + 1;
    }
    proof {
        assert(users@.skip(n as int) =~= Seq::<(usize, User)>::empty());
    }
    None
}

} // verus!

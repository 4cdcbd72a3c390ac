//! A storage backend whose rows live in the program, so that the verifier
//! knows its contents exactly.

use vstd::prelude::*;
use crate::store::{Store, StoreError, Tables};
use crate::text::{owned, same_text};
use crate::types::{InsertPost, Post, PostRow, Session, SessionRow, rows_of};

verus! {

struct UserRow {
    username: String,
    record: String,
}

struct SessionEntry {
    username: String,
    session: Session,
}

/// The map that sends each key to the value at the same position.
spec fn assoc<V>(keys: Seq<Seq<char>>, vals: Seq<V>) -> Map<Seq<char>, V> {
    Map::new(|k: Seq<char>| keys.contains(k), |k: Seq<char>| vals[keys.index_of(k)])
}

proof fn lemma_assoc_at<V>(keys: Seq<Seq<char>>, vals: Seq<V>, i: int)
    requires
        keys.no_duplicates(),
        keys.len() == vals.len(),
        0 <= i < keys.len(),
    ensures
        assoc(keys, vals).contains_key(keys[i]),
        assoc(keys, vals)[keys[i]] == vals[i],
{
    assert(keys.contains(keys[i]));
    assert(keys.index_of(keys[i]) == i);
}

proof fn lemma_assoc_absent<V>(keys: Seq<Seq<char>>, vals: Seq<V>, k: Seq<char>)
    requires
        forall|i: int| 0 <= i < keys.len() ==> keys[i] != k,
    ensures
        !assoc(keys, vals).contains_key(k),
{
}

proof fn lemma_assoc_push<V>(keys: Seq<Seq<char>>, vals: Seq<V>, k: Seq<char>, v: V)
    requires
        keys.no_duplicates(),
        keys.len() == vals.len(),
        !keys.contains(k),
    ensures
        keys.push(k).no_duplicates(),
        assoc(keys.push(k), vals.push(v)) == assoc(keys, vals).insert(k, v),
{
    let keys2 = keys.push(k);
    let vals2 = vals.push(v);
    assert forall|i: int, j: int|
        0 <= i < keys2.len() && 0 <= j < keys2.len() && i != j implies keys2[i] != keys2[j] by {
        if i < keys.len() {
            assert(keys.contains(keys[i]));
        }
        if j < keys.len() {
            assert(keys.contains(keys[j]));
        }
    }
    assert forall|x: Seq<char>| #[trigger]
        assoc(keys2, vals2).contains_key(x) == assoc(keys, vals).insert(k, v).contains_key(
            x,
        ) by {
        if keys.contains(x) {
            let i = keys.index_of(x);
            assert(keys2[i] == x);
        }
        if x == k {
            assert(keys2[keys.len() as int] == x);
        }
    }
    assert forall|x: Seq<char>| #[trigger] assoc(keys2, vals2).contains_key(x) implies assoc(
        keys2,
        vals2,
    )[x] == assoc(keys, vals).insert(k, v)[x] by {
        let i = keys2.index_of(x);
        lemma_assoc_at(keys2, vals2, i);
        if i < keys.len() {
            lemma_assoc_at(keys, vals, i);
            assert(keys.contains(keys[i]));
        }
    }
    assert(assoc(keys2, vals2) =~= assoc(keys, vals).insert(k, v));
}

proof fn lemma_assoc_remove<V>(keys: Seq<Seq<char>>, vals: Seq<V>, i: int)
    requires
        keys.no_duplicates(),
        keys.len() == vals.len(),
        0 <= i < keys.len(),
    ensures
        keys.remove(i).no_duplicates(),
        !keys.remove(i).contains(keys[i]),
        assoc(keys.remove(i), vals.remove(i)) == assoc(keys, vals).remove(keys[i]),
{
    let keys2 = keys.remove(i);
    let vals2 = vals.remove(i);
    assert forall|a: int| 0 <= a < keys2.len() implies #[trigger] keys2[a] == keys[if a < i {
        a
    } else {
        a + 1
    }] && vals2[a] == vals[if a < i {
        a
    } else {
        a + 1
    }] by {}
    assert forall|x: Seq<char>| #[trigger]
        assoc(keys2, vals2).contains_key(x) == assoc(keys, vals).remove(keys[i]).contains_key(
            x,
        ) by {
        if keys2.contains(x) {
            let a = keys2.index_of(x);
            assert(keys[if a < i {
                a
            } else {
                a + 1
            }] == x);
        }
        if keys.contains(x) && x != keys[i] {
            let b = keys.index_of(x);
            assert(keys2[if b < i {
                b
            } else {
                b - 1
            }] == x);
        }
    }
    assert forall|x: Seq<char>| #[trigger] assoc(keys2, vals2).contains_key(x) implies assoc(
        keys2,
        vals2,
    )[x] == assoc(keys, vals).remove(keys[i])[x] by {
        let a = keys2.index_of(x);
        lemma_assoc_at(keys2, vals2, a);
        lemma_assoc_at(keys, vals, if a < i {
            a
        } else {
            a + 1
        });
    }
    assert(assoc(keys2, vals2) =~= assoc(keys, vals).remove(keys[i]));
}

proof fn lemma_tokens_push(tokens: Seq<Seq<char>>, token: Seq<char>)
    requires
        tokens.no_duplicates(),
        !tokens.contains(token),
    ensures
        tokens.push(token).no_duplicates(),
{
    let t2 = tokens.push(token);
    assert forall|i: int, j: int|
        0 <= i < t2.len() && 0 <= j < t2.len() && i != j implies t2[i] != t2[j] by {
        if i < tokens.len() {
            assert(tokens.contains(tokens[i]));
        }
        if j < tokens.len() {
            assert(tokens.contains(tokens[j]));
        }
    }
}

proof fn lemma_tokens_remove(tokens: Seq<Seq<char>>, i: int)
    requires
        tokens.no_duplicates(),
        0 <= i < tokens.len(),
    ensures
        tokens.remove(i).no_duplicates(),
{
    let t2 = tokens.remove(i);
    assert forall|a: int| 0 <= a < t2.len() implies #[trigger] t2[a] == tokens[if a < i {
        a
    } else {
        a + 1
    }] by {}
}

spec fn user_names(rows: Seq<UserRow>) -> Seq<Seq<char>> {
    rows.map_values(|r: UserRow| r.username@)
}

spec fn user_records(rows: Seq<UserRow>) -> Seq<Seq<char>> {
    rows.map_values(|r: UserRow| r.record@)
}

spec fn session_names(rows: Seq<SessionEntry>) -> Seq<Seq<char>> {
    rows.map_values(|e: SessionEntry| e.username@)
}

spec fn session_tokens(rows: Seq<SessionEntry>) -> Seq<Seq<char>> {
    rows.map_values(|e: SessionEntry| e.session.token@)
}

spec fn session_rows(rows: Seq<SessionEntry>) -> Seq<SessionRow> {
    rows.map_values(|e: SessionEntry| e.session@)
}

/// In-memory tables. Usernames are unique in both keyed tables and tokens
/// are unique among the sessions, as a storage-level constraint would have
/// it.
pub struct MemoryStore {
    users: Vec<UserRow>,
    sessions: Vec<SessionEntry>,
    posts: Vec<Post>,
    next_post_num: u64,
}

impl MemoryStore {
    /// Usernames and tokens occur once, and the log is numbered in order
    /// below the next number.
    pub closed spec fn wf(&self) -> bool {
        &&& user_names(self.users@).no_duplicates()
        &&& session_names(self.sessions@).no_duplicates()
        &&& session_tokens(self.sessions@).no_duplicates()
        &&& 1 <= self.next_post_num
        &&& forall|i: int|
            0 <= i < self.posts@.len() ==> 1 <= (#[trigger] self.posts@[i]).post_num
                < self.next_post_num
        &&& forall|i: int, j: int|
            0 <= i < j < self.posts@.len() ==> (#[trigger] self.posts@[i]).post_num
                < (#[trigger] self.posts@[j]).post_num
    }

    /// The tables that the rows denote.
    pub closed spec fn model(&self) -> Tables {
        Tables {
            users: assoc(user_names(self.users@), user_records(self.users@)),
            sessions: assoc(session_names(self.sessions@), session_rows(self.sessions@)),
            posts: rows_of(self.posts@),
            next_post_num: self.next_post_num as nat,
        }
    }

    proof fn lemma_model_wf(&self)
        requires
            self.wf(),
        ensures
            self.model().wf(),
    {
        let t = self.model();
        let names = session_names(self.sessions@);
        let rows = session_rows(self.sessions@);
        let tokens = session_tokens(self.sessions@);
        assert forall|a: Seq<char>, b: Seq<char>|
            t.sessions.contains_key(a) && t.sessions.contains_key(b)
                && #[trigger] t.sessions[a].token == #[trigger] t.sessions[b].token implies a
            == b by {
            let i = names.index_of(a);
            let j = names.index_of(b);
            lemma_assoc_at(names, rows, i);
            lemma_assoc_at(names, rows, j);
            assert(tokens[i] == tokens[j]);
        }
        assert forall|i: int| 0 <= i < t.posts.len() implies 1 <= (#[trigger] t.posts[i]).post_num
            < t.next_post_num by {
            assert(t.posts[i] == self.posts@[i]@);
        }
        assert forall|i: int, j: int| 0 <= i < j < t.posts.len() implies (#[trigger] t.posts[i]).post_num
            < (#[trigger] t.posts[j]).post_num by {
            assert(t.posts[i] == self.posts@[i]@);
            assert(t.posts[j] == self.posts@[j]@);
        }
    }

    /// A store with three empty tables; the first message will be number 1.
    pub fn new() -> (s: MemoryStore)
        ensures
            s.wf(),
            s.model() == Tables::empty(),
    {
        let s = MemoryStore {
            users: Vec::new(),
            sessions: Vec::new(),
            posts: Vec::new(),
            next_post_num: 1,
        };
        assert(s.model().users =~= Map::empty());
        assert(s.model().sessions =~= Map::empty());
        assert(s.model().posts =~= Seq::empty());
        s
    }

    fn user_position(&self, username: &str) -> (at: Option<usize>)
        ensures
            match at {
                Some(i) => i < self.users@.len() && user_names(self.users@)[i as int] == username@,
                None => forall|i: int|
                    0 <= i < self.users@.len() ==> user_names(self.users@)[i] != username@,
            },
    {
        let mut i: usize = 0;
        while i < self.users.len()
            invariant
                i <= self.users@.len(),
                forall|j: int| 0 <= j < i ==> user_names(self.users@)[j] != username@,
            decreases self.users@.len() - i,
        {
            if same_text(self.users[i].username.as_str(), username) {
                return Some(i);
            }
            i += 1;
        }
        None
    }

    fn session_position(&self, username: &str) -> (at: Option<usize>)
        ensures
            match at {
                Some(i) => i < self.sessions@.len() && session_names(self.sessions@)[i as int]
                    == username@,
                None => forall|i: int|
                    0 <= i < self.sessions@.len() ==> session_names(self.sessions@)[i]
                        != username@,
            },
    {
        let mut i: usize = 0;
        while i < self.sessions.len()
            invariant
                i <= self.sessions@.len(),
                forall|j: int| 0 <= j < i ==> session_names(self.sessions@)[j] != username@,
            decreases self.sessions@.len() - i,
        {
            if same_text(self.sessions[i].username.as_str(), username) {
                return Some(i);
            }
            i += 1;
        }
        None
    }

    fn token_position(&self, token: &str) -> (at: Option<usize>)
        ensures
            match at {
                Some(i) => i < self.sessions@.len() && session_tokens(self.sessions@)[i as int]
                    == token@,
                None => forall|i: int|
                    0 <= i < self.sessions@.len() ==> session_tokens(self.sessions@)[i] != token@,
            },
    {
        let mut i: usize = 0;
        while i < self.sessions.len()
            invariant
                i <= self.sessions@.len(),
                forall|j: int| 0 <= j < i ==> session_tokens(self.sessions@)[j] != token@,
            decreases self.sessions@.len() - i,
        {
            if same_text(self.sessions[i].session.token.as_str(), token) {
                return Some(i);
            }
            i += 1;
        }
        None
    }
}

/// Copies a stored message.
fn copy_post(p: &Post) -> (copy: Post)
    ensures
        copy == *p,
{
    Post {
        post_num: p.post_num,
        user: p.user.clone(),
        message: p.message.clone(),
        time: p.time.clone(),
    }
}

impl Store for MemoryStore {
    open spec fn inv(&self) -> bool {
        self.wf()
    }

    open spec fn tables(&self) -> Option<Tables> {
        Some(self.model())
    }

    proof fn lemma_tables_wf(&self) {
        self.lemma_model_wf();
    }

    fn insert_user(&mut self, username: &str, record: &str) -> (r: Result<(), StoreError>) {
        let ghost names = user_names(self.users@);
        let ghost records = user_records(self.users@);
        proof {
            self.lemma_model_wf();
        }
        match self.user_position(username) {
            Some(i) => {
                proof {
                    lemma_assoc_at(names, records, i as int);
                }
                Err(StoreError::Conflict)
            },
            None => {
                self.users.push(UserRow { username: owned(username), record: owned(record) });
                proof {
                    lemma_assoc_absent(names, records, username@);
                    lemma_assoc_push(names, records, username@, record@);
                    assert(user_names(self.users@) =~= names.push(username@));
                    assert(user_records(self.users@) =~= records.push(record@));
                    self.lemma_model_wf();
                }
                Ok(())
            },
        }
    }

    fn find_record(&self, username: &str) -> (r: Result<Option<String>, StoreError>) {
        let ghost names = user_names(self.users@);
        let ghost records = user_records(self.users@);
        proof {
            self.lemma_model_wf();
        }
        match self.user_position(username) {
            Some(i) => {
                proof {
                    lemma_assoc_at(names, records, i as int);
                }
                Ok(Some(self.users[i].record.clone()))
            },
            None => {
                proof {
                    lemma_assoc_absent(names, records, username@);
                }
                Ok(None)
            },
        }
    }

    fn put_session(&mut self, username: &str, token: &str, expiry: u64) -> (r: Result<
        (),
        StoreError,
    >) {
        let ghost t = self.model();
        let ghost names = session_names(self.sessions@);
        let ghost rows = session_rows(self.sessions@);
        let ghost tokens = session_tokens(self.sessions@);
        proof {
            self.lemma_model_wf();
        }
        // The write is refused when another user holds the token.
        let held = self.token_position(token);
        if let Some(j) = held {
            proof {
                lemma_assoc_at(names, rows, j as int);
            }
            if !same_text(self.sessions[j].username.as_str(), username) {
                assert(t.holds(names[j as int], token@));
                return Err(StoreError::Conflict);
            }
        }
        assert(t.token_free_for(username@, token@)) by {
            assert forall|other: Seq<char>| #[trigger] t.holds(other, token@) implies other
                == username@ by {
                let i = names.index_of(other);
                lemma_assoc_at(names, rows, i);
                assert(tokens[i] == token@);
            }
        }
        // The old row of the user goes.
        let at = self.session_position(username);
        if let Some(i) = at {
            self.sessions.remove(i);
            proof {
                lemma_assoc_remove(names, rows, i as int);
                assert(session_names(self.sessions@) =~= names.remove(i as int));
                assert(session_rows(self.sessions@) =~= rows.remove(i as int));
                assert(session_tokens(self.sessions@) =~= tokens.remove(i as int));
                lemma_tokens_remove(tokens, i as int);
            }
        } else {
            proof {
                lemma_assoc_absent(names, rows, username@);
                assert(!names.contains(username@));
            }
        }
        let ghost names1 = session_names(self.sessions@);
        let ghost rows1 = session_rows(self.sessions@);
        let ghost tokens1 = session_tokens(self.sessions@);
        // No row is left with the token: only the user's own row could have
        // held it, and that row is gone.
        assert(!tokens1.contains(token@)) by {
            if tokens1.contains(token@) {
                let a = tokens1.index_of(token@);
                match at {
                    Some(i) => {
                        tokens.remove_ensures(i as int);
                        let b = if a < i {
                            a
                        } else {
                            a + 1
                        };
                        assert(tokens[b] == token@);
                        assert(held is Some);
                        assert(names[held.unwrap() as int] == username@);
                        assert(names[i as int] == username@);
                        assert(tokens[held.unwrap() as int] == token@);
                    },
                    None => {
                        assert(tokens[a] == token@);
                        assert(held is Some);
                        assert(names[held.unwrap() as int] == username@);
                    },
                }
            }
        }
        // The new row comes.
        let row = Session { token: owned(token), expiry };
        self.sessions.push(SessionEntry { username: owned(username), session: row });
        proof {
            let row_v = SessionRow { token: token@, expiry };
            lemma_assoc_push(names1, rows1, username@, row_v);
            assert(session_names(self.sessions@) =~= names1.push(username@));
            assert(session_rows(self.sessions@) =~= rows1.push(row_v));
            assert(session_tokens(self.sessions@) =~= tokens1.push(token@));
            assert(tokens1.push(token@).no_duplicates()) by {
                lemma_tokens_push(tokens1, token@);
            }
            assert(self.model().sessions =~= t.sessions.insert(username@, row_v));
            assert(self.model() == t.with_session(username@, row_v));
            self.lemma_model_wf();
        }
        Ok(())
    }

    fn find_session(&self, username: &str) -> (r: Result<Option<Session>, StoreError>) {
        let ghost names = session_names(self.sessions@);
        let ghost rows = session_rows(self.sessions@);
        proof {
            self.lemma_model_wf();
        }
        match self.session_position(username) {
            Some(i) => {
                proof {
                    lemma_assoc_at(names, rows, i as int);
                }
                let found = &self.sessions[i].session;
                Ok(Some(Session { token: found.token.clone(), expiry: found.expiry }))
            },
            None => {
                proof {
                    lemma_assoc_absent(names, rows, username@);
                }
                Ok(None)
            },
        }
    }

    fn find_holder(&self, token: &str) -> (r: Result<Option<String>, StoreError>) {
        let ghost t = self.model();
        let ghost names = session_names(self.sessions@);
        let ghost rows = session_rows(self.sessions@);
        let ghost tokens = session_tokens(self.sessions@);
        proof {
            self.lemma_model_wf();
        }
        match self.token_position(token) {
            Some(i) => {
                proof {
                    lemma_assoc_at(names, rows, i as int);
                    assert(t.holds(names[i as int], token@));
                    let u = choose|u: Seq<char>| t.holds(u, token@);
                    assert(t.holds(u, token@));
                    assert(u == names[i as int]);
                }
                Ok(Some(self.sessions[i].username.clone()))
            },
            None => {
                proof {
                    assert forall|u: Seq<char>| !t.holds(u, token@) by {
                        if t.holds(u, token@) {
                            let i = names.index_of(u);
                            lemma_assoc_at(names, rows, i);
                            assert(tokens[i] == token@);
                        }
                    }
                }
                Ok(None)
            },
        }
    }

    fn delete_session(&mut self, username: &str) -> (r: Result<bool, StoreError>) {
        let ghost t = self.model();
        let ghost names = session_names(self.sessions@);
        let ghost rows = session_rows(self.sessions@);
        let ghost tokens = session_tokens(self.sessions@);
        proof {
            self.lemma_model_wf();
        }
        match self.session_position(username) {
            Some(i) => {
                self.sessions.remove(i);
                proof {
                    lemma_assoc_at(names, rows, i as int);
                    lemma_assoc_remove(names, rows, i as int);
                    lemma_tokens_remove(tokens, i as int);
                    assert(session_names(self.sessions@) =~= names.remove(i as int));
                    assert(session_rows(self.sessions@) =~= rows.remove(i as int));
                    assert(session_tokens(self.sessions@) =~= tokens.remove(i as int));
                    assert(self.model() == t.without_session(username@));
                    self.lemma_model_wf();
                }
                Ok(true)
            },
            None => {
                proof {
                    lemma_assoc_absent(names, rows, username@);
                    assert(t.sessions.remove(username@) =~= t.sessions);
                    assert(self.model() == t.without_session(username@));
                }
                Ok(false)
            },
        }
    }

    fn append_post(&mut self, post: &InsertPost) -> (r: Result<u64, StoreError>) {
        let ghost t = self.model();
        proof {
            self.lemma_model_wf();
        }
        if self.next_post_num == u64::MAX {
            return Err(StoreError::Failure);
        }
        let number = self.next_post_num;
        let ghost before = self.posts@;
        self.posts.push(
            Post {
                post_num: number,
                user: post.user.clone(),
                message: post.message.clone(),
                time: post.time.clone(),
            },
        );
        self.next_post_num = number + 1;
        proof {
            assert(rows_of(self.posts@) =~= t.posts.push(
                PostRow { post_num: number, user: post.user@, message: post.message@, time: post.time@ },
            ));
            assert(self.model() == t.with_post(post.user@, post.message@, post.time@));
            self.lemma_model_wf();
        }
        Ok(number)
    }

    fn all_posts(&self) -> (r: Result<Vec<Post>, StoreError>) {
        proof {
            self.lemma_model_wf();
        }
        let mut out: Vec<Post> = Vec::new();
        let mut i: usize = 0;
        while i < self.posts.len()
            invariant
                i <= self.posts@.len(),
                out@ == self.posts@.subrange(0, i as int),
            decreases self.posts@.len() - i,
        {
            out.push(copy_post(&self.posts[i]));
            assert(out@ =~= self.posts@.subrange(0, i + 1));
            i += 1;
        }
        assert(out@ =~= self.posts@);
        Ok(out)
    }
}

} // verus!

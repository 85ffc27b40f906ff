//! The record store: an abstract key-addressed store of credential
//! records, supporting get-by-field and upsert. Usernames are unique
//! among all records and ids are assigned on insertion, never reused.

use vstd::prelude::*;

use crate::errors::StoreError;
use crate::user::{Auto, DatabaseUser, LimitedString, UserView, MAX_USERNAME_LENGTH};

verus! {

/// Whether some record in `s` carries the username `name`.
pub open spec fn has_username(s: Seq<UserView>, name: Seq<char>) -> bool {
    exists|i: int| 0 <= i < s.len() && (#[trigger] s[i]).username == name
}

/// The position of the record carrying `name`; meaningful only when
/// `has_username` holds, and unique because usernames are.
pub open spec fn username_index(s: Seq<UserView>, name: Seq<char>) -> int {
    choose|i: int| 0 <= i < s.len() && (#[trigger] s[i]).username == name
}

/// The record carrying the username `name`.
pub open spec fn user_with_username(s: Seq<UserView>, name: Seq<char>) -> UserView {
    s[username_index(s, name)]
}

/// Whether some record in `s` carries the assigned id `id`.
pub open spec fn has_id(s: Seq<UserView>, id: i64) -> bool {
    exists|i: int| 0 <= i < s.len() && (#[trigger] s[i]).id == Auto::Fixed(id)
}

/// The position of the record carrying `id`; meaningful only when
/// `has_id` holds, and unique because ids are.
pub open spec fn id_index(s: Seq<UserView>, id: i64) -> int {
    choose|i: int| 0 <= i < s.len() && (#[trigger] s[i]).id == Auto::Fixed(id)
}

/// The record carrying the assigned id `id`.
pub open spec fn user_with_id(s: Seq<UserView>, id: i64) -> UserView {
    s[id_index(s, id)]
}

/// An in-memory key-addressed record store.
pub struct UserStore {
    records: Vec<DatabaseUser>,
}

impl View for UserStore {
    type V = Seq<UserView>;

    closed spec fn view(&self) -> Seq<UserView> {
        self.records@.map_values(|u: DatabaseUser| u@)
    }
}

impl UserStore {
    /// The store's invariant: every record has an assigned id equal to
    /// one more than its position (so ids are unique and never zero),
    /// and no two records share a username.
    pub closed spec fn wf(&self) -> bool {
        &&& forall|i: int|
            0 <= i < self@.len() ==> (#[trigger] self@[i]).id == Auto::Fixed((i + 1) as i64)
        &&& forall|i: int, j: int|
            0 <= i < self@.len() && 0 <= j < self@.len() && i != j ==> (#[trigger] self@[i]).username
                != (#[trigger] self@[j]).username
        &&& self@.len() < i64::MAX
    }

    /// Law: in a well-formed store every record carries an assigned
    /// id, and no two records share a username or an id.
    pub proof fn lemma_wf_unique(&self)
        requires
            self.wf(),
        ensures
            forall|i: int| 0 <= i < self@.len() ==> (#[trigger] self@[i]).id is Fixed,
            forall|i: int, j: int|
                0 <= i < self@.len() && 0 <= j < self@.len() && i != j ==> (
                #[trigger] self@[i]).username != (#[trigger] self@[j]).username && self@[i].id
                    != self@[j].id,
    {
        assert forall|i: int, j: int|
            0 <= i < self@.len() && 0 <= j < self@.len() && i != j implies (
        #[trigger] self@[i]).username != (#[trigger] self@[j]).username && self@[i].id
            != self@[j].id by {
            assert(self@[i].id == Auto::Fixed((i + 1) as i64));
            assert(self@[j].id == Auto::Fixed((j + 1) as i64));
        }
    }

    /// Law: the record found by username carries an assigned id, that
    /// id is present in the store, and looking it up leads back to the
    /// very same record.
    pub proof fn lemma_username_id_coherent(&self, name: Seq<char>)
        requires
            self.wf(),
            has_username(self@, name),
        ensures
            user_with_username(self@, name).id is Fixed,
            has_id(self@, user_with_username(self@, name).id->Fixed_0),
            id_index(self@, user_with_username(self@, name).id->Fixed_0) == username_index(
                self@,
                name,
            ),
    {
        let k = username_index(self@, name);
        assert(0 <= k < self@.len() && self@[k].username == name);
        assert(self@[k].id == Auto::Fixed((k + 1) as i64));
        let id = (k + 1) as i64;
        assert(has_id(self@, id));
        let j = id_index(self@, id);
        assert(0 <= j < self@.len() && self@[j].id == Auto::Fixed(id));
        assert(self@[j].id == Auto::Fixed((j + 1) as i64));
        assert(j == k);
    }

    /// An empty store.
    pub fn new() -> (r: Self)
        ensures
            r@ =~= Seq::<UserView>::empty(),
            r.wf(),
    {
        UserStore { records: Vec::new() }
    }

    /// How many records the store holds.
    pub fn len(&self) -> (r: usize)
        ensures
            r == self@.len(),
    {
        self.records.len()
    }

    /// Fetch the one record whose username equals `username`
    /// byte-exactly, or `None` if there is none.
    pub fn get_one_by_username(&self, username: &LimitedString<MAX_USERNAME_LENGTH>) -> (r:
        Option<DatabaseUser>)
        requires
            self.wf(),
        ensures
            r is Some <==> has_username(self@, username@),
            r matches Some(u) ==> u@ == user_with_username(self@, username@) && u@.username
                == username@,
    {
        let n = self.records.len();
        for i in 0..n
            invariant
                n == self@.len(),
                self.wf(),
                forall|j: int| 0 <= j < i ==> (#[trigger] self@[j]).username != username@,
        {
            assert(self.records@[i as int]@ == self@[i as int]);
            if self.records[i].username_equals(username) {
                let u = self.records[i].clone();
                proof {
                    let w = username@;
                    assert(self@[i as int].username == w);
                    let k = username_index(self@, w);
                    assert(0 <= k < self@.len() && self@[k].username == w);
                    assert(k == i as int);
                }
                return Some(u);
            }
        }
        proof {
            assert(!has_username(self@, username@));
        }
        None
    }

    /// Fetch the one record whose assigned id equals `id`, or `None`
    /// if there is none.
    pub fn get_one_by_id(&self, id: i64) -> (r: Option<DatabaseUser>)
        requires
            self.wf(),
        ensures
            r is Some <==> has_id(self@, id),
            r matches Some(u) ==> u@ == user_with_id(self@, id) && u@.id == Auto::Fixed(id),
    {
        let n = self.records.len();
        for i in 0..n
            invariant
                n == self@.len(),
                self.wf(),
                forall|j: int| 0 <= j < i ==> (#[trigger] self@[j]).id != Auto::Fixed(id),
        {
            assert(self.records@[i as int]@ == self@[i as int]);
            if self.records[i].id_equals(id) {
                let u = self.records[i].clone();
                proof {
                    assert(self@[i as int].id == Auto::Fixed(id));
                    let k = id_index(self@, id);
                    assert(0 <= k < self@.len() && self@[k].id == Auto::Fixed(id));
                    assert(self@[k].id == Auto::Fixed((k + 1) as i64));
                    assert(self@[i as int].id == Auto::Fixed((i + 1) as i64));
                    assert(k == i as int);
                }
                return Some(u);
            }
        }
        proof {
            assert(!has_id(self@, id));
        }
        None
    }

    /// Insert a record, assigning it a fresh id: the store owns
    /// identity assignment, and the given record's id is replaced.
    /// Fails without change when the username is already taken, or
    /// when the id space is exhausted.
    pub fn insert(&mut self, user: DatabaseUser) -> (r: Result<DatabaseUser, StoreError>)
        requires
            old(self).wf(),
        ensures
            final(self).wf(),
            has_username(old(self)@, user@.username) ==> r == Err::<DatabaseUser, StoreError>(
                StoreError::DuplicateUsername,
            ) && final(self)@ == old(self)@,
            !has_username(old(self)@, user@.username) && r is Err ==> r == Err::<
                DatabaseUser,
                StoreError,
            >(StoreError::IdSpaceExhausted) && old(self)@.len() >= i64::MAX - 1,
            r matches Ok(inserted) ==> {
                &&& !has_username(old(self)@, user@.username)
                &&& inserted@.username == user@.username
                &&& inserted@.password_hash == user@.password_hash
                &&& inserted@.id is Fixed
                &&& (forall|i: int| 0 <= i < old(self)@.len() ==> (#[trigger] old(self)@[i]).id
                    != inserted@.id)
                &&& final(self)@ =~= old(self)@.push(inserted@)
            },
            r is Err ==> final(self)@ == old(self)@,
            !has_username(old(self)@, user@.username) && old(self)@.len() < i64::MAX - 1 ==> r
                is Ok,
    {
        if self.get_one_by_username(user.username_limited()).is_some() {
            return Err(StoreError::DuplicateUsername);
        }
        let n = self.records.len();
        if n as u64 >= (i64::MAX - 1) as u64 {
            return Err(StoreError::IdSpaceExhausted);
        }
        let assigned = user.with_id(Auto::fixed((n as i64) + 1));
        let stored = assigned.clone();
        self.records.push(stored);
        proof {
            assert(self@ =~= old(self)@.push(assigned@));
            assert forall|i: int, j: int|
                0 <= i < self@.len() && 0 <= j < self@.len() && i != j implies (
            #[trigger] self@[i]).username != (#[trigger] self@[j]).username by {
                if i < old(self)@.len() && j < old(self)@.len() {
                    assert(old(self)@[i].username != old(self)@[j].username);
                }
            }
        }
        Ok(assigned)
    }

    /// Replace the one record whose id equals the given record's id.
    /// Fails without change when no record carries that id.
    pub fn update(&mut self, user: &DatabaseUser) -> (r: Result<(), StoreError>)
        requires
            old(self).wf(),
            user@.id is Fixed,
            user@.username == user_with_id(old(self)@, user@.id->Fixed_0).username || !has_id(
                old(self)@,
                user@.id->Fixed_0,
            ),
        ensures
            final(self).wf(),
            r is Ok <==> has_id(old(self)@, user@.id->Fixed_0),
            r is Ok ==> final(self)@ =~= old(self)@.update(
                id_index(old(self)@, user@.id->Fixed_0),
                user@,
            ),
            r is Err ==> final(self)@ == old(self)@ && r == Err::<(), StoreError>(
                StoreError::RecordNotFound,
            ),
    {
        let id = user.id();
        let n = self.records.len();
        for i in 0..n
            invariant
                n == self@.len(),
                self.wf(),
                self@ =~= old(self)@,
                user@.id == Auto::Fixed(id),
                user@.username == user_with_id(self@, id).username || !has_id(self@, id),
                forall|j: int| 0 <= j < i ==> (#[trigger] self@[j]).id != Auto::Fixed(id),
        {
            assert(self.records@[i as int]@ == self@[i as int]);
            if self.records[i].id_equals(id) {
                proof {
                    let k = id_index(self@, id);
                    assert(0 <= k < self@.len() && self@[k].id == Auto::Fixed(id));
                    assert(self@[k].id == Auto::Fixed((k + 1) as i64));
                    assert(k == i as int);
                    assert(user@.username == self@[i as int].username);
                }
                let ghost before = self@;
                let replacement = user.clone();
                self.records[i] = replacement;
                proof {
                    assert(self@ =~= before.update(i as int, user@));
                    assert forall|p: int, q: int|
                        0 <= p < self@.len() && 0 <= q < self@.len() && p != q implies (
                    #[trigger] self@[p]).username != (#[trigger] self@[q]).username by {
                        assert(before[p].username != before[q].username);
                    }
                }
                return Ok(());
            }
        }
        proof {
            assert(!has_id(self@, id));
        }
        Err(StoreError::RecordNotFound)
    }
}

} // verus!

use std::collections::HashMap;
use vstd::prelude::*;
use vstd::set_lib::lemma_len_subset;
use crate::ids::random_id;
use crate::models::{Task, UpdateTask, User, updated};

verus! {

broadcast use vstd::std_specs::hash::group_hash_axioms;

/// The identifiers whose value is below `n`.
pub open spec fn ids_below(n: int) -> Set<u128> {
    Set::new(|k: u128| (k as int) < n)
}

/// There are exactly `n` identifiers below `n`.
proof fn lemma_ids_below(n: int)
    requires
        0 <= n <= u128::MAX + 1,
    ensures
        ids_below(n).finite(),
        ids_below(n).len() == n,
    decreases n,
{
    if n == 0 {
        assert(ids_below(0) =~= Set::empty());
    } else {
        lemma_ids_below(n - 1);
        assert(ids_below(n) =~= ids_below(n - 1).insert((n - 1) as u128));
    }
}

/// An identifier that is not a key of `m`: a random one, or, should that be
/// taken, the least free one.
fn fresh_key<V>(m: &HashMap<u128, V>) -> (r: u128)
    ensures
        !m@.contains_key(r),
{
    let first = random_id();
    if !m.contains_key(&first) {
        return first;
    }
    let n = m.len();
    let mut k: u128 = 0;
    while m.contains_key(&k)
        invariant
            n == m@.len(),
            k <= n,
            forall|j: u128| j < k ==> m@.contains_key(j),
        decreases n - k,
    {
        proof {
            lemma_ids_below(k + 1);
            assert(ids_below(k + 1).subset_of(m@.dom()));
            lemma_len_subset(ids_below(k + 1), m@.dom());
        }
        k = k + 1;
    }
    k
}

/// The registered users, keyed by identifier.
pub struct UserStore {
    users: HashMap<u128, User>,
}

impl View for UserStore {
    type V = Map<u128, User>;

    closed spec fn view(&self) -> Map<u128, User> {
        self.users@
    }
}

impl UserStore {
    /// Each user is stored under its own identifier.
    pub open spec fn wf(&self) -> bool {
        forall|id: u128| #[trigger] self@.contains_key(id) ==> self@[id].id == id
    }

    /// An empty store.
    pub fn new() -> (r: UserStore)
        ensures
            r@ == Map::<u128, User>::empty(),
            r.wf(),
    {
        UserStore { users: HashMap::new() }
    }

    /// Whether a user with identifier `id` is registered.
    pub fn contains(&self, id: u128) -> (r: bool)
        ensures
            r == self@.contains_key(id),
    {
        self.users.contains_key(&id)
    }

    /// The user registered under `id`, if any.
    pub fn get(&self, id: u128) -> (r: Option<User>)
        ensures
            match r {
                Some(u) => self@.contains_key(id) && u == self@[id],
                None => !self@.contains_key(id),
            },
    {
        match self.users.get(&id) {
            Some(u) => Some(u.duplicate()),
            None => None,
        }
    }

    /// An identifier that no registered user has.
    pub fn fresh_id(&self) -> (r: u128)
        ensures
            !self@.contains_key(r),
    {
        fresh_key(&self.users)
    }

    /// Registers `user`, whose identifier must be new.
    pub fn insert(&mut self, user: User)
        requires
            old(self).wf(),
            !old(self)@.contains_key(user.id),
        ensures
            final(self).wf(),
            final(self)@ == old(self)@.insert(user.id, user),
    {
        let id = user.id;
        self.users.insert(id, user);
    }
}

/// Whether `s` holds a task with identifier `id`.
pub open spec fn has_task(s: Seq<Task>, id: u128) -> bool {
    exists|i: int| 0 <= i < s.len() && (#[trigger] s[i]).id == id
}

/// A position of the task with identifier `id` in `s`; where identifiers are
/// unique, the only one.
pub open spec fn position_of(s: Seq<Task>, id: u128) -> int
    recommends
        has_task(s, id),
{
    choose|i: int| 0 <= i < s.len() && (#[trigger] s[i]).id == id
}

/// No two tasks of `s` share an identifier.
pub open spec fn ids_unique(s: Seq<Task>) -> bool {
    forall|i: int, j: int|
        0 <= i < s.len() && 0 <= j < s.len() && (#[trigger] s[i]).id == (#[trigger] s[j]).id
            ==> i == j
}

/// No two tasks of `m`, under the same user or under two users, share an
/// identifier.
pub open spec fn ids_distinct(m: Map<u128, Seq<Task>>) -> bool {
    forall|u: u128, v: u128, i: int, j: int|
        m.contains_key(u) && m.contains_key(v) && 0 <= i < m[u].len() && 0 <= j < m[v].len()
            && (#[trigger] m[u][i]).id == (#[trigger] m[v][j]).id ==> u == v && i == j
}

/// The tasks of user `u` in `m`; none where `m` holds no list for `u`.
pub open spec fn tasks_of(m: Map<u128, Seq<Task>>, u: u128) -> Seq<Task> {
    if m.contains_key(u) {
        m[u]
    } else {
        Seq::empty()
    }
}

/// The task with identifier `id` in the list of user `u`, if there is one.
pub open spec fn lookup(m: Map<u128, Seq<Task>>, u: u128, id: u128) -> Option<Task> {
    if m.contains_key(u) && has_task(m[u], id) {
        Some(m[u][position_of(m[u], id)])
    } else {
        None
    }
}

/// The position of the task with identifier `id` in `v`, if there is one.
fn position(v: &Vec<Task>, id: u128) -> (r: Option<usize>)
    ensures
        match r {
            Some(i) => i < v@.len() && v@[i as int].id == id,
            None => !has_task(v@, id),
        },
{
    let mut i: usize = 0;
    while i < v.len()
        invariant
            i <= v@.len(),
            forall|j: int| 0 <= j < i ==> (#[trigger] v@[j]).id != id,
        decreases v@.len() - i,
    {
        if v[i].id == id {
            return Some(i);
        }
        i = i + 1;
    }
    None
}

/// A copy of `v`, task by task.
fn copy_tasks(v: &Vec<Task>) -> (r: Vec<Task>)
    ensures
        r@ == v@,
{
    let mut out: Vec<Task> = Vec::new();
    let mut i: usize = 0;
    while i < v.len()
        invariant
            i <= v@.len(),
            out@ == v@.subrange(0, i as int),
        decreases v@.len() - i,
    {
        out.push(v[i].duplicate());
        i = i + 1;
    }
    assert(v@.subrange(0, v@.len() as int) =~= v@);
    out
}

/// The tasks of each user, in the order they were created, together with
/// every task identifier ever handed out and the user it went to.
pub struct TaskStore {
    tasks: HashMap<u128, Vec<Task>>,
    owners: HashMap<u128, u128>,
}

impl View for TaskStore {
    type V = Map<u128, Seq<Task>>;

    closed spec fn view(&self) -> Map<u128, Seq<Task>> {
        self.tasks@.map_values(|v: Vec<Task>| v@)
    }
}

impl TaskStore {
    /// The task identifiers handed out so far, including those of deleted
    /// tasks.
    pub closed spec fn issued(&self) -> Set<u128> {
        self.owners@.dom()
    }

    /// Each stored task was issued to the user it is stored under, and no
    /// list holds one identifier twice.
    pub closed spec fn wf(&self) -> bool {
        &&& forall|u: u128, i: int|
            self@.contains_key(u) && 0 <= i < self@[u].len() ==> {
                &&& self.owners@.contains_key(#[trigger] self@[u][i].id)
                &&& self.owners@[self@[u][i].id] == u
            }
        &&& forall|u: u128| #[trigger] self@.contains_key(u) ==> ids_unique(self@[u])
    }

    /// In a well-formed store no two tasks share an identifier, and every
    /// stored identifier counts as issued.
    pub proof fn lemma_wf(&self)
        requires
            self.wf(),
        ensures
            ids_distinct(self@),
            forall|u: u128, i: int|
                self@.contains_key(u) && 0 <= i < self@[u].len() ==> self.issued().contains(
                    #[trigger] self@[u][i].id,
                ),
    {
        assert forall|u: u128, v: u128, i: int, j: int|
            self@.contains_key(u) && self@.contains_key(v) && 0 <= i < self@[u].len() && 0 <= j
                < self@[v].len() && (#[trigger] self@[u][i]).id == (#[trigger] self@[v][j]).id
            implies u == v && i == j by {
            assert(self.owners@[self@[u][i].id] == u);
            assert(self.owners@[self@[v][j].id] == v);
            assert(ids_unique(self@[u]));
        }
    }

    /// An empty store.
    pub fn new() -> (r: TaskStore)
        ensures
            r@ == Map::<u128, Seq<Task>>::empty(),
            r.issued() == Set::<u128>::empty(),
            r.wf(),
    {
        let r = TaskStore { tasks: HashMap::new(), owners: HashMap::new() };
        assert(r@ =~= Map::<u128, Seq<Task>>::empty());
        r
    }

    /// An identifier that has never been handed out.
    pub fn fresh_id(&self) -> (r: u128)
        ensures
            !self.issued().contains(r),
    {
        fresh_key(&self.owners)
    }

    /// Whether the store holds a list of tasks for `user_id`.
    pub fn contains_user(&self, user_id: u128) -> (r: bool)
        ensures
            r == self@.contains_key(user_id),
    {
        self.tasks.contains_key(&user_id)
    }

    /// Appends `task`, whose identifier is new, to the list of `user_id`,
    /// creating the list if there is none.
    pub fn append(&mut self, user_id: u128, task: Task)
        requires
            old(self).wf(),
            !old(self).issued().contains(task.id),
        ensures
            final(self).wf(),
            final(self)@ == old(self)@.insert(user_id, tasks_of(old(self)@, user_id).push(task)),
            final(self).issued() == old(self).issued().insert(task.id),
    {
        let ghost before = self@;
        let id = task.id;
        let mut v = match self.tasks.remove(&user_id) {
            Some(v) => v,
            None => Vec::new(),
        };
        assert(v@ == tasks_of(before, user_id));
        v.push(task);
        self.tasks.insert(user_id, v);
        self.owners.insert(id, user_id);
        assert(self@ =~= before.insert(user_id, tasks_of(before, user_id).push(task)));
    }

    /// The tasks of `user_id`, in the order they were created, if the store
    /// holds a list for that user.
    pub fn list(&self, user_id: u128) -> (r: Option<Vec<Task>>)
        ensures
            match r {
                Some(v) => self@.contains_key(user_id) && v@ == self@[user_id],
                None => !self@.contains_key(user_id),
            },
    {
        match self.tasks.get(&user_id) {
            Some(v) => Some(copy_tasks(v)),
            None => None,
        }
    }

    /// The task `task_id` of user `user_id`, if there is one.
    pub fn find(&self, user_id: u128, task_id: u128) -> (r: Option<Task>)
        requires
            self.wf(),
        ensures
            r == lookup(self@, user_id, task_id),
    {
        match self.tasks.get(&user_id) {
            Some(v) => {
                assert(self@.contains_key(user_id) && self@[user_id] == v@);
                match position(v, task_id) {
                    Some(i) => {
                        assert(ids_unique(self@[user_id]));
                        assert(has_task(v@, task_id));
                        Some(v[i].duplicate())
                    },
                    None => None,
                }
            },
            None => None,
        }
    }

    /// Applies `upd` to the task `task_id` of user `user_id`, if there is
    /// one, and returns the task as it then stands.
    pub fn update(&mut self, user_id: u128, task_id: u128, upd: &UpdateTask) -> (r: Option<Task>)
        requires
            old(self).wf(),
        ensures
            final(self).wf(),
            final(self).issued() == old(self).issued(),
            match lookup(old(self)@, user_id, task_id) {
                Some(t) => {
                    &&& r == Some(updated(t, *upd))
                    &&& final(self)@ == old(self)@.insert(
                        user_id,
                        old(self)@[user_id].update(
                            position_of(old(self)@[user_id], task_id),
                            updated(t, *upd),
                        ),
                    )
                },
                None => r is None && final(self)@ == old(self)@,
            },
    {
        let ghost before = self@;
        match self.tasks.remove(&user_id) {
            None => {
                assert(self@ =~= before);
                None
            },
            Some(mut v) => {
                assert(before.contains_key(user_id) && before[user_id] == v@);
                proof {
                    assert(ids_unique(v@));
                }
                let r = match position(&v, task_id) {
                    Some(i) => {
                        assert(has_task(v@, task_id));
                        let ghost pos = position_of(v@, task_id);
                        assert(pos == i);
                        let mut t = v.remove(i);
                        upd.apply(&mut t);
                        let out = t.duplicate();
                        v.insert(i, t);
                        assert(v@ =~= before[user_id].update(pos, out));
                        Some(out)
                    },
                    None => {
                        assert(v@ == before[user_id]);
                        None
                    },
                };
                self.tasks.insert(user_id, v);
                assert(self@ =~= before.insert(user_id, v@));
                proof {
                    if r is None {
                        assert(self@ =~= before);
                    }
                }
                r
            },
        }
    }

    /// Removes the task `task_id` from the list of user `user_id`; whether
    /// there was such a task.
    pub fn remove(&mut self, user_id: u128, task_id: u128) -> (r: bool)
        requires
            old(self).wf(),
        ensures
            final(self).wf(),
            final(self).issued() == old(self).issued(),
            r == lookup(old(self)@, user_id, task_id) is Some,
            r ==> final(self)@ == old(self)@.insert(
                user_id,
                old(self)@[user_id].remove(position_of(old(self)@[user_id], task_id)),
            ),
            !r ==> final(self)@ == old(self)@,
    {
        let ghost before = self@;
        match self.tasks.remove(&user_id) {
            None => {
                assert(self@ =~= before);
                false
            },
            Some(mut v) => {
                assert(before.contains_key(user_id) && before[user_id] == v@);
                proof {
                    assert(ids_unique(v@));
                }
                let found = match position(&v, task_id) {
                    Some(i) => {
                        assert(has_task(v@, task_id));
                        let ghost pos = position_of(v@, task_id);
                        assert(pos == i);
                        v.remove(i);
                        assert(v@ =~= before[user_id].remove(pos));
                        true
                    },
                    None => false,
                };
                self.tasks.insert(user_id, v);
                assert(self@ =~= before.insert(user_id, v@));
                proof {
                    if !found {
                        assert(self@ =~= before);
                    }
                }
                found
            },
        }
    }
}

/// Two empty stores: the tasks and the users.
pub fn init_db() -> (r: (TaskStore, UserStore))
    ensures
        r.0@ == Map::<u128, Seq<Task>>::empty(),
        r.0.issued() == Set::<u128>::empty(),
        r.0.wf(),
        r.1@ == Map::<u128, User>::empty(),
        r.1.wf(),
{
    (TaskStore::new(), UserStore::new())
}

} // verus!

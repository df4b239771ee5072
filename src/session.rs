//! Sessions: an id, whether the session is active, and its checkpoints;
//! and the manager that owns them and knows the current one.

use vstd::prelude::*;
use vstd::string::StringExecFns;
use crate::table::IdTable;

verus! {

/// Relies on uuid::Uuid::new_v4 and its hyphenated rendering: a fresh random
/// identifier. Nothing is assumed of its value.
#[verifier::external_body]
fn fresh_id() -> (r: String) {
    uuid::Uuid::new_v4().to_string()
}

/// Relies on std::time::SystemTime::now: whole seconds since the Unix epoch,
/// or 0 when the clock is set before it. Nothing is assumed of the value.
#[verifier::external_body]
fn unix_now_secs() -> (r: u64) {
    std::time::SystemTime::now().duration_since(std::time::UNIX_EPOCH).map(|d| d.as_secs()).unwrap_or(0)
}

/// Attached values as plain texts: each name and the bytes of its JSON text.
pub open spec fn metadata_view(m: Seq<(String, Vec<u8>)>) -> Seq<(Seq<char>, Seq<u8>)> {
    m.map_values(|e: (String, Vec<u8>)| (e.0@, e.1@))
}

/// A point of a session that files can be rewound to.
#[derive(Debug, Clone)]
pub struct SessionCheckpoint {
    pub user_message_id: String,
    pub timestamp: u64,
}

/// A conversation's identity and history.
#[derive(Debug, Clone)]
pub struct Session {
    pub id: String,
    pub is_active: bool,
    pub checkpoints: Vec<SessionCheckpoint>,
    /// Named values attached to the session, each as JSON text.
    pub metadata: Vec<(String, Vec<u8>)>,
}

impl Session {
    /// An active session with a fresh random id and no history.
    pub fn new() -> (r: Self)
        ensures
            r.is_active,
            r.checkpoints@.len() == 0,
            r.metadata@.len() == 0,
    {
        Session { id: fresh_id(), is_active: true, checkpoints: Vec::new(), metadata: Vec::new() }
    }

    /// An active session with the given id and no history.
    pub fn with_id(id: String) -> (r: Self)
        ensures
            r.id == id,
            r.is_active,
            r.checkpoints@.len() == 0,
            r.metadata@.len() == 0,
    {
        Session { id, is_active: true, checkpoints: Vec::new(), metadata: Vec::new() }
    }

    /// Appends a checkpoint taken at `timestamp`.
    pub fn add_checkpoint_at(&mut self, user_message_id: String, timestamp: u64)
        ensures
            final(self).id == old(self).id,
            final(self).is_active == old(self).is_active,
            final(self).metadata == old(self).metadata,
            final(self).checkpoints@ == old(self).checkpoints@.push(SessionCheckpoint { user_message_id, timestamp }),
    {
        self.checkpoints.push(SessionCheckpoint { user_message_id, timestamp });
    }

    /// Appends a checkpoint stamped with the current time.
    pub fn add_checkpoint(&mut self, user_message_id: String)
        ensures
            final(self).id == old(self).id,
            final(self).is_active == old(self).is_active,
            final(self).metadata == old(self).metadata,
            final(self).checkpoints@.len() == old(self).checkpoints@.len() + 1,
            final(self).checkpoints@.drop_last() == old(self).checkpoints@,
            final(self).checkpoints@.last().user_message_id == user_message_id,
    {
        let now = unix_now_secs();
        self.add_checkpoint_at(user_message_id, now);
        proof {
            assert(self.checkpoints@.drop_last() =~= old(self).checkpoints@);
        }
    }

    /// The latest checkpoint, if any.
    pub fn last_checkpoint(&self) -> (r: Option<&SessionCheckpoint>)
        ensures
            self.checkpoints@.len() == 0 ==> r.is_none(),
            self.checkpoints@.len() > 0 ==> (r matches Some(c) && *c == self.checkpoints@.last()),
    {
        let n = self.checkpoints.len();
        if n == 0 {
            None
        } else {
            Some(&self.checkpoints[n - 1])
        }
    }

    /// Marks the session inactive.
    pub fn deactivate(&mut self)
        ensures
            !final(self).is_active,
            final(self).id == old(self).id,
            final(self).checkpoints == old(self).checkpoints,
            final(self).metadata == old(self).metadata,
    {
        self.is_active = false;
    }

    /// An active copy of the session's history under a fresh random id.
    pub fn fork(&self) -> (r: Self)
        ensures
            r.is_active,
            r.checkpoints@ == self.checkpoints@,
            metadata_view(r.metadata@) == metadata_view(self.metadata@),
    {
        let mut checkpoints: Vec<SessionCheckpoint> = Vec::new();
        let mut i: usize = 0;
        while i < self.checkpoints.len()
            invariant
                0 <= i <= self.checkpoints@.len(),
                checkpoints@ == self.checkpoints@.take(i as int),
            decreases self.checkpoints@.len() - i,
        {
            let c = &self.checkpoints[i];
            checkpoints.push(SessionCheckpoint { user_message_id: c.user_message_id.clone(), timestamp: c.timestamp });
            proof {
                assert(checkpoints@ =~= self.checkpoints@.take(i + 1));
            }
            i = i + 1;
        }
        let mut metadata: Vec<(String, Vec<u8>)> = Vec::new();
        let mut j: usize = 0;
        while j < self.metadata.len()
            invariant
                0 <= j <= self.metadata@.len(),
                metadata_view(metadata@) == metadata_view(self.metadata@.take(j as int)),
                metadata@.len() == j,
            decreases self.metadata@.len() - j,
        {
            let entry = &self.metadata[j];
            let mut bytes: Vec<u8> = Vec::new();
            let mut k: usize = 0;
            while k < entry.1.len()
                invariant
                    0 <= k <= entry.1@.len(),
                    bytes@ == entry.1@.take(k as int),
                    0 <= j < self.metadata@.len(),
                    *entry == self.metadata@[j as int],
                    metadata_view(metadata@) == metadata_view(self.metadata@.take(j as int)),
                    metadata@.len() == j,
                decreases entry.1@.len() - k,
            {
                bytes.push(entry.1[k]);
                proof {
                    assert(bytes@ =~= entry.1@.take(k + 1));
                }
                k = k + 1;
            }
            proof {
                assert(bytes@ =~= entry.1@);
            }
            let ghost before = metadata@;
            let name = entry.0.clone();
            metadata.push((name, bytes));
            proof {
                let want = metadata_view(self.metadata@.take(j + 1));
                let have = metadata_view(metadata@);
                assert forall|k: int| 0 <= k < j + 1 implies have[k] == want[k] by {
                    if k < j {
                        assert(metadata@[k] == before[k]);
                        assert(metadata_view(before)[k] == metadata_view(self.metadata@.take(j as int))[k]);
                    }
                }
                assert(have =~= want);
            }
            j = j + 1;
        }
        proof {
            assert(checkpoints@ =~= self.checkpoints@);
            assert(self.metadata@.take(self.metadata@.len() as int) =~= self.metadata@);
        }
        Session { id: fresh_id(), is_active: true, checkpoints, metadata }
    }
}

/// The sessions of a client, by id, and which one is current.
pub struct SessionManager {
    sessions: IdTable<Session>,
    current_session_id: Option<String>,
}

impl SessionManager {
    /// The sessions, by id.
    pub closed spec fn sessions(&self) -> Map<Seq<char>, Session> {
        self.sessions@
    }

    /// The id of the current session, if any.
    pub closed spec fn current(&self) -> Option<Seq<char>> {
        match self.current_session_id {
            Some(id) => Some(id@),
            None => None,
        }
    }

    /// Sessions are stored under their own ids, and the current id, if any,
    /// names a stored session.
    pub closed spec fn wf(&self) -> bool {
        &&& self.sessions.wf()
        &&& forall|k: Seq<char>| #[trigger] self.sessions@.contains_key(k) ==> self.sessions@[k].id@ == k
        &&& match self.current_session_id {
            Some(id) => self.sessions@.contains_key(id@),
            None => true,
        }
    }

    /// A manager with no sessions.
    pub fn new() -> (r: Self)
        ensures
            r.wf(),
            r.sessions() == Map::<Seq<char>, Session>::empty(),
            r.current().is_none(),
    {
        SessionManager { sessions: IdTable::new(), current_session_id: None }
    }

    /// Stores `session`, replacing one with the same id, and makes it current.
    pub fn insert_session(&mut self, session: Session) -> (r: &Session)
        requires
            old(self).wf(),
        ensures
            final(self).wf(),
            final(self).sessions() == old(self).sessions().insert(session.id@, session),
            final(self).current() == Some(session.id@),
            *r == session,
    {
        let id = session.id.clone();
        let _ = self.sessions.take(&id);
        let key = id.clone();
        let ghost stored = session;
        match self.sessions.register(key, session) {
            Ok(()) => {},
            Err(_) => {},
        }
        self.current_session_id = Some(id.clone());
        proof {
            assert(self.sessions@ =~= old(self).sessions@.insert(stored.id@, stored));
        }
        self.sessions.get(&id).unwrap()
    }

    /// Creates an active session under an id no stored session has, and
    /// makes it current.
    pub fn create_session(&mut self) -> (r: &Session)
        requires
            old(self).wf(),
        ensures
            final(self).wf(),
            r.is_active,
            r.checkpoints@.len() == 0,
            !old(self).sessions().contains_key(r.id@),
            final(self).sessions() == old(self).sessions().insert(r.id@, *r),
            final(self).current() == Some(r.id@),
    {
        let mut session = Session::new();
        let id = self.sessions.fresh_key(session.id.clone());
        session.id = id;
        self.insert_session(session)
    }

    /// The current session, if any.
    pub fn current_session(&self) -> (r: Option<&Session>)
        requires
            self.wf(),
        ensures
            match self.current() {
                Some(id) => r matches Some(s) && *s == self.sessions()[id],
                None => r.is_none(),
            },
    {
        match &self.current_session_id {
            Some(id) => self.sessions.get(id),
            None => None,
        }
    }

    /// The session stored under `id`, if any.
    pub fn get_session(&self, id: &str) -> (r: Option<&Session>)
        requires
            self.wf(),
        ensures
            self.sessions().contains_key(id@) ==> (r matches Some(s) && *s == self.sessions()[id@]),
            !self.sessions().contains_key(id@) ==> r.is_none(),
    {
        self.sessions.get(&String::from_str(id))
    }

    /// Makes the session stored under `id` current and returns it; `None`,
    /// changing nothing, when there is no such session.
    pub fn resume_session(&mut self, id: &str) -> (r: Option<&Session>)
        requires
            old(self).wf(),
        ensures
            final(self).wf(),
            final(self).sessions() == old(self).sessions(),
            old(self).sessions().contains_key(id@) ==> final(self).current() == Some(id@) && (r matches Some(s)
                && *s == old(self).sessions()[id@]),
            !old(self).sessions().contains_key(id@) ==> final(self).current() == old(self).current() && r.is_none(),
    {
        let key = String::from_str(id);
        if self.sessions.contains(&key) {
            self.current_session_id = Some(key.clone());
            self.sessions.get(&key)
        } else {
            None
        }
    }

    /// Marks the current session, if any, inactive.
    pub fn deactivate_current(&mut self)
        requires
            old(self).wf(),
        ensures
            final(self).wf(),
            final(self).current() == old(self).current(),
            match old(self).current() {
                Some(id) => final(self).sessions() == old(self).sessions().insert(id, Session {
                    is_active: false,
                    ..old(self).sessions()[id]
                }),
                None => final(self).sessions() == old(self).sessions(),
            },
    {
        let id = match &self.current_session_id {
            Some(id) => id.clone(),
            None => return,
        };
        if let Some(mut session) = self.sessions.take(&id) {
            session.deactivate();
            let _ = self.sessions.register(id, session);
            proof {
                assert(self.sessions@ =~= old(self).sessions@.insert(old(self).current().unwrap(), Session {
                    is_active: false,
                    ..old(self).sessions@[old(self).current().unwrap()]
                }));
            }
        }
    }
}

} // verus!

//! The sessions a server keeps, by id.

use vstd::prelude::*;

use crate::mcp::name_index::entries_map;
use crate::mcp::name_index::sorted_by_name;
use crate::mcp::name_index::NameIndex;
use crate::mcp::session::Session;
use crate::text::has_prefix;
use crate::text::push_str;
use crate::text::string_from_chars;

verus! {

/// A lowercase hexadecimal digit.
pub open spec fn is_lower_hex_digit(c: char) -> bool {
    ('0' <= c && c <= '9') || ('a' <= c && c <= 'f')
}

/// `u` is a version 4 uuid in its hyphenated form: 32 lowercase hexadecimal
/// digits in groups of 8, 4, 4, 4 and 12, joined by `-`; the version digit is
/// `4` and the variant digit one of `8`, `9`, `a` and `b`.
pub open spec fn is_hyphenated_v4_uuid(u: Seq<char>) -> bool {
    &&& u.len() == 36
    &&& forall|i: int|
        0 <= i < 36 ==> if i == 8 || i == 13 || i == 18 || i == 23 {
            #[trigger] u[i] == '-'
        } else {
            is_lower_hex_digit(u[i])
        }
    &&& u[14] == '4'
    &&& (u[19] == '8' || u[19] == '9' || u[19] == 'a' || u[19] == 'b')
}

/// A session id: `poet-`, then a version 4 uuid in its hyphenated form.
pub open spec fn is_session_id(id: Seq<char>) -> bool {
    &&& id.len() == 41
    &&& id.subrange(0, 5) == "poet-"@
    &&& is_hyphenated_v4_uuid(id.subrange(5, 41))
}

/// `uuid::Uuid::new_v4` of the uuid crate, as text (`Display`, which writes
/// the hyphenated lowercase form): a random version 4 uuid. Which one is left
/// open; it reads random bytes from the operating system, and the crate
/// panics where that source fails.
#[verifier::external_body]
fn random_uuid() -> (r: String)
    ensures
        is_hyphenated_v4_uuid(r@),
{
    uuid::Uuid::new_v4().to_string()
}

/// A new session id: `poet-` and a random version 4 uuid.
pub fn generate_session_id() -> (r: String)
    ensures
        has_prefix(r@, "poet-"@),
        is_session_id(r@),
{
    proof {
        reveal_strlit("poet-");
    }
    let mut id = String::from_str("poet-");
    let uuid = random_uuid();
    push_str(&mut id, uuid.as_str());
    assert(id@.subrange(0, 5) =~= "poet-"@);
    assert(id@.subrange(5, 41) =~= uuid@);
    id
}

/// The sessions of a server, by id.
pub struct SessionManager {
    sessions: NameIndex<Session>,
}

impl SessionManager {
    /// The session kept under each id.
    pub closed spec fn sessions(&self) -> Map<Seq<char>, Session> {
        self.sessions.as_map()
    }

    /// The sessions kept, with their ids, in the order of the ids.
    pub closed spec fn listing(&self) -> Seq<(Seq<char>, Session)> {
        self.sessions.view()
    }

    /// A manager that keeps no sessions.
    pub fn new() -> (m: Self)
        ensures
            m.sessions() == Map::<Seq<char>, Session>::empty(),
            m.listing() == Seq::<(Seq<char>, Session)>::empty(),
    {
        let m = SessionManager { sessions: NameIndex::new() };
        assert(m.sessions() =~= Map::<Seq<char>, Session>::empty());
        m
    }

    /// Starts a session with a new id, and keeps it under that id.
    pub fn start_new_session(&mut self) -> (s: Session)
        ensures
            has_prefix(s.spec_id(), "poet-"@),
            is_session_id(s.spec_id()),
            s.spec_log_level() == crate::mcp::log_level::LogLevel::Info,
            final(self).sessions().dom() == old(self).sessions().dom().insert(s.spec_id()),
            final(self).sessions()[s.spec_id()].spec_id() == s.spec_id(),
            final(self).sessions()[s.spec_id()].spec_log_level() == s.spec_log_level(),
            old(self).sessions().remove(s.spec_id()).submap_of(final(self).sessions()),
    {
        let session = Session::new(generate_session_id());
        let kept = session.copy();
        self.sessions.insert(session.id(), kept);
        session
    }

    /// The session kept under `session_id`; none without an id, or for an id
    /// not kept.
    pub fn restore_session(&self, session_id: Option<&str>) -> (r: Option<Session>)
        ensures
            match session_id {
                None => r is None,
                Some(id) => match r {
                    Some(s) => self.sessions().contains_key(id@) && s.spec_id()
                        == self.sessions()[id@].spec_id() && s.spec_log_level()
                        == self.sessions()[id@].spec_log_level(),
                    None => !self.sessions().contains_key(id@),
                },
            },
    {
        match session_id {
            Some(id) => match self.sessions.get(id) {
                Some(s) => Some(s.copy()),
                None => None,
            },
            None => None,
        }
    }

    /// Keeps `session` under its id, in place of what was kept there.
    pub fn update_session(&mut self, session: Session)
        ensures
            final(self).sessions() == old(self).sessions().insert(session.spec_id(), session),
    {
        let id = session.id();
        self.sessions.insert(id, session);
    }

    /// Stops keeping `session`.
    pub fn terminate_session(&mut self, session: Session)
        ensures
            final(self).sessions() == old(self).sessions().remove(session.spec_id()),
    {
        let id = session.id();
        self.sessions.remove(id.as_str());
    }

    /// The ids of the sessions kept, in order: every one is sent a
    /// broadcast.
    pub fn session_ids(&self) -> (r: Vec<String>)
        ensures
            sorted_by_name(self.listing()),
            entries_map(self.listing()) == self.sessions(),
            r@.len() == self.listing().len(),
            forall|i: int| 0 <= i < r@.len() ==> (#[trigger] r@[i])@ == self.listing()[i].0,
    {
        let n = self.sessions.len();
        let mut out: Vec<String> = Vec::new();
        let mut i: usize = 0;
        while i < n
            invariant
                i <= n,
                n == self.sessions.view().len(),
                out@.len() == i,
                forall|k: int| 0 <= k < i ==> (#[trigger] out@[k])@ == self.sessions.view()[k].0,
            decreases n - i,
        {
            let (id, _) = self.sessions.entry_at(i);
            out.push(string_from_chars(id));
            i = i + 1;
        }
        out
    }
}

/// A session started is restored by its id until it is terminated, and not
/// after: what `restore_session` finds is what `start_new_session`,
/// `update_session` and `terminate_session` left under that id.
pub proof fn law_terminated_session_is_not_restored(
    sessions: Map<Seq<char>, Session>,
    session: Session,
)
    ensures
        !sessions.remove(session.spec_id()).contains_key(session.spec_id()),
        sessions.insert(session.spec_id(), session).contains_key(session.spec_id()),
        sessions.insert(session.spec_id(), session)[session.spec_id()] == session,
{
}

} // verus!

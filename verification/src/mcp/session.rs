//! A client's session: its id, and the least severe log level it is sent.

use vstd::prelude::*;

use crate::mcp::jsonrpc::notification::message::Message;
use crate::mcp::jsonrpc::notification::message::MessageParams;
use crate::mcp::jsonrpc::server_to_client_notification::ServerToClientNotification;
use crate::mcp::log_level::LogLevel;
use crate::mcp::name_index::entries_map;
use crate::mcp::name_index::sorted_by_name;
use crate::mcp::name_index::NameIndex;
use crate::text::push_str;
use crate::text::string_from_chars;

verus! {

/// A client's session.
#[derive(Debug)]
pub struct Session {
    log_level: LogLevel,
    session_id: String,
}

impl Session {
    /// The least severe level of the log messages sent to the client.
    pub closed spec fn spec_log_level(&self) -> LogLevel {
        self.log_level
    }

    /// The session's id.
    pub closed spec fn spec_id(&self) -> Seq<char> {
        self.session_id@
    }

    /// A session with the id `session_id`, sent messages from `Info` up.
    pub fn new(session_id: String) -> (s: Self)
        ensures
            s.spec_id() == session_id@,
            s.spec_log_level() == LogLevel::Info,
    {
        Session { log_level: LogLevel::Info, session_id }
    }

    /// The session's id.
    pub fn id(&self) -> (r: String)
        ensures
            r@ == self.spec_id(),
    {
        self.session_id.clone()
    }

    /// A copy of the session.
    pub fn copy(&self) -> (r: Session)
        ensures
            r.spec_id() == self.spec_id(),
            r.spec_log_level() == self.spec_log_level(),
    {
        Session { log_level: self.log_level, session_id: self.session_id.clone() }
    }

    /// The notification that logs `message` to the client: none for a
    /// message less severe than the session's level.
    pub fn log(&self, message: Message) -> (r: Option<ServerToClientNotification>)
        ensures
            message.params.level.rank() >= self.spec_log_level().rank() ==> r == Some(
                ServerToClientNotification::Message(message),
            ),
            message.params.level.rank() < self.spec_log_level().rank() ==> r is None,
    {
        if message.params.level.is_at_least(&self.log_level) {
            Some(ServerToClientNotification::Message(message))
        } else {
            None
        }
    }

    /// The notification that logs a message with `params` to the client, as
    /// `log` decides it.
    pub fn log_message(&self, params: MessageParams) -> (r: Option<ServerToClientNotification>)
        ensures
            params.level.rank() >= self.spec_log_level().rank() ==> (r matches Some(
                ServerToClientNotification::Message(m),
            ) && m.params == params && m.jsonrpc@ == "2.0"@),
            params.level.rank() < self.spec_log_level().rank() ==> r is None,
    {
        self.log(Message { jsonrpc: String::from_str("2.0"), params })
    }

    /// The same session, sent messages from `log_level` up.
    pub fn with_log_level(self, log_level: LogLevel) -> (s: Self)
        ensures
            s.spec_id() == self.spec_id(),
            s.spec_log_level() == log_level,
    {
        Session { log_level, session_id: self.session_id }
    }

    /// The error logged to a client that subscribes twice to `uri`.
    pub fn already_subscribed_message(uri: &str) -> (m: MessageParams)
        ensures
            m.level == LogLevel::Error,
            m.data@ == "You are already subscribed to '"@ + uri@ + "'"@,
    {
        let mut data = String::from_str("You are already subscribed to '");
        push_str(&mut data, uri);
        push_str(&mut data, "'");
        MessageParams { data, level: LogLevel::Error }
    }
}

/// The resources a session is subscribed to, by uri.
pub struct ResourceSubscriptions {
    uris: NameIndex<()>,
}

impl ResourceSubscriptions {
    /// The uris subscribed to.
    pub closed spec fn subscribed(&self) -> Set<Seq<char>> {
        self.uris.as_map().dom()
    }

    /// The uris subscribed to, in order.
    pub closed spec fn listing(&self) -> Seq<(Seq<char>, ())> {
        self.uris.view()
    }

    /// No subscriptions.
    pub fn new() -> (r: Self)
        ensures
            r.subscribed() == Set::<Seq<char>>::empty(),
            r.listing() == Seq::<(Seq<char>, ())>::empty(),
    {
        let r = ResourceSubscriptions { uris: NameIndex::new() };
        assert(r.subscribed() =~= Set::<Seq<char>>::empty());
        r
    }

    /// Whether the session is subscribed to `uri`.
    pub fn is_subscribed(&self, uri: &str) -> (b: bool)
        ensures
            b == self.subscribed().contains(uri@),
    {
        self.uris.get(uri).is_some()
    }

    /// Subscribes to `uri`; a second subscription to the same uri is refused
    /// with the error to log to the client, and changes nothing.
    pub fn subscribe(&mut self, uri: &str) -> (r: Result<(), MessageParams>)
        ensures
            old(self).subscribed().contains(uri@) ==> final(self).subscribed() == old(self).subscribed(),
            old(self).subscribed().contains(uri@) ==> (r matches Err(m) && m.level == LogLevel::Error
                && m.data@ == "You are already subscribed to '"@ + uri@ + "'"@),
            !old(self).subscribed().contains(uri@) ==> r is Ok,
            !old(self).subscribed().contains(uri@) ==> final(self).subscribed() == old(self).subscribed().insert(uri@),
    {
        if self.uris.get(uri).is_some() {
            return Err(Session::already_subscribed_message(uri));
        }
        self.uris.insert(uri.to_string(), ());
        proof {
            assert(self.uris.as_map().dom() =~= old(self).uris.as_map().dom().insert(uri@));
        }
        Ok(())
    }

    /// Drops the subscription to `uri`, once it was cancelled.
    pub fn unsubscribe(&mut self, uri: &str)
        ensures
            final(self).subscribed() == old(self).subscribed().remove(uri@),
    {
        self.uris.remove(uri);
        proof {
            assert(self.uris.as_map().dom() =~= old(self).uris.as_map().dom().remove(uri@));
        }
    }

    /// Every uri subscribed to, in order: each is cancelled when the session
    /// ends.
    pub fn uris(&self) -> (r: Vec<String>)
        ensures
            sorted_by_name(self.listing()),
            entries_map(self.listing()).dom() == self.subscribed(),
            r@.len() == self.listing().len(),
            forall|i: int| 0 <= i < r@.len() ==> (#[trigger] r@[i])@ == self.listing()[i].0,
    {
        let n = self.uris.len();
        let mut out: Vec<String> = Vec::new();
        let mut i: usize = 0;
        while i < n
            invariant
                i <= n,
                n == self.uris.view().len(),
                out@.len() == i,
                forall|k: int| 0 <= k < i ==> (#[trigger] out@[k])@ == self.uris.view()[k].0,
            decreases n - i,
        {
            let (uri, _) = self.uris.entry_at(i);
            out.push(string_from_chars(uri));
            i = i + 1;
        }
        out
    }
}

} // verus!

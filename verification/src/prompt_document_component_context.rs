//! The state that evaluating a prompt document builds up: the messages said so
//! far, the current speaker, and the text not yet assigned to a message.

use vstd::prelude::*;

use crate::mcp::content_block::text_content::TextContent;
use crate::mcp::jsonrpc::role::Role;
use crate::mcp::prompt_message::PromptMessage;
use crate::text::push_str;

verus! {

/// Why an operation on the prompt state failed.
#[derive(Clone, Debug)]
pub enum PromptContextError {
    /// There was text to flush, but no role was set to say it.
    NoRoleToFlush,
    /// A role name other than `assistant` or `user`.
    UnknownRoleName { name: String },
    /// Switching roles failed because the pending text could not be flushed.
    UnableToSwitchRole,
}

/// What a script of the document (an expression or a component) did when it
/// ran with the prompt state at its place: what it rendered or why it failed,
/// and what it did to the pending text, which it shares with the document.
/// Its script may have flushed that text, which drops it (the script's own
/// copy of the role and messages is not the document's), and appended text
/// after the last flush.
#[derive(Debug)]
pub struct ScriptAnswer {
    pub output: Result<String, String>,
    /// The script flushed the pending text at least once.
    pub cleared_pending: bool,
    /// The text the script appended after its last flush, or in all.
    pub appended: String,
}

/// The abstract form of a `ScriptAnswer`.
pub struct ScriptAnswerView {
    pub output: Result<Seq<char>, Seq<char>>,
    pub cleared_pending: bool,
    pub appended: Seq<char>,
}

impl View for ScriptAnswer {
    type V = ScriptAnswerView;

    open spec fn view(&self) -> ScriptAnswerView {
        ScriptAnswerView {
            output: match self.output {
                Ok(s) => Ok(s@),
                Err(e) => Err(e@),
            },
            cleared_pending: self.cleared_pending,
            appended: self.appended@,
        }
    }
}

/// The prompt state: messages so far, the current role, and pending text;
/// with the answers of the document's scripts that the host has given, in the
/// order the scripts run, and how many of them evaluation has taken.
pub struct PromptDocumentComponentContext {
    pub current_role: Option<Role>,
    pub prompt_messages: Vec<PromptMessage>,
    pub unprocessed_message_chunk: String,
    pub script_answers: Vec<ScriptAnswer>,
    pub scripts_run: usize,
}

/// The abstract prompt state.
pub struct PromptContextView {
    pub current_role: Option<Role>,
    pub messages: Seq<(Role, Seq<char>)>,
    pub chunk: Seq<char>,
    pub answers: Seq<ScriptAnswerView>,
    pub scripts_run: nat,
}

impl View for PromptDocumentComponentContext {
    type V = PromptContextView;

    open spec fn view(&self) -> PromptContextView {
        PromptContextView {
            current_role: self.current_role,
            messages: self.prompt_messages@.map_values(|m: PromptMessage| m.view_pair()),
            chunk: self.unprocessed_message_chunk@,
            answers: self.script_answers@.map_values(|a: ScriptAnswer| a@),
            scripts_run: self.scripts_run as nat,
        }
    }
}

/// The state after `chunk` is appended to the pending text.
pub open spec fn state_after_append(v: PromptContextView, chunk: Seq<char>) -> PromptContextView {
    PromptContextView { chunk: v.chunk + chunk, ..v }
}

/// Whether a flush from state `v` succeeds: it fails only when there is
/// pending text and no role to say it.
pub open spec fn flush_succeeds(v: PromptContextView) -> bool {
    v.current_role is Some || v.chunk.len() == 0
}

/// The state after a flush: the pending text becomes a message of the current
/// role, which is then cleared; the pending text is cleared in every case.
pub open spec fn state_after_flush(v: PromptContextView) -> PromptContextView {
    match v.current_role {
        Some(role) => PromptContextView {
            current_role: None,
            messages: v.messages.push((role, v.chunk)),
            chunk: Seq::empty(),
            ..v
        },
        None => PromptContextView { chunk: Seq::empty(), ..v },
    }
}

/// The state after switching to `role`: a flush, then the new role when the
/// flush succeeded.
pub open spec fn state_after_switch(v: PromptContextView, role: Role) -> PromptContextView {
    if flush_succeeds(v) {
        PromptContextView { current_role: Some(role), ..state_after_flush(v) }
    } else {
        state_after_flush(v)
    }
}

/// The state after a script ran and gave the answer `a`: the pending text
/// is what the script left of it, and one more answer is taken.
pub open spec fn state_after_script(v: PromptContextView, a: ScriptAnswerView) -> PromptContextView {
    PromptContextView {
        chunk: (if a.cleared_pending {
            Seq::empty()
        } else {
            v.chunk
        }) + a.appended,
        scripts_run: v.scripts_run + 1,
        ..v
    }
}

/// All text of a state, in order: every message, then the pending text.
pub open spec fn transcript(v: PromptContextView) -> Seq<char> {
    messages_text(v.messages) + v.chunk
}

/// The texts of `messages`, one after another.
pub open spec fn messages_text(messages: Seq<(Role, Seq<char>)>) -> Seq<char>
    decreases messages.len(),
{
    if messages.len() == 0 {
        Seq::empty()
    } else {
        messages_text(messages.drop_last()) + messages.last().1
    }
}

impl PromptDocumentComponentContext {
    /// A state with no messages, no role, no pending text, and no answers
    /// of scripts.
    pub fn new() -> (ctx: Self)
        ensures
            ctx@.current_role is None,
            ctx@.messages == Seq::<(Role, Seq<char>)>::empty(),
            ctx@.chunk == Seq::<char>::empty(),
            ctx@.answers == Seq::<ScriptAnswerView>::empty(),
            ctx@.scripts_run == 0,
    {
        Self::with_script_answers(Vec::new())
    }

    /// A state with no messages, no role and no pending text, whose scripts
    /// answer, in order, as `answers` say.
    pub fn with_script_answers(answers: Vec<ScriptAnswer>) -> (ctx: Self)
        ensures
            ctx@.current_role is None,
            ctx@.messages == Seq::<(Role, Seq<char>)>::empty(),
            ctx@.chunk == Seq::<char>::empty(),
            ctx@.answers == answers@.map_values(|a: ScriptAnswer| a@),
            ctx@.scripts_run == 0,
    {
        let ctx = PromptDocumentComponentContext {
            current_role: None,
            prompt_messages: Vec::new(),
            unprocessed_message_chunk: String::new(),
            script_answers: answers,
            scripts_run: 0,
        };
        assert(ctx@.messages =~= Seq::<(Role, Seq<char>)>::empty());
        ctx
    }

    /// Takes the answer of the next script to run, and does to the pending
    /// text what that script did; none where the host has not answered it
    /// yet, and then nothing changes.
    pub fn take_script_answer(&mut self) -> (r: Option<Result<String, String>>)
        ensures
            old(self)@.scripts_run < old(self)@.answers.len() ==> {
                let a = old(self)@.answers[old(self)@.scripts_run as int];
                &&& r matches Some(out) && (match out {
                    Ok(s) => a.output == Ok::<Seq<char>, Seq<char>>(s@),
                    Err(e) => a.output == Err::<Seq<char>, Seq<char>>(e@),
                })
                &&& final(self)@ == state_after_script(old(self)@, a)
            },
            old(self)@.scripts_run >= old(self)@.answers.len() ==> r is None && final(self)@ == old(
                self,
            )@,
    {
        if self.scripts_run >= self.script_answers.len() {
            return None;
        }
        let i = self.scripts_run;
        let answer = &self.script_answers[i];
        let out = match &answer.output {
            Ok(s) => Ok(s.clone()),
            Err(e) => Err(e.clone()),
        };
        let cleared = answer.cleared_pending;
        let appended = answer.appended.clone();
        if cleared {
            self.unprocessed_message_chunk = String::new();
        }
        push_str(&mut self.unprocessed_message_chunk, appended.as_str());
        self.scripts_run = i + 1;
        proof {
            assert(self.script_answers@.map_values(|a: ScriptAnswer| a@)[i as int]
                == self.script_answers@[i as int]@);
        }
        Some(out)
    }

    /// Appends `chunk` to the pending text. Never fails.
    pub fn append_to_message(&mut self, chunk: String) -> (r: Result<(), PromptContextError>)
        ensures
            r is Ok,
            final(self)@ == state_after_append(old(self)@, chunk@),
    {
        if !chunk.as_str().is_empty() {
            push_str(&mut self.unprocessed_message_chunk, chunk.as_str());
        } else {
            assert(chunk@.len() == 0);
            assert(self.unprocessed_message_chunk@ + chunk@ =~= self.unprocessed_message_chunk@);
        }
        Ok(())
    }

    /// Turns the pending text into a message of the current role, and clears
    /// that role. Without a role the pending text is dropped, and the flush
    /// fails when that text was not empty.
    pub fn flush(&mut self) -> (r: Result<(), PromptContextError>)
        ensures
            r is Ok <==> flush_succeeds(old(self)@),
            r matches Err(e) ==> e is NoRoleToFlush,
            final(self)@ == state_after_flush(old(self)@),
    {
        let mut pending = String::new();
        std::mem::swap(&mut pending, &mut self.unprocessed_message_chunk);
        let ghost messages = self.prompt_messages@;
        let role = self.current_role;
        match role {
            Some(role) => {
                self.current_role = None;
                self.prompt_messages.push(
                    PromptMessage { content: TextContent::from(pending), role },
                );
                assert(self.prompt_messages@.map_values(|m: PromptMessage| m.view_pair())
                    =~= messages.map_values(|m: PromptMessage| m.view_pair()).push(
                    (role, old(self)@.chunk),
                ));
                Ok(())
            },
            None => {
                if pending.as_str().is_empty() {
                    Ok(())
                } else {
                    Err(PromptContextError::NoRoleToFlush)
                }
            },
        }
    }

    /// Flushes the pending text, then makes `role` the current role.
    pub fn switch_role_to(&mut self, role: Role) -> (r: Result<(), PromptContextError>)
        ensures
            r is Ok <==> flush_succeeds(old(self)@),
            r matches Err(e) ==> e is NoRoleToFlush,
            final(self)@ == state_after_switch(old(self)@, role),
    {
        self.flush()?;
        self.current_role = Some(role);
        Ok(())
    }

    /// `append_to_message`, as scripts call it.
    pub fn rhai_append_to_message(&mut self, chunk: String) -> (r: Result<(), PromptContextError>)
        ensures
            r is Ok,
            final(self)@ == state_after_append(old(self)@, chunk@),
    {
        self.append_to_message(chunk)
    }

    /// `switch_role_to` for a role given by name, as scripts call it: an
    /// unknown name is refused and changes nothing.
    pub fn rhai_switch_role_to(&mut self, role_string: String) -> (r: Result<
        (),
        PromptContextError,
    >)
        ensures
            match Role::from_name(role_string@) {
                None => {
                    &&& r matches Err(PromptContextError::UnknownRoleName { name })
                    &&& name@ == role_string@
                    &&& final(self)@ == old(self)@
                },
                Some(role) => {
                    &&& (r is Ok <==> flush_succeeds(old(self)@))
                    &&& (r matches Err(e) ==> e is UnableToSwitchRole)
                    &&& final(self)@ == state_after_switch(old(self)@, role)
                },
            },
    {
        let role = match Role::parse(role_string.as_str()) {
            Ok(role) => role,
            Err(_) => {
                return Err(PromptContextError::UnknownRoleName { name: role_string });
            },
        };
        match self.switch_role_to(role) {
            Ok(()) => Ok(()),
            Err(_) => Err(PromptContextError::UnableToSwitchRole),
        }
    }
}

/// A second flush right after a flush succeeds and changes nothing.
pub proof fn law_flush_is_idempotent(v: PromptContextView)
    ensures
        flush_succeeds(state_after_flush(v)),
        state_after_flush(state_after_flush(v)) == state_after_flush(v),
{
    let f = state_after_flush(v);
    assert(state_after_flush(f).messages =~= f.messages);
    assert(state_after_flush(f).chunk =~= f.chunk);
}

/// No text is lost or reordered: appending adds the chunk at the end of the
/// transcript, and a flush or a role switch that succeeds keeps it unchanged.
pub proof fn law_transcript_is_preserved(v: PromptContextView, chunk: Seq<char>, role: Role)
    ensures
        transcript(state_after_append(v, chunk)) == transcript(v) + chunk,
        flush_succeeds(v) ==> transcript(state_after_flush(v)) == transcript(v),
        flush_succeeds(v) ==> transcript(state_after_switch(v, role)) == transcript(v),
{
    assert(transcript(state_after_append(v, chunk)) =~= transcript(v) + chunk);
    if flush_succeeds(v) {
        let f = state_after_flush(v);
        match v.current_role {
            Some(r) => {
                assert(f.messages.drop_last() =~= v.messages);
                assert(transcript(f) =~= transcript(v));
            },
            None => {
                assert(transcript(f) =~= transcript(v));
            },
        }
    }
}

/// Switching roles closes the message of the previous speaker with the
/// pending text, and the new role takes over with nothing pending.
pub proof fn law_switch_closes_previous_message(v: PromptContextView, previous: Role, next: Role)
    requires
        v.current_role == Some(previous),
    ensures
        state_after_switch(v, next).messages == v.messages.push((previous, v.chunk)),
        state_after_switch(v, next).current_role == Some(next),
        state_after_switch(v, next).chunk.len() == 0,
{
}

/// A flush fails exactly when there is pending text and nobody to say it.
pub proof fn law_flush_fails_only_on_orphan_text(v: PromptContextView)
    ensures
        !flush_succeeds(v) <==> (v.current_role is None && v.chunk.len() > 0),
{
}

/// Messages once recorded are never changed: every operation keeps the
/// earlier messages as a prefix, and adds at most one.
pub proof fn law_messages_only_grow(v: PromptContextView, chunk: Seq<char>, role: Role)
    ensures
        state_after_append(v, chunk).messages == v.messages,
        state_after_flush(v).messages.len() <= v.messages.len() + 1,
        state_after_flush(v).messages.subrange(0, v.messages.len() as int) == v.messages,
        state_after_switch(v, role).messages.len() <= v.messages.len() + 1,
        state_after_switch(v, role).messages.subrange(0, v.messages.len() as int) == v.messages,
{
    assert(state_after_flush(v).messages.subrange(0, v.messages.len() as int) =~= v.messages);
    assert(state_after_switch(v, role).messages.subrange(0, v.messages.len() as int)
        =~= v.messages);
}

} // verus!

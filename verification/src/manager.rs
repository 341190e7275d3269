//! Session lifecycle: one current session, mediation between the in-memory
//! message list and the durable store, and ordered prev/next navigation.
//!
//! A manager starts Empty (no session identifier); the first submitted
//! message mints an identifier lazily, so a session without content is
//! never persisted. Store writes are debounced: every message-list
//! mutation (re)schedules a write `DEBOUNCE_MS` in the future, and only
//! the latest snapshot is written once the deadline passes. `created_at_ms`
//! is preserved across saves by reading the existing record first;
//! `updated_at_ms` is always refreshed.

use vstd::prelude::*;

use crate::prompts::{opt_prompt_view, SystemPrompt};
use crate::store::{
    find_session, put_model, ChatSession, ChatSessionView, SessionStore, StoreModel,
};
use crate::stream::{
    begin_step, delta_step, discard_step, end_step, initial_stream_state, stream_wf, usage_step,
    StreamState,
};
use crate::types::{
    clone_opt_string, msg_views, opt_view, Message, MessageView, ModelPricing, Role, Usage,
};
use crate::store::clone_messages;
use crate::DEBOUNCE_MS;

verus! {

/// What a submission attempt led to.
#[derive(Clone, Copy, PartialEq, Eq, Structural, Debug)]
pub enum SubmitOutcome {
    /// Nothing was submitted: the input was empty.
    EmptyInput,
    /// The message was appended, but no request starts: no credential.
    MissingApiKey,
    /// The message was appended and a streamed request should start.
    StreamStarted,
}

/// Mediates between the current session, the stream coordinator and the
/// session store.
pub struct SessionManager {
    /// Identifier of the current session; `None` in the Empty state.
    pub current_session_id: Option<String>,
    /// The observable message list of the current session.
    pub messages: Vec<Message>,
    /// Name of the selected system prompt, if any.
    pub selected_prompt_name: Option<String>,
    /// The observable error slot; set on failure, cleared on next action.
    pub error: Option<String>,
    /// Whether a streamed request is in flight.
    pub busy: bool,
    /// When the pending debounced store write is due, if one is pending.
    pub save_deadline_ms: Option<u64>,
    /// Generation of the current coordinator run; stream events of an
    /// older generation are ignored.
    pub run_gen: u64,
}

/// Mathematical view of a `SessionManager`.
pub struct ManagerView {
    pub current_session_id: Option<Seq<char>>,
    pub messages: Seq<MessageView>,
    pub selected_prompt_name: Option<Seq<char>>,
    pub error: Option<Seq<char>>,
    pub busy: bool,
    pub save_deadline_ms: Option<u64>,
    pub run_gen: u64,
}

impl View for SessionManager {
    type V = ManagerView;

    open spec fn view(&self) -> ManagerView {
        ManagerView {
            current_session_id: opt_view(self.current_session_id),
            messages: msg_views(self.messages@),
            selected_prompt_name: opt_view(self.selected_prompt_name),
            error: opt_view(self.error),
            busy: self.busy,
            save_deadline_ms: self.save_deadline_ms,
            run_gen: self.run_gen,
        }
    }
}

/// The user turn appended by a submission.
pub open spec fn user_message(content: Seq<char>) -> MessageView {
    MessageView {
        role: Role::User,
        content,
        prompt_name: None,
        model_name: None,
        cost: None,
    }
}

/// The error text shown when no credential is configured.
pub open spec fn missing_api_key_text() -> Seq<char> {
    "No API key provided. Please add one in Settings."@
}

/// The error text shown when a requested session is not in the store.
pub open spec fn session_not_found_text() -> Seq<char> {
    "Session not found."@
}

/// Scheduling a store write: every message-list mutation moves the single
/// pending deadline to one debounce window after the mutation, so rapid
/// mutations coalesce into one write.
pub open spec fn schedule_save(deadline: Option<u64>, now_ms: u64) -> Option<u64>
    recommends
        now_ms + DEBOUNCE_MS <= u64::MAX,
{
    Some((now_ms + DEBOUNCE_MS) as u64)
}

/// Whether the pending write is due at `now_ms`.
pub open spec fn save_due(m: ManagerView, now_ms: u64) -> bool {
    m.save_deadline_ms matches Some(d) && now_ms >= d
}

/// Whether the manager has anything to persist: a session identifier and
/// at least one message. A session with zero messages is never written.
pub open spec fn savable(m: ManagerView) -> bool {
    m.current_session_id is Some && m.messages.len() > 0
}

/// The snapshot a save writes: the current messages and prompt selection
/// under the current identifier; the creation time of the existing record
/// where there is one, else the time of this first save; the update time
/// always refreshed to now.
pub open spec fn session_snapshot(
    m: ManagerView,
    existing: Option<ChatSessionView>,
    now_ms: u64,
) -> ChatSessionView
    recommends
        m.current_session_id is Some,
{
    ChatSessionView {
        session_id: m.current_session_id.unwrap(),
        messages: m.messages,
        name: None,
        prompt_name: m.selected_prompt_name,
        created_at_ms: match existing {
            Some(s) => s.created_at_ms,
            None => now_ms,
        },
        updated_at_ms: now_ms,
    }
}

/// The debounced flush: nothing happens before the deadline; at or after
/// it, the deadline is cleared and — if there is anything to persist —
/// the latest snapshot is written, creation time preserved.
pub open spec fn flush_spec(m: ManagerView, s: StoreModel, now_ms: u64) -> (
    ManagerView,
    StoreModel,
    bool,
)
    recommends
        s.index is Some,
{
    if !save_due(m, now_ms) {
        (m, s, false)
    } else {
        let cleared = ManagerView { save_deadline_ms: None, ..m };
        if savable(m) {
            let snapshot = session_snapshot(
                m,
                find_session(s.records, m.current_session_id.unwrap()),
                now_ms,
            );
            (cleared, put_model(s, snapshot), true)
        } else {
            (cleared, s, false)
        }
    }
}

/// Relies on uuid::Uuid::new_v4 and its canonical rendering: a freshly
/// drawn random version-4 UUID, written in the 36-character hyphenated
/// form. The value is random; only its length is promised.
#[verifier::external_body]
fn mint_session_id() -> (r: String)
    ensures
        r@.len() == 36,
{
    uuid::Uuid::new_v4().to_string()
}

impl SessionManager {
    /// A manager in the Empty state: no session, no messages, no error,
    /// nothing pending.
    pub fn new() -> (m: SessionManager)
        ensures
            m@ == (ManagerView {
                current_session_id: None::<Seq<char>>,
                messages: Seq::<MessageView>::empty(),
                selected_prompt_name: None::<Seq<char>>,
                error: None::<Seq<char>>,
                busy: false,
                save_deadline_ms: None::<u64>,
                run_gen: 0u64,
            }),
    {
        let m = SessionManager {
            current_session_id: None,
            messages: Vec::new(),
            selected_prompt_name: None,
            error: None,
            busy: false,
            save_deadline_ms: None,
            run_gen: 0,
        };
        proof {
            assert(msg_views(m.messages@) =~= Seq::<MessageView>::empty());
        }
        m
    }

    /// Submits user input: an empty input is rejected outright; otherwise
    /// an identifier is minted if this is the session's first message, the
    /// user turn is appended, a save is scheduled, and the outcome says
    /// whether a streamed request should start — it does exactly when a
    /// credential is configured; without one the error slot is set instead.
    pub fn submit(&mut self, content: String, api_key: &String, now_ms: u64) -> (r: SubmitOutcome)
        requires
            now_ms + DEBOUNCE_MS <= u64::MAX,
        ensures
            content@.len() == 0 ==> final(self)@ == old(self)@ && r == SubmitOutcome::EmptyInput,
            content@.len() > 0 ==> {
                &&& (match old(self)@.current_session_id {
                    Some(id) => final(self)@.current_session_id == Some(id),
                    None => final(self)@.current_session_id matches Some(id) && id.len() == 36,
                })
                &&& final(self)@.messages == old(self)@.messages.push(user_message(content@))
                &&& final(self)@.selected_prompt_name == old(self)@.selected_prompt_name
                &&& final(self)@.save_deadline_ms == schedule_save(
                    old(self)@.save_deadline_ms,
                    now_ms,
                )
                &&& final(self)@.run_gen == old(self)@.run_gen
                &&& (if api_key@.len() == 0 {
                    &&& final(self)@.error == Some(missing_api_key_text())
                    &&& final(self)@.busy == false
                    &&& r == SubmitOutcome::MissingApiKey
                } else {
                    &&& final(self)@.error is None
                    &&& final(self)@.busy == true
                    &&& r == SubmitOutcome::StreamStarted
                })
            },
    {
        if content.as_str().unicode_len() == 0 {
            return SubmitOutcome::EmptyInput;
        }
        if self.current_session_id.is_none() {
            self.current_session_id = Some(mint_session_id());
        }
        let turn = Message {
            role: Role::User,
            content,
            prompt_name: None,
            model_name: None,
            cost: None,
        };
        self.messages.push(turn);
        proof {
            assert(msg_views(self.messages@) =~= msg_views(old(self).messages@).push(
                user_message(content@),
            ));
        }
        self.save_deadline_ms = Some(now_ms + DEBOUNCE_MS);
        if api_key.as_str().unicode_len() == 0 {
            self.error = Some(String::from_str("No API key provided. Please add one in Settings."));
            self.busy = false;
            SubmitOutcome::MissingApiKey
        } else {
            self.error = None;
            self.busy = true;
            SubmitOutcome::StreamStarted
        }
    }

    /// Regenerates from a turn: every message from `from_index` on is
    /// dropped, a save is scheduled, and the outcome says whether a
    /// streamed request should start, exactly as for a submission.
    pub fn regenerate(&mut self, from_index: usize, api_key: &String, now_ms: u64) -> (r:
        SubmitOutcome)
        requires
            from_index <= old(self).messages@.len(),
            now_ms + DEBOUNCE_MS <= u64::MAX,
        ensures
            final(self)@.messages == old(self)@.messages.subrange(0, from_index as int),
            final(self)@.current_session_id == old(self)@.current_session_id,
            final(self)@.selected_prompt_name == old(self)@.selected_prompt_name,
            final(self)@.save_deadline_ms == schedule_save(old(self)@.save_deadline_ms, now_ms),
            final(self)@.run_gen == old(self)@.run_gen,
            (if api_key@.len() == 0 {
                &&& final(self)@.error == Some(missing_api_key_text())
                &&& final(self)@.busy == false
                &&& r == SubmitOutcome::MissingApiKey
            } else {
                &&& final(self)@.error is None
                &&& final(self)@.busy == true
                &&& r == SubmitOutcome::StreamStarted
            }),
    {
        self.messages.truncate(from_index);
        proof {
            assert(msg_views(self.messages@) =~= msg_views(old(self).messages@).subrange(
                0,
                from_index as int,
            ));
        }
        self.save_deadline_ms = Some(now_ms + DEBOUNCE_MS);
        if api_key.as_str().unicode_len() == 0 {
            self.error = Some(String::from_str("No API key provided. Please add one in Settings."));
            self.busy = false;
            SubmitOutcome::MissingApiKey
        } else {
            self.error = None;
            self.busy = true;
            SubmitOutcome::StreamStarted
        }
    }

    /// The request history for the model backend: the current messages,
    /// preceded by a system turn carrying the selected prompt's text when
    /// that text is not empty.
    pub fn request_history(&self, prompt: &Option<SystemPrompt>, model_name: &String) -> (h: Vec<
        Message,
    >)
        ensures
            msg_views(h@) == (match opt_prompt_view(*prompt) {
                Some(p) => if p.prompt.len() > 0 {
                    seq![
                        MessageView {
                            role: Role::System,
                            content: p.prompt,
                            prompt_name: Some(p.name),
                            model_name: Some(model_name@),
                            cost: None::<crate::types::MessageCost>,
                        },
                    ] + msg_views(self.messages@)
                } else {
                    msg_views(self.messages@)
                },
                None => msg_views(self.messages@),
            }),
    {
        let mut h: Vec<Message> = Vec::new();
        match prompt {
            Some(p) => {
                if p.prompt.as_str().unicode_len() > 0 {
                    h.push(
                        Message {
                            role: Role::System,
                            content: p.prompt.clone(),
                            prompt_name: Some(p.name.clone()),
                            model_name: Some(model_name.clone()),
                            cost: None,
                        },
                    );
                }
            },
            None => {},
        }
        let mut rest = clone_messages(&self.messages);
        let ghost head = msg_views(h@);
        h.append(&mut rest);
        proof {
            assert(msg_views(h@) =~= head + msg_views(self.messages@));
            if opt_prompt_view(*prompt) is None || opt_prompt_view(
                *prompt,
            ).unwrap().prompt.len() == 0 {
                assert(msg_views(h@) =~= msg_views(self.messages@));
            }
        }
        h
    }

    /// Starts a coordinator run for this manager: bumps the run
    /// generation, appends the placeholder assistant turn (tagged with the
    /// model and the selected prompt), marks the manager busy and
    /// schedules a save.
    pub fn begin_stream(&mut self, model_name: String, now_ms: u64) -> (st: StreamState)
        requires
            old(self).run_gen < u64::MAX,
            now_ms + DEBOUNCE_MS <= u64::MAX,
        ensures
            final(self)@.messages == begin_step(
                old(self)@.messages,
                model_name@,
                old(self)@.selected_prompt_name,
            ),
            st@ == initial_stream_state((old(self)@.run_gen + 1) as u64),
            final(self)@.run_gen == old(self)@.run_gen + 1,
            final(self)@.busy == true,
            final(self)@.save_deadline_ms == schedule_save(old(self)@.save_deadline_ms, now_ms),
            final(self)@.current_session_id == old(self)@.current_session_id,
            final(self)@.selected_prompt_name == old(self)@.selected_prompt_name,
            final(self)@.error == old(self)@.error,
            stream_wf(st@, final(self)@.messages),
    {
        self.run_gen = self.run_gen + 1;
        let st = StreamState::begin(
            &mut self.messages,
            model_name,
            clone_opt_string(&self.selected_prompt_name),
            self.run_gen,
        );
        self.busy = true;
        self.save_deadline_ms = Some(now_ms + DEBOUNCE_MS);
        st
    }

    /// Whether a coordinator run is still the current one. Events of a
    /// run that is no longer current must not touch the session.
    pub fn stream_is_current(&self, st: &StreamState) -> (r: bool)
        ensures
            r == (st@.gen == self@.run_gen),
    {
        st.gen == self.run_gen
    }

    /// Applies one content delta of the current run and schedules a save;
    /// a delta of a stale run is ignored entirely.
    pub fn stream_delta(&mut self, st: &mut StreamState, delta: &str, now_ms: u64)
        requires
            old(st)@.gen == old(self).run_gen ==> stream_wf(
                old(st)@,
                msg_views(old(self).messages@),
            ),
            now_ms + DEBOUNCE_MS <= u64::MAX,
        ensures
            old(st)@.gen != old(self)@.run_gen ==> final(self)@ == old(self)@ && final(st)@ == old(
                st,
            )@,
            old(st)@.gen == old(self)@.run_gen ==> {
                &&& (final(st)@, final(self)@.messages) == delta_step(
                    old(st)@,
                    old(self)@.messages,
                    delta@,
                    now_ms,
                )
                &&& final(self)@ == (ManagerView {
                    messages: final(self)@.messages,
                    save_deadline_ms: schedule_save(old(self)@.save_deadline_ms, now_ms),
                    ..old(self)@
                })
                &&& stream_wf(final(st)@, final(self)@.messages)
            },
    {
        if st.gen == self.run_gen {
            st.on_delta(&mut self.messages, delta, now_ms);
            self.save_deadline_ms = Some(now_ms + DEBOUNCE_MS);
        }
    }

    /// Applies the terminal usage report of the current run: buffered
    /// content is flushed first, the cost under `pricing` is recorded,
    /// and a save is scheduled; a report of a stale run is ignored.
    pub fn stream_usage(
        &mut self,
        st: &mut StreamState,
        usage: &Usage,
        pricing: &ModelPricing,
        now_ms: u64,
    )
        requires
            old(st)@.gen == old(self).run_gen ==> stream_wf(
                old(st)@,
                msg_views(old(self).messages@),
            ),
            now_ms + DEBOUNCE_MS <= u64::MAX,
        ensures
            old(st)@.gen != old(self)@.run_gen ==> final(self)@ == old(self)@ && final(st)@ == old(
                st,
            )@,
            old(st)@.gen == old(self)@.run_gen ==> {
                &&& (final(st)@, final(self)@.messages) == usage_step(
                    old(st)@,
                    old(self)@.messages,
                    *usage,
                    *pricing,
                )
                &&& final(self)@ == (ManagerView {
                    messages: final(self)@.messages,
                    save_deadline_ms: schedule_save(old(self)@.save_deadline_ms, now_ms),
                    ..old(self)@
                })
                &&& stream_wf(final(st)@, final(self)@.messages)
            },
    {
        if st.gen == self.run_gen {
            st.on_usage(&mut self.messages, usage, pricing);
            self.save_deadline_ms = Some(now_ms + DEBOUNCE_MS);
        }
    }

    /// Ends the current run normally: the remaining buffered content
    /// becomes visible, the busy flag clears, a save is scheduled; the
    /// end of a stale run is ignored.
    pub fn stream_end(&mut self, st: StreamState, now_ms: u64)
        requires
            st@.gen == old(self).run_gen ==> stream_wf(st@, msg_views(old(self).messages@)),
            now_ms + DEBOUNCE_MS <= u64::MAX,
        ensures
            st@.gen != old(self)@.run_gen ==> final(self)@ == old(self)@,
            st@.gen == old(self)@.run_gen ==> final(self)@ == (ManagerView {
                messages: end_step(st@, old(self)@.messages),
                busy: false,
                save_deadline_ms: schedule_save(old(self)@.save_deadline_ms, now_ms),
                ..old(self)@
            }),
    {
        if st.gen == self.run_gen {
            st.finish(&mut self.messages);
            self.busy = false;
            self.save_deadline_ms = Some(now_ms + DEBOUNCE_MS);
        }
    }

    /// Cancels the current run: the partial assistant turn is removed
    /// entirely, no error is recorded (cancellation is not an error), the
    /// busy flag clears and a save is scheduled; cancelling a stale run
    /// is ignored.
    pub fn cancel_stream(&mut self, st: StreamState, now_ms: u64)
        requires
            st@.gen == old(self).run_gen ==> stream_wf(st@, msg_views(old(self).messages@)),
            now_ms + DEBOUNCE_MS <= u64::MAX,
        ensures
            st@.gen != old(self)@.run_gen ==> final(self)@ == old(self)@,
            st@.gen == old(self)@.run_gen ==> final(self)@ == (ManagerView {
                messages: discard_step(old(self)@.messages),
                busy: false,
                save_deadline_ms: schedule_save(old(self)@.save_deadline_ms, now_ms),
                ..old(self)@
            }),
    {
        if st.gen == self.run_gen {
            st.discard(&mut self.messages);
            self.busy = false;
            self.save_deadline_ms = Some(now_ms + DEBOUNCE_MS);
        }
    }

    /// A stream failure of the current run: the partial assistant turn is
    /// removed entirely, the error surfaces in the error slot, the busy
    /// flag clears and a save is scheduled; a failure of a stale run is
    /// ignored.
    pub fn stream_error(&mut self, st: StreamState, error_text: String, now_ms: u64)
        requires
            st@.gen == old(self).run_gen ==> stream_wf(st@, msg_views(old(self).messages@)),
            now_ms + DEBOUNCE_MS <= u64::MAX,
        ensures
            st@.gen != old(self)@.run_gen ==> final(self)@ == old(self)@,
            st@.gen == old(self)@.run_gen ==> final(self)@ == (ManagerView {
                messages: discard_step(old(self)@.messages),
                error: Some(error_text@),
                busy: false,
                save_deadline_ms: schedule_save(old(self)@.save_deadline_ms, now_ms),
                ..old(self)@
            }),
    {
        if st.gen == self.run_gen {
            st.discard(&mut self.messages);
            self.error = Some(error_text);
            self.busy = false;
            self.save_deadline_ms = Some(now_ms + DEBOUNCE_MS);
        }
    }

    /// Performs the debounced write when it is due: clears the deadline
    /// and, when there is a session with content, writes the latest
    /// snapshot — creation time read from the existing record, update
    /// time refreshed to now. Before the deadline nothing happens at all.
    pub fn flush_save_if_due(&mut self, store: &mut SessionStore, now_ms: u64) -> (wrote: bool)
        requires
            old(store).is_open(),
            old(self).run_gen < u64::MAX,
        ensures
            (final(self)@, final(store)@, wrote) == flush_spec(old(self)@, old(store)@, now_ms),
            final(store).is_open(),
    {
        let due = match self.save_deadline_ms {
            Some(d) => now_ms >= d,
            None => false,
        };
        if !due {
            return false;
        }
        self.save_deadline_ms = None;
        let id = match &self.current_session_id {
            Some(id) => id.clone(),
            None => {
                return false;
            },
        };
        if self.messages.len() == 0 {
            return false;
        }
        let existing = store.get(&id);
        let created_at_ms = match &existing {
            Some(s) => s.created_at_ms,
            None => now_ms,
        };
        let snapshot = ChatSession {
            session_id: id,
            messages: clone_messages(&self.messages),
            name: None,
            prompt_name: clone_opt_string(&self.selected_prompt_name),
            created_at_ms,
            updated_at_ms: now_ms,
        };
        store.put(snapshot);
        true
    }

    /// Starts a new chat: back to the Empty state, the prompt selection
    /// kept, any pending write and any in-flight run of the old session
    /// dropped.
    pub fn new_session(&mut self)
        requires
            old(self).run_gen < u64::MAX,
        ensures
            final(self)@ == (ManagerView {
                current_session_id: None::<Seq<char>>,
                messages: Seq::<MessageView>::empty(),
                selected_prompt_name: old(self)@.selected_prompt_name,
                error: None::<Seq<char>>,
                busy: false,
                save_deadline_ms: None::<u64>,
                run_gen: (old(self)@.run_gen + 1) as u64,
            }),
    {
        self.current_session_id = None;
        self.messages = Vec::new();
        self.error = None;
        self.busy = false;
        self.save_deadline_ms = None;
        self.run_gen = self.run_gen + 1;
        proof {
            assert(msg_views(self.messages@) =~= Seq::<MessageView>::empty());
        }
    }

    /// Loads a session: requesting the current identifier is a no-op (no
    /// redundant store read); a stored identifier replaces the in-memory
    /// state wholesale and invalidates any in-flight run of the old
    /// session; an identifier absent from the store reports not-found and
    /// falls back to the Empty state.
    pub fn load_session(&mut self, store: &SessionStore, id: &String) -> (found: bool)
        requires
            old(self).run_gen < u64::MAX,
        ensures
            old(self)@.current_session_id == Some(id@) ==> final(self)@ == old(self)@ && found,
            old(self)@.current_session_id != Some(id@) ==> (match find_session(
                store@.records,
                id@,
            ) {
                Some(rec) => {
                    &&& found
                    &&& final(self)@ == (ManagerView {
                        current_session_id: Some(rec.session_id),
                        messages: rec.messages,
                        selected_prompt_name: rec.prompt_name,
                        error: None::<Seq<char>>,
                        busy: false,
                        save_deadline_ms: None::<u64>,
                        run_gen: (old(self)@.run_gen + 1) as u64,
                    })
                },
                None => {
                    &&& !found
                    &&& final(self)@ == (ManagerView {
                        current_session_id: None::<Seq<char>>,
                        messages: Seq::<MessageView>::empty(),
                        selected_prompt_name: old(self)@.selected_prompt_name,
                        error: Some(session_not_found_text()),
                        busy: false,
                        save_deadline_ms: None::<u64>,
                        run_gen: (old(self)@.run_gen + 1) as u64,
                    })
                },
            }),
    {
        let is_current = match &self.current_session_id {
            Some(cur) => *cur == *id,
            None => false,
        };
        if is_current {
            return true;
        }
        match store.get(id) {
            Some(rec) => {
                self.current_session_id = Some(rec.session_id);
                self.messages = rec.messages;
                self.selected_prompt_name = rec.prompt_name;
                self.error = None;
                self.busy = false;
                self.save_deadline_ms = None;
                self.run_gen = self.run_gen + 1;
                true
            },
            None => {
                self.current_session_id = None;
                self.messages = Vec::new();
                self.error = Some(String::from_str("Session not found."));
                self.busy = false;
                self.save_deadline_ms = None;
                self.run_gen = self.run_gen + 1;
                proof {
                    assert(msg_views(self.messages@) =~= Seq::<MessageView>::empty());
                }
                false
            },
        }
    }
}

/// First position of an identifier in a listing, if it occurs.
pub open spec fn position_of(ids: Seq<Seq<char>>, id: Seq<char>) -> Option<int>
    decreases ids.len(),
{
    if ids.len() == 0 {
        None
    } else if ids.first() == id {
        Some(0int)
    } else {
        match position_of(ids.drop_first(), id) {
            Some(k) => Some(k + 1),
            None => None,
        }
    }
}

/// Where prev navigation goes: one step toward older sessions in the
/// recency listing; with no current position, to the most recent session;
/// past the end, nowhere.
pub open spec fn prev_target(ids: Seq<Seq<char>>, current: Option<Seq<char>>) -> Option<Seq<char>> {
    let pos = match current {
        Some(id) => position_of(ids, id),
        None => None,
    };
    match pos {
        Some(k) => if k + 1 < ids.len() {
            Some(ids[k + 1])
        } else {
            None
        },
        None => if ids.len() > 0 {
            Some(ids[0])
        } else {
            None
        },
    }
}

/// Where next navigation goes: one step toward newer sessions; from the
/// newest, or without a position, nowhere.
pub open spec fn next_target(ids: Seq<Seq<char>>, current: Option<Seq<char>>) -> Option<Seq<char>> {
    let pos = match current {
        Some(id) => position_of(ids, id),
        None => None,
    };
    match pos {
        Some(k) => if k > 0 {
            Some(ids[k - 1])
        } else {
            None
        },
        None => None,
    }
}

/// Views of an identifier listing.
pub open spec fn id_views(ids: Seq<String>) -> Seq<Seq<char>> {
    ids.map_values(|s: String| s@)
}

/// A first match at position `k` is the position found.
proof fn lemma_position_of_at(ids: Seq<Seq<char>>, id: Seq<char>, k: int)
    requires
        0 <= k < ids.len(),
        ids[k] == id,
        forall|j: int| 0 <= j < k ==> ids[j] != id,
    ensures
        position_of(ids, id) == Some(k),
    decreases k,
{
    if k > 0 {
        lemma_position_of_at(ids.drop_first(), id, k - 1);
    }
}

/// An identifier that occurs nowhere has no position.
proof fn lemma_position_of_absent(ids: Seq<Seq<char>>, id: Seq<char>)
    requires
        forall|j: int| 0 <= j < ids.len() ==> ids[j] != id,
    ensures
        position_of(ids, id) is None,
    decreases ids.len(),
{
    if ids.len() > 0 {
        lemma_position_of_absent(ids.drop_first(), id);
    }
}

/// First position of an identifier in a listing, as executable code.
fn find_position(ids: &Vec<String>, id: &String) -> (r: Option<usize>)
    ensures
        match r {
            Some(k) => k < ids@.len() && position_of(id_views(ids@), id@) == Some(k as int),
            None => position_of(id_views(ids@), id@) is None,
        },
{
    let mut i: usize = 0;
    while i < ids.len()
        invariant
            0 <= i <= ids.len(),
            forall|j: int| 0 <= j < i ==> id_views(ids@)[j] != id@,
        decreases ids.len() - i,
    {
        if ids[i] == *id {
            proof {
                lemma_position_of_at(id_views(ids@), id@, i as int);
            }
            return Some(i);
        }
        i = i + 1;
    }
    proof {
        lemma_position_of_absent(id_views(ids@), id@);
    }
    None
}

impl SessionManager {
    /// The session prev navigation moves to, given the recency listing:
    /// one step toward older sessions, or the most recent one when the
    /// current session has no position in the listing. `None` past the
    /// end — navigating past either end is a no-op, not an error.
    pub fn prev_session_id(&self, ids: &Vec<String>) -> (r: Option<String>)
        ensures
            opt_view(r) == prev_target(id_views(ids@), self@.current_session_id),
    {
        let pos = match &self.current_session_id {
            Some(cur) => find_position(ids, cur),
            None => None,
        };
        match pos {
            Some(k) => {
                let n = ids.len();
                if k + 1 < n {
                    Some(ids[k + 1].clone())
                } else {
                    None
                }
            },
            None => {
                if ids.len() > 0 {
                    Some(ids[0].clone())
                } else {
                    None
                }
            },
        }
    }

    /// The session next navigation moves to: one step toward newer
    /// sessions, or nowhere from the newest one.
    pub fn next_session_id(&self, ids: &Vec<String>) -> (r: Option<String>)
        ensures
            opt_view(r) == next_target(id_views(ids@), self@.current_session_id),
    {
        let pos = match &self.current_session_id {
            Some(cur) => find_position(ids, cur),
            None => None,
        };
        match pos {
            Some(k) => {
                if k > 0 {
                    Some(ids[k - 1].clone())
                } else {
                    None
                }
            },
            None => None,
        }
    }
}

/// Debounced writes coalesce: scheduling a save and then scheduling again
/// within the window leaves exactly the schedule of the later mutation —
/// many rapid mutations leave one pending write.
pub proof fn lemma_debounce_coalesces(deadline: Option<u64>, t1: u64, t2: u64)
    ensures
        schedule_save(schedule_save(deadline, t1), t2) == schedule_save(deadline, t2),
{
}

/// Before the deadline a flush is a no-op: no store write happens while
/// mutations are still arriving within the debounce window.
pub proof fn lemma_no_write_before_deadline(m: ManagerView, s: StoreModel, now_ms: u64, d: u64)
    requires
        m.save_deadline_ms == Some(d),
        now_ms < d,
    ensures
        flush_spec(m, s, now_ms) == (m, s, false),
{
}

/// A due flush writes the latest snapshot: the record stored under the
/// current identifier carries exactly the manager's messages of that
/// moment.
pub proof fn lemma_flush_writes_latest(m: ManagerView, s: StoreModel, now_ms: u64)
    requires
        s.index is Some,
        save_due(m, now_ms),
        savable(m),
    ensures
        ({
            let r = flush_spec(m, s, now_ms);
            &&& r.2
            &&& find_session(r.1.records, m.current_session_id.unwrap()) matches Some(rec)
                && rec.messages == m.messages && rec.updated_at_ms == now_ms
        }),
{
    let snapshot = session_snapshot(
        m,
        find_session(s.records, m.current_session_id.unwrap()),
        now_ms,
    );
    crate::store::lemma_find_after_put_records(s.records, snapshot);
}

/// Creation time is preserved across saves: a due flush writes a record
/// whose `created_at_ms` is the existing record's, and only the update
/// time advances; a session saved for the first time gets the save time
/// as its creation time.
pub proof fn lemma_created_at_preserved(m: ManagerView, s: StoreModel, now_ms: u64)
    requires
        s.index is Some,
        save_due(m, now_ms),
        savable(m),
    ensures
        ({
            let written = find_session(
                flush_spec(m, s, now_ms).1.records,
                m.current_session_id.unwrap(),
            );
            &&& written matches Some(rec) && rec.updated_at_ms == now_ms
                && rec.created_at_ms == (match find_session(
                s.records,
                m.current_session_id.unwrap(),
            ) {
                Some(existing) => existing.created_at_ms,
                None => now_ms,
            })
        }),
{
    let snapshot = session_snapshot(
        m,
        find_session(s.records, m.current_session_id.unwrap()),
        now_ms,
    );
    crate::store::lemma_find_after_put_records(s.records, snapshot);
}

/// A record is never updated before it was created: under a clock that
/// has not run back past any stored creation time, every record of the
/// store keeps `created_at_ms <= updated_at_ms` through a flush.
pub proof fn lemma_flush_keeps_timestamp_order(m: ManagerView, s: StoreModel, now_ms: u64)
    requires
        s.index is Some,
        forall|k: int| 0 <= k < s.records.len() ==> crate::store::session_wf(#[trigger] s.records[k]),
        forall|k: int| 0 <= k < s.records.len() ==> (#[trigger] s.records[k]).created_at_ms <= now_ms,
    ensures
        ({
            let after = flush_spec(m, s, now_ms).1;
            forall|k: int| 0 <= k < after.records.len() ==> crate::store::session_wf(
                #[trigger] after.records[k],
            )
        }),
{
    if save_due(m, now_ms) && savable(m) {
        let existing = find_session(s.records, m.current_session_id.unwrap());
        let snapshot = session_snapshot(m, existing, now_ms);
        crate::store::lemma_find_session_is_member(s.records, m.current_session_id.unwrap());
        crate::store::lemma_put_records_elements(s.records, snapshot);
        let after = flush_spec(m, s, now_ms).1;
        assert forall|k: int| 0 <= k < after.records.len() implies crate::store::session_wf(
            #[trigger] after.records[k],
        ) by {
            if after.records[k] != snapshot {
                let r = after.records[k];
                let j = choose|j: int| 0 <= j < s.records.len() && s.records[j] == r;
                assert(crate::store::session_wf(s.records[j]));
            }
        }
    }
}

/// Saving twice preserves the original creation time: after a first save
/// at `t1` and a second at `t2`, the stored record still carries the
/// creation time the first save established, and `updated_at_ms == t2`.
pub proof fn lemma_second_save_keeps_created_at(
    m1: ManagerView,
    m2: ManagerView,
    s: StoreModel,
    t1: u64,
    t2: u64,
)
    requires
        s.index is Some,
        save_due(m1, t1),
        savable(m1),
        save_due(m2, t2),
        savable(m2),
        m2.current_session_id == m1.current_session_id,
    ensures
        ({
            let s1 = flush_spec(m1, s, t1).1;
            let s2 = flush_spec(m2, s1, t2).1;
            let written = find_session(s2.records, m2.current_session_id.unwrap());
            &&& written matches Some(rec) && rec.updated_at_ms == t2 && rec.created_at_ms == (
            match find_session(s.records, m1.current_session_id.unwrap()) {
                Some(existing) => existing.created_at_ms,
                None => t1,
            })
        }),
{
    let id = m1.current_session_id.unwrap();
    let snap1 = session_snapshot(m1, find_session(s.records, id), t1);
    crate::store::lemma_find_after_put_records(s.records, snap1);
    let s1 = flush_spec(m1, s, t1).1;
    let snap2 = session_snapshot(m2, find_session(s1.records, id), t2);
    crate::store::lemma_find_after_put_records(s1.records, snap2);
}

} // verus!

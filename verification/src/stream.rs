//! Coordination of one streamed model response.
//!
//! A `StreamState` tracks the in-progress assistant turn: content that has
//! already been flushed lives in the last message of the session's list,
//! content that has arrived but is not yet visible sits in an internal
//! buffer. Flushes happen immediately on the first delta of a response and
//! thereafter at most once per `FLUSH_INTERVAL_MS`, which bounds the rate of
//! visible updates without delaying the first token. Cancellation and stream
//! errors discard the partial assistant turn entirely.

use vstd::prelude::*;

use crate::types::{
    cost_of, msg_views, opt_view, Message, MessageView, ModelPricing, Role, Usage,
};
use crate::types::compute_cost;
use crate::FLUSH_INTERVAL_MS;

verus! {

/// Transient state of one in-flight streamed response.
///
/// `gen` identifies the coordinator run that owns this state; the session
/// manager uses it to reject events of a run that is no longer current.
pub struct StreamState {
    pub buffer: String,
    pub last_flush_ms: Option<u64>,
    pub gen: u64,
}

/// Mathematical view of a `StreamState`.
pub struct StreamStateView {
    pub buffer: Seq<char>,
    pub last_flush_ms: Option<u64>,
    pub gen: u64,
}

impl View for StreamState {
    type V = StreamStateView;

    open spec fn view(&self) -> StreamStateView {
        StreamStateView { buffer: self.buffer@, last_flush_ms: self.last_flush_ms, gen: self.gen }
    }
}

/// The stream state a coordinator run starts with: nothing buffered,
/// nothing flushed yet.
pub open spec fn initial_stream_state(gen: u64) -> StreamStateView {
    StreamStateView { buffer: Seq::<char>::empty(), last_flush_ms: None, gen }
}

/// The placeholder assistant turn appended when a run begins.
pub open spec fn placeholder_message(
    model_name: Seq<char>,
    prompt_name: Option<Seq<char>>,
) -> MessageView {
    MessageView {
        role: Role::Assistant,
        content: Seq::<char>::empty(),
        prompt_name,
        model_name: Some(model_name),
        cost: None,
    }
}

/// Well-formedness of a run against a message list: the list ends with the
/// assistant turn this run is streaming into.
pub open spec fn stream_wf(st: StreamStateView, msgs: Seq<MessageView>) -> bool {
    &&& msgs.len() > 0
    &&& msgs.last().role is Assistant
}

/// Whether a delta arriving at `now_ms` is flushed at once: always for the
/// first delta of the response, otherwise only when a full flush interval
/// has elapsed since the last flush.
pub open spec fn should_flush(st: StreamStateView, now_ms: u64) -> bool {
    match st.last_flush_ms {
        None => true,
        Some(t) => now_ms >= t + FLUSH_INTERVAL_MS,
    }
}

/// The message list after the content of its last turn is replaced.
pub open spec fn set_last_content(msgs: Seq<MessageView>, content: Seq<char>) -> Seq<MessageView>
    recommends
        msgs.len() > 0,
{
    msgs.update(
        msgs.len() - 1,
        MessageView {
            role: msgs.last().role,
            content,
            prompt_name: msgs.last().prompt_name,
            model_name: msgs.last().model_name,
            cost: msgs.last().cost,
        },
    )
}

/// Beginning a run appends the placeholder assistant turn.
pub open spec fn begin_step(
    msgs: Seq<MessageView>,
    model_name: Seq<char>,
    prompt_name: Option<Seq<char>>,
) -> Seq<MessageView> {
    msgs.push(placeholder_message(model_name, prompt_name))
}

/// One content delta: appended to the buffer, and flushed into the visible
/// message when the throttle allows it.
pub open spec fn delta_step(
    st: StreamStateView,
    msgs: Seq<MessageView>,
    delta: Seq<char>,
    now_ms: u64,
) -> (StreamStateView, Seq<MessageView>)
    recommends
        stream_wf(st, msgs),
{
    let buffered = st.buffer + delta;
    if should_flush(st, now_ms) {
        (
            StreamStateView {
                buffer: Seq::<char>::empty(),
                last_flush_ms: Some(now_ms),
                gen: st.gen,
            },
            set_last_content(msgs, msgs.last().content + buffered),
        )
    } else {
        (StreamStateView { buffer: buffered, last_flush_ms: st.last_flush_ms, gen: st.gen }, msgs)
    }
}

/// A terminal usage report: every buffered delta is flushed first, then the
/// cost computed from the report is recorded on the same turn.
pub open spec fn usage_step(
    st: StreamStateView,
    msgs: Seq<MessageView>,
    usage: Usage,
    pricing: ModelPricing,
) -> (StreamStateView, Seq<MessageView>)
    recommends
        stream_wf(st, msgs),
{
    (
        StreamStateView {
            buffer: Seq::<char>::empty(),
            last_flush_ms: st.last_flush_ms,
            gen: st.gen,
        },
        msgs.update(
            msgs.len() - 1,
            MessageView {
                role: msgs.last().role,
                content: msgs.last().content + st.buffer,
                prompt_name: msgs.last().prompt_name,
                model_name: msgs.last().model_name,
                cost: Some(cost_of(usage, pricing)),
            },
        ),
    )
}

/// Normal end of the stream: the remaining buffered content becomes visible.
pub open spec fn end_step(st: StreamStateView, msgs: Seq<MessageView>) -> Seq<MessageView>
    recommends
        stream_wf(st, msgs),
{
    set_last_content(msgs, msgs.last().content + st.buffer)
}

/// Cancellation or a stream error: the partial assistant turn is removed
/// entirely, never kept truncated.
pub open spec fn discard_step(msgs: Seq<MessageView>) -> Seq<MessageView>
    recommends
        msgs.len() > 0,
{
    msgs.drop_last()
}

/// Why a streamed request is refused before any network contact.
#[derive(Clone, Copy, PartialEq, Eq, Structural, Debug)]
pub enum RequestError {
    /// No credential is configured; checked before anything else.
    MissingApiKey,
    /// The request history holds no message at all.
    EmptyHistory,
    /// The request history does not end with the user's latest turn.
    NoUserTurn,
}

/// The preconditions of a coordinator run, checked synchronously before
/// any network call: a non-empty credential, and a history that is
/// non-empty and ends with the user's latest turn. `Ok` exactly when all
/// three hold; each failure names the first condition violated.
pub fn validate_request(history: &Vec<Message>, api_key: &String) -> (r: Result<
    (),
    RequestError,
>)
    ensures
        r is Ok <==> api_key@.len() > 0 && history@.len() > 0 && msg_views(
            history@,
        ).last().role is User,
        r == Err::<(), RequestError>(RequestError::MissingApiKey) <==> api_key@.len() == 0,
        r == Err::<(), RequestError>(RequestError::EmptyHistory) <==> api_key@.len() > 0
            && history@.len() == 0,
        r == Err::<(), RequestError>(RequestError::NoUserTurn) <==> api_key@.len() > 0
            && history@.len() > 0 && !(msg_views(history@).last().role is User),
{
    if api_key.as_str().unicode_len() == 0 {
        return Err(RequestError::MissingApiKey);
    }
    if history.len() == 0 {
        return Err(RequestError::EmptyHistory);
    }
    let last = &history[history.len() - 1];
    match last.role {
        Role::User => Ok(()),
        _ => Err(RequestError::NoUserTurn),
    }
}

/// Concatenation of the texts of a sequence of deltas, in arrival order.
/// Each delta is a text together with the time it arrived.
pub open spec fn concat_deltas(deltas: Seq<(Seq<char>, u64)>) -> Seq<char>
    decreases deltas.len(),
{
    if deltas.len() == 0 {
        Seq::<char>::empty()
    } else {
        deltas.first().0 + concat_deltas(deltas.drop_first())
    }
}

/// The state and message list after a whole sequence of deltas is handled.
pub open spec fn run_deltas(
    st: StreamStateView,
    msgs: Seq<MessageView>,
    deltas: Seq<(Seq<char>, u64)>,
) -> (StreamStateView, Seq<MessageView>)
    decreases deltas.len(),
{
    if deltas.len() == 0 {
        (st, msgs)
    } else {
        let stepped = delta_step(st, msgs, deltas.first().0, deltas.first().1);
        run_deltas(stepped.0, stepped.1, deltas.drop_first())
    }
}

/// Handling deltas touches only the content of the last turn: every earlier
/// message, and every other field of the last turn, is untouched, and the
/// content received so far (visible plus buffered) is exactly what was there
/// before plus the concatenation of the deltas.
pub proof fn lemma_run_deltas_structure(
    st: StreamStateView,
    msgs: Seq<MessageView>,
    deltas: Seq<(Seq<char>, u64)>,
)
    requires
        stream_wf(st, msgs),
    ensures
        ({
            let r = run_deltas(st, msgs, deltas);
            &&& r.1.len() == msgs.len()
            &&& r.1.drop_last() =~= msgs.drop_last()
            &&& r.1.last().role == msgs.last().role
            &&& r.1.last().prompt_name == msgs.last().prompt_name
            &&& r.1.last().model_name == msgs.last().model_name
            &&& r.1.last().cost == msgs.last().cost
            &&& r.0.gen == st.gen
            &&& stream_wf(r.0, r.1)
            &&& r.1.last().content + r.0.buffer =~= msgs.last().content + st.buffer
                + concat_deltas(deltas)
        }),
    decreases deltas.len(),
{
    if deltas.len() == 0 {
        assert(msgs.last().content + st.buffer + concat_deltas(deltas) =~= msgs.last().content
            + st.buffer);
    } else {
        let stepped = delta_step(st, msgs, deltas.first().0, deltas.first().1);
        if should_flush(st, deltas.first().1) {
            assert(stepped.1.drop_last() =~= msgs.drop_last());
        }
        assert(stepped.1.last().content + stepped.0.buffer =~= msgs.last().content + st.buffer
            + deltas.first().0);
        lemma_run_deltas_structure(stepped.0, stepped.1, deltas.drop_first());
        let r = run_deltas(st, msgs, deltas);
        assert(r.1.last().content + r.0.buffer =~= msgs.last().content + st.buffer + concat_deltas(
            deltas,
        ));
    }
}

/// Cancellation discards partial content: however many deltas have arrived
/// since the run began, cancelling removes the assistant turn entirely and
/// leaves the message list exactly as it was before the run.
pub proof fn lemma_cancel_discards_partial_content(
    msgs0: Seq<MessageView>,
    model_name: Seq<char>,
    prompt_name: Option<Seq<char>>,
    gen: u64,
    deltas: Seq<(Seq<char>, u64)>,
)
    ensures
        ({
            let begun = begin_step(msgs0, model_name, prompt_name);
            let r = run_deltas(initial_stream_state(gen), begun, deltas);
            discard_step(r.1) =~= msgs0
        }),
{
    let begun = begin_step(msgs0, model_name, prompt_name);
    lemma_run_deltas_structure(initial_stream_state(gen), begun, deltas);
    assert(begun.drop_last() =~= msgs0);
}

/// The first delta of a response is visible immediately: the flush is not
/// deferred, and afterwards nothing is left buffered.
pub proof fn lemma_first_delta_visible(
    st: StreamStateView,
    msgs: Seq<MessageView>,
    delta: Seq<char>,
    now_ms: u64,
)
    requires
        stream_wf(st, msgs),
        st.last_flush_ms is None,
    ensures
        ({
            let r = delta_step(st, msgs, delta, now_ms);
            &&& r.1.last().content =~= msgs.last().content + st.buffer + delta
            &&& r.0.buffer.len() == 0
            &&& r.0.last_flush_ms == Some(now_ms)
        }),
{
}

/// Between flushes the visible message list does not change: a delta that
/// arrives less than a full flush interval after the last flush is only
/// buffered, so visible updates happen at most once per interval.
pub proof fn lemma_throttled_delta_not_visible(
    st: StreamStateView,
    msgs: Seq<MessageView>,
    delta: Seq<char>,
    now_ms: u64,
    t: u64,
)
    requires
        stream_wf(st, msgs),
        st.last_flush_ms == Some(t),
        now_ms < t + FLUSH_INTERVAL_MS,
    ensures
        ({
            let r = delta_step(st, msgs, delta, now_ms);
            &&& r.1 == msgs
            &&& r.0.buffer == st.buffer + delta
            &&& r.0.last_flush_ms == Some(t)
        }),
{
}

/// Once the stream ends normally, the visible content of the assistant turn
/// equals the concatenation of all deltas of the run, in arrival order, and
/// every earlier message is as it was before the run.
pub proof fn lemma_final_content_is_concatenation(
    msgs0: Seq<MessageView>,
    model_name: Seq<char>,
    prompt_name: Option<Seq<char>>,
    gen: u64,
    deltas: Seq<(Seq<char>, u64)>,
)
    ensures
        ({
            let begun = begin_step(msgs0, model_name, prompt_name);
            let r = run_deltas(initial_stream_state(gen), begun, deltas);
            let done = end_step(r.0, r.1);
            &&& done.last().content =~= concat_deltas(deltas)
            &&& done.drop_last() =~= msgs0
        }),
{
    let begun = begin_step(msgs0, model_name, prompt_name);
    let st0 = initial_stream_state(gen);
    lemma_run_deltas_structure(st0, begun, deltas);
    let r = run_deltas(st0, begun, deltas);
    let done = end_step(r.0, r.1);
    assert(begun.last().content + st0.buffer + concat_deltas(deltas) =~= concat_deltas(deltas));
    assert(done.last().content =~= r.1.last().content + r.0.buffer);
    assert(done.drop_last() =~= r.1.drop_last());
    assert(begun.drop_last() =~= msgs0);
}

/// Usage is applied only after all content that preceded it in the stream:
/// the very step that records the cost also makes every delta received so
/// far visible, so no state shows a cost next to missing content.
pub proof fn lemma_usage_applied_after_content(
    st: StreamStateView,
    msgs: Seq<MessageView>,
    usage: Usage,
    pricing: ModelPricing,
)
    requires
        stream_wf(st, msgs),
    ensures
        ({
            let r = usage_step(st, msgs, usage, pricing);
            &&& r.1.last().content =~= msgs.last().content + st.buffer
            &&& r.0.buffer.len() == 0
            &&& r.1.last().cost == Some(cost_of(usage, pricing))
            &&& r.1.drop_last() =~= msgs.drop_last()
        }),
{
    let r = usage_step(st, msgs, usage, pricing);
    assert(r.1.drop_last() =~= msgs.drop_last());
}

impl StreamState {
    /// Starts a run: appends the placeholder assistant turn that all later
    /// events of this run mutate, and returns the initial stream state.
    pub fn begin(
        messages: &mut Vec<Message>,
        model_name: String,
        prompt_name: Option<String>,
        gen: u64,
    ) -> (st: StreamState)
        ensures
            msg_views(final(messages)@) == begin_step(
                msg_views(old(messages)@),
                model_name@,
                opt_view(prompt_name),
            ),
            st@ == initial_stream_state(gen),
            stream_wf(st@, msg_views(final(messages)@)),
    {
        let placeholder = Message {
            role: Role::Assistant,
            content: String::new(),
            prompt_name,
            model_name: Some(model_name),
            cost: None,
        };
        messages.push(placeholder);
        proof {
            assert(msg_views(messages@) =~= begin_step(
                msg_views(old(messages)@),
                model_name@,
                opt_view(prompt_name),
            ));
        }
        StreamState { buffer: String::new(), last_flush_ms: None, gen }
    }

    /// Handles one content delta arriving at `now_ms`: buffers it, and
    /// flushes the buffer into the visible turn exactly when the throttle
    /// policy says so.
    pub fn on_delta(&mut self, messages: &mut Vec<Message>, delta: &str, now_ms: u64)
        requires
            stream_wf(old(self)@, msg_views(old(messages)@)),
        ensures
            (final(self)@, msg_views(final(messages)@)) == delta_step(
                old(self)@,
                msg_views(old(messages)@),
                delta@,
                now_ms,
            ),
            stream_wf(final(self)@, msg_views(final(messages)@)),
    {
        self.buffer.append(delta);
        let flush = match self.last_flush_ms {
            None => true,
            Some(t) => now_ms >= t && now_ms - t >= FLUSH_INTERVAL_MS,
        };
        if flush {
            assert(messages@.len() == msg_views(old(messages)@).len());
            let mut last = messages.pop().unwrap();
            last.content.append(self.buffer.as_str());
            messages.push(last);
            self.buffer = String::new();
            self.last_flush_ms = Some(now_ms);
            proof {
                let spec_msgs = delta_step(
                    old(self)@,
                    msg_views(old(messages)@),
                    delta@,
                    now_ms,
                ).1;
                assert(msg_views(messages@) =~= spec_msgs);
            }
        } else {
            proof {
                assert(msg_views(messages@) == msg_views(old(messages)@));
            }
        }
    }

    /// Handles the terminal usage report: flushes any buffered content so
    /// that the cost is never visible without the text that preceded it,
    /// then records the cost computed under `pricing`.
    pub fn on_usage(
        &mut self,
        messages: &mut Vec<Message>,
        usage: &Usage,
        pricing: &ModelPricing,
    )
        requires
            stream_wf(old(self)@, msg_views(old(messages)@)),
        ensures
            (final(self)@, msg_views(final(messages)@)) == usage_step(
                old(self)@,
                msg_views(old(messages)@),
                *usage,
                *pricing,
            ),
            stream_wf(final(self)@, msg_views(final(messages)@)),
    {
        assert(messages@.len() == msg_views(old(messages)@).len());
        let mut last = messages.pop().unwrap();
        last.content.append(self.buffer.as_str());
        last.cost = Some(compute_cost(usage, pricing));
        messages.push(last);
        self.buffer = String::new();
        proof {
            let spec_msgs = usage_step(
                old(self)@,
                msg_views(old(messages)@),
                *usage,
                *pricing,
            ).1;
            assert(msg_views(messages@) =~= spec_msgs);
        }
    }

    /// Normal end of the stream: flushes whatever is still buffered. The
    /// run is over; the state is consumed.
    pub fn finish(self, messages: &mut Vec<Message>)
        requires
            stream_wf(self@, msg_views(old(messages)@)),
        ensures
            msg_views(final(messages)@) == end_step(self@, msg_views(old(messages)@)),
    {
        assert(messages@.len() == msg_views(old(messages)@).len());
        let mut last = messages.pop().unwrap();
        last.content.append(self.buffer.as_str());
        messages.push(last);
        proof {
            assert(msg_views(messages@) =~= end_step(self@, msg_views(old(messages)@)));
        }
    }

    /// Cancellation or stream error: removes the partial assistant turn
    /// entirely. The run is over; the state is consumed.
    pub fn discard(self, messages: &mut Vec<Message>)
        requires
            old(messages).len() > 0,
        ensures
            msg_views(final(messages)@) == discard_step(msg_views(old(messages)@)),
    {
        let _ = messages.pop();
        proof {
            assert(msg_views(messages@) =~= discard_step(msg_views(old(messages)@)));
        }
    }
}

} // verus!

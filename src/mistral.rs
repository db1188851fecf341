//! The adapter for an embedded inference engine that owns its own request
//! queue: it shapes the submission record and normalizes the engine's
//! response sequence.
use vstd::prelude::*;

use crate::error::CompletionError;
use crate::message::{
    role_token, CompletionRequest, CompletionResponse, DeltaContent, MessageHistoryItem, MessageRole,
    Real32, Real64, StreamingCompletionChoice, StreamingCompletionResponse,
};
use crate::normalize::{
    assistant_reply, deltas_view, drain_steps, each_has_choice, join_first_contents,
    joined_first_contents, lemma_end_adds_nothing, lemma_end_is_final, opt_view, stream_items, ChoiceView, StepView, StreamStep,
};
use crate::trusted::{since_unix_epoch, uuid_text};

verus! {

/// One choice of an engine chunk.
#[derive(Debug)]
pub struct EngineChoice {
    pub content: Option<String>,
    pub finish_reason: Option<String>,
}

/// A streamed chat chunk of the engine.
#[derive(Debug)]
pub struct EngineChunk {
    pub choices: Vec<EngineChoice>,
}

/// What the engine pushes into a request's response channel.
#[derive(Debug)]
pub enum EngineResponse {
    /// A chat chunk.
    Chunk(EngineChunk),
    /// The engine failed internally.
    InternalError(String),
    /// The request was refused.
    ValidationError(String),
    /// The model failed while generating.
    ModelError(String),
    /// The request is complete.
    Done,
    /// A response of another shape (a plain-text completion, an image, speech,
    /// raw logits): not part of a chat stream.
    Other,
}

/// The text of an optional chunk content; a missing one is empty.
pub open spec fn content_or_empty(o: Option<String>) -> Seq<char> {
    match o {
        Some(s) => s@,
        None => Seq::empty(),
    }
}

/// An engine choice as a delta choice.
pub open spec fn engine_choice_view(c: EngineChoice) -> ChoiceView {
    ChoiceView { content: content_or_empty(c.content), finish_reason: opt_view(c.finish_reason) }
}

/// An engine chunk as a delta item.
pub open spec fn engine_chunk_view(c: EngineChunk) -> Seq<ChoiceView> {
    c.choices@.map_values(|e: EngineChoice| engine_choice_view(e))
}

/// Every choice carries a finish reason; vacuously so when there is none.
pub open spec fn all_finished(v: Seq<ChoiceView>) -> bool {
    forall|k: int| 0 <= k < v.len() ==> (#[trigger] v[k]).finish_reason is Some
}

/// How the stream treats an engine response: a chunk where every choice has
/// finished marks the end and is dropped, any other chunk is handed on; an
/// error or completion ends the stream; responses of other shapes are
/// ignored.
pub open spec fn engine_step(r: EngineResponse) -> StepView {
    match r {
        EngineResponse::Chunk(c) => if all_finished(engine_chunk_view(c)) {
            StepView::End
        } else {
            StepView::Item(engine_chunk_view(c))
        },
        EngineResponse::InternalError(_) => StepView::End,
        EngineResponse::ValidationError(_) => StepView::End,
        EngineResponse::ModelError(_) => StepView::End,
        EngineResponse::Done => StepView::End,
        EngineResponse::Other => StepView::Skip,
    }
}

/// The delta items a consumer sees for a sequence of engine responses.
pub open spec fn engine_items(responses: Seq<EngineResponse>) -> Seq<Seq<ChoiceView>> {
    stream_items(responses.map_values(|r: EngineResponse| engine_step(r)))
}

impl StreamingCompletionResponse {
    /// The delta item of an engine chunk: each choice's content, empty where
    /// missing, with its finish reason.
    pub fn from_engine_chunk(chunk: EngineChunk) -> (r: Self)
        ensures
            r@ == engine_chunk_view(chunk),
    {
        let ghost src = chunk.choices@;
        let mut choices: Vec<StreamingCompletionChoice> = Vec::new();
        for c in it: chunk.choices
            invariant
                it.seq() == src,
                choices@.len() == it.index(),
                forall|k: int|
                    0 <= k < choices@.len() ==> (#[trigger] choices@[k])@ == engine_choice_view(
                        src[k],
                    ),
        {
            let content = match c.content {
                Some(s) => s,
                None => String::new(),
            };
            choices.push(StreamingCompletionChoice { delta: DeltaContent { content }, finish_reason: c.finish_reason });
        }
        let r = StreamingCompletionResponse { choices };
        proof {
            assert(r@ =~= engine_chunk_view(chunk));
        }
        r
    }
}

impl EngineResponse {
    /// Whether this response ends the stream.
    pub fn ends_stream(&self) -> (b: bool)
        ensures
            b == (engine_step(*self) is End),
    {
        match self {
            EngineResponse::Chunk(c) => all_choices_finished(c),
            EngineResponse::Other => false,
            _ => true,
        }
    }
}

/// Whether every choice of a chunk carries a finish reason.
fn all_choices_finished(c: &EngineChunk) -> (b: bool)
    ensures
        b == all_finished(engine_chunk_view(*c)),
{
    let n = c.choices.len();
    let mut i: usize = 0;
    while i < n
        invariant
            i <= n,
            n == c.choices@.len(),
            forall|k: int| 0 <= k < i ==> (#[trigger] c.choices@[k]).finish_reason is Some,
        decreases n - i,
    {
        if c.choices[i].finish_reason.is_none() {
            proof {
                assert(engine_chunk_view(*c)[i as int].finish_reason is None);
            }
            return false;
        }
        i = i + 1;
    }
    proof {
        assert forall|k: int| 0 <= k < engine_chunk_view(*c).len() implies (
        #[trigger] engine_chunk_view(*c)[k]).finish_reason is Some by {
            assert(c.choices@[k].finish_reason is Some);
        }
    }
    true
}

/// Classifies one engine response.
pub fn classify_engine_response(resp: EngineResponse) -> (r: StreamStep)
    ensures
        r@ == engine_step(resp),
{
    match resp {
        EngineResponse::Chunk(c) => {
            if all_choices_finished(&c) {
                StreamStep::End
            } else {
                StreamStep::Item(StreamingCompletionResponse::from_engine_chunk(c))
            }
        },
        EngineResponse::InternalError(_) => StreamStep::End,
        EngineResponse::ValidationError(_) => StreamStep::End,
        EngineResponse::ModelError(_) => StreamStep::End,
        EngineResponse::Done => StreamStep::End,
        EngineResponse::Other => StreamStep::Skip,
    }
}

/// The delta items of a whole engine response sequence: unfinished chunks in
/// order, up to the first finished chunk, error or completion.
pub fn normalize_engine(responses: Vec<EngineResponse>) -> (r: Vec<StreamingCompletionResponse>)
    ensures
        deltas_view(r@) == engine_items(responses@),
{
    let ghost raw = responses@;
    let mut steps: Vec<StreamStep> = Vec::new();
    for resp in it: responses
        invariant
            it.seq() == raw,
            steps@.len() == it.index(),
            forall|k: int| 0 <= k < steps@.len() ==> (#[trigger] steps@[k])@ == engine_step(raw[k]),
    {
        steps.push(classify_engine_response(resp));
    }
    proof {
        assert(steps@.map_values(|s: StreamStep| s@) =~= raw.map_values(
            |r: EngineResponse| engine_step(r),
        ));
    }
    drain_steps(steps)
}

/// The finish reason last observed in an engine response sequence, given
/// whether an item was already handed on and the reason last recorded: a
/// chunk handed on records its first choice's reason; a chunk that ends the
/// stream reports its own first choice's reason, once an item came before
/// it; an error or completion ends the stream leaving the last reason
/// recorded; other responses change nothing.
pub open spec fn finish_after(responses: Seq<EngineResponse>, seen: bool, last: Option<Seq<char>>) -> Option<Seq<char>>
    decreases responses.len(),
{
    if responses.len() == 0 {
        last
    } else {
        match responses[0] {
            EngineResponse::Chunk(c) => {
                let v = engine_chunk_view(c);
                if all_finished(v) {
                    if seen && v.len() > 0 {
                        v[0].finish_reason
                    } else {
                        last
                    }
                } else {
                    finish_after(responses.drop_first(), true, v[0].finish_reason)
                }
            },
            EngineResponse::Other => finish_after(responses.drop_first(), seen, last),
            _ => last,
        }
    }
}

/// The finish reason last observed in an engine response sequence: that of
/// the chunk which ended the stream where items came before it, else that of
/// the last item handed on, and none where nothing was handed on.
pub open spec fn last_observed_finish(responses: Seq<EngineResponse>) -> Option<Seq<char>> {
    finish_after(responses, false, None)
}

/// Where the stream hands nothing on, no finish reason was observed.
pub proof fn lemma_nothing_yielded_no_reason(responses: Seq<EngineResponse>)
    requires
        engine_items(responses).len() == 0,
    ensures
        last_observed_finish(responses) is None,
    decreases responses.len(),
{
    let f = |r: EngineResponse| engine_step(r);
    if responses.len() > 0 {
        let steps = responses.map_values(f);
        assert(steps[0] == engine_step(responses[0]));
        assert(steps.drop_first() =~= responses.drop_first().map_values(f));
        match responses[0] {
            EngineResponse::Chunk(c) => {
                if !all_finished(engine_chunk_view(c)) {
                    assert(stream_items(steps).len() > 0);
                }
            },
            EngineResponse::Other => {
                lemma_nothing_yielded_no_reason(responses.drop_first());
            },
            _ => {},
        }
    }
}

/// A response that lets the stream go on: an unfinished chunk, or one of
/// another shape.
pub open spec fn continues_stream(r: EngineResponse) -> bool {
    match r {
        EngineResponse::Chunk(c) => !all_finished(engine_chunk_view(c)),
        EngineResponse::Other => true,
        _ => false,
    }
}

/// Where a stream is ended by a chunk whose every choice has finished, after
/// at least one item was handed on, the reply of a non-streaming call
/// reports that chunk's first finish reason, whatever the engine pushes
/// after it.
pub proof fn lemma_terminal_chunk_reason(
    before: Seq<EngineResponse>,
    terminal: EngineChunk,
    after: Seq<EngineResponse>,
    seen: bool,
    last: Option<Seq<char>>,
)
    requires
        forall|k: int| 0 <= k < before.len() ==> continues_stream(#[trigger] before[k]),
        seen || exists|k: int| 0 <= k < before.len() && #[trigger] before[k] is Chunk,
        all_finished(engine_chunk_view(terminal)),
        terminal.choices@.len() > 0,
    ensures
        finish_after(before + seq![EngineResponse::Chunk(terminal)] + after, seen, last)
            == engine_chunk_view(terminal)[0].finish_reason,
    decreases before.len(),
{
    let all = before + seq![EngineResponse::Chunk(terminal)] + after;
    if before.len() == 0 {
        assert(all[0] == EngineResponse::Chunk(terminal));
    } else {
        assert(all[0] == before[0]);
        assert(continues_stream(before[0]));
        assert(all.drop_first() =~= before.drop_first() + seq![EngineResponse::Chunk(terminal)] + after);
        assert forall|k: int| 0 <= k < before.drop_first().len() implies continues_stream(
            #[trigger] before.drop_first()[k],
        ) by {
            assert(before.drop_first()[k] == before[k + 1]);
        }
        match before[0] {
            EngineResponse::Chunk(c) => {
                lemma_terminal_chunk_reason(
                    before.drop_first(),
                    terminal,
                    after,
                    true,
                    engine_chunk_view(c)[0].finish_reason,
                );
            },
            _ => {
                if !seen {
                    let k = choose|k: int| 0 <= k < before.len() && #[trigger] before[k] is Chunk;
                    assert(k > 0);
                    assert(before.drop_first()[k - 1] is Chunk);
                }
                lemma_terminal_chunk_reason(before.drop_first(), terminal, after, seen, last);
            },
        }
    }
}

/// A chunk whose every choice has finished ends an engine stream: the
/// consumer sees the items of the responses before it, and nothing of what
/// the engine pushes after it.
pub proof fn lemma_finished_chunk_ends_stream(
    before: Seq<EngineResponse>,
    terminal: EngineChunk,
    after: Seq<EngineResponse>,
)
    requires
        forall|k: int| 0 <= k < before.len() ==> continues_stream(#[trigger] before[k]),
        all_finished(engine_chunk_view(terminal)),
    ensures
        engine_items(before + seq![EngineResponse::Chunk(terminal)] + after) == engine_items(before),
{
    let f = |r: EngineResponse| engine_step(r);
    let b = before.map_values(f);
    let a = after.map_values(f);
    assert forall|k: int| 0 <= k < b.len() implies !(#[trigger] b[k] is End) by {
        assert(continues_stream(before[k]));
    }
    assert((before + seq![EngineResponse::Chunk(terminal)] + after).map_values(f) =~= b + seq![
        StepView::End,
    ] + a);
    lemma_end_is_final(b, a);
    lemma_end_adds_nothing(b);
}

/// The first choice's finish reason of a chunk with choices.
fn first_finish(c: &EngineChunk) -> (r: Option<String>)
    requires
        c.choices@.len() > 0,
    ensures
        opt_view(r) == engine_chunk_view(*c)[0].finish_reason,
{
    match &c.choices[0].finish_reason {
        Some(s) => Some(s.clone()),
        None => None,
    }
}

/// The finish reason last observed in an engine response sequence.
pub fn observed_finish(responses: &Vec<EngineResponse>) -> (r: Option<String>)
    ensures
        opt_view(r) == last_observed_finish(responses@),
{
    let ghost all = responses@;
    let n = responses.len();
    let mut last: Option<String> = None;
    let mut seen = false;
    let mut i: usize = 0;
    proof {
        assert(all.subrange(0, n as int) =~= all);
    }
    while i < n
        invariant
            i <= n,
            n == all.len(),
            all == responses@,
            last_observed_finish(all) == finish_after(all.subrange(i as int, n as int), seen, opt_view(last)),
        decreases n - i,
    {
        let ghost rest = all.subrange(i as int, n as int);
        proof {
            assert(rest.drop_first() =~= all.subrange(i as int + 1, n as int));
            assert(rest[0] == all[i as int]);
        }
        match &responses[i] {
            EngineResponse::Chunk(c) => {
                if all_choices_finished(c) {
                    if seen && c.choices.len() > 0 {
                        return first_finish(c);
                    }
                    return last;
                }
                proof {
                    assert(engine_chunk_view(*c).len() > 0);
                }
                last = first_finish(c);
                seen = true;
            },
            EngineResponse::Other => {},
            _ => {
                return last;
            },
        }
        i = i + 1;
    }
    proof {
        assert(all.subrange(n as int, n as int).len() == 0);
    }
    last
}

/// Every item of a step sequence is a value some item step carried.
proof fn lemma_items_come_from_steps(steps: Seq<StepView>, k: int)
    requires
        0 <= k < stream_items(steps).len(),
    ensures
        exists|j: int| 0 <= j < steps.len() && steps[j] == StepView::Item(stream_items(steps)[k]),
    decreases steps.len(),
{
    match steps[0] {
        StepView::Item(v) => {
            if k > 0 {
                lemma_items_come_from_steps(steps.drop_first(), k - 1);
                let j = choose|j: int|
                    0 <= j < steps.drop_first().len() && steps.drop_first()[j] == StepView::Item(
                        stream_items(steps.drop_first())[k - 1],
                    );
                assert(steps[j + 1] == steps.drop_first()[j]);
            } else {
                assert(steps[0] == StepView::Item(stream_items(steps)[0]));
            }
        },
        StepView::Skip => {
            lemma_items_come_from_steps(steps.drop_first(), k);
            let j = choose|j: int|
                0 <= j < steps.drop_first().len() && steps.drop_first()[j] == StepView::Item(
                    stream_items(steps.drop_first())[k],
                );
            assert(steps[j + 1] == steps.drop_first()[j]);
        },
        StepView::End => {},
    }
}

/// Every delta item of an engine stream carries at least one choice, and
/// not every one of them has finished.
pub proof fn lemma_engine_items_unfinished(responses: Seq<EngineResponse>)
    ensures
        each_has_choice(engine_items(responses)),
        forall|k: int|
            0 <= k < engine_items(responses).len() ==> !all_finished(
                #[trigger] engine_items(responses)[k],
            ),
{
    let steps = responses.map_values(|r: EngineResponse| engine_step(r));
    assert forall|k: int| 0 <= k < engine_items(responses).len() implies (#[trigger] engine_items(
        responses,
    )[k]).len() > 0 && !all_finished(engine_items(responses)[k]) by {
        lemma_items_come_from_steps(steps, k);
        let j = choose|j: int|
            0 <= j < steps.len() && steps[j] == StepView::Item(stream_items(steps)[k]);
        assert(steps[j] == engine_step(responses[j]));
    }
}

/// One turn in the engine's chat representation.
#[derive(Debug, Clone)]
pub struct ChatTurn {
    pub role: String,
    pub content: String,
}

/// The engine's sampling record.
#[derive(Debug, Clone)]
pub struct SamplingParams {
    pub temperature: Option<Real64>,
    pub top_k: Option<usize>,
    pub top_p: Option<Real64>,
    pub min_p: Option<Real64>,
    pub top_n_logprobs: usize,
    pub frequency_penalty: Option<Real32>,
    pub presence_penalty: Option<Real32>,
    pub repeat_penalty: Option<Real32>,
    pub max_len: Option<usize>,
    pub seed: Option<i64>,
    pub n_choices: usize,
}

/// A chat request for the engine's intake queue. The engine assigns the
/// request id when the host submits it, and the host allocates the response
/// channel with the given capacity.
#[derive(Debug)]
pub struct EngineRequest {
    pub messages: Vec<ChatTurn>,
    pub enable_thinking: bool,
    pub sampling: SamplingParams,
    pub is_streaming: bool,
    pub channel_capacity: usize,
}

/// Capacity of a request's response channel.
pub const RESPONSE_CHANNEL_CAPACITY: usize = 10000;

/// `turns` is `items` in the engine's representation.
pub open spec fn converted_turns(items: Seq<MessageHistoryItem>, turns: Seq<ChatTurn>) -> bool {
    &&& turns.len() == items.len()
    &&& forall|k: int|
        0 <= k < items.len() ==> {
            &&& (#[trigger] turns[k]).role@ == role_token(items[k].role)
            &&& turns[k].content@ == items[k].content@
        }
}

/// `s` carries every sampling field of `request` over unchanged, and asks
/// for one choice with no other sampling constraint.
pub open spec fn sampling_of(request: CompletionRequest, s: SamplingParams) -> bool {
    &&& s.temperature == request.temperature
    &&& s.top_p == request.top_p
    &&& s.frequency_penalty == request.frequency_penalty
    &&& s.presence_penalty == request.presence_penalty
    &&& s.repeat_penalty == request.repeat_penalty
    &&& s.max_len == request.max_tokens
    &&& s.seed == request.seed
    &&& s.top_k is None
    &&& s.min_p is None
    &&& s.top_n_logprobs == 1
    &&& s.n_choices == 1
}

/// `e` is the engine submission for `request`.
pub open spec fn engine_request_for(request: CompletionRequest, e: EngineRequest) -> bool {
    &&& converted_turns(request.messages@, e.messages@)
    &&& sampling_of(request, e.sampling)
    &&& !e.enable_thinking
    &&& e.is_streaming
    &&& e.channel_capacity == RESPONSE_CHANNEL_CAPACITY
}

/// The history as an ordered list of role and content pairs.
pub fn convert_messages(items: &[MessageHistoryItem]) -> (r: Vec<ChatTurn>)
    ensures
        converted_turns(items@, r@),
{
    let mut turns: Vec<ChatTurn> = Vec::new();
    let n = items.len();
    let mut i: usize = 0;
    while i < n
        invariant
            i <= n,
            n == items@.len(),
            turns@.len() == i,
            forall|k: int|
                0 <= k < i ==> {
                    &&& (#[trigger] turns@[k]).role@ == role_token(items@[k].role)
                    &&& turns@[k].content@ == items@[k].content@
                },
        decreases n - i,
    {
        let role = items[i].role.as_str().to_owned();
        let content = items[i].content.clone();
        turns.push(ChatTurn { role, content });
        i = i + 1;
    }
    turns
}

/// Seconds since the Unix epoch as a timestamp: saturated at the largest
/// timestamp, and zero where the clock reads earlier than the epoch.
pub fn timestamp_from_seconds(since_epoch: Option<u64>) -> (r: i64)
    ensures
        r == match since_epoch {
            Some(s) => if s <= i64::MAX as u64 {
                s as int
            } else {
                i64::MAX as int
            },
            None => 0,
        },
{
    match since_epoch {
        Some(s) => if s <= i64::MAX as u64 {
            s as i64
        } else {
            i64::MAX
        },
        None => 0,
    }
}

/// The current time in whole seconds since the Unix epoch.
pub fn timestamp() -> (r: i64)
    ensures
        r >= 0,
{
    let now = std::time::SystemTime::now();
    let secs = match since_unix_epoch(&now) {
        Ok(d) => Some(d.as_secs()),
        Err(_) => None,
    };
    timestamp_from_seconds(secs)
}

/// Paged attention for the engine's key/value cache.
#[derive(Debug, Clone, Copy, PartialEq, Eq, Structural)]
pub struct PagedAttention {
    pub block_size: usize,
    pub context_size: usize,
}

/// How the host builds and runs the engine: paged attention where the
/// platform supports it, a scheduler with a fixed number of concurrent
/// slots, and key/value and prefix caching.
#[derive(Debug, Clone, Copy, PartialEq, Eq, Structural)]
pub struct EngineSettings {
    pub paged_attention: Option<PagedAttention>,
    pub scheduler_slots: usize,
    pub kv_cache: bool,
    pub prefix_cache: bool,
    pub prefix_cache_entries: usize,
}

/// Tokens per block of the paged key/value cache.
pub const PAGED_ATTENTION_BLOCK_SIZE: usize = 32;

/// Context, in tokens, the paged key/value cache is sized for.
pub const PAGED_ATTENTION_CONTEXT_SIZE: usize = 8192;

/// Requests the scheduler runs at once.
pub const SCHEDULER_SLOTS: usize = 32;

/// Prefixes the prefix cache keeps.
pub const PREFIX_CACHE_ENTRIES: usize = 16;

/// The embedded-engine adapter's configuration: the model repository, an
/// optional chat template, and the model files. The host builds and runs the
/// engine from it.
#[derive(Debug, Clone)]
pub struct MistralRsCompletions {
    model_id: String,
    chat_template: Option<String>,
    files: Vec<String>,
}

impl MistralRsCompletions {
    /// The model identifier.
    pub closed spec fn model(&self) -> Seq<char> {
        self.model_id@
    }

    pub fn new(model_id: String, chat_template: Option<String>, files: Vec<String>) -> (r: Self)
        ensures
            r.model() == model_id@,
            r.template() == opt_view(chat_template),
            r.model_files() == files@,
    {
        MistralRsCompletions { model_id, chat_template, files }
    }

    /// The chat template.
    pub closed spec fn template(&self) -> Option<Seq<char>> {
        opt_view(self.chat_template)
    }

    /// The model files.
    pub closed spec fn model_files(&self) -> Seq<String> {
        self.files@
    }

    /// The model identifier.
    pub fn model_id(&self) -> (r: &String)
        ensures
            r@ == self.model(),
    {
        &self.model_id
    }

    /// The chat template.
    pub fn chat_template(&self) -> (r: &Option<String>)
        ensures
            opt_view(*r) == self.template(),
    {
        &self.chat_template
    }

    /// The model files.
    pub fn files(&self) -> (r: &Vec<String>)
        ensures
            r@ == self.model_files(),
    {
        &self.files
    }

    /// The settings the host builds the engine with; paged attention is used
    /// only where the platform supports it.
    pub fn engine_settings(&self, paged_attention_supported: bool) -> (r: EngineSettings)
        ensures
            r.paged_attention == (if paged_attention_supported {
                Some(
                    PagedAttention {
                        block_size: PAGED_ATTENTION_BLOCK_SIZE,
                        context_size: PAGED_ATTENTION_CONTEXT_SIZE,
                    },
                )
            } else {
                None
            }),
            r.scheduler_slots == SCHEDULER_SLOTS,
            r.kv_cache,
            r.prefix_cache,
            r.prefix_cache_entries == PREFIX_CACHE_ENTRIES,
    {
        let paged_attention = if paged_attention_supported {
            Some(PagedAttention { block_size: PAGED_ATTENTION_BLOCK_SIZE, context_size: PAGED_ATTENTION_CONTEXT_SIZE })
        } else {
            None
        };
        EngineSettings {
            paged_attention,
            scheduler_slots: SCHEDULER_SLOTS,
            kv_cache: true,
            prefix_cache: true,
            prefix_cache_entries: PREFIX_CACHE_ENTRIES,
        }
    }

    /// The submission record for a request: its history converted, every
    /// sampling field carried over, streaming on.
    pub fn completions_receiver(&self, request: &CompletionRequest) -> (r: EngineRequest)
        ensures
            engine_request_for(*request, r),
    {
        let sampling = SamplingParams {
            temperature: request.temperature,
            top_k: None,
            top_p: request.top_p,
            min_p: None,
            top_n_logprobs: 1,
            frequency_penalty: request.frequency_penalty,
            presence_penalty: request.presence_penalty,
            repeat_penalty: request.repeat_penalty,
            max_len: request.max_tokens,
            seed: request.seed,
            n_choices: 1,
        };
        EngineRequest {
            messages: convert_messages(request.messages.as_slice()),
            enable_thinking: false,
            sampling,
            is_streaming: true,
            channel_capacity: RESPONSE_CHANNEL_CAPACITY,
        }
    }

    /// The submission for a streaming request; a request whose `stream` flag
    /// is off is refused.
    pub fn get_completions_stream(&self, request: CompletionRequest) -> (r: Result<EngineRequest, CompletionError>)
        ensures
            !request.stream ==> r matches Err(CompletionError::ProtocolViolation),
            request.stream ==> (r matches Ok(e) && engine_request_for(request, e)),
    {
        if !request.stream {
            return Err(CompletionError::ProtocolViolation);
        }
        Ok(self.completions_receiver(&request))
    }

    /// The submission for a non-streaming request, which the engine serves as
    /// a stream to be folded; a request whose `stream` flag is on is refused.
    pub fn get_completions(&self, request: CompletionRequest) -> (r: Result<EngineRequest, CompletionError>)
        ensures
            request.stream ==> r matches Err(CompletionError::ProtocolViolation),
            !request.stream ==> (r matches Ok(e) && engine_request_for(request, e)),
    {
        if request.stream {
            return Err(CompletionError::ProtocolViolation);
        }
        Ok(self.completions_receiver(&request))
    }

    /// The configured model.
    pub fn list_models(&self) -> (r: Vec<String>)
        ensures
            r@.len() == 1,
            r@[0]@ == self.model(),
    {
        let mut models: Vec<String> = Vec::new();
        models.push(self.model_id.clone());
        models
    }

    /// The reply of a non-streaming call from the engine's drained response
    /// sequence: the stream's items folded into one assistant message, with
    /// the finish reason last observed (that of the chunk which ended the
    /// stream, where one did after items came, and none where no item came),
    /// under a fresh identifier and the current time.
    pub fn complete_from_responses(&self, responses: Vec<EngineResponse>) -> (r: CompletionResponse)
        ensures
            r.id@.len() == 36,
            r.created >= 0,
            r.model@ == self.model(),
            r.choices@.len() == 1,
            r.choices@[0].index == 0,
            r.choices@[0].message.role == MessageRole::Assistant,
            r.choices@[0].message.content@ == joined_first_contents(engine_items(responses@)),
            opt_view(r.choices@[0].finish_reason) == last_observed_finish(responses@),
            engine_items(responses@).len() == 0 ==> r.choices@[0].finish_reason is None,
    {
        proof {
            lemma_engine_items_unfinished(responses@);
            if engine_items(responses@).len() == 0 {
                lemma_nothing_yielded_no_reason(responses@);
            }
        }
        let finish_reason = observed_finish(&responses);
        let chunks = normalize_engine(responses);
        let content = join_first_contents(&chunks);
        let id = uuid_text(&uuid::Uuid::new_v4());
        assistant_reply(id, timestamp(), self.model_id.clone(), content, finish_reason)
    }
}

} // verus!

//! Stream normalization: every backend's raw event or response is classified
//! as more content, a no-op, or the end of the stream, and a small state
//! machine turns those steps into the uniform sequence of delta items.
use vstd::prelude::*;

use vstd::string::StringExecFns;

use crate::message::{
    CompletionChoice, CompletionMessage, CompletionResponse, MessageRole,
    StreamingCompletionChoice, StreamingCompletionResponse,
};

verus! {

/// What a delta choice says: its text and, once it is done, why.
pub struct ChoiceView {
    pub content: Seq<char>,
    pub finish_reason: Option<Seq<char>>,
}

/// The text of an optional string.
pub open spec fn opt_view(o: Option<String>) -> Option<Seq<char>> {
    match o {
        Some(s) => Some(s@),
        None => None,
    }
}

impl View for StreamingCompletionChoice {
    type V = ChoiceView;

    open spec fn view(&self) -> ChoiceView {
        ChoiceView { content: self.delta.content@, finish_reason: opt_view(self.finish_reason) }
    }
}

impl View for StreamingCompletionResponse {
    type V = Seq<ChoiceView>;

    open spec fn view(&self) -> Seq<ChoiceView> {
        self.choices@.map_values(|c: StreamingCompletionChoice| c@)
    }
}

/// The views of a sequence of delta items.
pub open spec fn deltas_view(items: Seq<StreamingCompletionResponse>) -> Seq<Seq<ChoiceView>> {
    items.map_values(|r: StreamingCompletionResponse| r@)
}

/// The decision taken on one raw item of a backend's stream.
#[derive(Debug)]
pub enum StreamStep {
    /// More content, to hand to the consumer.
    Item(StreamingCompletionResponse),
    /// Nothing for the consumer; keep pulling.
    Skip,
    /// The stream is over.
    End,
}

/// A stream step as a value of the model.
pub enum StepView {
    Item(Seq<ChoiceView>),
    Skip,
    End,
}

impl View for StreamStep {
    type V = StepView;

    open spec fn view(&self) -> StepView {
        match self {
            StreamStep::Item(r) => StepView::Item(r@),
            StreamStep::Skip => StepView::Skip,
            StreamStep::End => StepView::End,
        }
    }
}

/// The items a consumer sees for a sequence of steps: every item in order, up
/// to the first end.
pub open spec fn stream_items(steps: Seq<StepView>) -> Seq<Seq<ChoiceView>>
    decreases steps.len(),
{
    if steps.len() == 0 {
        Seq::empty()
    } else {
        match steps[0] {
            StepView::Item(v) => seq![v] + stream_items(steps.drop_first()),
            StepView::Skip => stream_items(steps.drop_first()),
            StepView::End => Seq::empty(),
        }
    }
}

/// A forward-only, non-restartable stream of delta items. Once it has ended,
/// by a terminal step or by cancellation, it yields nothing more.
pub struct DeltaStream {
    ended: bool,
}

impl DeltaStream {
    /// Whether the stream has ended.
    pub closed spec fn is_ended(&self) -> bool {
        self.ended
    }

    /// A stream awaiting its first item.
    pub fn new() -> (s: Self)
        ensures
            !s.is_ended(),
    {
        DeltaStream { ended: false }
    }

    /// Whether the stream has ended.
    pub fn ended(&self) -> (b: bool)
        ensures
            b == self.is_ended(),
    {
        self.ended
    }

    /// Ends the stream at the consumer's request. The backend is not told: its
    /// remaining output is abandoned.
    pub fn cancel(&mut self)
        ensures
            final(self).is_ended(),
    {
        self.ended = true;
    }

    /// Takes one step on behalf of a consumer that may have asked to cancel:
    /// a cancellation seen before the step ends the stream and drops the
    /// step; otherwise the step is taken as `pull` takes it.
    pub fn relay(&mut self, step: StreamStep, cancel_requested: bool) -> (r: Option<StreamingCompletionResponse>)
        ensures
            cancel_requested ==> r is None && final(self).is_ended(),
            !cancel_requested && old(self).is_ended() ==> r is None && final(self).is_ended(),
            !cancel_requested && !old(self).is_ended() ==> match step@ {
                StepView::Item(v) => r matches Some(x) && x@ == v && !final(self).is_ended(),
                StepView::Skip => r is None && !final(self).is_ended(),
                StepView::End => r is None && final(self).is_ended(),
            },
    {
        if cancel_requested {
            self.cancel();
            return None;
        }
        self.pull(step)
    }

    /// Takes one step: an item is handed on while the stream is live, a skip
    /// yields nothing, an end ends the stream.
    pub fn pull(&mut self, step: StreamStep) -> (r: Option<StreamingCompletionResponse>)
        ensures
            old(self).is_ended() ==> r is None && final(self).is_ended(),
            !old(self).is_ended() ==> match step@ {
                StepView::Item(v) => r matches Some(x) && x@ == v && !final(self).is_ended(),
                StepView::Skip => r is None && !final(self).is_ended(),
                StepView::End => r is None && final(self).is_ended(),
            },
    {
        if self.ended {
            return None;
        }
        match step {
            StreamStep::Item(x) => Some(x),
            StreamStep::Skip => None,
            StreamStep::End => {
                self.ended = true;
                None
            },
        }
    }
}

/// Runs a sequence of steps through a fresh stream and collects what it
/// yields.
pub fn drain_steps(steps: Vec<StreamStep>) -> (r: Vec<StreamingCompletionResponse>)
    ensures
        deltas_view(r@) == stream_items(steps@.map_values(|s: StreamStep| s@)),
{
    let ghost all = steps@.map_values(|s: StreamStep| s@);
    let ghost raw = steps@;
    let mut out: Vec<StreamingCompletionResponse> = Vec::new();
    let mut stream = DeltaStream::new();
    proof {
        assert(all.subrange(0, all.len() as int) =~= all);
        assert(deltas_view(out@) + stream_items(all) =~= stream_items(all));
    }
    for step in it: steps
        invariant
            it.seq() == raw,
            all == raw.map_values(|s: StreamStep| s@),
            !stream.is_ended(),
            deltas_view(out@) + stream_items(all.subrange(it.index() as int, all.len() as int))
                == stream_items(all),
    {
        let ghost i = it.index() as int;
        let ghost pending = all.subrange(i, all.len() as int);
        proof {
            assert(pending[0] == step@);
            assert(pending.drop_first() =~= all.subrange(i + 1, all.len() as int));
        }
        let pulled = stream.pull(step);
        match pulled {
            Some(x) => {
                proof {
                    assert(deltas_view(out@.push(x)) =~= deltas_view(out@).push(x@));
                    assert(deltas_view(out@).push(x@) + stream_items(pending.drop_first())
                        =~= deltas_view(out@) + (seq![x@] + stream_items(pending.drop_first())));
                }
                out.push(x);
            },
            None => {},
        }
        if stream.ended() {
            proof {
                assert(deltas_view(out@) + Seq::<Seq<ChoiceView>>::empty() =~= deltas_view(out@));
            }
            return out;
        }
    }
    proof {
        assert(all.subrange(all.len() as int, all.len() as int) =~= Seq::<StepView>::empty());
        assert(deltas_view(out@) + Seq::<Seq<ChoiceView>>::empty() =~= deltas_view(out@));
    }
    out
}

/// A skip step changes nothing a consumer sees.
pub proof fn lemma_skip_is_invisible(before: Seq<StepView>, after: Seq<StepView>)
    ensures
        stream_items(before + seq![StepView::Skip] + after) == stream_items(before + after),
    decreases before.len(),
{
    if before.len() == 0 {
        assert(before + seq![StepView::Skip] + after =~= seq![StepView::Skip] + after);
        assert((seq![StepView::Skip] + after).drop_first() =~= after);
        assert(before + after =~= after);
    } else {
        lemma_skip_is_invisible(before.drop_first(), after);
        assert((before + seq![StepView::Skip] + after).drop_first() =~= before.drop_first() + seq![
            StepView::Skip,
        ] + after);
        assert((before + after).drop_first() =~= before.drop_first() + after);
    }
}

/// Nothing after an end step reaches the consumer.
pub proof fn lemma_end_is_final(before: Seq<StepView>, after: Seq<StepView>)
    ensures
        stream_items(before + seq![StepView::End] + after) == stream_items(before + seq![StepView::End]),
    decreases before.len(),
{
    if before.len() == 0 {
        assert(before + seq![StepView::End] + after =~= seq![StepView::End] + after);
        assert(before + seq![StepView::End] =~= seq![StepView::End]);
    } else {
        lemma_end_is_final(before.drop_first(), after);
        assert((before + seq![StepView::End] + after).drop_first() =~= before.drop_first() + seq![
            StepView::End,
        ] + after);
        assert((before + seq![StepView::End]).drop_first() =~= before.drop_first() + seq![
            StepView::End,
        ]);
    }
}

/// An end step after steps that do not end the stream adds nothing to what
/// the consumer sees.
pub proof fn lemma_end_adds_nothing(before: Seq<StepView>)
    requires
        forall|k: int| 0 <= k < before.len() ==> !(#[trigger] before[k] is End),
    ensures
        stream_items(before + seq![StepView::End]) == stream_items(before),
    decreases before.len(),
{
    if before.len() == 0 {
        assert(before + seq![StepView::End] =~= seq![StepView::End]);
    } else {
        assert(!(before[0] is End));
        assert forall|k: int| 0 <= k < before.drop_first().len() implies !(
        #[trigger] before.drop_first()[k] is End) by {
            assert(before.drop_first()[k] == before[k + 1]);
        }
        lemma_end_adds_nothing(before.drop_first());
        assert((before + seq![StepView::End]).drop_first() =~= before.drop_first() + seq![
            StepView::End,
        ]);
    }
}

/// The first choice's texts of a sequence of delta items, concatenated in
/// arrival order.
pub open spec fn joined_first_contents(items: Seq<Seq<ChoiceView>>) -> Seq<char>
    decreases items.len(),
{
    if items.len() == 0 {
        Seq::empty()
    } else {
        joined_first_contents(items.drop_last()) + items.last()[0].content
    }
}

/// Every item carries at least one choice.
pub open spec fn each_has_choice(items: Seq<Seq<ChoiceView>>) -> bool {
    forall|k: int| 0 <= k < items.len() ==> #[trigger] items[k].len() > 0
}

/// The first choices' texts of a sequence of delta items, concatenated in
/// arrival order.
pub fn join_first_contents(chunks: &Vec<StreamingCompletionResponse>) -> (r: String)
    requires
        each_has_choice(deltas_view(chunks@)),
    ensures
        r@ == joined_first_contents(deltas_view(chunks@)),
{
    let ghost items = deltas_view(chunks@);
    let mut content = String::new();
    let n = chunks.len();
    let mut i: usize = 0;
    while i < n
        invariant
            i <= n,
            n == chunks@.len(),
            items == deltas_view(chunks@),
            each_has_choice(items),
            content@ == joined_first_contents(items.subrange(0, i as int)),
        decreases n - i,
    {
        proof {
            assert(items[i as int].len() > 0);
            assert(items.subrange(0, i as int + 1).drop_last() =~= items.subrange(0, i as int));
        }
        content.append(chunks[i].choices[0].delta.content.as_str());
        i = i + 1;
    }
    proof {
        assert(items.subrange(0, n as int) =~= items);
    }
    content
}

/// A reply of one assistant message.
pub fn assistant_reply(
    id: String,
    created: i64,
    model: String,
    content: String,
    finish_reason: Option<String>,
) -> (r: CompletionResponse)
    ensures
        r.id == id,
        r.created == created,
        r.model == model,
        r.choices@.len() == 1,
        r.choices@[0].index == 0,
        r.choices@[0].message.role == MessageRole::Assistant,
        r.choices@[0].message.content == content,
        r.choices@[0].finish_reason == finish_reason,
{
    let message = CompletionMessage { role: MessageRole::Assistant, content };
    let mut choices: Vec<CompletionChoice> = Vec::new();
    choices.push(CompletionChoice { index: 0, finish_reason, message });
    CompletionResponse { id, created, model, choices }
}

} // verus!

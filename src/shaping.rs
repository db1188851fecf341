//! Token budgeting and the transforms applied to a request before dispatch.
use vstd::prelude::*;
use vstd::utf8::encode_utf8;

use vstd::string::StrSliceExecFns;

use crate::message::{CompletionRequest, MessageHistoryItem};

verus! {

/// Number of UTF-8 bytes of a text.
pub open spec fn utf8_len(s: Seq<char>) -> nat {
    encode_utf8(s).len()
}

/// Total UTF-8 byte length of the contents of a history.
pub open spec fn total_bytes(items: Seq<MessageHistoryItem>) -> nat
    decreases items.len(),
{
    if items.len() == 0 {
        0
    } else {
        total_bytes(items.drop_last()) + utf8_len(items.last().content@)
    }
}

/// A crude token estimate: a quarter of the contents' UTF-8 byte count,
/// rounded down. The history must fit in memory, so its byte count fits in a
/// `usize`.
pub fn estimate_tokens(history: &[MessageHistoryItem]) -> (r: usize)
    requires
        total_bytes(history@) <= usize::MAX,
    ensures
        r == total_bytes(history@) / 4,
{
    let mut total: usize = 0;
    let mut i: usize = 0;
    while i < history.len()
        invariant
            i <= history@.len(),
            total == total_bytes(history@.subrange(0, i as int)),
            total_bytes(history@) <= usize::MAX,
        decreases history@.len() - i,
    {
        proof {
            lemma_total_bytes_prefix_bound(history@, i as int + 1);
            assert(history@.subrange(0, i as int + 1).drop_last() =~= history@.subrange(0, i as int));
        }
        let n = history[i].content.as_str().len();
        total = total + n;
        i = i + 1;
    }
    proof {
        assert(history@.subrange(0, history@.len() as int) =~= history@);
    }
    total / 4
}

/// A prefix of a history holds no more bytes than the whole.
pub proof fn lemma_total_bytes_prefix_bound(items: Seq<MessageHistoryItem>, k: int)
    requires
        0 <= k <= items.len(),
    ensures
        total_bytes(items.subrange(0, k)) <= total_bytes(items),
    decreases items.len() - k,
{
    if k < items.len() {
        lemma_total_bytes_prefix_bound(items, k + 1);
        assert(items.subrange(0, k + 1).drop_last() =~= items.subrange(0, k));
    } else {
        assert(items.subrange(0, k) =~= items);
    }
}

/// The marker that closes a reasoning section of a reply.
pub open spec fn think_close() -> Seq<char> {
    "</think>"@
}

/// `pat` occurs in `s` starting at `i`.
pub open spec fn occurs_at(s: Seq<char>, pat: Seq<char>, i: int) -> bool {
    0 <= i && i + pat.len() <= s.len() && s.subrange(i, i + pat.len()) == pat
}

/// `i` is where the first occurrence of `pat` in `s` starts.
pub open spec fn first_occurrence_at(s: Seq<char>, pat: Seq<char>, i: int) -> bool {
    occurs_at(s, pat, i) && forall|j: int| 0 <= j < i ==> !occurs_at(s, pat, j)
}

/// A text with everything up to and including the first closing reasoning
/// marker dropped; a text without the marker is kept as it is.
pub open spec fn strip_thinking(s: Seq<char>) -> Seq<char> {
    if exists|i: int| occurs_at(s, think_close(), i) {
        let i = choose|i: int| first_occurrence_at(s, think_close(), i);
        s.subrange(i + think_close().len(), s.len() as int)
    } else {
        s
    }
}

/// The characters of a text, in order.
pub(crate) fn chars_of(s: &str) -> (v: Vec<char>)
    ensures
        v@ == s@,
{
    let mut v: Vec<char> = Vec::new();
    for c in it: s.chars()
        invariant
            v@ == it.seq().subrange(0, it.index() as int),
    {
        v.push(c);
    }
    v
}

/// Whether the closing reasoning marker starts at `i`.
fn marker_at(v: &Vec<char>, i: usize) -> (b: bool)
    requires
        i + 8 <= v@.len(),
    ensures
        b == occurs_at(v@, think_close(), i as int),
{
    proof {
        reveal_strlit("</think>");
    }
    let n = v.len();
    assert(i + 8 <= n);
    let b = v[i] == '<' && v[i + 1] == '/' && v[i + 2] == 't' && v[i + 3] == 'h' && v[i + 4]
        == 'i' && v[i + 5] == 'n' && v[i + 6] == 'k' && v[i + 7] == '>';
    proof {
        let sub = v@.subrange(i as int, i as int + 8);
        if b {
            assert(sub =~= think_close());
        } else {
            if sub == think_close() {
                assert(sub[0] == think_close()[0] && sub[1] == think_close()[1]);
                assert(sub[2] == think_close()[2] && sub[3] == think_close()[3]);
                assert(sub[4] == think_close()[4] && sub[5] == think_close()[5]);
                assert(sub[6] == think_close()[6] && sub[7] == think_close()[7]);
            }
        }
    }
    b
}

/// Drops everything up to and including the first closing reasoning marker.
fn strip_text(s: &str) -> (r: String)
    ensures
        r@ == strip_thinking(s@),
{
    let chars = chars_of(s);
    let n = chars.len();
    let mut i: usize = 0;
    while i < n && n - i >= 8
        invariant
            i <= n,
            n == chars@.len(),
            chars@ == s@,
            forall|j: int| 0 <= j < i ==> !occurs_at(s@, think_close(), j),
        decreases n - i,
    {
        if marker_at(&chars, i) {
            let rest = s.substring_char(i + 8, n);
            proof {
                reveal_strlit("</think>");
                assert(first_occurrence_at(s@, think_close(), i as int));
                let k = choose|k: int| first_occurrence_at(s@, think_close(), k);
                assert(k == i);
            }
            return rest.to_owned();
        }
        i = i + 1;
    }
    proof {
        reveal_strlit("</think>");
        assert forall|j: int| !occurs_at(s@, think_close(), j) by {
            if 0 <= j < i {
            } else if j >= i {
                assert(j + 8 > s@.len());
            }
        }
    }
    s.to_owned()
}

/// The request settings other than the messages agree.
pub open spec fn same_settings(a: CompletionRequest, b: CompletionRequest) -> bool {
    &&& a.model == b.model
    &&& a.stream == b.stream
    &&& a.max_tokens == b.max_tokens
    &&& a.temperature == b.temperature
    &&& a.frequency_penalty == b.frequency_penalty
    &&& a.presence_penalty == b.presence_penalty
    &&& a.repeat_penalty == b.repeat_penalty
    &&& a.top_p == b.top_p
    &&& a.seed == b.seed
}

/// `out` is `history` with the reasoning section of every message dropped.
pub open spec fn stripped_history(history: Seq<MessageHistoryItem>, out: Seq<MessageHistoryItem>) -> bool {
    &&& out.len() == history.len()
    &&& forall|k: int|
        0 <= k < history.len() ==> {
            &&& (#[trigger] out[k]).role == history[k].role
            &&& out[k].content@ == strip_thinking(history[k].content@)
        }
}

impl CompletionRequest {
    /// The token estimate of the request's messages.
    pub fn estimated_tokens(&self) -> (r: usize)
        requires
            total_bytes(self.messages@) <= usize::MAX,
        ensures
            r == total_bytes(self.messages@) / 4,
    {
        estimate_tokens(self.messages.as_slice())
    }

    /// Drops the reasoning section of every message: a message whose content
    /// holds the closing marker keeps only the text after it; the others
    /// pass unchanged. The other settings stay as they are.
    pub fn strip_thinking_tags(self) -> (r: Self)
        ensures
            stripped_history(self.messages@, r.messages@),
            same_settings(r, self),
    {
        let mut messages: Vec<MessageHistoryItem> = Vec::new();
        let n = self.messages.len();
        let mut i: usize = 0;
        while i < n
            invariant
                i <= n,
                n == self.messages@.len(),
                messages@.len() == i,
                forall|k: int|
                    0 <= k < i ==> {
                        &&& (#[trigger] messages@[k]).role == self.messages@[k].role
                        &&& messages@[k].content@ == strip_thinking(self.messages@[k].content@)
                    },
            decreases n - i,
        {
            let item = &self.messages[i];
            let content = strip_text(item.content.as_str());
            messages.push(MessageHistoryItem { role: item.role, content });
            i = i + 1;
        }
        CompletionRequest { messages, ..self }
    }
}

} // verus!

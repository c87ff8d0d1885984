//! The conversation decoding engine.
//!
//! A conversation is an ordered sequence of [`Content`] turns. A
//! [`PromptTemplate`] turns it into a single prompt string and recognises
//! stop markers in generated text. A [`LlamaCtx`] owns the engine state of
//! one decoding session: the bounded batch buffer, the absolute position
//! cursor, the incremental UTF-8 decoder and, while a generation is active,
//! the sampling strategy state. The native forward pass, tokenizer and
//! samplers are driven by the caller, which feeds their results back in.

use vstd::prelude::*;
use vstd::string::StrSliceExecFns;
use vstd::string::StringExecFns;

verus! {

/// Who spoke a turn of the conversation.
#[derive(Clone, Copy, Debug, PartialEq, Eq, Structural)]
pub enum Role {
    System,
    User,
    Assistant,
}

/// The canonical lowercase name of a role, as it appears in a prompt header.
pub open spec fn role_chars(r: Role) -> Seq<char> {
    match r {
        Role::System => "system"@,
        Role::User => "user"@,
        Role::Assistant => "assistant"@,
    }
}

impl Role {
    /// The canonical lowercase name of the role.
    pub fn as_str(&self) -> (r: &'static str)
        ensures
            r@ == role_chars(*self),
    {
        match self {
            Role::System => "system",
            Role::User => "user",
            Role::Assistant => "assistant",
        }
    }
}

/// One turn of a conversation.
#[derive(Clone, Debug)]
pub struct Content {
    pub role: Role,
    pub message: String,
}

/// How the prompt for a conversation is assembled and when generated text
/// must stop. Immutable after load; `stops` order defines checking order.
#[derive(Clone, Debug)]
pub struct PromptTemplate {
    pub header_prefix: String,
    pub header_suffix: String,
    pub end_of_content: String,
    pub stops: Vec<String>,
}

/// The header and text of one turn: prefix, role name, suffix, message.
pub open spec fn turn_chars(t: &PromptTemplate, c: Content) -> Seq<char> {
    t.header_prefix@ + role_chars(c.role) + t.header_suffix@ + c.message@
}

/// The encoding of the turns themselves: each turn's header and text, with
/// `end_of_content` separating a turn from a non-empty encoding before it.
pub open spec fn encode_body(t: &PromptTemplate, turns: Seq<Content>) -> Seq<char>
    decreases turns.len(),
{
    if turns.len() == 0 {
        Seq::<char>::empty()
    } else {
        let rest = encode_body(t, turns.drop_last());
        let sep = if rest.len() > 0 {
            t.end_of_content@
        } else {
            Seq::<char>::empty()
        };
        rest + sep + turn_chars(t, turns.last())
    }
}

/// The trailing empty assistant header appended when the last turn is not an
/// assistant turn.
pub open spec fn trailing_header(t: &PromptTemplate) -> Seq<char> {
    t.end_of_content@ + t.header_prefix@ + "assistant"@ + t.header_suffix@
}

/// The full prompt for a conversation: the encoded turns, and, unless the
/// last turn already is an assistant turn, a trailing empty assistant header
/// for the model to continue.
pub open spec fn spec_encode(t: &PromptTemplate, turns: Seq<Content>) -> Seq<char> {
    if turns.len() > 0 && turns.last().role == Role::Assistant {
        encode_body(t, turns)
    } else {
        encode_body(t, turns) + trailing_header(t)
    }
}

impl PromptTemplate {
    /// Encode an ordered conversation into a single prompt string.
    pub fn encode_string(&self, content: &Vec<Content>) -> (r: String)
        ensures
            r@ == spec_encode(self, content@),
    {
        let mut result = String::new();
        let mut last_role = Role::System;
        let mut i: usize = 0;
        while i < content.len()
            invariant
                i <= content@.len(),
                result@ == encode_body(self, content@.take(i as int)),
                i > 0 ==> last_role == content@[i as int - 1].role,
                i == 0 ==> last_role == Role::System,
            decreases content@.len() - i,
        {
            let c = &content[i];
            last_role = c.role;
            if !result.as_str().is_empty() {
                result.append(self.end_of_content.as_str());
            }
            result.append(self.header_prefix.as_str());
            result.append(c.role.as_str());
            result.append(self.header_suffix.as_str());
            result.append(c.message.as_str());
            i = i + 1;
            proof {
                let turns = content@.take(i as int);
                assert(turns.drop_last() =~= content@.take(i as int - 1));
                assert(result@ =~= encode_body(self, turns));
            }
        }
        proof {
            assert(content@.take(content@.len() as int) =~= content@);
        }
        match last_role {
            Role::Assistant => {},
            _ => {
                result.append(self.end_of_content.as_str());
                result.append(self.header_prefix.as_str());
                result.append("assistant");
                result.append(self.header_suffix.as_str());
                proof {
                    assert(result@ =~= encode_body(self, content@) + trailing_header(self));
                }
            },
        }
        result
    }
}

/// Whether `s` ends with the marker `m`.
pub open spec fn ends_with(s: Seq<char>, m: Seq<char>) -> bool {
    m.len() <= s.len() && s.subrange(s.len() - m.len(), s.len() as int) == m
}

/// The index of the first stop marker at or after `i` that `s` ends with.
pub open spec fn first_match_from(stops: Seq<String>, s: Seq<char>, i: int) -> Option<int>
    decreases stops.len() - i,
{
    if i < 0 || i >= stops.len() {
        None
    } else if ends_with(s, stops[i]@) {
        Some(i)
    } else {
        first_match_from(stops, s, i + 1)
    }
}

/// The index of the first stop marker, in checking order, that `s` ends
/// with.
pub open spec fn first_match(stops: Seq<String>, s: Seq<char>) -> Option<int> {
    first_match_from(stops, s, 0)
}

/// Scanning from `0` and finding no match before `i` is the same as
/// scanning from `i`.
proof fn lemma_first_match_skip(stops: Seq<String>, s: Seq<char>, i: int)
    requires
        0 <= i <= stops.len(),
        forall|t: int| 0 <= t < i ==> !ends_with(s, stops[t]@),
    ensures
        first_match(stops, s) == first_match_from(stops, s, i),
    decreases i,
{
    if i > 0 {
        lemma_first_match_skip(stops, s, i - 1);
    }
}

/// Whether `s` ends with the marker `m`, checked character by character.
fn str_ends_with(s: &str, m: &str) -> (b: bool)
    ensures
        b == ends_with(s@, m@),
{
    let n = s.unicode_len();
    let k = m.unicode_len();
    if k > n {
        return false;
    }
    let mut j: usize = 0;
    while j < k
        invariant
            j <= k,
            k <= n,
            n == s@.len(),
            k == m@.len(),
            forall|t: int| 0 <= t < j ==> s@[n - k + t] == m@[t],
        decreases k - j,
    {
        if s.get_char(n - k + j) != m.get_char(j) {
            proof {
                let sub = s@.subrange(n - k, n as int);
                assert(sub[j as int] == s@[n - k + j]);
            }
            return false;
        }
        j = j + 1;
    }
    proof {
        assert(s@.subrange(n - k, n as int) =~= m@);
    }
    true
}

impl PromptTemplate {
    /// Trim the first matching stop marker, in checking order, off the end
    /// of the accumulated text. Reports whether a marker matched; the text
    /// is only changed on a match, and only by removing that marker.
    pub fn post_handle_content(&self, content: &mut String) -> (r: bool)
        ensures
            match first_match(self.stops@, old(content)@) {
                Some(i) => r && final(content)@ == old(content)@.subrange(
                    0,
                    old(content)@.len() - self.stops@[i]@.len(),
                ),
                None => !r && final(content)@ == old(content)@,
            },
    {
        let mut idx: usize = 0;
        while idx < self.stops.len()
            invariant
                idx <= self.stops@.len(),
                *content == *old(content),
                forall|t: int| 0 <= t < idx ==> !ends_with(old(content)@, self.stops@[t]@),
            decreases self.stops@.len() - idx,
        {
            let stop = &self.stops[idx];
            if str_ends_with(content.as_str(), stop.as_str()) {
                let n = content.as_str().unicode_len();
                let k = stop.as_str().unicode_len();
                let trimmed = String::from_str(content.as_str().substring_char(0, n - k));
                *content = trimmed;
                proof {
                    lemma_first_match_skip(self.stops@, old(content)@, idx as int);
                }
                return true;
            }
            idx = idx + 1;
        }
        proof {
            lemma_first_match_skip(self.stops@, old(content)@, self.stops@.len() as int);
        }
        false
    }
}

/// Encoding an empty conversation yields exactly the trailing assistant
/// header: the separator, the header prefix, `assistant`, and the header
/// suffix, with no turn text.
pub proof fn lemma_encode_empty(t: &PromptTemplate)
    ensures
        spec_encode(t, Seq::<Content>::empty()) == t.end_of_content@ + t.header_prefix@
            + "assistant"@ + t.header_suffix@,
{
    assert(spec_encode(t, Seq::<Content>::empty()) =~= t.end_of_content@ + t.header_prefix@
        + "assistant"@ + t.header_suffix@);
}

/// With an empty turn separator, encoding an empty conversation yields the
/// bare assistant header, preceded by nothing.
pub proof fn lemma_encode_empty_no_separator(t: &PromptTemplate)
    requires
        t.end_of_content@.len() == 0,
    ensures
        spec_encode(t, Seq::<Content>::empty()) == t.header_prefix@ + "assistant"@
            + t.header_suffix@,
{
    lemma_encode_empty(t);
    assert(t.end_of_content@ + t.header_prefix@ + "assistant"@ + t.header_suffix@
        =~= t.header_prefix@ + "assistant"@ + t.header_suffix@);
}

/// Encoding a conversation whose last turn is an assistant turn appends no
/// trailing header: the prompt is exactly the encoded turns.
pub proof fn lemma_encode_last_assistant(t: &PromptTemplate, turns: Seq<Content>)
    requires
        turns.len() > 0,
        turns.last().role == Role::Assistant,
    ensures
        spec_encode(t, turns) == encode_body(t, turns),
{
}

/// How the next token is selected from the candidate distribution.
/// Fractional parameters (temperature, the top-p mass, the mirostat target
/// surprise and learning rate) are carried in thousandths, so the engine's
/// own arithmetic on them stays exact.
#[derive(Clone, Copy, Debug, PartialEq, Eq, Structural)]
pub enum SimpleOption {
    Plain,
    Temp(i32),
    TopP(i32, usize),
    TopK(i32, usize),
    MirostatV2(i32, i32),
}

impl Default for SimpleOption {
    /// Sampling from the unmodified distribution.
    fn default() -> (r: Self)
        ensures
            r == SimpleOption::Plain,
    {
        Self::Plain
    }
}

/// The initial value of the mirostat control variable `mu`: twice the
/// target surprise `tau`, in thousandths. Every other strategy carries no
/// adaptive state and starts at zero.
pub open spec fn spec_init_mu(option: SimpleOption) -> int {
    match option {
        SimpleOption::MirostatV2(tau, _) => 2 * tau,
        _ => 0,
    }
}

/// Why a generation attempt died. The native calls that can fail are made
/// by the caller driving the engine; either failure is fatal to the current
/// generation, and the session must be reset before reuse.
#[derive(Clone, Copy, Debug, PartialEq, Eq, Structural)]
pub enum LlmError {
    /// The conversation text could not be converted to tokens.
    Tokenize,
    /// A forward pass over a batch failed.
    Backend,
}

/// One staged entry of the batch buffer: a token and the absolute position
/// it will be decoded at.
#[derive(Clone, Copy, Debug, PartialEq, Eq, Structural)]
pub struct BatchEntry {
    pub token: i32,
    pub pos: usize,
}

/// The batch entry that stages token `p` of a prompt: the token at
/// position `p`.
pub open spec fn prompt_entry(tokens: Seq<i32>, p: int) -> BatchEntry {
    BatchEntry { token: tokens[p], pos: p as usize }
}

/// The sampling state carried by one generation: the strategy, and the
/// mirostat control variable `mu` (in thousandths) where the strategy has
/// one.
#[derive(Clone, Copy, Debug, PartialEq, Eq, Structural)]
pub struct StreamState {
    pub option: SimpleOption,
    pub mu: i64,
}

/// All bytes ever fed to an incremental decoder. What the decoder emits
/// next is a function of these and of the next chunk alone.
pub uninterp spec fn decoder_fed(d: encoding_rs::Decoder) -> Seq<u8>;

/// The text an incremental UTF-8 decoder emits when, having consumed `fed`,
/// it is handed `input`: the decoded characters of every complete sequence,
/// with malformed sequences replaced, and a still-incomplete trailing
/// sequence withheld.
pub uninterp spec fn utf8_step_text(fed: Seq<u8>, input: Seq<u8>) -> Seq<char>;

#[verifier::external_type_specification]
#[verifier::external_body]
pub struct ExDecoder(encoding_rs::Decoder);

/// Relies on encoding_rs::Encoding::new_decoder: a fresh UTF-8 decoder has
/// consumed nothing.
#[verifier::external_body]
fn new_utf8_decoder() -> (d: encoding_rs::Decoder)
    ensures
        decoder_fed(d) == Seq::<u8>::empty(),
{
    encoding_rs::UTF_8.new_decoder()
}

/// Relies on encoding_rs::Decoder::decode_to_string: it appends to the
/// receiver, within the receiver's capacity, the text decoded from the
/// chunk, buffering an incomplete trailing sequence in the decoder. The
/// receiver's capacity is reserved beforehand at the worst case that
/// Decoder::max_utf8_buffer_length reports for the chunk, which the
/// documentation promises will not overflow, so the whole chunk is
/// consumed.
#[verifier::external_body]
fn decoder_push(d: &mut encoding_rs::Decoder, bytes: &Vec<u8>) -> (r: String)
    requires
        bytes@.len() <= 0x1000_0000,
    ensures
        r@ == utf8_step_text(decoder_fed(*old(d)), bytes@),
        decoder_fed(*final(d)) == decoder_fed(*old(d)) + bytes@,
{
    let mut out = String::new();
    if let Some(worst) = d.max_utf8_buffer_length(bytes.len()) {
        out.reserve(worst);
    }
    let _ = d.decode_to_string(bytes, &mut out, false);
    out
}

/// One decoding session: the engine state around a native model context.
///
/// The session owns the prompt template, the batch buffer staged for the
/// next forward pass, the absolute position cursor `n_cur`, the incremental
/// UTF-8 decoder, and, while a generation is active, the sampling state.
/// The caller performs the native work — tokenizing, forward passes over
/// the staged batches, sampling — and feeds each result back in.
pub struct LlamaCtx {
    pub template: PromptTemplate,
    pub n_batch: usize,
    pub eos: i32,
    pub batch: Vec<BatchEntry>,
    pub n_cur: usize,
    pub decoder: encoding_rs::Decoder,
    pub stream: Option<StreamState>,
}

impl LlamaCtx {
    /// The session invariant: the batch capacity is positive, the position
    /// cursor stays within the native position range, and the staged
    /// entries are exactly the last `batch.len()` positions before the
    /// cursor, in order.
    pub open spec fn wf(&self) -> bool {
        &&& self.n_batch >= 1
        &&& self.n_cur <= 0x7fff_ffff
        &&& self.batch@.len() <= self.n_batch
        &&& self.batch@.len() <= self.n_cur
        &&& forall|j: int|
            0 <= j < self.batch@.len() ==> (#[trigger] self.batch@[j].pos) == self.n_cur
                - self.batch@.len() + j
    }

    /// A fresh session: an empty batch buffer of the given capacity, the
    /// position cursor at zero, a fresh decoder, and no generation active.
    pub fn new(template: PromptTemplate, n_batch: usize, eos: i32) -> (r: LlamaCtx)
        requires
            n_batch >= 1,
        ensures
            r.wf(),
            r.template == template,
            r.n_batch == n_batch,
            r.eos == eos,
            r.batch@ == Seq::<BatchEntry>::empty(),
            r.n_cur == 0,
            decoder_fed(r.decoder) == Seq::<u8>::empty(),
            r.stream is None,
    {
        LlamaCtx {
            template,
            n_batch,
            eos,
            batch: Vec::new(),
            n_cur: 0,
            decoder: new_utf8_decoder(),
            stream: None,
        }
    }
}

/// How a reset-and-restart relates the session before and after, the new
/// conversation's prompt tokens, the strategy, and the full batches staged
/// out for forward passes during ingestion.
///
/// The position cursor counts exactly the prompt's tokens; every full batch
/// holds `n_batch` consecutive entries; the final tokens — at least one —
/// stay buffered; the decoder and the sampling state are fresh. Nothing of
/// the session's previous conversation survives.
pub open spec fn spec_reset(
    pre: LlamaCtx,
    post: LlamaCtx,
    tokens: Seq<i32>,
    option: SimpleOption,
    flushes: Seq<Vec<BatchEntry>>,
) -> bool {
    &&& post.template == pre.template
    &&& post.n_batch == pre.n_batch
    &&& post.eos == pre.eos
    &&& post.n_cur == tokens.len()
    &&& post.stream == Some(StreamState { option, mu: spec_init_mu(option) as i64 })
    &&& decoder_fed(post.decoder) == Seq::<u8>::empty()
    &&& flushes.len() == (tokens.len() - 1) / (pre.n_batch as int)
    &&& forall|f: int| 0 <= f < flushes.len() ==> (#[trigger] flushes[f])@.len() == pre.n_batch
    &&& forall|f: int, j: int|
        0 <= f < flushes.len() && 0 <= j < pre.n_batch ==> (#[trigger] flushes[f]@[j])
            == prompt_entry(tokens, f * pre.n_batch + j)
    &&& post.batch@.len() == tokens.len() - flushes.len() * pre.n_batch
    &&& forall|j: int|
        0 <= j < post.batch@.len() ==> (#[trigger] post.batch@[j]) == prompt_entry(
            tokens,
            flushes.len() * pre.n_batch + j,
        )
}

impl LlamaCtx {
    /// Reset the session to a new conversation, already tokenized, and
    /// start one generation with the given strategy.
    ///
    /// The caller clears the native cache, performs one forward pass over
    /// each returned full batch in order, and leaves the returned buffered
    /// tail for the first sampling step. Every token except the last that
    /// fills the buffer to capacity flushes it; the last token never does.
    pub fn chat(&mut self, tokens: &Vec<i32>, option: SimpleOption) -> (flushes: Vec<
        Vec<BatchEntry>,
    >)
        requires
            old(self).wf(),
            1 <= tokens@.len() <= 0x7fff_ffff,
        ensures
            final(self).wf(),
            final(self).batch@.len() >= 1,
            spec_reset(*old(self), *final(self), tokens@, option, flushes@),
    {
        self.decoder = new_utf8_decoder();
        self.batch.clear();
        self.n_cur = 0;
        let mu: i64 = match option {
            SimpleOption::MirostatV2(tau, _) => 2 * (tau as i64),
            _ => 0,
        };
        self.stream = Some(StreamState { option, mu });

        let n = tokens.len();
        let ghost c = self.n_batch as int;
        let mut flushes: Vec<Vec<BatchEntry>> = Vec::new();
        let mut i: usize = 0;
        proof {
            assert(0 * c == 0);
        }
        while i < n
            invariant
                n == tokens@.len(),
                1 <= n <= 0x7fff_ffff,
                i <= n,
                self.n_batch == old(self).n_batch,
                self.n_batch >= 1,
                c == self.n_batch as int,
                self.n_cur == i,
                i == flushes@.len() * c + self.batch@.len(),
                self.batch@.len() <= self.n_batch,
                i < n ==> self.batch@.len() < self.n_batch,
                i == n ==> self.batch@.len() >= 1,
                forall|f: int|
                    0 <= f < flushes@.len() ==> (#[trigger] flushes@[f])@.len() == self.n_batch,
                forall|f: int, j: int|
                    0 <= f < flushes@.len() && 0 <= j < c ==> (#[trigger] flushes@[f]@[j])
                        == prompt_entry(tokens@, f * c + j),
                forall|j: int|
                    0 <= j < self.batch@.len() ==> (#[trigger] self.batch@[j]) == prompt_entry(
                        tokens@,
                        flushes@.len() * c + j,
                    ),
                self.template == old(self).template,
                self.eos == old(self).eos,
                self.stream == Some(StreamState { option, mu }),
                decoder_fed(self.decoder) == Seq::<u8>::empty(),
            decreases n - i,
        {
            let is_last = i == n - 1;
            self.batch.push(BatchEntry { token: tokens[i], pos: self.n_cur });
            self.n_cur = self.n_cur + 1;
            i = i + 1;
            if !is_last && self.batch.len() == self.n_batch {
                let ghost k = flushes@.len() as int;
                let mut full: Vec<BatchEntry> = Vec::new();
                core::mem::swap(&mut full, &mut self.batch);
                flushes.push(full);
                proof {
                    assert(i == (k + 1) * c) by (nonlinear_arith)
                        requires
                            i == k * c + c,
                    ;
                    assert(forall|f: int, j: int|
                        0 <= f < k && 0 <= j < c ==> (#[trigger] flushes@[f]@[j]) == prompt_entry(
                            tokens@,
                            f * c + j,
                        ));
                    assert(forall|j: int|
                        0 <= j < c ==> (#[trigger] flushes@[k]@[j]) == prompt_entry(
                            tokens@,
                            k * c + j,
                        ));
                }
            }
        }
        proof {
            let k = flushes@.len();
            let b = self.batch@.len() as int;
            vstd::arithmetic::div_mod::lemma_fundamental_div_mod_converse(
                n as int - 1,
                c,
                k as int,
                b - 1,
            );
        }
        flushes
    }

    /// Commit one sampled token: the batch buffer is cleared and restaged
    /// with just this token at the position cursor, which advances past it.
    /// Returns whether generation continues — the model's end-of-sequence
    /// token ends the stream instead of producing text.
    pub fn commit_token(&mut self, token: i32) -> (cont: bool)
        requires
            old(self).wf(),
            old(self).n_cur < 0x7fff_ffff,
        ensures
            final(self).wf(),
            final(self).template == old(self).template,
            final(self).n_batch == old(self).n_batch,
            final(self).eos == old(self).eos,
            final(self).decoder == old(self).decoder,
            final(self).batch@ =~= seq![BatchEntry { token, pos: old(self).n_cur }],
            final(self).n_cur == old(self).n_cur + 1,
            cont == (token != old(self).eos),
            final(self).stream == if token == old(self).eos {
                None::<StreamState>
            } else {
                old(self).stream
            },
    {
        self.batch.clear();
        self.batch.push(BatchEntry { token, pos: self.n_cur });
        self.n_cur = self.n_cur + 1;
        if token == self.eos {
            self.stream = None;
            false
        } else {
            true
        }
    }

    /// Push one token's raw bytes through the session's incremental
    /// decoder and return whatever complete text they yield — possibly
    /// empty while a multi-byte sequence is still split across tokens.
    pub fn decode_fragment(&mut self, bytes: &Vec<u8>) -> (r: String)
        requires
            bytes@.len() <= 0x1000_0000,
        ensures
            r@ == utf8_step_text(decoder_fed(old(self).decoder), bytes@),
            decoder_fed(final(self).decoder) == decoder_fed(old(self).decoder) + bytes@,
            final(self).template == old(self).template,
            final(self).n_batch == old(self).n_batch,
            final(self).eos == old(self).eos,
            final(self).batch == old(self).batch,
            final(self).n_cur == old(self).n_cur,
            final(self).stream == old(self).stream,
    {
        decoder_push(&mut self.decoder, bytes)
    }

    /// Store the mirostat control variable `mu` handed back by the native
    /// sampler, in thousandths. Without an active generation there is no
    /// sampling state to update.
    pub fn set_mu(&mut self, mu: i64)
        ensures
            final(self).stream == match old(self).stream {
                Some(s) => Some(StreamState { option: s.option, mu }),
                None => None::<StreamState>,
            },
            final(self).template == old(self).template,
            final(self).n_batch == old(self).n_batch,
            final(self).eos == old(self).eos,
            final(self).batch == old(self).batch,
            final(self).n_cur == old(self).n_cur,
            final(self).decoder == old(self).decoder,
    {
        match self.stream {
            Some(s) => {
                self.stream = Some(StreamState { option: s.option, mu });
            },
            None => {},
        }
    }

    /// Trim the first matching stop marker off the accumulated text of the
    /// open assistant turn, reporting whether one matched.
    pub fn is_stop(&self, content: &mut String) -> (r: bool)
        ensures
            match first_match(self.template.stops@, old(content)@) {
                Some(i) => r && final(content)@ == old(content)@.subrange(
                    0,
                    old(content)@.len() - self.template.stops@[i]@.len(),
                ),
                None => !r && final(content)@ == old(content)@,
            },
    {
        self.template.post_handle_content(content)
    }
}

/// After a reset, the observable session state — position cursor, staged
/// batches, buffered tail, sampling state, decoder progress — is a function
/// of the new conversation's tokens, the strategy and the batch capacity
/// alone: two sessions reset alike agree, whatever either did before.
pub proof fn lemma_reset_independent(
    pre1: LlamaCtx,
    post1: LlamaCtx,
    pre2: LlamaCtx,
    post2: LlamaCtx,
    tokens: Seq<i32>,
    option: SimpleOption,
    flushes1: Seq<Vec<BatchEntry>>,
    flushes2: Seq<Vec<BatchEntry>>,
)
    requires
        pre1.n_batch == pre2.n_batch,
        spec_reset(pre1, post1, tokens, option, flushes1),
        spec_reset(pre2, post2, tokens, option, flushes2),
    ensures
        post1.n_cur == post2.n_cur,
        post1.batch@ == post2.batch@,
        post1.stream == post2.stream,
        decoder_fed(post1.decoder) == decoder_fed(post2.decoder),
        flushes1.len() == flushes2.len(),
        forall|f: int| 0 <= f < flushes1.len() ==> (#[trigger] flushes1[f])@ == flushes2[f]@,
{
    assert(post1.batch@ =~= post2.batch@);
    assert forall|f: int| 0 <= f < flushes1.len() implies (#[trigger] flushes1[f])@
        == flushes2[f]@ by {
        assert(flushes1[f]@ =~= flushes2[f]@);
    }
}

} // verus!

//! The streaming conversational session engine.
//!
//! A `ChatClient` owns the append-only conversation log and walks the
//! session state machine: it blocks for input (`AwaitingInput`), commits a
//! user turn and asks for a response stream (`Requesting`), drains the
//! stream chunk by chunk while assembling the response text (`Streaming`),
//! commits exactly one assistant turn when the stream ends, and returns to
//! `AwaitingInput` -- or terminates on the sentinel input `stop`.
//!
//! The caller performs the actual input, network and terminal work and
//! hands events back as plain values; every decision lives here.  A failed
//! request leaves the already-committed user turn in the log on purpose:
//! the orphaned turn stays available as context for a later retry, and the
//! asymmetry is confined to failed requests.

use vstd::prelude::*;

use crate::chat_types::{
    choices_text, chunk_text, turns_view, ChatCompletionChunk, ChatCompletionRequestMessage,
    ChatModelRequest, Role, TurnView,
};
use crate::terminal_renderer::{
    fence_emits, fence_state, initial_render_state, lemma_fence_split, pending_emits, styled_text,
    RenderState, StyledChar, TerminalRenderer, TextStyle,
};

verus! {

/// Whether a character counts as whitespace for trimming, following the
/// Unicode white-space property that `str::trim` uses.
pub open spec fn is_space_char(c: char) -> bool {
    ||| c as u32 == 0x09
    ||| c as u32 == 0x0A
    ||| c as u32 == 0x0B
    ||| c as u32 == 0x0C
    ||| c as u32 == 0x0D
    ||| c as u32 == 0x20
    ||| c as u32 == 0x85
    ||| c as u32 == 0xA0
    ||| c as u32 == 0x1680
    ||| (0x2000 <= c as u32 && c as u32 <= 0x200A)
    ||| c as u32 == 0x2028
    ||| c as u32 == 0x2029
    ||| c as u32 == 0x202F
    ||| c as u32 == 0x205F
    ||| c as u32 == 0x3000
}

fn is_space(c: char) -> (b: bool)
    ensures
        b == is_space_char(c),
{
    let u = c as u32;
    u == 0x09 || u == 0x0A || u == 0x0B || u == 0x0C || u == 0x0D || u == 0x20 || u == 0x85
        || u == 0xA0 || u == 0x1680 || (0x2000 <= u && u <= 0x200A) || u == 0x2028 || u == 0x2029
        || u == 0x202F || u == 0x205F || u == 0x3000
}

/// A text with its leading and trailing whitespace removed.
pub open spec fn spec_trim(s: Seq<char>) -> Seq<char>
    decreases s.len(),
{
    if s.len() == 0 {
        s
    } else if is_space_char(s[0]) {
        spec_trim(s.drop_first())
    } else if is_space_char(s.last()) {
        spec_trim(s.drop_last())
    } else {
        s
    }
}

/// Remove leading and trailing whitespace.
pub fn trim_str(s: &str) -> (r: String)
    ensures
        r@ == spec_trim(s@),
{
    let n = s.unicode_len();
    proof {
        assert(s@.subrange(0, n as int) =~= s@);
    }
    let mut i: usize = 0;
    while i < n && is_space(s.get_char(i))
        invariant
            i <= n,
            n == s@.len(),
            spec_trim(s@) == spec_trim(s@.subrange(i as int, n as int)),
        decreases n - i,
    {
        proof {
            let cur = s@.subrange(i as int, n as int);
            assert(cur[0] == s@[i as int]);
            assert(cur.drop_first() =~= s@.subrange(i + 1, n as int));
        }
        i = i + 1;
    }
    if i == n {
        proof {
            assert(s@.subrange(i as int, n as int) =~= Seq::<char>::empty());
        }
        let r = String::new();
        return r;
    }
    let mut j: usize = n;
    while j > i + 1 && is_space(s.get_char(j - 1))
        invariant
            i < j <= n,
            n == s@.len(),
            !is_space_char(s@[i as int]),
            spec_trim(s@) == spec_trim(s@.subrange(i as int, j as int)),
        decreases j,
    {
        proof {
            let cur = s@.subrange(i as int, j as int);
            assert(cur[0] == s@[i as int]);
            assert(cur.last() == s@[j - 1]);
            assert(cur.drop_last() =~= s@.subrange(i as int, j - 1));
        }
        j = j - 1;
    }
    proof {
        let cur = s@.subrange(i as int, j as int);
        assert(cur[0] == s@[i as int]);
        assert(cur.last() == s@[j - 1]);
    }
    let piece = s.substring_char(i, j);
    piece.to_owned()
}

/// The sentinel command: the input, once trimmed, is exactly `stop`.
pub open spec fn is_stop_command(input: Seq<char>) -> bool {
    spec_trim(input) == "stop"@
}

/// The turn that committing a user input produces.
pub open spec fn user_turn(input: Seq<char>) -> TurnView {
    TurnView { role: Role::User, content: spec_trim(input), name: None }
}

/// The turn that committing an assembled response produces.
pub open spec fn assistant_turn(content: Seq<char>) -> TurnView {
    TurnView { role: Role::Assistant, content, name: None }
}

/// The ordered, append-only record of the turns exchanged so far: the only
/// state carried between requests.  Turns are appended, never reordered,
/// mutated or removed.
#[derive(Debug)]
pub struct ConversationLog {
    turns: Vec<ChatCompletionRequestMessage>,
}

impl View for ConversationLog {
    type V = Seq<TurnView>;

    closed spec fn view(&self) -> Seq<TurnView> {
        turns_view(self.turns@)
    }
}

impl ConversationLog {
    /// An empty log, as a session starts with.
    pub fn new() -> (r: Self)
        ensures
            r@ == Seq::<TurnView>::empty(),
    {
        let r = ConversationLog { turns: Vec::new() };
        proof {
            assert(r@ =~= Seq::<TurnView>::empty());
        }
        r
    }

    /// Append one completed turn.  Always succeeds; nothing else ever
    /// changes the log.
    pub fn append(&mut self, turn: ChatCompletionRequestMessage)
        ensures
            final(self)@ == old(self)@.push(turn@),
    {
        let ghost before = self.turns@;
        self.turns.push(turn);
        proof {
            assert(turns_view(self.turns@) =~= turns_view(before).push(self.turns@.last()@));
        }
    }

    /// The number of turns committed so far.
    pub fn len(&self) -> (n: usize)
        ensures
            n == self@.len(),
    {
        self.turns.len()
    }

    /// One committed turn.
    pub fn turn_at(&self, i: usize) -> (m: &ChatCompletionRequestMessage)
        requires
            i < self@.len(),
        ensures
            m@ == self@[i as int],
    {
        &self.turns[i]
    }

    /// The full ordered sequence as it stands, for handing to a backend:
    /// exactly the turns appended so far and nothing pending.
    pub fn snapshot(&self) -> (r: Vec<ChatCompletionRequestMessage>)
        ensures
            turns_view(r@) == self@,
    {
        let mut r: Vec<ChatCompletionRequestMessage> = Vec::new();
        let n = self.turns.len();
        let mut i: usize = 0;
        while i < n
            invariant
                i <= n,
                n == self.turns@.len(),
                turns_view(r@) == self@.take(i as int),
            decreases n - i,
        {
            let ghost prev = r@;
            let m = self.turns[i].clone();
            r.push(m);
            proof {
                assert(turns_view(prev).len() == prev.len());
                assert(prev.len() == i);
                assert forall|j: int| 0 <= j < i + 1 implies turns_view(r@)[j] == self@.take(
                    i + 1,
                )[j] by {
                    if j < i {
                        assert(r@[j] == prev[j]);
                        assert(turns_view(prev)[j] == self@.take(i as int)[j]);
                    } else {
                        assert(r@[j]@ == self.turns@[j]@);
                    }
                }
                assert(turns_view(r@) =~= self@.take(i + 1));
            }
            i = i + 1;
        }
        proof {
            assert(self@.take(n as int) =~= self@);
        }
        r
    }
}

/// Where the session stands.
#[derive(Clone, Copy, Debug, PartialEq, Eq, Structural)]
pub enum SessionState {
    /// Blocked for one line of user text.
    AwaitingInput,
    /// A user turn is committed and a response stream is being requested.
    Requesting,
    /// A response stream is being drained.
    Streaming,
    /// The session is over; no further transition exists.
    Terminated,
}

/// What the caller must do after handing the session one line of input.
#[derive(Debug)]
pub enum InputAction {
    /// The sentinel was given: end the session, nothing was committed.
    Quit,
    /// Ask the backend for a response stream over this snapshot of the
    /// conversation.
    Request(ChatModelRequest),
}

/// What one streamed event carried: a chunk, or a per-chunk transport
/// error with its message.
pub type StreamEvent = Result<ChatCompletionChunk, String>;

/// The response text that a sequence of stream events assembles: the
/// concatenation of every successful chunk's deltas.  Errored events
/// contribute nothing.
pub open spec fn events_text(evs: Seq<StreamEvent>) -> Seq<char>
    decreases evs.len(),
{
    if evs.len() == 0 {
        Seq::empty()
    } else {
        events_text(evs.drop_last()) + match evs.last() {
            Ok(c) => chunk_text(c@),
            Err(_) => Seq::empty(),
        }
    }
}

/// The renderer state after a sequence of stream events: successful chunks
/// advance the fence detector, errors leave it alone.
pub open spec fn events_render_state(st: RenderState, evs: Seq<StreamEvent>) -> RenderState
    decreases evs.len(),
{
    if evs.len() == 0 {
        st
    } else {
        match evs.last() {
            Ok(c) => fence_state(events_render_state(st, evs.drop_last()), chunk_text(c@)),
            Err(_) => events_render_state(st, evs.drop_last()),
        }
    }
}

/// Everything a sequence of stream events makes visible, in arrival order:
/// each successful chunk rendered through the fence detector, each error
/// shown inline as an annotation.
pub open spec fn events_out(st: RenderState, evs: Seq<StreamEvent>) -> Seq<StyledChar>
    decreases evs.len(),
{
    if evs.len() == 0 {
        Seq::empty()
    } else {
        events_out(st, evs.drop_last()) + match evs.last() {
            Ok(c) => fence_emits(events_render_state(st, evs.drop_last()), chunk_text(c@)),
            Err(m) => styled_text("error: "@ + m@, TextStyle::ErrorNote),
        }
    }
}

/// One interactive chat session: the log, the text of the response being
/// assembled, and the state machine position.
#[derive(Debug)]
pub struct ChatClient {
    chat_log: ConversationLog,
    pending_response: String,
    state: SessionState,
}

/// A completed exchange: the committed user text and the committed
/// response text.
pub ghost struct EpisodeView {
    pub input: Seq<char>,
    pub response: Seq<char>,
}

/// The log that a sequence of completed exchanges builds: for each one, in
/// order, its user turn then its assistant turn, with nothing in between.
pub open spec fn chat_transcript(episodes: Seq<EpisodeView>) -> Seq<TurnView>
    decreases episodes.len(),
{
    if episodes.len() == 0 {
        Seq::empty()
    } else {
        chat_transcript(episodes.drop_last()) + seq![
            TurnView { role: Role::User, content: episodes.last().input, name: None },
            TurnView { role: Role::Assistant, content: episodes.last().response, name: None },
        ]
    }
}

/// Log ordering: a log that equals the transcript of the exchanges so far,
/// extended by the two commits of one more completed exchange -- the user
/// turn, then the assistant turn, in that order -- equals the transcript
/// of the extended exchanges.  Together with the contracts of
/// `handle_input` and `finish_stream`, which push exactly those two turns,
/// the log after any number of completed exchanges is their transcript:
/// every pair appears in call order, nothing is reordered or lost.
pub proof fn lemma_log_ordering(
    log: Seq<TurnView>,
    episodes: Seq<EpisodeView>,
    input: Seq<char>,
    response: Seq<char>,
)
    requires
        log == chat_transcript(episodes),
    ensures
        log.push(TurnView { role: Role::User, content: input, name: None }).push(
            TurnView { role: Role::Assistant, content: response, name: None },
        ) == chat_transcript(episodes.push(EpisodeView { input, response })),
{
    let extended = episodes.push(EpisodeView { input, response });
    assert(extended.drop_last() =~= episodes);
    assert(chat_transcript(extended) =~= log.push(
        TurnView { role: Role::User, content: input, name: None },
    ).push(TurnView { role: Role::Assistant, content: response, name: None }));
}

impl ChatClient {
    /// The committed conversation.
    pub closed spec fn log(&self) -> Seq<TurnView> {
        self.chat_log@
    }

    /// Where the session stands.
    pub closed spec fn state(&self) -> SessionState {
        self.state
    }

    /// The text of the response assembled so far in this streaming episode.
    pub closed spec fn pending(&self) -> Seq<char> {
        self.pending_response@
    }

    /// A fresh session: empty log, waiting for input.
    pub fn new() -> (r: Self)
        ensures
            r.log() == Seq::<TurnView>::empty(),
            r.state() == SessionState::AwaitingInput,
            r.pending() == Seq::<char>::empty(),
    {
        ChatClient {
            chat_log: ConversationLog::new(),
            pending_response: String::new(),
            state: SessionState::AwaitingInput,
        }
    }

    /// Where the session stands, as a value.
    pub fn current_state(&self) -> (s: SessionState)
        ensures
            s == self.state(),
    {
        self.state
    }

    /// The number of committed turns.
    pub fn log_len(&self) -> (n: usize)
        ensures
            n == self.log().len(),
    {
        self.chat_log.len()
    }

    /// One committed turn.
    pub fn log_turn(&self, i: usize) -> (m: &ChatCompletionRequestMessage)
        requires
            i < self.log().len(),
        ensures
            m@ == self.log()[i as int],
    {
        self.chat_log.turn_at(i)
    }

    /// The committed conversation, as a value.
    pub fn snapshot(&self) -> (r: Vec<ChatCompletionRequestMessage>)
        ensures
            turns_view(r@) == self.log(),
    {
        self.chat_log.snapshot()
    }

    /// One line of user input.  The sentinel `stop` (after trimming) ends
    /// the session without committing anything and without a request;
    /// anything else is committed as a user turn, and the caller is handed
    /// a snapshot of the whole conversation to request a response for.
    pub fn handle_input(&mut self, input: &str) -> (action: InputAction)
        requires
            old(self).state() == SessionState::AwaitingInput,
        ensures
            final(self).pending() == old(self).pending(),
            is_stop_command(input@) ==> {
                &&& final(self).state() == SessionState::Terminated
                &&& final(self).log() == old(self).log()
                &&& action is Quit
            },
            !is_stop_command(input@) ==> {
                &&& final(self).state() == SessionState::Requesting
                &&& final(self).log() == old(self).log().push(user_turn(input@))
                &&& (action matches InputAction::Request(req) && turns_view(req.messages@)
                    == final(self).log())
            },
    {
        let trimmed = trim_str(input);
        let stop = String::from_str("stop");
        if trimmed == stop {
            self.state = SessionState::Terminated;
            InputAction::Quit
        } else {
            let turn = ChatCompletionRequestMessage::new(Role::User, trimmed);
            self.chat_log.append(turn);
            self.state = SessionState::Requesting;
            let messages = self.chat_log.snapshot();
            InputAction::Request(ChatModelRequest { messages })
        }
    }

    /// The request could not even be built or sent: report and return to
    /// waiting.  The user turn stays committed; it is not rolled back.
    pub fn stream_failed(&mut self)
        requires
            old(self).state() == SessionState::Requesting,
        ensures
            final(self).state() == SessionState::AwaitingInput,
            final(self).log() == old(self).log(),
            final(self).pending() == old(self).pending(),
    {
        self.state = SessionState::AwaitingInput;
    }

    /// A response stream exists: start assembling a fresh response.
    pub fn stream_opened(&mut self)
        requires
            old(self).state() == SessionState::Requesting,
        ensures
            final(self).state() == SessionState::Streaming,
            final(self).log() == old(self).log(),
            final(self).pending() == Seq::<char>::empty(),
    {
        self.pending_response = String::new();
        self.state = SessionState::Streaming;
    }

    /// One successful chunk: every delta text it carries is appended, in
    /// order, to the response being assembled and rendered through the
    /// fence detector.  The log is untouched -- nothing is committed
    /// per chunk.
    pub fn handle_chunk(
        &mut self,
        chunk: &ChatCompletionChunk,
        renderer: &mut TerminalRenderer,
    ) -> (out: Vec<StyledChar>)
        requires
            old(self).state() == SessionState::Streaming,
            old(renderer).wf(),
        ensures
            final(self).state() == SessionState::Streaming,
            final(self).log() == old(self).log(),
            final(self).pending() == old(self).pending() + chunk_text(chunk@),
            final(renderer).wf(),
            final(renderer).state() == fence_state(old(renderer).state(), chunk_text(chunk@)),
            out@ == fence_emits(old(renderer).state(), chunk_text(chunk@)),
    {
        let ghost st0 = renderer.state();
        let ghost pending0 = self.pending_response@;
        let ghost cview = chunk@;
        let mut out: Vec<StyledChar> = Vec::new();
        let n = chunk.choices.len();
        let mut i: usize = 0;
        while i < n
            invariant
                i <= n,
                n == chunk.choices@.len(),
                cview == chunk@,
                self.state() == SessionState::Streaming,
                self.log() == old(self).log(),
                self.pending() == pending0 + choices_text(
                    cview.choices.take(i as int),
                ),
                renderer.wf(),
                renderer.state() == fence_state(st0, choices_text(
                    cview.choices.take(i as int),
                )),
                out@ == fence_emits(st0, choices_text(
                    cview.choices.take(i as int),
                )),
            decreases n - i,
        {
            let ghost sofar = choices_text(cview.choices.take(i as int));
            proof {
                assert(cview.choices.take(i + 1) =~= cview.choices.take(i as int).push(
                    cview.choices[i as int],
                ));
                assert(cview.choices.take(i + 1).drop_last() =~= cview.choices.take(i as int));
                assert(cview.choices[i as int] == chunk.choices@[i as int]@);
            }
            match &chunk.choices[i].delta.content {
                Some(content) => {
                    proof {
                        lemma_fence_split(st0, sofar, content@);
                        assert(pending0 + (sofar + content@) =~= (pending0 + sofar) + content@);
                        assert(choices_text(cview.choices.take(i + 1)) == sofar
                            + content@);
                    }
                    self.pending_response.append(content.as_str());
                    let mut piece = renderer.render(content.as_str());
                    out.append(&mut piece);
                },
                None => {
                    proof {
                        assert(choices_text(cview.choices.take(i + 1)) =~= sofar);
                    }
                },
            }
            i = i + 1;
        }
        proof {
            assert(cview.choices.take(n as int) =~= cview.choices);
        }
        out
    }

    /// One errored chunk: the error is shown inline as an annotation, the
    /// drain goes on.  Nothing is committed, no text is contributed, and
    /// the fence detector is left exactly where it was.
    pub fn handle_chunk_error(
        &mut self,
        message: &String,
        renderer: &mut TerminalRenderer,
    ) -> (out: Vec<StyledChar>)
        requires
            old(self).state() == SessionState::Streaming,
        ensures
            final(self).state() == SessionState::Streaming,
            final(self).log() == old(self).log(),
            final(self).pending() == old(self).pending(),
            final(renderer).state() == old(renderer).state(),
            out@ == styled_text("error: "@ + message@, TextStyle::ErrorNote),
    {
        renderer.print_error(message)
    }

    /// The stream ended (normally or on a fatal error): whatever text was
    /// assembled -- possibly empty -- is committed as exactly one assistant
    /// turn, the detector flushes what it still held back and is reset,
    /// and the session waits for input again.
    pub fn finish_stream(&mut self, renderer: &mut TerminalRenderer) -> (out: Vec<StyledChar>)
        requires
            old(self).state() == SessionState::Streaming,
            old(renderer).wf(),
        ensures
            final(self).state() == SessionState::AwaitingInput,
            final(self).log() == old(self).log().push(assistant_turn(old(self).pending())),
            final(self).pending() == Seq::<char>::empty(),
            final(renderer).state() == initial_render_state(),
            final(renderer).wf(),
            out@ == pending_emits(old(renderer).state()),
    {
        let out = renderer.finish();
        let content = self.pending_response.clone();
        self.pending_response = String::new();
        let turn = ChatCompletionRequestMessage::new(Role::Assistant, content);
        self.chat_log.append(turn);
        self.state = SessionState::AwaitingInput;
        out
    }

    /// Drain a whole response stream that has already been collected into
    /// events, then commit.  However many events there are -- none, one or
    /// many, successes and errors in any order -- exactly one assistant
    /// turn is appended, carrying the concatenation of the successful
    /// chunks' texts, and everything rendered arrives in order: chunk text
    /// through the fence detector, errors as inline annotations, and at the
    /// end whatever the detector still held back.
    pub fn drain_stream(
        &mut self,
        events: &Vec<StreamEvent>,
        renderer: &mut TerminalRenderer,
    ) -> (out: Vec<StyledChar>)
        requires
            old(self).state() == SessionState::Streaming,
            old(renderer).wf(),
        ensures
            final(self).state() == SessionState::AwaitingInput,
            final(self).log() == old(self).log().push(
                assistant_turn(old(self).pending() + events_text(events@)),
            ),
            final(self).pending() == Seq::<char>::empty(),
            final(renderer).state() == initial_render_state(),
            out@ == events_out(old(renderer).state(), events@) + pending_emits(
                events_render_state(old(renderer).state(), events@),
            ),
    {
        let ghost st0 = renderer.state();
        let ghost pending0 = self.pending();
        let mut out: Vec<StyledChar> = Vec::new();
        let n = events.len();
        let mut i: usize = 0;
        while i < n
            invariant
                i <= n,
                n == events@.len(),
                self.state() == SessionState::Streaming,
                self.log() == old(self).log(),
                self.pending() == pending0 + events_text(events@.take(i as int)),
                renderer.wf(),
                renderer.state() == events_render_state(st0, events@.take(i as int)),
                out@ == events_out(st0, events@.take(i as int)),
            decreases n - i,
        {
            proof {
                assert(events@.take(i + 1) =~= events@.take(i as int).push(events@[i as int]));
                assert(events@.take(i + 1).drop_last() =~= events@.take(i as int));
            }
            match &events[i] {
                Ok(chunk) => {
                    let mut piece = self.handle_chunk(chunk, renderer);
                    out.append(&mut piece);
                    proof {
                        assert(pending0 + (events_text(events@.take(i as int)) + chunk_text(
                            chunk@,
                        )) =~= (pending0 + events_text(events@.take(i as int))) + chunk_text(
                            chunk@,
                        ));
                    }
                },
                Err(message) => {
                    let mut piece = self.handle_chunk_error(message, renderer);
                    out.append(&mut piece);
                    proof {
                        assert(events_text(events@.take(i + 1)) =~= events_text(
                            events@.take(i as int),
                        ));
                    }
                },
            }
            i = i + 1;
        }
        proof {
            assert(events@.take(n as int) =~= events@);
        }
        let mut rest = self.finish_stream(renderer);
        out.append(&mut rest);
        out
    }
}

} // verus!

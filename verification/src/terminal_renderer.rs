//! Incremental markdown-fence rendering.
//!
//! The renderer classifies every character of an incrementally arriving text
//! as prose or fenced code and decides, character by character, how it is to
//! be shown -- without waiting for the whole response.  A run of exactly
//! three backticks toggles between the two modes and is consumed; a shorter
//! run is held back until it is known whether it completes a fence, and is
//! flushed in original order when it does not.  The state survives chunk
//! boundaries, so a fence split across two chunks is still detected.
//!
//! The renderer emits `(character, style)` pairs instead of writing to a
//! terminal itself; the caller owns the actual output device.

use vstd::prelude::*;

verus! {

/// How one emitted character is to be shown.
#[derive(Clone, Copy, Debug, PartialEq, Eq, Structural)]
pub enum TextStyle {
    /// Ordinary prose.
    Plain,
    /// Text inside a fenced code span.
    Code,
    /// An inline error annotation, distinct from the response text.
    ErrorNote,
}

/// One character of rendered output together with its style.
#[derive(Clone, Copy, Debug, PartialEq, Eq, Structural)]
pub struct StyledChar {
    pub ch: char,
    pub style: TextStyle,
}

/// The whole state of the fence detector: whether we are inside a fenced
/// code span, and how many backticks of a possible fence have been seen and
/// held back so far (always 0, 1 or 2).
#[derive(Clone, Copy, Debug, PartialEq, Eq, Structural)]
pub struct RenderState {
    pub in_code_block: bool,
    pub backtick_run: u8,
}

/// The state at the start of a response: prose mode, no backticks pending.
pub open spec fn initial_render_state() -> RenderState {
    RenderState { in_code_block: false, backtick_run: 0 }
}

/// The style of ordinary text in the given mode.
pub open spec fn style_of(in_code_block: bool) -> TextStyle {
    if in_code_block {
        TextStyle::Code
    } else {
        TextStyle::Plain
    }
}

/// The characters a state holds back: its pending backticks, styled by the
/// mode they were seen in.
pub open spec fn pending_emits(st: RenderState) -> Seq<StyledChar> {
    Seq::new(
        st.backtick_run as nat,
        |i: int| (StyledChar { ch: '`', style: style_of(st.in_code_block) }),
    )
}

/// The state after one character: a backtick extends the run, completing a
/// run of three toggles the mode and clears the run; anything else clears
/// the run.
pub open spec fn fence_step_state(st: RenderState, c: char) -> RenderState {
    if c == '`' {
        if st.backtick_run == 2 {
            RenderState { in_code_block: !st.in_code_block, backtick_run: 0 }
        } else {
            RenderState { in_code_block: st.in_code_block, backtick_run: (st.backtick_run + 1) as u8 }
        }
    } else {
        RenderState { in_code_block: st.in_code_block, backtick_run: 0 }
    }
}

/// What one character makes visible.  A backtick is always held back (and a
/// completed fence is consumed entirely); any other character first flushes
/// the held-back backticks, then appears itself, all in the current mode.
pub open spec fn fence_step_emits(st: RenderState, c: char) -> Seq<StyledChar> {
    if c == '`' {
        Seq::empty()
    } else {
        pending_emits(st).push(StyledChar { ch: c, style: style_of(st.in_code_block) })
    }
}

/// The state after a whole text.
pub open spec fn fence_state(st: RenderState, s: Seq<char>) -> RenderState
    decreases s.len(),
{
    if s.len() == 0 {
        st
    } else {
        fence_state(fence_step_state(st, s[0]), s.drop_first())
    }
}

/// Everything a whole text makes visible, in order.
pub open spec fn fence_emits(st: RenderState, s: Seq<char>) -> Seq<StyledChar>
    decreases s.len(),
{
    if s.len() == 0 {
        Seq::empty()
    } else {
        fence_step_emits(st, s[0]) + fence_emits(fence_step_state(st, s[0]), s.drop_first())
    }
}

/// One rendered character.
pub open spec fn styled(c: char, sty: TextStyle) -> StyledChar {
    StyledChar { ch: c, style: sty }
}

/// A text shown uniformly in one style, character for character.
pub open spec fn styled_text(s: Seq<char>, sty: TextStyle) -> Seq<StyledChar> {
    Seq::new(s.len(), |i: int| styled(s[i], sty))
}

/// Extending a text by one character extends its rendering by that
/// character's step.
pub proof fn lemma_fence_push(st: RenderState, s: Seq<char>, c: char)
    ensures
        fence_state(st, s.push(c)) == fence_step_state(fence_state(st, s), c),
        fence_emits(st, s.push(c)) == fence_emits(st, s) + fence_step_emits(fence_state(st, s), c),
    decreases s.len(),
{
    reveal_with_fuel(fence_state, 2);
    reveal_with_fuel(fence_emits, 2);
    if s.len() == 0 {
        assert(s.push(c)[0] == c);
        assert(s.push(c).drop_first() =~= Seq::<char>::empty());
        assert(fence_emits(st, s.push(c)) =~= fence_emits(st, s) + fence_step_emits(
            fence_state(st, s),
            c,
        ));
    } else {
        assert(s.push(c)[0] == s[0]);
        assert(s.push(c).drop_first() =~= s.drop_first().push(c));
        lemma_fence_push(fence_step_state(st, s[0]), s.drop_first(), c);
        assert(fence_emits(st, s.push(c)) =~= fence_emits(st, s) + fence_step_emits(
            fence_state(st, s),
            c,
        ));
    }
}

/// Rendering is insensitive to chunk boundaries: feeding a text in two
/// pieces from any state reaches the same final state and emits the same
/// output, in the same order, as feeding it whole.
pub proof fn lemma_fence_split(st: RenderState, s1: Seq<char>, s2: Seq<char>)
    ensures
        fence_state(st, s1 + s2) == fence_state(fence_state(st, s1), s2),
        fence_emits(st, s1 + s2) == fence_emits(st, s1) + fence_emits(fence_state(st, s1), s2),
    decreases s1.len(),
{
    reveal_with_fuel(fence_state, 2);
    reveal_with_fuel(fence_emits, 2);
    if s1.len() == 0 {
        assert(s1 + s2 =~= s2);
        assert(fence_emits(st, s1) + fence_emits(fence_state(st, s1), s2) =~= fence_emits(st, s2));
    } else {
        assert((s1 + s2)[0] == s1[0]);
        assert((s1 + s2).drop_first() =~= s1.drop_first() + s2);
        lemma_fence_split(fence_step_state(st, s1[0]), s1.drop_first(), s2);
        assert(fence_emits(st, s1 + s2) =~= fence_emits(st, s1) + fence_emits(
            fence_state(st, s1),
            s2,
        ));
    }
}

/// The incremental renderer: one owned `RenderState`, living for one
/// response and discarded afterwards.
#[derive(Debug)]
pub struct TerminalRenderer {
    state: RenderState,
}

impl TerminalRenderer {
    /// The current detector state.
    pub closed spec fn state(&self) -> RenderState {
        self.state
    }

    /// A state the renderer's own steps preserve: at most two backticks are
    /// ever held back.
    pub open spec fn wf(&self) -> bool {
        self.state().backtick_run <= 2
    }

    /// A fresh renderer for one response.
    pub fn new() -> (r: Self)
        ensures
            r.state() == initial_render_state(),
            r.wf(),
    {
        TerminalRenderer { state: RenderState { in_code_block: false, backtick_run: 0 } }
    }

    /// Feed a single character and hand back what it makes visible.
    pub fn feed_char(&mut self, c: char) -> (out: Vec<StyledChar>)
        requires
            old(self).wf(),
        ensures
            final(self).wf(),
            final(self).state() == fence_step_state(old(self).state(), c),
            out@ == fence_step_emits(old(self).state(), c),
    {
        let mut out: Vec<StyledChar> = Vec::new();
        if c == '`' {
            if self.state.backtick_run == 2 {
                self.state.in_code_block = !self.state.in_code_block;
                self.state.backtick_run = 0;
            } else {
                self.state.backtick_run = self.state.backtick_run + 1;
            }
        } else {
            let style = if self.state.in_code_block {
                TextStyle::Code
            } else {
                TextStyle::Plain
            };
            let mut k: u8 = 0;
            while k < self.state.backtick_run
                invariant
                    k <= self.state.backtick_run,
                    self.state == old(self).state(),
                    style == style_of(self.state().in_code_block),
                    out@ =~= pending_emits(self.state()).take(k as int),
                decreases self.state.backtick_run - k,
            {
                out.push(StyledChar { ch: '`', style });
                k = k + 1;
                proof {
                    assert(pending_emits(self.state()).take(k as int) =~= pending_emits(
                        self.state(),
                    ).take(k - 1).push(StyledChar { ch: '`', style }));
                }
            }
            assert(out@ =~= pending_emits(self.state()));
            out.push(StyledChar { ch: c, style });
            self.state.backtick_run = 0;
        }
        out
    }

    /// Feed one arriving piece of text, character by character in order, and
    /// hand back everything it makes visible.
    pub fn render(&mut self, content: &str) -> (out: Vec<StyledChar>)
        requires
            old(self).wf(),
        ensures
            final(self).wf(),
            final(self).state() == fence_state(old(self).state(), content@),
            out@ == fence_emits(old(self).state(), content@),
    {
        let ghost st0 = self.state();
        let mut out: Vec<StyledChar> = Vec::new();
        let n = content.unicode_len();
        let mut i: usize = 0;
        while i < n
            invariant
                i <= n,
                n == content@.len(),
                self.wf(),
                self.state() == fence_state(st0, content@.take(i as int)),
                out@ == fence_emits(st0, content@.take(i as int)),
            decreases n - i,
        {
            let c = content.get_char(i);
            proof {
                assert(content@.take(i + 1) =~= content@.take(i as int).push(content@[i as int]));
                lemma_fence_push(st0, content@.take(i as int), content@[i as int]);
            }
            let mut piece = self.feed_char(c);
            out.append(&mut piece);
            i = i + 1;
        }
        proof {
            assert(content@.take(n as int) =~= content@);
        }
        out
    }

    /// End of the response: the held-back backticks are now known not to
    /// complete a fence, so they become visible, and the state is reset for
    /// the next response.
    pub fn finish(&mut self) -> (out: Vec<StyledChar>)
        requires
            old(self).wf(),
        ensures
            out@ == pending_emits(old(self).state()),
            final(self).state() == initial_render_state(),
            final(self).wf(),
    {
        let mut out: Vec<StyledChar> = Vec::new();
        let style = if self.state.in_code_block {
            TextStyle::Code
        } else {
            TextStyle::Plain
        };
        let mut k: u8 = 0;
        while k < self.state.backtick_run
            invariant
                k <= self.state.backtick_run,
                self.state == old(self).state(),
                style == style_of(self.state().in_code_block),
                out@ =~= pending_emits(self.state()).take(k as int),
            decreases self.state.backtick_run - k,
        {
            out.push(StyledChar { ch: '`', style });
            k = k + 1;
            proof {
                assert(pending_emits(self.state()).take(k as int) =~= pending_emits(
                    self.state(),
                ).take(k - 1).push(StyledChar { ch: '`', style }));
            }
        }
        assert(out@ =~= pending_emits(self.state()));
        self.state.in_code_block = false;
        self.state.backtick_run = 0;
        out
    }

    /// A per-chunk transport error, shown inline as an annotation.  The
    /// detector state is untouched: the response text continues afterwards
    /// as if the error had not interrupted it.
    pub fn print_error(&mut self, err: &String) -> (out: Vec<StyledChar>)
        ensures
            final(self).state() == old(self).state(),
            out@ == styled_text("error: "@ + err@, TextStyle::ErrorNote),
    {
        let mut text = String::from_str("error: ");
        text.append(err.as_str());
        let mut out: Vec<StyledChar> = Vec::new();
        let n = text.as_str().unicode_len();
        let mut i: usize = 0;
        while i < n
            invariant
                i <= n,
                n == text@.len(),
                text@ == "error: "@ + err@,
                self.state() == old(self).state(),
                out@ =~= styled_text(text@, TextStyle::ErrorNote).take(i as int),
            decreases n - i,
        {
            let c = text.as_str().get_char(i);
            out.push(StyledChar { ch: c, style: TextStyle::ErrorNote });
            i = i + 1;
            proof {
                let full = styled_text(text@, TextStyle::ErrorNote);
                assert(full.len() == text@.len());
                assert(0 <= i - 1 < text@.len());
                assert(full[i - 1] == (StyledChar { ch: text@[i - 1], style: TextStyle::ErrorNote }));
                assert(full.take(i as int) =~= full.take(i - 1).push(full[i - 1]));
            }
        }
        assert(out@ =~= styled_text(text@, TextStyle::ErrorNote));
        out
    }
}

} // verus!

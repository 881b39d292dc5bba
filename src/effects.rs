use vstd::prelude::*;
use crate::text::{char_count, push_char, take_chars};

verus! {

/// Whether a text of `len` characters overflows a field of width `width`
/// (a width of 0 never truncates).
pub open spec fn overflows(len: nat, width: nat) -> bool {
    width > 0 && len > width
}

/// The marker appended to a truncated text.
pub open spec fn ellipsis_marker() -> Seq<char> {
    seq!['.', '.', '.']
}

/// The gap appended to a scrolling text before it wraps around.
pub open spec fn marquee_gap() -> Seq<char> {
    seq![' ', ' ', ' ', ' ', ' ']
}

/// What the ellipsis effect shows of `text` in a field of `width`.
pub open spec fn ellipsized(text: Seq<char>, width: nat) -> Seq<char> {
    if overflows(text.len(), width) {
        text.take(width as int) + ellipsis_marker()
    } else {
        text
    }
}

/// The cycle buffer through which the marquee scrolls.
pub open spec fn padded(text: Seq<char>) -> Seq<char> {
    text + marquee_gap()
}

/// The `width` characters of `buf` starting at `pos`, wrapping around.
pub open spec fn window(buf: Seq<char>, pos: nat, width: nat) -> Seq<char>
    recommends
        buf.len() > 0,
{
    Seq::new(width, |i: int| buf[(pos + i) % (buf.len() as int)])
}

/// What the marquee shows of `text` in a field of `width` with its cursor at `pos`.
pub open spec fn scrolled(text: Seq<char>, width: nat, pos: nat) -> Seq<char> {
    if overflows(text.len(), width) {
        window(padded(text), pos, width)
    } else {
        text
    }
}

/// Truncates a text that overflows its field and marks the cut with an ellipsis.
pub struct Ellipsis {
    text: String,
    max_width: u16,
    active: bool,
}

proof fn lemma_wrapped_index(p: int, i: int, b: int, start: int, k: int)
    requires
        p >= 0,
        0 <= i < b,
        start == p % b,
        0 <= start < b,
        k == (if start + i >= b { start + i - b } else { start + i }),
    ensures
        k == (p + i) % b,
{
    vstd::arithmetic::div_mod::lemma_add_mod_noop(p, i, b);
    vstd::arithmetic::div_mod::lemma_small_mod(i as nat, b as nat);
    if start + i >= b {
        vstd::arithmetic::div_mod::lemma_mod_sub_multiples_vanish(start + i, b);
        vstd::arithmetic::div_mod::lemma_small_mod((start + i - b) as nat, b as nat);
    } else {
        vstd::arithmetic::div_mod::lemma_small_mod((start + i) as nat, b as nat);
    }
}

proof fn lemma_marquee_after_steps(ms: Seq<Marquee>, text: Seq<char>, nows: Seq<u64>, k: int)
    requires
        nows.len() + 1 == ms.len(),
        0 <= k < ms.len(),
        ms[0].cursor() == 0,
        ms[0].paused_since() is None,
        ms[0].pause_ms() == 0,
        overflows(text.len(), ms[0].max_width()),
        forall|j: int| 0 <= j < nows.len() ==> #[trigger] ms[j].stepped(ms[j + 1], text, nows[j]),
    ensures
        ms[k].cursor() == k % (padded(text).len() as int),
        ms[k].paused_since() is None,
        ms[k].pause_ms() == 0,
        ms[k].max_width() == ms[0].max_width(),
    decreases k,
{
    let l = padded(text).len() as int;
    if k > 0 {
        lemma_marquee_after_steps(ms, text, nows, k - 1);
        let j = k - 1;
        assert(ms[j].stepped(ms[j + 1], text, nows[j]));
        assert(j + 1 == k);
        vstd::arithmetic::div_mod::lemma_mod_pos_bound(k - 1, l);
        vstd::arithmetic::div_mod::lemma_small_mod(((k - 1) % l) as nat, l as nat);
        vstd::arithmetic::div_mod::lemma_small_mod(1, l as nat);
        vstd::arithmetic::div_mod::lemma_add_mod_noop(k - 1, 1, l);
    } else {
        vstd::arithmetic::div_mod::lemma_small_mod(0, l as nat);
    }
}

/// A marquee without pauses, started at cursor 0 and stepped over one
/// overflowing text, has its cursor at `k` modulo the padded length after `k`
/// steps: it moves one character per step and shows the same window again
/// after each full cycle through the padded text.
pub proof fn marquee_cycles_through_padded_text(ms: Seq<Marquee>, text: Seq<char>, nows: Seq<u64>)
    requires
        nows.len() + 1 == ms.len(),
        ms[0].cursor() == 0,
        ms[0].paused_since() is None,
        ms[0].pause_ms() == 0,
        overflows(text.len(), ms[0].max_width()),
        forall|j: int| 0 <= j < nows.len() ==> #[trigger] ms[j].stepped(ms[j + 1], text, nows[j]),
    ensures
        forall|k: int| 0 <= k < ms.len() ==> #[trigger] ms[k].cursor() == k % (padded(text).len() as int),
        forall|k: int|
            0 <= k && k + padded(text).len() < ms.len() ==> scrolled(
                text,
                ms[k + padded(text).len()].max_width(),
                ms[k + padded(text).len()].cursor(),
            ) == #[trigger] scrolled(text, ms[k].max_width(), ms[k].cursor()),
{
    let l = padded(text).len() as int;
    assert forall|k: int| 0 <= k < ms.len() implies #[trigger] ms[k].cursor() == k % l by {
        lemma_marquee_after_steps(ms, text, nows, k);
    }
    assert forall|k: int| 0 <= k && k + l < ms.len() implies scrolled(
        text,
        ms[k + l].max_width(),
        ms[k + l].cursor(),
    ) == #[trigger] scrolled(text, ms[k].max_width(), ms[k].cursor()) by {
        lemma_marquee_after_steps(ms, text, nows, k);
        lemma_marquee_after_steps(ms, text, nows, k + l);
        vstd::arithmetic::div_mod::lemma_mod_add_multiples_vanish(k, l);
    }
}

impl Ellipsis {
    pub closed spec fn text(&self) -> Seq<char> {
        self.text@
    }

    pub closed spec fn max_width(&self) -> nat {
        self.max_width as nat
    }

    pub closed spec fn active(&self) -> bool {
        self.active
    }

    /// The activity flag matches the text last set.
    pub open spec fn wf(&self) -> bool {
        self.active() == overflows(self.text().len(), self.max_width())
    }

    pub fn new(max_width: u16) -> (r: Self)
        ensures
            r.wf(),
            r.text().len() == 0,
            r.max_width() == max_width as nat,
            !r.active(),
    {
        Self { max_width, active: false, text: String::new() }
    }

    pub fn apply(&mut self, text: String) -> (r: String)
        ensures
            r@ == ellipsized(text@, old(self).max_width()),
            *final(self) == *old(self),
    {
        let len = char_count(&text);
        if len <= self.max_width as usize || self.max_width == 0 {
            return text;
        }
        let mut out = take_chars(&text, self.max_width as usize);
        push_char(&mut out, '.');
        push_char(&mut out, '.');
        push_char(&mut out, '.');
        assert(out@ =~= ellipsized(text@, self.max_width()));
        out
    }

    pub fn is_active(&self) -> (r: bool)
        ensures
            r == self.active(),
    {
        self.active
    }

    pub fn update_active(&mut self)
        ensures
            final(self).wf(),
            final(self).text() == old(self).text(),
            final(self).max_width() == old(self).max_width(),
    {
        self.active = char_count(&self.text) > self.max_width as usize && self.max_width > 0;
    }

    pub fn set_text(&mut self, text: String)
        requires
            old(self).wf(),
        ensures
            final(self).wf(),
            final(self).text() == text@,
            final(self).max_width() == old(self).max_width(),
    {
        if self.text != text {
            self.text = text;
            self.update_active();
        }
    }
}

/// Scrolls a text that overflows its field through a window, pausing each time
/// it wraps around.
pub struct Marquee {
    text: String,
    current_pos: usize,
    max_width: u16,
    active: bool,
    pause_on_loop_ms: u32,
    paused_since: Option<u64>,
}

impl Marquee {
    pub closed spec fn text(&self) -> Seq<char> {
        self.text@
    }

    pub closed spec fn max_width(&self) -> nat {
        self.max_width as nat
    }

    pub closed spec fn active(&self) -> bool {
        self.active
    }

    pub closed spec fn cursor(&self) -> nat {
        self.current_pos as nat
    }

    pub closed spec fn pause_ms(&self) -> nat {
        self.pause_on_loop_ms as nat
    }

    /// When the running pause began, if one is running.
    pub closed spec fn paused_since(&self) -> Option<u64> {
        self.paused_since
    }

    /// The activity flag matches the text last set.
    pub open spec fn wf(&self) -> bool {
        self.active() == overflows(self.text().len(), self.max_width())
    }

    /// Whether a step taken at `now_ms` moves the cursor: no pause runs, or it
    /// has lasted its full length.
    pub open spec fn advances_at(&self, now_ms: u64) -> bool {
        match self.paused_since() {
            None => true,
            Some(t) => now_ms >= t && now_ms - t >= self.pause_ms(),
        }
    }

    /// `next` is this marquee after one step over `text` at time `now_ms`:
    /// while `text` overflows, the cursor moves on by one character, modulo
    /// the padded length, unless a pause runs; a pause starts when the cursor
    /// wraps to 0 and pauses are enabled. Width and pause length are kept.
    pub open spec fn stepped(&self, next: Marquee, text: Seq<char>, now_ms: u64) -> bool {
        &&& next.max_width() == self.max_width()
        &&& next.pause_ms() == self.pause_ms()
        &&& if overflows(text.len(), self.max_width()) && self.advances_at(now_ms) {
            let len = padded(text).len();
            &&& next.cursor() == (self.cursor() % len + 1) % len
            &&& next.paused_since() == (if self.pause_ms() != 0 && next.cursor() == 0 {
                Some(now_ms)
            } else {
                None
            })
        } else {
            &&& next.cursor() == self.cursor()
            &&& next.paused_since() == self.paused_since()
        }
    }

    pub fn new(max_width: u16, pause_on_loop_ms: u32) -> (r: Self)
        ensures
            r.wf(),
            r.text().len() == 0,
            r.cursor() == 0,
            r.max_width() == max_width as nat,
            r.pause_ms() == pause_on_loop_ms as nat,
            r.paused_since() is None,
            !r.active(),
    {
        Self {
            current_pos: 0,
            max_width,
            active: false,
            text: String::new(),
            pause_on_loop_ms,
            paused_since: None,
        }
    }

    /// Shows the window at the cursor, then takes one step at time `now_ms`.
    pub fn apply(&mut self, text: String, now_ms: u64) -> (r: String)
        ensures
            r@ == scrolled(text@, old(self).max_width(), old(self).cursor()),
            final(self).text() == old(self).text(),
            final(self).max_width() == old(self).max_width(),
            final(self).active() == old(self).active(),
            final(self).pause_ms() == old(self).pause_ms(),
            !overflows(text@.len(), old(self).max_width()) ==> *final(self) == *old(self),
            old(self).stepped(*final(self), text@, now_ms),
    {
        let len = char_count(&text);
        if len <= self.max_width as usize || self.max_width == 0 {
            return text;
        }
        let ghost orig = text@;
        // the cycle buffer: the text followed by the gap
        let mut buf = text;
        buf.append("     ");
        proof {
            reveal_strlit("     ");
            assert(buf@ =~= padded(orig));
        }
        let blen: usize = char_count(&buf);
        let start: usize = self.current_pos % blen;
        let width: usize = self.max_width as usize;
        let mut out = String::new();
        let mut i: usize = 0;
        while i < width
            invariant
                blen == buf@.len(),
                blen > width,
                start < blen,
                start == self.current_pos % blen,
                i <= width,
                width == self.max_width,
                out@ =~= window(buf@, self.current_pos as nat, width as nat).take(i as int),
            decreases width - i,
        {
            let k: usize = if i >= blen - start { i - (blen - start) } else { start + i };
            proof {
                lemma_wrapped_index(
                    self.current_pos as int,
                    i as int,
                    blen as int,
                    start as int,
                    k as int,
                );
            }
            let c = buf.as_str().get_char(k);
            push_char(&mut out, c);
            i = i + 1;
        }
        assert(out@ =~= scrolled(orig, self.max_width as nat, self.current_pos as nat));
        let advancing = match self.paused_since {
            None => true,
            Some(t) => now_ms >= t && now_ms - t >= self.pause_on_loop_ms as u64,
        };
        if advancing {
            self.current_pos = (start + 1) % blen;
            self.paused_since = if self.pause_on_loop_ms != 0 && self.current_pos == 0 {
                Some(now_ms)
            } else {
                None
            };
        }
        out
    }

    pub fn is_active(&self) -> (r: bool)
        ensures
            r == self.active(),
    {
        self.active
    }

    pub fn update_active(&mut self)
        ensures
            final(self).wf(),
            final(self).text() == old(self).text(),
            final(self).max_width() == old(self).max_width(),
            final(self).cursor() == old(self).cursor(),
            final(self).pause_ms() == old(self).pause_ms(),
            final(self).paused_since() == old(self).paused_since(),
    {
        self.active = char_count(&self.text) > self.max_width as usize && self.max_width > 0;
    }

    pub fn set_text(&mut self, text: String)
        ensures
            final(self).wf(),
            final(self).text() == text@,
            final(self).max_width() == old(self).max_width(),
            final(self).cursor() == old(self).cursor(),
            final(self).pause_ms() == old(self).pause_ms(),
            final(self).paused_since() == old(self).paused_since(),
    {
        self.text = text;
        self.update_active();
    }
}

/// What an effect shows of `text`, given its kind: 0 for none, 1 for an
/// ellipsis, 2 for a marquee; then its width and its cursor.
pub open spec fn shown(kind: (int, nat, nat), text: Seq<char>) -> Seq<char> {
    if kind.0 == 1 {
        ellipsized(text, kind.1)
    } else if kind.0 == 2 {
        scrolled(text, kind.1, kind.2)
    } else {
        text
    }
}

/// The text transformation of one displayed field.
pub enum Effect {
    Plain,
    Ellipsis(Ellipsis),
    Marquee(Marquee),
}

impl Effect {
    pub open spec fn kind(&self) -> (int, nat, nat) {
        match self {
            Effect::Plain => (0, 0, 0),
            Effect::Ellipsis(e) => (1, e.max_width(), 0),
            Effect::Marquee(m) => (2, m.max_width(), m.cursor()),
        }
    }

    pub open spec fn wf(&self) -> bool {
        match self {
            Effect::Plain => true,
            Effect::Ellipsis(e) => e.wf(),
            Effect::Marquee(m) => m.wf(),
        }
    }

    pub open spec fn active(&self) -> bool {
        match self {
            Effect::Plain => false,
            Effect::Ellipsis(e) => e.active(),
            Effect::Marquee(m) => m.active(),
        }
    }

    /// Whether the effect is active once `text` is set on it.
    pub open spec fn active_for(&self, text: Seq<char>) -> bool {
        self.kind().0 != 0 && overflows(text.len(), self.kind().1)
    }

    /// What the next step shows of `text`.
    pub open spec fn output(&self, text: Seq<char>) -> Seq<char> {
        shown(self.kind(), text)
    }

    /// `next` is this effect after one step over `text` at time `now_ms`: the
    /// same kind and width, and a marquee stepped as it steps.
    pub open spec fn stepped(&self, next: Effect, text: Seq<char>, now_ms: u64) -> bool {
        match *self {
            Effect::Plain => next is Plain,
            Effect::Ellipsis(a) => next matches Effect::Ellipsis(b) && b.max_width() == a.max_width(),
            Effect::Marquee(a) => next matches Effect::Marquee(b) && a.stepped(b, text, now_ms),
        }
    }

    /// `next` keeps this effect's settings and scrolling position; only the
    /// text it holds may differ.
    pub open spec fn same_position(&self, next: Effect) -> bool {
        match *self {
            Effect::Plain => next is Plain,
            Effect::Ellipsis(a) => next matches Effect::Ellipsis(b) && b.max_width() == a.max_width(),
            Effect::Marquee(a) => next matches Effect::Marquee(b) && b.max_width() == a.max_width()
                && b.cursor() == a.cursor() && b.pause_ms() == a.pause_ms() && b.paused_since()
                == a.paused_since(),
        }
    }

    pub fn apply(&mut self, text: String, now_ms: u64) -> (r: String)
        requires
            old(self).wf(),
        ensures
            r@ == old(self).output(text@),
            final(self).wf(),
            final(self).active() == old(self).active(),
            final(self).kind().0 == old(self).kind().0,
            final(self).kind().1 == old(self).kind().1,
            old(self).stepped(*final(self), text@, now_ms),
            !old(self).active_for(text@) ==> *final(self) == *old(self),
    {
        match self {
            Effect::Plain => text,
            Effect::Ellipsis(e) => e.apply(text),
            Effect::Marquee(m) => m.apply(text, now_ms),
        }
    }

    pub fn set_text(&mut self, text: String)
        requires
            old(self).wf(),
        ensures
            final(self).wf(),
            final(self).kind() == old(self).kind(),
            old(self).same_position(*final(self)),
            final(self).active() == old(self).active_for(text@),
    {
        match self {
            Effect::Plain => {},
            Effect::Ellipsis(e) => e.set_text(text),
            Effect::Marquee(m) => m.set_text(text),
        }
    }

    pub fn is_active(&self) -> (r: bool)
        ensures
            r == self.active(),
    {
        match self {
            Effect::Plain => false,
            Effect::Ellipsis(e) => e.is_active(),
            Effect::Marquee(m) => m.is_active(),
        }
    }
}

/// One displayed field: its effect and the text it drew last.
pub struct TextEffect {
    last_drawn: String,
    effect: Effect,
    update_tick: bool,
}

impl TextEffect {
    pub closed spec fn last_drawn(&self) -> Seq<char> {
        self.last_drawn@
    }

    pub closed spec fn effect(&self) -> Effect {
        self.effect
    }

    /// Whether the next draw computes a new output.
    pub closed spec fn redraw_due(&self) -> bool {
        self.update_tick
    }

    pub open spec fn wf(&self) -> bool {
        self.effect().wf()
    }

    pub fn new() -> (r: Self)
        ensures
            r.wf(),
            r.last_drawn().len() == 0,
            r.effect() == Effect::Plain,
            !r.redraw_due(),
    {
        Self { last_drawn: String::new(), effect: Effect::Plain, update_tick: false }
    }

    pub fn with_effect(self, effect: Effect) -> (r: Self)
        ensures
            r.last_drawn() == self.last_drawn(),
            r.effect() == effect,
            r.redraw_due() == self.redraw_due(),
    {
        TextEffect { effect, ..self }
    }

    pub fn set_effect_text(&mut self, text: String)
        requires
            old(self).wf(),
        ensures
            final(self).wf(),
            final(self).effect().kind() == old(self).effect().kind(),
            old(self).effect().same_position(final(self).effect()),
            final(self).effect().active() == old(self).effect().active_for(text@),
            final(self).last_drawn() == old(self).last_drawn(),
            final(self).redraw_due() == old(self).redraw_due(),
    {
        self.effect.set_text(text);
    }

    pub fn has_active_effects(&self) -> (r: bool)
        ensures
            r == self.effect().active(),
    {
        self.effect.is_active()
    }

    pub fn should_redraw(&mut self)
        ensures
            final(self).redraw_due(),
            final(self).effect() == old(self).effect(),
            final(self).last_drawn() == old(self).last_drawn(),
    {
        self.update_tick = true;
    }

    pub fn override_last_drawn(&mut self, text: String)
        ensures
            final(self).last_drawn() == text@,
            final(self).effect() == old(self).effect(),
            final(self).redraw_due() == old(self).redraw_due(),
    {
        self.last_drawn = text;
    }

    /// Draws `text` through the effect when a redraw is due; otherwise shows
    /// again what was drawn last.
    pub fn draw(&mut self, text: &String, now_ms: u64) -> (r: String)
        requires
            old(self).wf(),
        ensures
            final(self).wf(),
            !final(self).redraw_due(),
            final(self).last_drawn() == r@,
            final(self).effect().kind().0 == old(self).effect().kind().0,
            final(self).effect().kind().1 == old(self).effect().kind().1,
            final(self).effect().active() == old(self).effect().active_for(text@),
            old(self).redraw_due() ==> r@ == old(self).effect().output(text@),
            old(self).redraw_due() ==> old(self).effect().stepped(final(self).effect(), text@, now_ms),
            !old(self).redraw_due() ==> old(self).effect().same_position(final(self).effect()),
            !old(self).redraw_due() ==> final(self).effect().kind() == old(self).effect().kind(),
            old(self).redraw_due() && !old(self).effect().active_for(text@)
                ==> final(self).effect().kind() == old(self).effect().kind(),
            !old(self).redraw_due() ==> r@ == (if old(self).last_drawn().len() == 0 {
                text@
            } else {
                old(self).last_drawn()
            }),
    {
        if self.last_drawn.as_str().unicode_len() == 0 {
            self.last_drawn = text.clone();
        }
        self.effect.set_text(text.clone());
        if !self.update_tick {
            return self.last_drawn.clone();
        }
        self.update_tick = false;
        let result = self.effect.apply(text.clone(), now_ms);
        self.last_drawn = result.clone();
        result
    }
}

} // verus!

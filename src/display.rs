use vstd::prelude::*;
use crate::args::Args;
use crate::effects::{ellipsis_marker, overflows, Effect, Ellipsis, Marquee, TextEffect};
use crate::models::PlayerState;
use crate::text::{char_count, push_char};

verus! {

/// What a character becomes in markup text.
pub open spec fn escaped_char(c: char) -> Seq<char> {
    match c {
        '&' => seq!['&', 'a', 'm', 'p', ';'],
        '<' => seq!['&', 'l', 't', ';'],
        '>' => seq!['&', 'g', 't', ';'],
        '\'' => seq!['&', '#', '3', '9', ';'],
        '"' => seq!['&', 'q', 'u', 'o', 't', ';'],
        _ => seq![c],
    }
}

/// `s` with the markup characters escaped.
pub open spec fn escaped(s: Seq<char>) -> Seq<char>
    decreases s.len(),
{
    if s.len() == 0 {
        Seq::empty()
    } else {
        escaped(s.drop_last()) + escaped_char(s.last())
    }
}

pub open spec fn json_head() -> Seq<char> {
    seq!['{', '"', 't', 'e', 'x', 't', '"', ':', ' ', '"']
}

pub open spec fn json_middle() -> Seq<char> {
    seq!['"', ',', ' ', '"', 't', 'o', 'o', 'l', 't', 'i', 'p', '"', ':', ' ', '"', '"', ',', ' ', '"', 'c', 'l', 'a', 's', 's', '"', ':', ' ', '"']
}

pub open spec fn json_tail() -> Seq<char> {
    seq!['"', ',', ' ', '"', 'a', 'l', 't', '"', ':', ' ', '"', '"', '}']
}

/// The output line for a text and a status class.
pub open spec fn json_line(text: Seq<char>, class: Seq<char>) -> Seq<char> {
    json_head() + escaped(text) + json_middle() + escaped(class) + json_tail()
}

/// The text shown while no player is playing.
pub open spec fn nothing_playing() -> Seq<char> {
    seq!['n', 'o', 't', 'h', 'i', 'n', 'g', ' ', 'i', 's', ' ', 'p', 'l', 'a', 'y', 'i', 'n', 'g', ' ', 'r', 'n', '.']
}

pub open spec fn placeholder_icon() -> Seq<char> {
    seq!['%', 'i', 'c', 'o', 'n', '%']
}

pub open spec fn placeholder_title() -> Seq<char> {
    seq!['%', 't', 'i', 't', 'l', 'e', '%']
}

pub open spec fn placeholder_artist() -> Seq<char> {
    seq!['%', 'a', 'r', 't', 'i', 's', 't', '%']
}

pub open spec fn placeholder_album() -> Seq<char> {
    seq!['%', 'a', 'l', 'b', 'u', 'm', '%']
}

pub open spec fn placeholder_player() -> Seq<char> {
    seq!['%', 'p', 'l', 'a', 'y', 'e', 'r', '%']
}

/// The status class of a state: playing, paused, or stopped when unknown.
pub open spec fn class_of(playing: Option<bool>) -> Seq<char> {
    match playing {
        Some(true) => seq!['p', 'l', 'a', 'y', 'i', 'n', 'g'],
        Some(false) => seq!['p', 'a', 'u', 's', 'e', 'd'],
        None => seq!['s', 't', 'o', 'p', 'p', 'e', 'd'],
    }
}

/// `s` with every match of the non-empty `from` replaced by `to`, matches
/// taken left to right without overlapping.
pub open spec fn replaced_of(s: Seq<char>, from: Seq<char>, to: Seq<char>) -> Seq<char>
    recommends
        from.len() > 0,
    decreases s.len(),
{
    if from.len() == 0 || s.len() < from.len() {
        s
    } else if s.take(from.len() as int) == from {
        to + replaced_of(s.skip(from.len() as int), from, to)
    } else {
        seq![s[0]] + replaced_of(s.skip(1), from, to)
    }
}

/// Relies on `str::replace` with a string pattern, which returns a new string
/// with every non-overlapping match of `from`, found left to right, replaced
/// by `to`.
#[verifier::external_body]
fn replace_all(s: &String, from: &str, to: &String) -> (r: String)
    requires
        from@.len() > 0,
    ensures
        r@ == replaced_of(s@, from@, to@),
{
    s.replace(from, to.as_str())
}

/// The template with each placeholder replaced, in order: icon, title,
/// artist, album, player.
pub open spec fn filled(
    format: Seq<char>,
    icon: Seq<char>,
    title: Seq<char>,
    artist: Seq<char>,
    album: Seq<char>,
    player: Seq<char>,
) -> Seq<char> {
    replaced_of(
        replaced_of(
            replaced_of(
                replaced_of(replaced_of(format, placeholder_icon(), icon), placeholder_title(), title),
                placeholder_artist(),
                artist,
            ),
            placeholder_album(),
            album,
        ),
        placeholder_player(),
        player,
    )
}

/// The icon shown for a state: the pause icon while playing, else the play icon.
pub open spec fn icon_of(args: Args, playing: Option<bool>) -> Seq<char> {
    if playing == Some(true) {
        args.pause_icon@
    } else {
        args.play_icon@
    }
}

/// The output line for `s` with the field texts drawn as given.
pub open spec fn line_for(
    args: Args,
    s: PlayerState,
    title: Seq<char>,
    artist: Seq<char>,
    album: Seq<char>,
    player: Seq<char>,
) -> Seq<char> {
    json_line(
        filled(args.format@, icon_of(args, s.playing), title, artist, album, player),
        class_of(s.playing),
    )
}

/// Escapes the characters that markup gives a meaning to.
pub fn escape_pango(text: &String) -> (r: String)
    ensures
        r@ == escaped(text@),
{
    let len = char_count(text);
    let mut out = String::new();
    let mut i: usize = 0;
    while i < len
        invariant
            len == text@.len(),
            i <= len,
            out@ == escaped(text@.take(i as int)),
        decreases len - i,
    {
        let c = text.as_str().get_char(i);
        let ghost before = out@;
        assert(text@.take(i + 1).drop_last() =~= text@.take(i as int));
        match c {
            '&' => {
                out.append("&amp;");
                proof { reveal_strlit("&amp;"); assert(out@ =~= before + seq!['&', 'a', 'm', 'p', ';']); }
            },
            '<' => {
                out.append("&lt;");
                proof { reveal_strlit("&lt;"); assert(out@ =~= before + seq!['&', 'l', 't', ';']); }
            },
            '>' => {
                out.append("&gt;");
                proof { reveal_strlit("&gt;"); assert(out@ =~= before + seq!['&', 'g', 't', ';']); }
            },
            '\'' => {
                out.append("&#39;");
                proof { reveal_strlit("&#39;"); assert(out@ =~= before + seq!['&', '#', '3', '9', ';']); }
            },
            '"' => {
                out.append("&quot;");
                proof { reveal_strlit("&quot;"); assert(out@ =~= before + seq!['&', 'q', 'u', 'o', 't', ';']); }
            },
            _ => {
                push_char(&mut out, c);
                assert(out@ =~= before + seq![c]);
            },
        }
        i = i + 1;
    }
    assert(text@.take(len as int) =~= text@);
    out
}

/// The output line for `text` under status class `class`.
pub fn format_json_output(text: &String, class: &String) -> (r: String)
    ensures
        r@ == json_line(text@, class@),
{
    let mut out = String::new();
    out.append("{\"text\": \"");
    out.append(escape_pango(text).as_str());
    out.append("\", \"tooltip\": \"\", \"class\": \"");
    out.append(escape_pango(class).as_str());
    out.append("\", \"alt\": \"\"}");
    proof {
        reveal_strlit("{\"text\": \"");
        reveal_strlit("\", \"tooltip\": \"\", \"class\": \"");
        reveal_strlit("\", \"alt\": \"\"}");
        assert(out@ =~= json_line(text@, class@));
    }
    out
}

/// The status class of a state.
pub fn get_class(playing: Option<bool>) -> (r: String)
    ensures
        r@ == class_of(playing),
{
    let r = match playing {
        Some(true) => String::from_str("playing"),
        Some(false) => String::from_str("paused"),
        None => String::from_str("stopped"),
    };
    proof {
        reveal_strlit("playing");
        reveal_strlit("paused");
        reveal_strlit("stopped");
        assert(r@ =~= class_of(playing));
    }
    r
}

/// The line shown while no player is playing.
pub fn nothing_playing_output() -> (r: String)
    ensures
        r@ == json_line(nothing_playing(), class_of(None)),
{
    let text = String::from_str("nothing is playing rn.");
    proof {
        reveal_strlit("nothing is playing rn.");
        assert(text@ =~= nothing_playing());
    }
    format_json_output(&text, &get_class(None))
}

/// What a field shows of `text`: the effect's output when a redraw is due,
/// else what it drew last (the text itself before anything was drawn).
pub open spec fn drawn(f: TextEffect, text: Seq<char>, due: bool) -> Seq<char> {
    if due {
        f.effect().output(text)
    } else if f.last_drawn().len() == 0 {
        text
    } else {
        f.last_drawn()
    }
}

/// `next` is field `f` after it drew `text`: a due effect took one step, any
/// other kept its position; the field remembers what it drew and holds no
/// pending redraw.
pub open spec fn field_drawn(f: TextEffect, next: TextEffect, text: Seq<char>, due: bool, now_ms: u64) -> bool {
    &&& next.wf()
    &&& !next.redraw_due()
    &&& next.last_drawn() == drawn(f, text, due)
    &&& next.effect().active() == f.effect().active_for(text)
    &&& next.effect().kind().0 == f.effect().kind().0
    &&& next.effect().kind().1 == f.effect().kind().1
    &&& due ==> f.effect().stepped(next.effect(), text, now_ms)
    &&& !due ==> f.effect().same_position(next.effect())
}

proof fn lemma_output_nonempty(e: Effect, text: Seq<char>)
    requires
        text.len() > 0,
    ensures
        e.output(text).len() > 0,
{
    if e.kind().0 == 1 && overflows(text.len(), e.kind().1) {
        assert((text.take(e.kind().1 as int) + ellipsis_marker()).len() >= 3);
    }
}

/// Draws `text` in field `f`, stepping its effect when `due`.
fn draw_field(f: &mut TextEffect, text: &String, due: bool, now_ms: u64) -> (r: String)
    requires
        old(f).wf(),
        !old(f).redraw_due(),
    ensures
        r@ == drawn(*old(f), text@, due),
        field_drawn(*old(f), *final(f), text@, due, now_ms),
{
    if due {
        f.should_redraw();
    }
    f.draw(text, now_ms)
}

/// Draws the four fields of `state`, each stepping when its flag is set, and
/// builds the output line.
fn draw_fields(
    args: &Args,
    title: &mut TextEffect,
    artist: &mut TextEffect,
    album: &mut TextEffect,
    player: &mut TextEffect,
    state: &PlayerState,
    due: (bool, bool, bool, bool),
    now_ms: u64,
) -> (r: String)
    requires
        old(title).wf() && !old(title).redraw_due(),
        old(artist).wf() && !old(artist).redraw_due(),
        old(album).wf() && !old(album).redraw_due(),
        old(player).wf() && !old(player).redraw_due(),
    ensures
        r@ == line_for(
            *args,
            *state,
            final(title).last_drawn(),
            final(artist).last_drawn(),
            final(album).last_drawn(),
            final(player).last_drawn(),
        ),
        field_drawn(*old(title), *final(title), state.title@, due.0, now_ms),
        field_drawn(*old(artist), *final(artist), state.artist@, due.1, now_ms),
        field_drawn(*old(album), *final(album), state.album@, due.2, now_ms),
        field_drawn(*old(player), *final(player), state.player_name@, due.3, now_ms),
{
    let icon = if state.playing == Some(true) {
        args.pause_icon.clone()
    } else {
        args.play_icon.clone()
    };
    let t = draw_field(title, &state.title, due.0, now_ms);
    let ar = draw_field(artist, &state.artist, due.1, now_ms);
    let al = draw_field(album, &state.album, due.2, now_ms);
    let pl = draw_field(player, &state.player_name, due.3, now_ms);
    proof {
        reveal_strlit("%icon%");
        reveal_strlit("%title%");
        reveal_strlit("%artist%");
        reveal_strlit("%album%");
        reveal_strlit("%player%");
        assert("%icon%"@ =~= placeholder_icon());
        assert("%title%"@ =~= placeholder_title());
        assert("%artist%"@ =~= placeholder_artist());
        assert("%album%"@ =~= placeholder_album());
        assert("%player%"@ =~= placeholder_player());
    }
    let text = replace_all(&args.format, "%icon%", &icon);
    let text = replace_all(&text, "%title%", &t);
    let text = replace_all(&text, "%artist%", &ar);
    let text = replace_all(&text, "%album%", &al);
    let text = replace_all(&text, "%player%", &pl);
    format_json_output(&text, &get_class(state.playing))
}

/// Tells the field the value shown in it changed: its effect takes the new
/// text, which also becomes what the field drew last. Nothing changes when
/// the value is the same.
pub fn set_text_effect_field(field: &mut TextEffect, old_value: &String, new_value: &String)
    requires
        old(field).wf(),
    ensures
        final(field).wf(),
        final(field).effect().kind() == old(field).effect().kind(),
        old(field).effect().same_position(final(field).effect()),
        final(field).redraw_due() == old(field).redraw_due(),
        old_value@ == new_value@ ==> *final(field) == *old(field),
        old_value@ != new_value@ ==> final(field).last_drawn() == new_value@,
        old_value@ != new_value@ ==> final(field).effect().active() == old(field).effect().active_for(
            new_value@,
        ),
{
    if *old_value != *new_value {
        field.set_effect_text(new_value.clone());
        field.override_last_drawn(new_value.clone());
    }
}

/// The render scheduler: the fields of the shown player, drawn through their
/// effects, and the line emitted last.
pub struct Display {
    args: Args,
    title: TextEffect,
    artist: TextEffect,
    album: TextEffect,
    player: TextEffect,
    player_state: Option<PlayerState>,
    last_output: String,
}

/// Whether a field must be drawn anew when `next` follows `prev`: always for
/// the first state, else when its value changed.
pub open spec fn changed(prev: Option<PlayerState>, next: Seq<char>, pick: int) -> bool {
    match prev {
        None => true,
        Some(p) => next != (if pick == 0 {
            p.title@
        } else if pick == 1 {
            p.artist@
        } else if pick == 2 {
            p.album@
        } else {
            p.player_name@
        }),
    }
}

impl Display {
    pub closed spec fn args(&self) -> Args {
        self.args
    }

    pub closed spec fn title(&self) -> TextEffect {
        self.title
    }

    pub closed spec fn artist(&self) -> TextEffect {
        self.artist
    }

    pub closed spec fn album(&self) -> TextEffect {
        self.album
    }

    pub closed spec fn player(&self) -> TextEffect {
        self.player
    }

    /// The state shown, once one was received.
    pub closed spec fn state(&self) -> Option<PlayerState> {
        self.player_state
    }

    /// The line emitted last.
    pub closed spec fn last_output(&self) -> Seq<char> {
        self.last_output@
    }

    /// Whether some field is animated, so that timer ticks are wanted.
    pub open spec fn animating(&self) -> bool {
        self.title().effect().active() || self.artist().effect().active()
            || self.album().effect().active() || self.player().effect().active()
    }

    /// The fields are sound and hold no pending redraw; while a state is
    /// shown, each field's activity follows its value, a field drew nothing
    /// only for an empty value, and the last line is the one the fields drew.
    pub open spec fn wf(&self) -> bool {
        &&& self.title().wf() && self.artist().wf() && self.album().wf() && self.player().wf()
        &&& !self.title().redraw_due() && !self.artist().redraw_due()
        &&& !self.album().redraw_due() && !self.player().redraw_due()
        &&& self.state() is None ==> !self.animating()
        &&& self.state() matches Some(s) ==> {
            &&& self.title().effect().active() == self.title().effect().active_for(s.title@)
            &&& self.artist().effect().active() == self.artist().effect().active_for(s.artist@)
            &&& self.album().effect().active() == self.album().effect().active_for(s.album@)
            &&& self.player().effect().active() == self.player().effect().active_for(
                s.player_name@,
            )
            &&& self.title().last_drawn().len() == 0 ==> s.title@.len() == 0
            &&& self.artist().last_drawn().len() == 0 ==> s.artist@.len() == 0
            &&& self.album().last_drawn().len() == 0 ==> s.album@.len() == 0
            &&& self.player().last_drawn().len() == 0 ==> s.player_name@.len() == 0
            &&& self.last_output() == line_for(
                self.args(),
                s,
                self.title().last_drawn(),
                self.artist().last_drawn(),
                self.album().last_drawn(),
                self.player().last_drawn(),
            )
        }
    }

    /// A display for `args`: title and artist get the configured effect, album
    /// and player name none. Nothing is shown as playing yet.
    pub fn new(args: Args) -> (r: Self)
        ensures
            r.wf(),
            r.args() == args,
            r.state() is None,
            r.last_output() == json_line(nothing_playing(), class_of(None)),
            r.album().effect() is Plain,
            r.player().effect() is Plain,
            args.marquee ==> (r.title().effect() matches Effect::Marquee(m) && m.max_width()
                == args.title_width && m.pause_ms() == args.delay_marquee && m.cursor() == 0),
            args.marquee ==> (r.artist().effect() matches Effect::Marquee(m) && m.max_width()
                == args.artist_width && m.pause_ms() == args.delay_marquee && m.cursor() == 0),
            !args.marquee && args.ellipsis ==> (r.title().effect() matches Effect::Ellipsis(e)
                && e.max_width() == args.title_width),
            !args.marquee && args.ellipsis ==> (r.artist().effect() matches Effect::Ellipsis(e)
                && e.max_width() == args.artist_width),
            !args.marquee && !args.ellipsis ==> r.title().effect() is Plain && r.artist().effect() is Plain,
            !r.animating(),
    {
        let (title, artist) = if args.marquee {
            (
                TextEffect::new().with_effect(
                    Effect::Marquee(Marquee::new(args.title_width, args.delay_marquee)),
                ),
                TextEffect::new().with_effect(
                    Effect::Marquee(Marquee::new(args.artist_width, args.delay_marquee)),
                ),
            )
        } else if args.ellipsis {
            (
                TextEffect::new().with_effect(Effect::Ellipsis(Ellipsis::new(args.title_width))),
                TextEffect::new().with_effect(Effect::Ellipsis(Ellipsis::new(args.artist_width))),
            )
        } else {
            (TextEffect::new(), TextEffect::new())
        };
        Display {
            args,
            title,
            artist,
            album: TextEffect::new(),
            player: TextEffect::new(),
            player_state: None,
            last_output: nothing_playing_output(),
        }
    }

    /// The line to show before any state arrives.
    pub fn initial_output(&self) -> (r: String)
        ensures
            r@ == self.last_output(),
    {
        self.last_output.clone()
    }

    /// Whether the timer should keep ticking.
    pub fn should_effects_be_redrawn(&self) -> (r: bool)
        ensures
            r == self.animating(),
    {
        self.title.has_active_effects() || self.artist.has_active_effects()
            || self.album.has_active_effects() || self.player.has_active_effects()
    }

    fn redraw(&mut self, due: (bool, bool, bool, bool), now_ms: u64) -> (r: Option<String>)
        requires
            old(self).state() is Some,
            old(self).title().wf() && old(self).artist().wf() && old(self).album().wf()
                && old(self).player().wf(),
            !old(self).title().redraw_due() && !old(self).artist().redraw_due(),
            !old(self).album().redraw_due() && !old(self).player().redraw_due(),
        ensures
            ({
                let s = old(self).state()->Some_0;
                let line = line_for(
                    old(self).args(),
                    s,
                    drawn(old(self).title(), s.title@, due.0),
                    drawn(old(self).artist(), s.artist@, due.1),
                    drawn(old(self).album(), s.album@, due.2),
                    drawn(old(self).player(), s.player_name@, due.3),
                );
                &&& final(self).last_output() == line
                &&& r is Some <==> line != old(self).last_output()
                &&& r matches Some(l) ==> l@ == line
                &&& field_drawn(old(self).title(), final(self).title(), s.title@, due.0, now_ms)
                &&& field_drawn(old(self).artist(), final(self).artist(), s.artist@, due.1, now_ms)
                &&& field_drawn(old(self).album(), final(self).album(), s.album@, due.2, now_ms)
                &&& field_drawn(old(self).player(), final(self).player(), s.player_name@, due.3, now_ms)
            }),
            final(self).state() == old(self).state(),
            final(self).args() == old(self).args(),
    {
        let line = match &self.player_state {
            Some(s) => draw_fields(
                &self.args,
                &mut self.title,
                &mut self.artist,
                &mut self.album,
                &mut self.player,
                s,
                due,
                now_ms,
            ),
            None => {
                return None;
            },
        };
        if line != self.last_output {
            self.last_output = line.clone();
            Some(line)
        } else {
            None
        }
    }

    /// A new elected state arrived: each field whose value changed takes the
    /// new text and is drawn anew; the others show what they drew last. The
    /// line is returned when it differs from the one emitted last, so the
    /// same state arriving again emits nothing.
    pub fn on_player_state(&mut self, state: PlayerState, now_ms: u64) -> (r: Option<String>)
        requires
            old(self).wf(),
        ensures
            final(self).wf(),
            final(self).state() == Some(state),
            final(self).args() == old(self).args(),
            ({
                let prev = old(self).state();
                let line = line_for(
                    old(self).args(),
                    state,
                    drawn(old(self).title(), state.title@, changed(prev, state.title@, 0)),
                    drawn(old(self).artist(), state.artist@, changed(prev, state.artist@, 1)),
                    drawn(old(self).album(), state.album@, changed(prev, state.album@, 2)),
                    drawn(old(self).player(), state.player_name@, changed(prev, state.player_name@, 3)),
                );
                &&& final(self).last_output() == line
                &&& r is Some <==> line != old(self).last_output()
                &&& r matches Some(l) ==> l@ == line
                &&& field_drawn(old(self).title(), final(self).title(), state.title@,
                    changed(prev, state.title@, 0), now_ms)
                &&& field_drawn(old(self).artist(), final(self).artist(), state.artist@,
                    changed(prev, state.artist@, 1), now_ms)
                &&& field_drawn(old(self).album(), final(self).album(), state.album@,
                    changed(prev, state.album@, 2), now_ms)
                &&& field_drawn(old(self).player(), final(self).player(), state.player_name@,
                    changed(prev, state.player_name@, 3), now_ms)
            }),
            old(self).state() == Some(state) ==> r is None,
    {
        let ghost prev = self.player_state;
        let due = match &self.player_state {
            Some(p) => (
                p.title != state.title,
                p.artist != state.artist,
                p.album != state.album,
                p.player_name != state.player_name,
            ),
            None => (true, true, true, true),
        };
        if let Some(p) = &self.player_state {
            set_text_effect_field(&mut self.title, &p.title, &state.title);
            set_text_effect_field(&mut self.artist, &p.artist, &state.artist);
            set_text_effect_field(&mut self.album, &p.album, &state.album);
            set_text_effect_field(&mut self.player, &p.player_name, &state.player_name);
        }
        let ghost mid = *self;
        self.player_state = Some(state);
        let r = self.redraw(due, now_ms);
        proof {
            if state.title@.len() > 0 {
                lemma_output_nonempty(mid.title().effect(), state.title@);
            }
            if state.artist@.len() > 0 {
                lemma_output_nonempty(mid.artist().effect(), state.artist@);
            }
            if state.album@.len() > 0 {
                lemma_output_nonempty(mid.album().effect(), state.album@);
            }
            if state.player_name@.len() > 0 {
                lemma_output_nonempty(mid.player().effect(), state.player_name@);
            }
            if prev == Some(state) {
                // nothing is due: every field shows again what it drew last
                if old(self).title().last_drawn().len() == 0 {
                    assert(state.title@ =~= old(self).title().last_drawn());
                }
                if old(self).artist().last_drawn().len() == 0 {
                    assert(state.artist@ =~= old(self).artist().last_drawn());
                }
                if old(self).album().last_drawn().len() == 0 {
                    assert(state.album@ =~= old(self).album().last_drawn());
                }
                if old(self).player().last_drawn().len() == 0 {
                    assert(state.player_name@ =~= old(self).player().last_drawn());
                }
            }
        }
        r
    }

    /// No tracked player is playing: the fields are cleared, keeping their
    /// effects, and the nothing-playing line is returned when it differs from
    /// the one emitted last.
    pub fn on_nothing_playing(&mut self) -> (r: Option<String>)
        requires
            old(self).wf(),
        ensures
            final(self).wf(),
            final(self).state() is None,
            final(self).args() == old(self).args(),
            !final(self).animating(),
            old(self).title().effect().same_position(final(self).title().effect()),
            old(self).artist().effect().same_position(final(self).artist().effect()),
            old(self).album().effect().same_position(final(self).album().effect()),
            old(self).player().effect().same_position(final(self).player().effect()),
            final(self).title().effect().kind() == old(self).title().effect().kind(),
            final(self).artist().effect().kind() == old(self).artist().effect().kind(),
            final(self).album().effect().kind() == old(self).album().effect().kind(),
            final(self).player().effect().kind() == old(self).player().effect().kind(),
            final(self).last_output() == json_line(nothing_playing(), class_of(None)),
            r is Some <==> json_line(nothing_playing(), class_of(None)) != old(self).last_output(),
            r matches Some(l) ==> l@ == json_line(nothing_playing(), class_of(None)),
    {
        self.title.set_effect_text(String::new());
        self.artist.set_effect_text(String::new());
        self.album.set_effect_text(String::new());
        self.player.set_effect_text(String::new());
        self.player_state = None;
        let line = nothing_playing_output();
        if line != self.last_output {
            self.last_output = line.clone();
            Some(line)
        } else {
            None
        }
    }

    /// A timer tick: ignored unless some field is animated; otherwise every
    /// field is drawn anew, each effect taking one step, and the line is
    /// returned when it changed.
    pub fn on_animation_due(&mut self, now_ms: u64) -> (r: Option<String>)
        requires
            old(self).wf(),
        ensures
            final(self).wf(),
            final(self).state() == old(self).state(),
            final(self).animating() == old(self).animating(),
            !old(self).animating() ==> r is None && *final(self) == *old(self),
            old(self).animating() ==> ({
                let s = old(self).state()->Some_0;
                let line = line_for(
                    old(self).args(),
                    s,
                    old(self).title().effect().output(s.title@),
                    old(self).artist().effect().output(s.artist@),
                    old(self).album().effect().output(s.album@),
                    old(self).player().effect().output(s.player_name@),
                );
                &&& final(self).last_output() == line
                &&& r is Some <==> line != old(self).last_output()
                &&& r matches Some(l) ==> l@ == line
                &&& old(self).title().effect().stepped(final(self).title().effect(), s.title@, now_ms)
                &&& old(self).artist().effect().stepped(final(self).artist().effect(), s.artist@, now_ms)
                &&& old(self).album().effect().stepped(final(self).album().effect(), s.album@, now_ms)
                &&& old(self).player().effect().stepped(final(self).player().effect(), s.player_name@, now_ms)
            }),
    {
        if !self.should_effects_be_redrawn() {
            return None;
        }
        let ghost s = self.player_state->Some_0;
        let r = self.redraw((true, true, true, true), now_ms);
        proof {
            if s.title@.len() > 0 {
                lemma_output_nonempty(old(self).title().effect(), s.title@);
            }
            if s.artist@.len() > 0 {
                lemma_output_nonempty(old(self).artist().effect(), s.artist@);
            }
            if s.album@.len() > 0 {
                lemma_output_nonempty(old(self).album().effect(), s.album@);
            }
            if s.player_name@.len() > 0 {
                lemma_output_nonempty(old(self).player().effect(), s.player_name@);
            }
        }
        r
    }
}

} // verus!

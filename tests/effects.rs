use music_module::effects::{Effect, Ellipsis, Marquee, TextEffect};

fn s(t: &str) -> String {
    t.to_string()
}

#[test]
fn ellipsis_truncates_long_title() {
    let mut e = Ellipsis::new(10);
    let out = e.apply(s("Never Gonna Give You Up"));
    assert_eq!(out, "Never Gonn...");
    assert_eq!(out.chars().count(), 13);
}

#[test]
fn ellipsis_keeps_short_text_inactive() {
    let mut e = Ellipsis::new(10);
    e.set_text(s("Short"));
    assert!(!e.is_active());
    assert_eq!(e.apply(s("Short")), "Short");
}

#[test]
fn ellipsis_active_on_overflow() {
    let mut e = Ellipsis::new(10);
    e.set_text(s("Never Gonna Give You Up"));
    assert!(e.is_active());
}

#[test]
fn ellipsis_zero_width_never_truncates() {
    let mut e = Ellipsis::new(0);
    e.set_text(s("Never Gonna Give You Up"));
    assert!(!e.is_active());
    assert_eq!(e.apply(s("Never Gonna Give You Up")), "Never Gonna Give You Up");
}

#[test]
fn ellipsis_counts_characters_not_bytes() {
    let mut e = Ellipsis::new(3);
    assert_eq!(e.apply(s("ééé")), "ééé");
    assert_eq!(e.apply(s("éééé")), "ééé...");
}

#[test]
fn marquee_cycles_through_padded_buffer() {
    let mut m = Marquee::new(4, 0);
    m.set_text(s("Foobar"));
    assert!(m.is_active());
    let expected = [
        "Foob", "ooba", "obar", "bar ", "ar  ", "r   ", "    ", "    ", "   F", "  Fo", " Foo",
    ];
    for want in expected.iter() {
        assert_eq!(m.apply(s("Foobar"), 0), *want);
    }
    assert_eq!(m.apply(s("Foobar"), 0), "Foob");
    assert_eq!(m.apply(s("Foobar"), 0), "ooba");
}

#[test]
fn marquee_short_text_is_unchanged() {
    let mut m = Marquee::new(10, 0);
    m.set_text(s("Foobar"));
    assert!(!m.is_active());
    assert_eq!(m.apply(s("Foobar"), 0), "Foobar");
    assert_eq!(m.apply(s("Foobar"), 0), "Foobar");
}

#[test]
fn marquee_pauses_after_wrapping() {
    let mut m = Marquee::new(4, 100);
    m.set_text(s("Foobar"));
    for _ in 0..11 {
        m.apply(s("Foobar"), 1000);
    }
    // the cursor wrapped at time 1000: the first window holds until 1100
    assert_eq!(m.apply(s("Foobar"), 1050), "Foob");
    assert_eq!(m.apply(s("Foobar"), 1099), "Foob");
    assert_eq!(m.apply(s("Foobar"), 1100), "Foob");
    assert_eq!(m.apply(s("Foobar"), 1101), "ooba");
}

#[test]
fn plain_effect_is_identity() {
    let mut e = Effect::Plain;
    e.set_text(s("anything at all, however long it is"));
    assert!(!e.is_active());
    assert_eq!(e.apply(s("anything"), 0), "anything");
}

#[test]
fn text_effect_draws_through_effect_when_due() {
    let mut f = TextEffect::new().with_effect(Effect::Ellipsis(Ellipsis::new(5)));
    f.should_redraw();
    assert_eq!(f.draw(&s("Long title"), 0), "Long ...");
    assert!(f.has_active_effects());
}

#[test]
fn text_effect_repeats_last_drawn_when_not_due() {
    let mut f = TextEffect::new().with_effect(Effect::Ellipsis(Ellipsis::new(5)));
    assert_eq!(f.draw(&s("Long title"), 0), "Long title");
    f.should_redraw();
    assert_eq!(f.draw(&s("Long title"), 0), "Long ...");
    assert_eq!(f.draw(&s("Other"), 0), "Long ...");
    f.override_last_drawn(s("Other"));
    assert_eq!(f.draw(&s("Other"), 0), "Other");
}

#[test]
fn text_effect_set_text_updates_activity() {
    let mut f = TextEffect::new().with_effect(Effect::Marquee(Marquee::new(4, 0)));
    f.set_effect_text(s("ab"));
    assert!(!f.has_active_effects());
    f.set_effect_text(s("abcdef"));
    assert!(f.has_active_effects());
}

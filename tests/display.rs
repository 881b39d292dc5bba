use music_module::args::{any_word_occurs, Args};
use music_module::display::{escape_pango, format_json_output, get_class, Display};
use music_module::models::PlayerState;

fn args(marquee: bool, ellipsis: bool) -> Args {
    Args {
        whitelist: vec![],
        play_icon: "P".to_string(),
        pause_icon: "||".to_string(),
        format: "%icon% %artist% - %title%".to_string(),
        delay_marquee: 0,
        effect_speed: 200,
        artist_width: 0,
        title_width: 4,
        marquee,
        ellipsis,
        debug: false,
    }
}

fn state(title: &str, playing: Option<bool>) -> PlayerState {
    PlayerState::new(
        "A".to_string(),
        "Player".to_string(),
        "Artist".to_string(),
        "Album".to_string(),
        title.to_string(),
        playing,
    )
}

#[test]
fn render_twice_without_change_emits_once() {
    let mut d = Display::new(args(false, false));
    let first = d.on_player_state(state("Song", Some(true)), 0);
    assert_eq!(
        first,
        Some(
            "{\"text\": \"|| Artist - Song\", \"tooltip\": \"\", \"class\": \"playing\", \"alt\": \"\"}"
                .to_string()
        )
    );
    assert_eq!(d.on_player_state(state("Song", Some(true)), 0), None);
    assert!(!d.should_effects_be_redrawn());
    assert_eq!(d.on_animation_due(10), None);
}

#[test]
fn initial_output_says_nothing_is_playing() {
    let d = Display::new(args(false, false));
    assert_eq!(
        d.initial_output(),
        "{\"text\": \"nothing is playing rn.\", \"tooltip\": \"\", \"class\": \"stopped\", \"alt\": \"\"}"
    );
}

#[test]
fn marquee_ticks_scroll_the_title() {
    let mut d = Display::new(args(true, false));
    let first = d.on_player_state(state("Foobar", Some(false)), 0).unwrap();
    assert!(first.contains("P Artist - Foob\""));
    assert!(first.contains("\"class\": \"paused\""));
    assert!(d.should_effects_be_redrawn());
    let next = d.on_animation_due(1).unwrap();
    assert!(next.contains("P Artist - ooba\""));
}

#[test]
fn ellipsis_display_is_static() {
    let mut d = Display::new(args(false, true));
    let first = d.on_player_state(state("Foobar", None), 0).unwrap();
    assert!(first.contains("Artist - Foob...\""));
    assert!(first.contains("\"class\": \"stopped\""));
    assert_eq!(d.on_animation_due(1), None);
}

#[test]
fn changed_state_is_rendered() {
    let mut d = Display::new(args(false, false));
    d.on_player_state(state("One", Some(true)), 0);
    let r = d.on_player_state(state("Two", Some(true)), 0).unwrap();
    assert!(r.contains("Artist - Two"));
}

#[test]
fn pango_characters_are_escaped() {
    assert_eq!(escape_pango(&"a&b<c>'d\"".to_string()), "a&amp;b&lt;c&gt;&#39;d&quot;");
    assert_eq!(escape_pango(&"plain".to_string()), "plain");
}

#[test]
fn json_output_escapes_text() {
    assert_eq!(
        format_json_output(&"R&B".to_string(), &"playing".to_string()),
        "{\"text\": \"R&amp;B\", \"tooltip\": \"\", \"class\": \"playing\", \"alt\": \"\"}"
    );
}

#[test]
fn classes_follow_playing_flag() {
    assert_eq!(get_class(Some(true)), "playing");
    assert_eq!(get_class(Some(false)), "paused");
    assert_eq!(get_class(None), "stopped");
}

#[test]
fn whitelist_matches_identity_ignoring_case() {
    let mut a = args(false, false);
    assert!(a.allows(Some("Anything".to_string())));
    a.whitelist = vec!["spotify".to_string(), "FireFox".to_string()];
    assert!(a.allows(Some("Spotify".to_string())));
    assert!(a.allows(Some("Mozilla Firefox".to_string())));
    assert!(!a.allows(Some("VLC media player".to_string())));
    assert!(a.allows(None));
}

#[test]
fn nothing_playing_line_after_a_state() {
    let mut d = Display::new(args(true, false));
    d.on_player_state(state("Foobar", Some(true)), 0);
    assert!(d.should_effects_be_redrawn());
    let r = d.on_nothing_playing().unwrap();
    assert!(r.contains("nothing is playing rn."));
    assert!(r.contains("\"class\": \"stopped\""));
    assert!(!d.should_effects_be_redrawn());
    assert_eq!(d.on_nothing_playing(), None);
    assert_eq!(d.on_animation_due(5), None);
}

#[test]
fn folded_words_match_as_given() {
    let words = vec!["spot".to_string(), "vlc".to_string()];
    assert!(any_word_occurs(&words, &"spotify".to_string()));
    assert!(!any_word_occurs(&words, &"Spotify".to_string()));
    assert!(!any_word_occurs(&vec![], &"spotify".to_string()));
    assert!(any_word_occurs(&vec!["".to_string()], &"x".to_string()));
}

#[test]
fn repeated_state_with_active_marquee_emits_nothing() {
    let mut d = Display::new(args(true, false));
    let first = d.on_player_state(state("Foobar", Some(true)), 0).unwrap();
    assert!(first.contains("|| Artist - Foob\""));
    assert_eq!(d.on_player_state(state("Foobar", Some(true)), 1), None);
    let next = d.on_animation_due(2).unwrap();
    assert!(next.contains("|| Artist - ooba\""));
    assert_eq!(d.on_player_state(state("Foobar", Some(true)), 3), None);
    let paused = d.on_player_state(state("Foobar", Some(false)), 4).unwrap();
    assert!(paused.contains("P Artist - ooba\""));
}

#[test]
fn marquee_pause_above_u16_is_kept() {
    let mut a = args(true, false);
    a.delay_marquee = 70_000;
    let mut d = Display::new(a);
    d.on_player_state(state("Foobar", Some(true)), 0);
    for t in 1..=10u64 {
        d.on_animation_due(t);
    }
    // the cursor wrapped at t = 10 and a 70 s pause began
    assert!(d.on_animation_due(11).unwrap().contains("- Foob\""));
    assert_eq!(d.on_animation_due(60_000), None);
    assert_eq!(d.on_animation_due(70_009), None);
    assert_eq!(d.on_animation_due(70_010), None);
    assert!(d.on_animation_due(70_011).unwrap().contains("- ooba\""));
}

use vstd::prelude::*;

verus! {

/// The playback status under which a player counts as playing.
pub open spec fn playing_word() -> Seq<char> {
    seq!['P', 'l', 'a', 'y', 'i', 'n', 'g']
}

/// Whether a reported playback status is the playing one.
pub fn is_playing_word(s: &String) -> (r: bool)
    ensures
        r == (s@ == playing_word()),
{
    let word = String::from_str("Playing");
    proof {
        reveal_strlit("Playing");
        assert(word@ =~= playing_word());
    }
    *s == word
}

/// The part of a player's metadata that is shown.
#[derive(Debug, Clone, PartialEq)]
pub struct MprisMetadata {
    pub player_id: String,
    pub artist: Vec<String>,
    pub title: Option<String>,
    pub album: Option<String>,
}

impl MprisMetadata {
    /// Metadata of `sender` with no field known yet.
    pub fn new(sender: String) -> (r: Self)
        ensures
            r.player_id == sender,
            r.artist@.len() == 0,
            r.title is None,
            r.album is None,
    {
        Self { player_id: sender, artist: Vec::new(), title: None, album: None }
    }

    /// Whether artist (first entry), album and title are all present.
    pub open spec fn complete(&self) -> bool {
        self.artist@.len() > 0 && self.album is Some && self.title is Some
    }
}

/// A player's reported playback status ("Playing", "Paused", "Stopped" or none).
#[derive(Debug, Clone, PartialEq)]
pub struct MprisPlayback {
    pub player_id: String,
    pub playing: Option<String>,
}

impl MprisPlayback {
    pub open spec fn spec_is_playing(&self) -> bool {
        match self.playing {
            Some(s) => s@ == playing_word(),
            None => false,
        }
    }

    /// Whether the status is known, and if so whether it is the playing one.
    pub open spec fn playing_flag(&self) -> Option<bool> {
        match self.playing {
            Some(s) => Some(s@ == playing_word()),
            None => None,
        }
    }

    pub fn new(player_id: String) -> (r: Self)
        ensures
            r.player_id == player_id,
            r.playing is None,
    {
        Self { player_id, playing: None }
    }

    pub fn is_playing(&self) -> (r: bool)
        ensures
            r == self.spec_is_playing(),
    {
        match &self.playing {
            Some(s) => is_playing_word(s),
            None => false,
        }
    }

    pub fn new_with_playing(player_id: String, playing: String) -> (r: Self)
        ensures
            r.player_id == player_id,
            r.playing == Some(playing),
    {
        Self { player_id, playing: Some(playing) }
    }
}

/// The snapshot of the elected player that is shown.
#[derive(Debug, Clone, PartialEq)]
pub struct PlayerState {
    pub player_id: String,
    pub player_name: String,
    pub artist: String,
    pub album: String,
    pub title: String,
    pub playing: Option<bool>,
}

/// The state shown for a player, or none while its metadata is incomplete.
pub open spec fn state_from(
    player_name: String,
    metadata: MprisMetadata,
    playback: Option<MprisPlayback>,
) -> Option<PlayerState> {
    if metadata.complete() {
        Some(
            PlayerState {
                player_id: metadata.player_id,
                player_name,
                artist: metadata.artist@[0],
                album: metadata.album->Some_0,
                title: metadata.title->Some_0,
                playing: match playback {
                    Some(p) => p.playing_flag(),
                    None => None,
                },
            },
        )
    } else {
        None
    }
}

impl PlayerState {
    pub fn new(
        player_id: String,
        player_name: String,
        artist: String,
        album: String,
        title: String,
        playing: Option<bool>,
    ) -> (r: Self)
        ensures
            r == (PlayerState { player_id, player_name, artist, album, title, playing }),
    {
        Self { player_id, player_name, artist, album, title, playing }
    }

    pub fn from_mpris_data(
        player_name: String,
        metadata: MprisMetadata,
        playback: Option<MprisPlayback>,
    ) -> (r: Option<Self>)
        ensures
            r == state_from(player_name, metadata, playback),
    {
        if metadata.artist.len() == 0 {
            return None;
        }
        let artist = metadata.artist[0].clone();
        let album = match metadata.album {
            Some(a) => a,
            None => return None,
        };
        let title = match metadata.title {
            Some(t) => t,
            None => return None,
        };
        let playing = match &playback {
            Some(p) => match &p.playing {
                Some(s) => Some(is_playing_word(s)),
                None => None,
            },
            None => None,
        };
        Some(PlayerState::new(metadata.player_id, player_name, artist, album, title, playing))
    }
}

/// One tracked player: its name, its latest metadata and status, and when it
/// was last updated.
pub struct PlayerClient {
    pub player_name: String,
    pub metadata: MprisMetadata,
    pub playback_state: Option<MprisPlayback>,
    pub last_updated: u64,
}

impl PlayerClient {
    pub open spec fn spec_playing(&self) -> bool {
        match self.playback_state {
            Some(p) => p.spec_is_playing(),
            None => false,
        }
    }

    /// The state this player would publish.
    pub open spec fn state(&self) -> Option<PlayerState> {
        state_from(self.player_name, self.metadata, self.playback_state)
    }

    /// Playing, with metadata complete enough to be shown.
    pub open spec fn eligible(&self) -> bool {
        self.spec_playing() && self.metadata.complete()
    }

    pub fn new(player_name: String, metadata: MprisMetadata) -> (r: Self)
        ensures
            r.player_name == player_name,
            r.metadata == metadata,
            r.playback_state is None,
            r.last_updated == 0,
    {
        Self { player_name, metadata, last_updated: 0, playback_state: None }
    }

    pub fn playing(&self) -> (r: bool)
        ensures
            r == self.spec_playing(),
    {
        match &self.playback_state {
            Some(p) => p.is_playing(),
            None => false,
        }
    }

    /// The state to publish for this player; none while its metadata is incomplete.
    pub fn publish_state(&self) -> (r: Option<PlayerState>)
        ensures
            r == self.state(),
    {
        let playback = match &self.playback_state {
            Some(p) => Some(
                MprisPlayback { player_id: p.player_id.clone(), playing: clone_opt(&p.playing) },
            ),
            None => None,
        };
        PlayerState::from_mpris_data(
            self.player_name.clone(),
            clone_metadata(&self.metadata),
            playback,
        )
    }

    pub fn update_metadata(&mut self, metadata: MprisMetadata, now: u64) -> (r: Option<
        PlayerState,
    >)
        ensures
            final(self).metadata == metadata,
            final(self).player_name == old(self).player_name,
            final(self).playback_state == old(self).playback_state,
            final(self).last_updated == now,
            r == final(self).state(),
    {
        self.metadata = metadata;
        self.last_updated = now;
        self.publish_state()
    }

    pub fn update_playback_state(&mut self, playback_state: MprisPlayback, now: u64) -> (r: Option<
        PlayerState,
    >)
        ensures
            final(self).metadata == old(self).metadata,
            final(self).player_name == old(self).player_name,
            final(self).playback_state == Some(playback_state),
            final(self).last_updated == now,
            r == final(self).state(),
    {
        self.playback_state = Some(playback_state);
        self.last_updated = now;
        self.publish_state()
    }
}

fn clone_opt(s: &Option<String>) -> (r: Option<String>)
    ensures
        r == *s,
{
    match s {
        Some(v) => Some(v.clone()),
        None => None,
    }
}

fn clone_metadata(m: &MprisMetadata) -> (r: MprisMetadata)
    ensures
        r.player_id == m.player_id,
        r.artist@ == m.artist@,
        r.title == m.title,
        r.album == m.album,
{
    let mut artist: Vec<String> = Vec::new();
    let mut i: usize = 0;
    while i < m.artist.len()
        invariant
            i <= m.artist@.len(),
            artist@ == m.artist@.take(i as int),
        decreases m.artist@.len() - i,
    {
        artist.push(m.artist[i].clone());
        assert(artist@ =~= m.artist@.take(i + 1));
        i = i + 1;
    }
    assert(artist@ =~= m.artist@);
    MprisMetadata {
        player_id: m.player_id.clone(),
        artist,
        title: clone_opt(&m.title),
        album: clone_opt(&m.album),
    }
}

} // verus!

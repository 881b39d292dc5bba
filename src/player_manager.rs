use vstd::prelude::*;
use crate::models::{MprisMetadata, MprisPlayback, PlayerClient, PlayerState};

verus! {

/// Index `i` holds the elected player: playing with complete metadata, updated
/// no earlier than any other such player, and first seen among those updated
/// at the same time.
pub open spec fn is_elected(players: Seq<PlayerClient>, i: int) -> bool {
    &&& 0 <= i < players.len()
    &&& players[i].eligible()
    &&& forall|j: int|
        0 <= j < players.len() && #[trigger] players[j].eligible() ==> players[j].last_updated
            <= players[i].last_updated
    &&& forall|j: int|
        0 <= j < i && #[trigger] players[j].eligible() ==> players[j].last_updated
            < players[i].last_updated
}

/// No tracked player can be elected.
pub open spec fn none_eligible(players: Seq<PlayerClient>) -> bool {
    forall|j: int| 0 <= j < players.len() ==> !(#[trigger] players[j].eligible())
}

/// What the registry asks to be published after an event.
pub enum Announcement {
    /// Nothing is published.
    Silent,
    /// This state becomes the displayed one.
    Publish(PlayerState),
    /// No tracked player is playing.
    NothingPlaying,
}

/// One record per player id, in the order the players were first seen.
pub struct PlayerRegistry {
    players: Vec<PlayerClient>,
}

impl PlayerRegistry {
    pub closed spec fn view(&self) -> Seq<PlayerClient> {
        self.players@
    }

    /// At most one record per player id.
    pub open spec fn wf(&self) -> bool {
        forall|i: int, j: int|
            0 <= i < j < self@.len() ==> (#[trigger] self@[i]).metadata.player_id@
                != (#[trigger] self@[j]).metadata.player_id@
    }

    /// The index of the record of `id`, if one is tracked.
    pub open spec fn index_of(&self, id: Seq<char>) -> Option<int> {
        if exists|i: int| 0 <= i < self@.len() && #[trigger] self@[i].metadata.player_id@ == id {
            Some(
                choose|i: int| 0 <= i < self@.len() && #[trigger] self@[i].metadata.player_id@ == id,
            )
        } else {
            None
        }
    }

    pub fn new() -> (r: Self)
        ensures
            r.wf(),
            r@.len() == 0,
    {
        Self { players: Vec::new() }
    }

    pub fn len(&self) -> (r: usize)
        ensures
            r == self@.len(),
    {
        self.players.len()
    }

    /// The record at `i`, in first-seen order.
    pub fn get(&self, i: usize) -> (r: &PlayerClient)
        requires
            i < self@.len(),
        ensures
            *r == self@[i as int],
    {
        &self.players[i]
    }

    /// Where the record of `id` stands, if it is tracked.
    pub fn find(&self, id: &String) -> (r: Option<usize>)
        requires
            self.wf(),
        ensures
            r is None <==> self.index_of(id@) is None,
            r matches Some(i) ==> self.index_of(id@) == Some(i as int),
            r matches Some(i) ==> i < self@.len() && self@[i as int].metadata.player_id@ == id@,
    {
        let mut i: usize = 0;
        while i < self.players.len()
            invariant
                self.wf(),
                i <= self@.len(),
                forall|j: int| 0 <= j < i ==> (#[trigger] self@[j]).metadata.player_id@ != id@,
            decreases self@.len() - i,
        {
            if self.players[i].metadata.player_id == *id {
                proof {
                    // ids are unique, so the chosen index is this one
                    let k = self.index_of(id@)->Some_0;
                    assert(self@[i as int].metadata.player_id@ == id@);
                    if k > i as int {
                        assert(self@[i as int].metadata.player_id@ != self@[k].metadata.player_id@);
                    }
                }
                return Some(i);
            }
            i = i + 1;
        }
        None
    }

    pub fn contains(&self, id: &String) -> (r: bool)
        requires
            self.wf(),
        ensures
            r == (self.index_of(id@) is Some),
    {
        self.find(id).is_some()
    }

    /// The player to show among those playing: the one updated last, the first
    /// seen among equals.
    pub fn set_most_recent_player_as_active(&self) -> (r: Option<usize>)
        ensures
            r matches Some(i) ==> is_elected(self@, i as int),
            r is None ==> none_eligible(self@),
    {
        let mut best: Option<usize> = None;
        let mut i: usize = 0;
        while i < self.players.len()
            invariant
                i <= self@.len(),
                best is None ==> forall|j: int| 0 <= j < i ==> !(#[trigger] self@[j]).eligible(),
                best matches Some(b) ==> {
                    &&& b < i
                    &&& self@[b as int].eligible()
                    &&& forall|j: int|
                        0 <= j < i && #[trigger] self@[j].eligible() ==> self@[j].last_updated
                            <= self@[b as int].last_updated
                    &&& forall|j: int|
                        0 <= j < b && #[trigger] self@[j].eligible() ==> self@[j].last_updated
                            < self@[b as int].last_updated
                },
            decreases self@.len() - i,
        {
            let p = &self.players[i];
            let eligible = p.playing() && p.metadata.artist.len() > 0 && p.metadata.album.is_some()
                && p.metadata.title.is_some();
            if eligible {
                match best {
                    None => {
                        best = Some(i);
                    },
                    Some(b) => {
                        if p.last_updated > self.players[b].last_updated {
                            best = Some(i);
                        }
                    },
                }
            }
            i = i + 1;
        }
        best
    }

    /// A metadata change of a player. An unseen player is tracked under
    /// `identity`, its display name; without one the event is dropped.
    pub fn handle_metadata(&mut self, metadata: MprisMetadata, identity: Option<String>, now: u64)
        -> (r: Option<PlayerState>)
        requires
            old(self).wf(),
        ensures
            final(self).wf(),
            match old(self).index_of(metadata.player_id@) {
                Some(i) => {
                    &&& final(self)@ == old(self)@.update(
                        i,
                        PlayerClient { metadata: metadata, last_updated: now, ..old(self)@[i] },
                    )
                    &&& r == final(self)@[i].state()
                },
                None => match identity {
                    Some(name) => {
                        let rec = PlayerClient {
                            player_name: name,
                            metadata: metadata,
                            playback_state: None,
                            last_updated: now,
                        };
                        &&& final(self)@ == old(self)@.push(rec)
                        &&& r == rec.state()
                    },
                    None => final(self)@ == old(self)@ && r is None,
                },
            },
    {
        match self.find(&metadata.player_id) {
            Some(i) => {
                let mut rec = self.players.remove(i);
                let r = rec.update_metadata(metadata, now);
                self.players.insert(i, rec);
                proof {
                    assert(self@ =~= old(self)@.update(i as int, rec));
                }
                r
            },
            None => match identity {
                Some(name) => {
                    let mut rec = PlayerClient::new(name, metadata);
                    rec.last_updated = now;
                    let r = rec.publish_state();
                    self.players.push(rec);
                    r
                },
                None => None,
            },
        }
    }
}

impl PlayerRegistry {
    /// The records once the record of `id` exists: unchanged when it is
    /// tracked, else with a record from `backfill` (display name, metadata)
    /// added at the end.
    pub open spec fn with_record(
        &self,
        id: String,
        backfill: Option<(String, MprisMetadata)>,
    ) -> Seq<PlayerClient> {
        match self.index_of(id@) {
            Some(_) => self@,
            None => self@.push(
                PlayerClient {
                    player_name: backfill->Some_0.0,
                    metadata: MprisMetadata { player_id: id, ..backfill->Some_0.1 },
                    playback_state: None,
                    last_updated: 0,
                },
            ),
        }
    }

    /// Where the record of `id` stands once it exists.
    pub open spec fn slot_of(&self, id: Seq<char>) -> int {
        match self.index_of(id) {
            Some(i) => i,
            None => self@.len() as int,
        }
    }

    /// A playback status change of a player. An unseen player is first tracked
    /// from `backfill` (its display name and metadata, as queried); without it
    /// the event is dropped. A player that starts playing is shown; otherwise
    /// the election runs over all tracked players.
    pub fn handle_playback(
        &mut self,
        playback: MprisPlayback,
        backfill: Option<(String, MprisMetadata)>,
        now: u64,
    ) -> (r: Announcement)
        requires
            old(self).wf(),
        ensures
            final(self).wf(),
            old(self).index_of(playback.player_id@) is None && backfill is None ==> {
                &&& final(self)@ == old(self)@
                &&& r is Silent
            },
            old(self).index_of(playback.player_id@) is Some || backfill is Some ==> {
                let base = old(self).with_record(playback.player_id, backfill);
                let i = old(self).slot_of(playback.player_id@);
                &&& final(self)@ == base.update(
                    i,
                    PlayerClient { playback_state: Some(playback), last_updated: now, ..base[i] },
                )
                &&& playback.spec_is_playing() ==> r == match final(self)@[i].state() {
                    Some(s) => Announcement::Publish(s),
                    None => Announcement::Silent,
                }
                &&& !playback.spec_is_playing() ==> {
                    &&& r is NothingPlaying <==> none_eligible(final(self)@)
                    &&& !(r is Silent)
                    &&& r matches Announcement::Publish(s) ==> exists|k: int|
                        is_elected(final(self)@, k) && final(self)@[k].state() == Some(s)
                }
            },
    {
        let ghost base = old(self).with_record(playback.player_id, backfill);
        let i = match self.find(&playback.player_id) {
            Some(i) => i,
            None => match backfill {
                Some((name, md)) => {
                    let metadata = MprisMetadata {
                        player_id: playback.player_id.clone(),
                        artist: md.artist,
                        title: md.title,
                        album: md.album,
                    };
                    self.players.push(PlayerClient::new(name, metadata));
                    proof {
                        assert(self@ =~= base);
                    }
                    self.players.len() - 1
                },
                None => {
                    return Announcement::Silent;
                },
            },
        };
        assert(self@ == base);
        let is_playing = playback.is_playing();
        let mut rec = self.players.remove(i);
        let published = rec.update_playback_state(playback, now);
        self.players.insert(i, rec);
        proof {
            assert(self@ =~= base.update(i as int, rec));
            assert forall|a: int, b: int| 0 <= a < b < self@.len() implies
                (#[trigger] self@[a]).metadata.player_id@ != (#[trigger] self@[b]).metadata.player_id@ by {
                assert(base[a].metadata.player_id@ == self@[a].metadata.player_id@);
                assert(base[b].metadata.player_id@ == self@[b].metadata.player_id@);
            }
        }
        if is_playing {
            return match published {
                Some(s) => Announcement::Publish(s),
                None => Announcement::Silent,
            };
        }
        match self.set_most_recent_player_as_active() {
            Some(k) => match self.players[k].publish_state() {
                Some(s) => Announcement::Publish(s),
                None => Announcement::Silent,
            },
            None => Announcement::NothingPlaying,
        }
    }
}

/// A player whose metadata lacks the first artist, the album or the title is
/// never published and never elected.
pub proof fn incomplete_player_is_never_shown(players: Seq<PlayerClient>, k: int)
    requires
        0 <= k < players.len(),
        !players[k].metadata.complete(),
    ensures
        players[k].state() is None,
        !is_elected(players, k),
{
}

} // verus!

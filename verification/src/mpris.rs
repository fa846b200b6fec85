//! Media players: which of those on the session bus is shown and controlled.
use crate::number;
use crate::number::Number;
use crate::scan;
use crate::text;
use vstd::prelude::*;
use zbus::zvariant::OwnedObjectPath;

verus! {

pub const MPRIS_PATH: &'static str = "/org/mpris/MediaPlayer2";

pub const PLAYER_IFACE: &'static str = "org.mpris.MediaPlayer2.Player";

/// What a player plays.
#[derive(Debug)]
pub struct MediaState {
    pub player: String,
    pub track_id: String,
    pub status: String,
    pub title: String,
    pub art_url: String,
    pub length_us: Number,
    pub position_us: Number,
}

/// What a player plays, its texts taken as sequences.
pub struct MediaView {
    pub player: Seq<char>,
    pub track_id: Seq<char>,
    pub status: Seq<char>,
    pub title: Seq<char>,
    pub art_url: Seq<char>,
    pub length_us: Number,
    pub position_us: Number,
}

impl View for MediaState {
    type V = MediaView;

    open spec fn view(&self) -> MediaView {
        MediaView {
            player: self.player@,
            track_id: self.track_id@,
            status: self.status@,
            title: self.title@,
            art_url: self.art_url@,
            length_us: self.length_us,
            position_us: self.position_us,
        }
    }
}

/// What a list of players holds.
pub open spec fn media_views(v: Seq<MediaState>) -> Seq<MediaView> {
    v.map_values(|m: MediaState| m@)
}

/// Whether a name on the bus is that of a media player.
pub fn is_player_name(name: &str) -> (r: bool)
    ensures
        r == "org.mpris.MediaPlayer2."@.is_prefix_of(name@),
{
    scan::starts_with(name, "org.mpris.MediaPlayer2.")
}

/// What a player says of itself.
pub open spec fn media_of(
    player: Seq<char>,
    track_id: Option<Seq<char>>,
    status: Seq<char>,
    title: Option<Seq<char>>,
    art_url: Option<Seq<char>>,
    length_us: i64,
    position_us: i64,
) -> MediaView {
    MediaView {
        player,
        track_id: track_id.unwrap_or(Seq::empty()),
        status,
        title: title.unwrap_or(Seq::empty()),
        art_url: art_url.unwrap_or(Seq::empty()),
        length_us: number::double_of(
            if length_us < 0 {
                0
            } else {
                length_us as nat
            },
        ),
        position_us: number::double_of(
            if position_us < 0 {
                0
            } else {
                position_us as nat
            },
        ),
    }
}

impl MediaState {
    /// What a player says of itself; a length and a position below zero are taken for zero,
    /// and a missing text for an empty one.
    pub fn from_properties(
        player: &str,
        track_id: Option<String>,
        status: String,
        title: Option<String>,
        art_url: Option<String>,
        length_us: i64,
        position_us: i64,
    ) -> (r: MediaState)
        ensures
            r@ == media_of(
                player@,
                text::opt_text(track_id),
                status@,
                text::opt_text(title),
                text::opt_text(art_url),
                length_us,
                position_us,
            ),
    {
        let length: u64 = if length_us < 0 {
            0
        } else {
            length_us as u64
        };
        let position: u64 = if position_us < 0 {
            0
        } else {
            position_us as u64
        };
        MediaState {
            player: player.to_string(),
            track_id: text::or_empty(track_id),
            status,
            title: text::or_empty(title),
            art_url: text::or_empty(art_url),
            length_us: Number::from_u64(length),
            position_us: Number::from_u64(position),
        }
    }

    /// Whether the player is playing.
    pub fn is_playing(&self) -> (r: bool)
        ensures
            r == playing(self@),
    {
        text::same(self.status.as_str(), "Playing")
    }
}

/// The length and the position of what a page plays, in microseconds.
#[derive(Clone, Copy, Debug)]
pub struct BrowserMediaTiming {
    pub length_us: Number,
    pub position_us: Number,
}

/// A time that a player gives, or that of the page where the player gives none.
pub open spec fn given_or(player: Number, page: Number) -> Number {
    if player.is_zero() {
        page
    } else {
        player
    }
}

/// What a player says of itself, with what the page that plays says where the player leaves it
/// out.
pub open spec fn completed(m: MediaView, timing: BrowserMediaTiming) -> MediaView {
    MediaView {
        length_us: given_or(m.length_us, timing.length_us),
        position_us: given_or(m.position_us, timing.position_us),
        ..m
    }
}

impl MediaState {
    /// Takes the length and the position from the page that plays, where the player leaves
    /// them out.
    pub fn complete(&mut self, timing: &BrowserMediaTiming)
        ensures
            final(self)@ == completed(old(self)@, *timing),
    {
        if self.length_us.is_nought() {
            self.length_us = timing.length_us;
        }
        if self.position_us.is_nought() {
            self.position_us = timing.position_us;
        }
    }
}

/// Whether a player is playing.
pub open spec fn playing(m: MediaView) -> bool {
    m.status == "Playing"@
}

/// Whether a player that is not playing is worth showing: it has a cover and a track with
/// a length.
pub open spec fn showable(m: MediaView) -> bool {
    m.art_url.len() > 0 && !m.length_us.is_nan() && !m.length_us.at_most_zero()
}

/// The first of the players from `i` on that is playing.
pub open spec fn first_playing(players: Seq<MediaView>, i: int) -> Option<int>
    decreases players.len() - i,
{
    if i >= players.len() {
        None
    } else if playing(players[i]) {
        Some(i)
    } else {
        first_playing(players, i + 1)
    }
}

/// The first of the players from `i` on that is worth showing.
pub open spec fn first_showable(players: Seq<MediaView>, i: int) -> Option<int>
    decreases players.len() - i,
{
    if i >= players.len() {
        None
    } else if showable(players[i]) {
        Some(i)
    } else {
        first_showable(players, i + 1)
    }
}

/// The player to show: the first that is playing, or else the first that is worth showing.
pub open spec fn chosen(players: Seq<MediaView>) -> Option<int> {
    match first_playing(players, 0) {
        Some(i) => Some(i),
        None => first_showable(players, 0),
    }
}

/// The player to show.
pub fn choose_player(players: &Vec<MediaState>) -> (r: Option<usize>)
    ensures
        match r {
            Some(i) => i < players@.len() && chosen(media_views(players@)) == Some(i as int),
            None => chosen(media_views(players@)) is None,
        },
{
    let ghost all = media_views(players@);
    let mut fallback: Option<usize> = None;
    let mut i: usize = 0;
    while i < players.len()
        invariant
            0 <= i <= players@.len(),
            all == media_views(players@),
            first_playing(all, 0) == first_playing(all, i as int),
            match fallback {
                Some(f) => f < players@.len() && first_showable(all, 0) == Some(f as int),
                None => first_showable(all, 0) == first_showable(all, i as int),
            },
        decreases players@.len() - i,
    {
        assert(all[i as int] == players@[i as int]@);
        if players[i].is_playing() {
            return Some(i);
        }
        if fallback.is_none() && !text::is_empty(players[i].art_url.as_str())
            && !players[i].length_us.not_a_number() && !players[i].length_us.is_at_most_zero() {
            fallback = Some(i);
        }
        i += 1;
    }
    fallback
}

/// The player and the track that are controlled.
#[derive(Debug)]
pub struct MprisClient {
    pub active_player: Option<String>,
    pub active_track_id: Option<String>,
}

/// What is to be asked of a player.
#[derive(Debug)]
pub enum SeekPlan {
    /// Nothing: no player or no track is known.
    Nothing,
    /// Nothing: the track's name is no object path.
    BadTrack,
    /// To go to a position of the track.
    Seek { player: String, track_id: String, position_us: i64 },
}

/// An element of an object path.
pub open spec fn path_element(s: Seq<char>) -> bool {
    s.len() > 0 && forall|i: int|
        0 <= i < s.len() ==> ('a' <= #[trigger] s[i] <= 'z' || 'A' <= s[i] <= 'Z' || '0' <= s[i]
            <= '9' || s[i] == '_')
}

/// An object path: a slash, then nothing or elements with slashes between them.
pub open spec fn object_path(s: Seq<char>) -> bool {
    s.len() > 0 && s[0] == '/' && (s.len() == 1 || forall|i: int|
        0 <= i < scan::pieces(s.skip(1), '/').len() ==> path_element(
            #[trigger] scan::pieces(s.skip(1), '/')[i],
        ))
}

/// Calls `zbus::zvariant::OwnedObjectPath::try_from` on the text. The contract says which
/// texts it takes: a slash alone, or a slash and elements of ASCII letters, digits and
/// underscores, with one slash between each two.
#[verifier::external_body]
fn is_object_path(s: &str) -> (r: bool)
    ensures
        r == object_path(s@),
{
    OwnedObjectPath::try_from(s).is_ok()
}

/// Whether `r` is what is to be asked of a player to go to a position.
pub open spec fn seek_by(
    player: Option<Seq<char>>,
    track: Option<Seq<char>>,
    position_us: Number,
    r: SeekPlan,
) -> bool {
    match r {
        SeekPlan::Nothing => player is None || track is None,
        SeekPlan::BadTrack => player is Some && track is Some && !object_path(track->0),
        SeekPlan::Seek { player: p, track_id, position_us: at } => player == Some(p@) && track
            == Some(track_id@) && object_path(track_id@) && at == position_us.truncated_i64(),
    }
}

impl MprisClient {
    /// A client that controls no player.
    pub fn new() -> (r: MprisClient)
        ensures
            r.active_player is None,
            r.active_track_id is None,
    {
        MprisClient { active_player: None, active_track_id: None }
    }

    /// Takes the player that is shown as the one that is controlled.
    pub fn follow(&mut self, shown: Option<&MediaState>)
        ensures
            match shown {
                Some(m) => text::opt_text(final(self).active_player) == Some(m@.player)
                    && text::opt_text(final(self).active_track_id) == if m@.track_id.len() == 0 {
                    None
                } else {
                    Some(m@.track_id)
                },
                None => final(self).active_player is None && final(self).active_track_id is None,
            },
    {
        match shown {
            Some(m) => {
                self.active_player = Some(m.player.clone());
                self.active_track_id = if text::is_empty(m.track_id.as_str()) {
                    None
                } else {
                    Some(m.track_id.clone())
                };
            },
            None => {
                self.active_player = None;
                self.active_track_id = None;
            },
        }
    }

    /// What is to be asked of the player to go to a position in microseconds.
    pub fn seek(&self, position_us: Number) -> (r: SeekPlan)
        ensures
            seek_by(
                text::opt_text(self.active_player),
                text::opt_text(self.active_track_id),
                position_us,
                r,
            ),
    {
        match (&self.active_player, &self.active_track_id) {
            (Some(player), Some(track)) => if is_object_path(track.as_str()) {
                SeekPlan::Seek {
                    player: player.clone(),
                    track_id: track.clone(),
                    position_us: position_us.to_i64(),
                }
            } else {
                SeekPlan::BadTrack
            },
            _ => SeekPlan::Nothing,
        }
    }
}

/// A player that is playing is shown before any that is not.
pub proof fn law_playing_wins(players: Seq<MediaView>, i: int)
    requires
        0 <= i < players.len(),
        playing(players[i]),
    ensures
        chosen(players) is Some,
        0 <= chosen(players)->0 <= i,
        playing(players[chosen(players)->0]),
{
    lemma_first_playing(players, i, 0);
}

proof fn lemma_first_playing(players: Seq<MediaView>, i: int, from: int)
    requires
        0 <= from <= i < players.len(),
        playing(players[i]),
    ensures
        first_playing(players, from) is Some,
        from <= first_playing(players, from)->0 <= i,
        playing(players[first_playing(players, from)->0]),
    decreases players.len() - from,
{
    if !playing(players[from]) {
        lemma_first_playing(players, i, from + 1);
    }
}

} // verus!

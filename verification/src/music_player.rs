//! The music player service: the snapshot of the player the host reports,
//! the change test that decides when a fresh snapshot is worth announcing,
//! the snapshot's wire form, and the transport commands the service sends
//! back to the host.
//!
//! Fractions of full scale (playback progress and volume) are counted in
//! millionths, so the snapshot is plain data end to end.

use vstd::prelude::*;
use vstd::string::*;
use crate::events::Event;
use crate::json::{
    append_bool_json, append_json_string, append_millionths_dec, spec_bool_json,
    spec_json_string, spec_millionths_dec,
};

verus! {

/// Whether the player is stopped, playing, or paused.
#[derive(Clone, Copy, PartialEq, Eq, Structural, Debug)]
pub enum MusicPlayerStatus {
    Stopped,
    Playing,
    Paused,
}

/// The host reports transport state as a small integer: 1 while playing,
/// 2 while paused, anything else counts as stopped.
pub open spec fn spec_status_from_code(code: i32) -> MusicPlayerStatus {
    if code == 1 {
        MusicPlayerStatus::Playing
    } else if code == 2 {
        MusicPlayerStatus::Paused
    } else {
        MusicPlayerStatus::Stopped
    }
}

/// Map the host's transport-state integer to a status.
pub fn status_from_code(code: i32) -> (status: MusicPlayerStatus)
    ensures
        status == spec_status_from_code(code),
{
    match code {
        1 => MusicPlayerStatus::Playing,
        2 => MusicPlayerStatus::Paused,
        _ => MusicPlayerStatus::Stopped,
    }
}

/// Mathematical value of a [`MusicPlayerState`].
pub struct MusicPlayerStateView {
    pub is_connected: bool,
    pub player: Seq<char>,
    pub title: Seq<char>,
    pub artist: Seq<char>,
    pub album: Seq<char>,
    pub cover: Seq<char>,
    pub duration: Seq<char>,
    pub position: Seq<char>,
    pub progress: u32,
    pub volume: u32,
    pub status: MusicPlayerStatus,
}

/// One snapshot of the player as read from the host.
pub struct MusicPlayerState {
    pub is_connected: bool,
    pub player: String,
    pub title: String,
    pub artist: String,
    pub album: String,
    /// URL of the album cover image.
    pub cover: String,
    /// Track duration, as the host formats it.
    pub duration: String,
    /// Playback position, as the host formats it.
    pub position: String,
    /// Playback progress in millionths of the track.
    pub progress: u32,
    /// Volume in millionths of full volume.
    pub volume: u32,
    pub status: MusicPlayerStatus,
}

impl View for MusicPlayerState {
    type V = MusicPlayerStateView;

    open spec fn view(&self) -> MusicPlayerStateView {
        MusicPlayerStateView {
            is_connected: self.is_connected,
            player: self.player@,
            title: self.title@,
            artist: self.artist@,
            album: self.album@,
            cover: self.cover@,
            duration: self.duration@,
            position: self.position@,
            progress: self.progress,
            volume: self.volume,
            status: self.status,
        }
    }
}

/// When two snapshots count as the same song state.  The player name is
/// deliberately left out of the comparison: some players report it
/// unstably, and a name flip alone is not an update worth announcing.
pub open spec fn spec_same_state(a: MusicPlayerStateView, b: MusicPlayerStateView) -> bool {
    &&& a.is_connected == b.is_connected
    &&& a.title == b.title
    &&& a.artist == b.artist
    &&& a.album == b.album
    &&& a.cover == b.cover
    &&& a.duration == b.duration
    &&& a.position == b.position
    &&& a.progress == b.progress
    &&& a.volume == b.volume
    &&& a.status == b.status
}

impl PartialEq for MusicPlayerState {
    fn eq(&self, other: &Self) -> (r: bool) {
        self.is_connected == other.is_connected && self.title == other.title && self.artist
            == other.artist && self.album == other.album && self.cover == other.cover
            && self.duration == other.duration && self.position == other.position && self.progress
            == other.progress && self.volume == other.volume && self.status == other.status
    }
}

impl vstd::std_specs::cmp::PartialEqSpecImpl for MusicPlayerState {
    open spec fn obeys_eq_spec() -> bool {
        true
    }

    open spec fn eq_spec(&self, other: &Self) -> bool {
        spec_same_state(self@, other@)
    }
}

impl Clone for MusicPlayerState {
    /// A clone is the same snapshot, field for field.
    fn clone(&self) -> (r: Self)
        ensures
            r == *self,
    {
        MusicPlayerState {
            is_connected: self.is_connected,
            player: self.player.clone(),
            title: self.title.clone(),
            artist: self.artist.clone(),
            album: self.album.clone(),
            cover: self.cover.clone(),
            duration: self.duration.clone(),
            position: self.position.clone(),
            progress: self.progress,
            volume: self.volume,
            status: self.status,
        }
    }
}

/// Mathematical value of a [`SongReads`].
pub struct SongReadsView {
    pub connected_code: i32,
    pub player: Seq<char>,
    pub title: Seq<char>,
    pub artist: Seq<char>,
    pub album: Seq<char>,
    pub cover: Seq<char>,
    pub duration: Seq<char>,
    pub position: Seq<char>,
    pub progress: u32,
    pub volume: u32,
    pub state_code: i32,
}

/// One round of host reads about the player: the raw values of the
/// player's measures, defaults already applied by the reads themselves.
pub struct SongReads {
    /// Connection measure: 1 means a player is connected.
    pub connected_code: i32,
    pub player: String,
    pub title: String,
    pub artist: String,
    pub album: String,
    pub cover: String,
    pub duration: String,
    pub position: String,
    /// Progress in millionths of the track.
    pub progress: u32,
    /// Volume in millionths of full volume.
    pub volume: u32,
    /// Transport-state measure: 1 playing, 2 paused, else stopped.
    pub state_code: i32,
}

impl View for SongReads {
    type V = SongReadsView;

    open spec fn view(&self) -> SongReadsView {
        SongReadsView {
            connected_code: self.connected_code,
            player: self.player@,
            title: self.title@,
            artist: self.artist@,
            album: self.album@,
            cover: self.cover@,
            duration: self.duration@,
            position: self.position@,
            progress: self.progress,
            volume: self.volume,
            state_code: self.state_code,
        }
    }
}

/// The snapshot one round of host reads amounts to.
pub open spec fn spec_song_from_reads(r: SongReadsView) -> MusicPlayerStateView {
    MusicPlayerStateView {
        is_connected: r.connected_code == 1,
        player: r.player,
        title: r.title,
        artist: r.artist,
        album: r.album,
        cover: r.cover,
        duration: r.duration,
        position: r.position,
        progress: r.progress,
        volume: r.volume,
        status: spec_status_from_code(r.state_code),
    }
}

/// The snapshot reported when no host context is registered at all.
pub open spec fn spec_no_host_song() -> MusicPlayerStateView {
    MusicPlayerStateView {
        is_connected: false,
        player: "No Rainmeter"@,
        title: ""@,
        artist: ""@,
        album: ""@,
        cover: ""@,
        duration: "00:00"@,
        position: "00:00"@,
        progress: 0,
        volume: 0,
        status: MusicPlayerStatus::Stopped,
    }
}

/// Build the current snapshot: from one round of host reads when a host
/// context is registered, and the fixed disconnected snapshot otherwise.
pub fn get_current_song(reads: Option<SongReads>) -> (song: MusicPlayerState)
    ensures
        song@ == match reads {
            Some(r) => spec_song_from_reads(r@),
            None => spec_no_host_song(),
        },
{
    match reads {
        Some(r) => MusicPlayerState {
            is_connected: r.connected_code == 1,
            player: r.player,
            title: r.title,
            artist: r.artist,
            album: r.album,
            cover: r.cover,
            duration: r.duration,
            position: r.position,
            progress: r.progress,
            volume: r.volume,
            status: status_from_code(r.state_code),
        },
        None => {
            let song = MusicPlayerState {
                is_connected: false,
                player: String::from_str("No Rainmeter"),
                title: String::new(),
                artist: String::new(),
                album: String::new(),
                cover: String::new(),
                duration: String::from_str("00:00"),
                position: String::from_str("00:00"),
                progress: 0,
                volume: 0,
                status: MusicPlayerStatus::Stopped,
            };
            proof {
                reveal_strlit("");
                assert(""@ =~= Seq::<char>::empty());
            }
            song
        },
    }
}

/// The status's wire form: its name as a JSON string.
pub open spec fn spec_status_json(s: MusicPlayerStatus) -> Seq<char> {
    match s {
        MusicPlayerStatus::Stopped => "\"Stopped\""@,
        MusicPlayerStatus::Playing => "\"Playing\""@,
        MusicPlayerStatus::Paused => "\"Paused\""@,
    }
}

/// The snapshot's wire form: one JSON object, fields in declaration order.
pub open spec fn spec_music_state_json(v: MusicPlayerStateView) -> Seq<char> {
    "{\"is_connected\":"@ + spec_bool_json(v.is_connected) + ",\"player\":"@ + spec_json_string(
        v.player,
    ) + ",\"title\":"@ + spec_json_string(v.title) + ",\"artist\":"@ + spec_json_string(v.artist)
        + ",\"album\":"@ + spec_json_string(v.album) + ",\"cover\":"@ + spec_json_string(v.cover)
        + ",\"duration\":"@ + spec_json_string(v.duration) + ",\"position\":"@ + spec_json_string(
        v.position,
    ) + ",\"progress\":"@ + spec_millionths_dec(v.progress as int) + ",\"volume\":"@
        + spec_millionths_dec(v.volume as int) + ",\"status\":"@ + spec_status_json(v.status)
        + "}"@
}

impl MusicPlayerState {
    /// Serialize the snapshot for the event wire.
    pub fn to_json(&self) -> (out: String)
        ensures
            out@ == spec_music_state_json(self@),
    {
        let mut out = String::from_str("{\"is_connected\":");
        append_bool_json(&mut out, self.is_connected);
        out.append(",\"player\":");
        append_json_string(&mut out, self.player.as_str());
        out.append(",\"title\":");
        append_json_string(&mut out, self.title.as_str());
        out.append(",\"artist\":");
        append_json_string(&mut out, self.artist.as_str());
        out.append(",\"album\":");
        append_json_string(&mut out, self.album.as_str());
        out.append(",\"cover\":");
        append_json_string(&mut out, self.cover.as_str());
        out.append(",\"duration\":");
        append_json_string(&mut out, self.duration.as_str());
        out.append(",\"position\":");
        append_json_string(&mut out, self.position.as_str());
        out.append(",\"progress\":");
        append_millionths_dec(&mut out, self.progress);
        out.append(",\"volume\":");
        append_millionths_dec(&mut out, self.volume);
        out.append(",\"status\":");
        match self.status {
            MusicPlayerStatus::Stopped => out.append("\"Stopped\""),
            MusicPlayerStatus::Playing => out.append("\"Playing\""),
            MusicPlayerStatus::Paused => out.append("\"Paused\""),
        }
        out.append("}");
        proof {
            assert(out@ =~= spec_music_state_json(self@));
        }
        out
    }
}

/// Compare the fresh snapshot with the last announced one; when it
/// differs (or nothing was announced yet), remember it and, if a host
/// context is registered, hand back the update event to raise.  An
/// unchanged snapshot leaves everything as it was and raises nothing.
pub fn tick_music_player(
    last: &mut Option<MusicPlayerState>,
    current: MusicPlayerState,
    host_registered: bool,
) -> (raised: Option<Event>)
    ensures
        ({
            let changed = match *old(last) {
                Some(prev) => !spec_same_state(prev@, current@),
                None => true,
            };
            &&& changed ==> (*final(last) matches Some(s) && s@ == current@)
            &&& !changed ==> *final(last) == *old(last)
            &&& raised == if changed && host_registered {
                Some(Event::MusicUpdate(current))
            } else {
                None::<Event>
            }
        }),
{
    let changed = match &*last {
        Some(prev) => !(*prev == current),
        None => true,
    };
    if changed {
        *last = Some(current.clone());
        if host_registered {
            return Some(Event::MusicUpdate(current));
        }
    }
    None
}

/// The transport commands the service can ask the host to run, each the
/// bang the host understands for it.  Every method hands back the command
/// to execute when a host context is registered, and nothing otherwise.
pub struct MusicPlayer;

impl MusicPlayer {
    /// Start playback.
    pub fn play(&self, host_registered: bool) -> (bang: Option<String>)
        ensures
            bang matches Some(b) ==> b@ == "[!CommandMeasure \"MadoWNPTitle\" \"Play\"]"@,
            bang is Some <==> host_registered,
    {
        if host_registered {
            Some(String::from_str("[!CommandMeasure \"MadoWNPTitle\" \"Play\"]"))
        } else {
            None
        }
    }

    /// Pause playback.
    pub fn pause(&self, host_registered: bool) -> (bang: Option<String>)
        ensures
            bang matches Some(b) ==> b@ == "[!CommandMeasure \"MadoWNPTitle\" \"Pause\"]"@,
            bang is Some <==> host_registered,
    {
        if host_registered {
            Some(String::from_str("[!CommandMeasure \"MadoWNPTitle\" \"Pause\"]"))
        } else {
            None
        }
    }

    /// Skip to the next track.
    pub fn next(&self, host_registered: bool) -> (bang: Option<String>)
        ensures
            bang matches Some(b) ==> b@ == "[!CommandMeasure \"MadoWNPTitle\" \"Next\"]"@,
            bang is Some <==> host_registered,
    {
        if host_registered {
            Some(String::from_str("[!CommandMeasure \"MadoWNPTitle\" \"Next\"]"))
        } else {
            None
        }
    }

    /// Skip to the previous track.
    pub fn previous(&self, host_registered: bool) -> (bang: Option<String>)
        ensures
            bang matches Some(b) ==> b@ == "[!CommandMeasure \"MadoWNPTitle\" \"Previous\"]"@,
            bang is Some <==> host_registered,
    {
        if host_registered {
            Some(String::from_str("[!CommandMeasure \"MadoWNPTitle\" \"Previous\"]"))
        } else {
            None
        }
    }

    /// Set the volume, in millionths of full volume.
    pub fn set_volume(&self, host_registered: bool, volume: u32) -> (bang: Option<String>)
        ensures
            bang matches Some(b) ==> b@ == "[!CommandMeasure \"MadoWNPTitle\" \"SetVolume "@
                + spec_millionths_dec(volume as int) + "\"]"@,
            bang is Some <==> host_registered,
    {
        if host_registered {
            let mut bang = String::from_str("[!CommandMeasure \"MadoWNPTitle\" \"SetVolume ");
            append_millionths_dec(&mut bang, volume);
            bang.append("\"]");
            proof {
                assert(bang@ =~= "[!CommandMeasure \"MadoWNPTitle\" \"SetVolume "@
                    + spec_millionths_dec(volume as int) + "\"]"@);
            }
            Some(bang)
        } else {
            None
        }
    }

    /// Seek to a position, in millionths of the track.
    pub fn seek_absolute(&self, host_registered: bool, position: u32) -> (bang: Option<String>)
        ensures
            bang matches Some(b) ==> b@ == "[!CommandMeasure \"MadoWNPTitle\" \"SetPosition "@
                + spec_millionths_dec(position as int) + "\"]"@,
            bang is Some <==> host_registered,
    {
        if host_registered {
            let mut bang = String::from_str("[!CommandMeasure \"MadoWNPTitle\" \"SetPosition ");
            append_millionths_dec(&mut bang, position);
            bang.append("\"]");
            proof {
                assert(bang@ =~= "[!CommandMeasure \"MadoWNPTitle\" \"SetPosition "@
                    + spec_millionths_dec(position as int) + "\"]"@);
            }
            Some(bang)
        } else {
            None
        }
    }
}

} // verus!

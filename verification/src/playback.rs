use vstd::prelude::*;

verus! {

/// Whether a track is playing, paused, or stopped.
#[derive(Clone, Copy, Debug, PartialEq, Eq, Structural)]
pub enum PlayingStatus {
    Stopped,
    Paused,
    Played,
}

/// What the audio output has to do after a play/pause toggle.
#[derive(Clone, Copy, Debug, PartialEq, Eq, Structural)]
pub enum Transport {
    Pause,
    Resume,
}

/// The status that a play/pause toggle leads to.
pub open spec fn toggled(status: PlayingStatus) -> PlayingStatus {
    match status {
        PlayingStatus::Played => PlayingStatus::Paused,
        _ => PlayingStatus::Played,
    }
}

/// The tags read from an audio file: each of them may be absent.
pub struct Tags {
    pub title: Option<String>,
    pub artist: Option<String>,
    pub album: Option<String>,
}

/// What is known of the current track: its metadata, its length in
/// nanoseconds and whether it plays.
pub struct Track {
    pub artist: String,
    pub title: String,
    pub album: String,
    pub duration: u128,
    pub status: PlayingStatus,
}

/// The metadata fields that tags can set.
pub enum TagField {
    Title,
    Artist,
    Album,
}

/// A field keeps its value unless the file's tags bring a new one.
pub open spec fn tag_or(tags: Option<Tags>, field: TagField, old: Seq<char>) -> Seq<char> {
    let tag = match tags {
        Some(t) => match field {
            TagField::Title => t.title,
            TagField::Artist => t.artist,
            TagField::Album => t.album,
        },
        None => None,
    };
    match tag {
        Some(t) => t@,
        None => old,
    }
}

/// The file name ends in the extension `mod`, in the sense of
/// `std::path::Path::extension`: the part after the last dot, where a dot at
/// the very start of the name does not begin an extension.
pub open spec fn is_module_name(name: Seq<char>) -> bool {
    &&& name.len() > 4
    &&& name.subrange(name.len() - 4, name.len() as int) == seq!['.', 'm', 'o', 'd']
}

/// One second in nanoseconds: where a seek back past the start lands.
pub const ONE_SECOND_NANOS: u128 = 1_000_000_000;

/// Where a seek by `offset` nanoseconds from `position` lands in a track of
/// `duration` nanoseconds: a seek back past the start goes to the first
/// second, or stays where it is when that is not yet a second in; past the
/// end it goes to the end.
pub open spec fn seek_target(position: int, offset: int, duration: int) -> int {
    let new = position + offset;
    if new < 0 {
        if position < ONE_SECOND_NANOS {
            position
        } else {
            ONE_SECOND_NANOS as int
        }
    } else if new >= duration {
        duration
    } else {
        new
    }
}

/// How a seek is carried out: a backward seek first starts the track again
/// from its beginning, then the output seeks to `target` nanoseconds.
#[derive(Clone, Copy, Debug, PartialEq, Eq, Structural)]
pub struct SeekPlan {
    pub restart: bool,
    pub target: u128,
}

/// Decides the toggle: a playing track is paused, any other is resumed.
pub fn toggle_transport(status: PlayingStatus) -> (t: Transport)
    ensures
        t == toggle_transport_spec(status),
{
    match status {
        PlayingStatus::Played => Transport::Pause,
        _ => Transport::Resume,
    }
}

/// Whether the file name names a tracker module (`.mod`), which is rendered
/// by the module player rather than decoded.
pub fn is_module_file(name: &str) -> (r: bool)
    ensures
        r == is_module_name(name@),
{
    let n = name.unicode_len();
    if n <= 4 {
        return false;
    }
    let a = name.get_char(n - 4);
    let b = name.get_char(n - 3);
    let c = name.get_char(n - 2);
    let d = name.get_char(n - 1);
    let r = a == '.' && b == 'm' && c == 'o' && d == 'd';
    proof {
        let tail = name@.subrange(n - 4, n as int);
        if r {
            assert(tail =~= seq!['.', 'm', 'o', 'd']);
        } else {
            assert(tail[0] == a && tail[1] == b && tail[2] == c && tail[3] == d);
        }
    }
    r
}

/// Plans a seek by `offset` nanoseconds from `position` in a track of
/// `duration` nanoseconds.
pub fn plan_seek(position: u128, offset: i128, duration: u128) -> (plan: SeekPlan)
    requires
        position + offset <= u128::MAX,
    ensures
        plan.restart == (offset < 0),
        plan.target == seek_target(position as int, offset as int, duration as int),
        position + offset >= 0 && position + offset >= duration ==> plan.target == duration,
        0 <= position + offset < duration ==> plan.target == position + offset,
        position + offset < 0 && position >= 1_000_000_000 ==> plan.target == 1_000_000_000,
        position + offset < 0 && position < 1_000_000_000 ==> plan.target == position,
{
    if offset < 0 {
        let back: u128 = (-(offset + 1)) as u128 + 1;
        assert(back == -offset);
        if back > position {
            if position < ONE_SECOND_NANOS {
                SeekPlan { restart: true, target: position }
            } else {
                SeekPlan { restart: true, target: ONE_SECOND_NANOS }
            }
        } else {
            let new = position - back;
            if new >= duration {
                SeekPlan { restart: true, target: duration }
            } else {
                SeekPlan { restart: true, target: new }
            }
        }
    } else {
        let new = position + (offset as u128);
        if new >= duration {
            SeekPlan { restart: false, target: duration }
        } else {
            SeekPlan { restart: false, target: new }
        }
    }
}

impl Track {
    /// No track yet: empty metadata, zero length, stopped.
    pub fn new() -> (t: Track)
        ensures
            t.artist@ == Seq::<char>::empty(),
            t.title@ == Seq::<char>::empty(),
            t.album@ == Seq::<char>::empty(),
            t.duration == 0,
            t.status == PlayingStatus::Stopped,
    {
        Track {
            artist: String::new(),
            title: String::new(),
            album: String::new(),
            duration: 0,
            status: PlayingStatus::Stopped,
        }
    }

    /// Playback is paused.
    pub fn pause(&mut self)
        ensures
            final(self).status == PlayingStatus::Paused,
            final(self).artist == old(self).artist,
            final(self).title == old(self).title,
            final(self).album == old(self).album,
            final(self).duration == old(self).duration,
    {
        self.status = PlayingStatus::Paused;
    }

    /// Playback goes on.
    pub fn resume(&mut self)
        ensures
            final(self).status == PlayingStatus::Played,
            final(self).artist == old(self).artist,
            final(self).title == old(self).title,
            final(self).album == old(self).album,
            final(self).duration == old(self).duration,
    {
        self.status = PlayingStatus::Played;
    }

    /// Play/pause: a playing track is paused, any other plays; the result
    /// says what the audio output has to do.
    pub fn toggle(&mut self) -> (t: Transport)
        ensures
            final(self).status == toggled(old(self).status),
            t == toggle_transport_spec(old(self).status),
            final(self).artist == old(self).artist,
            final(self).title == old(self).title,
            final(self).album == old(self).album,
            final(self).duration == old(self).duration,
    {
        let t = toggle_transport(self.status);
        match t {
            Transport::Pause => self.pause(),
            Transport::Resume => self.resume(),
        }
        t
    }

    /// A module starts playing: its file name becomes the title and the
    /// rendered length its duration; artist and album stay as they were.
    pub fn start_module(&mut self, file_name: String, duration: u128)
        ensures
            final(self).title@ == file_name@,
            final(self).duration == duration,
            final(self).status == PlayingStatus::Played,
            final(self).artist == old(self).artist,
            final(self).album == old(self).album,
    {
        self.title = file_name;
        self.duration = duration;
        self.status = PlayingStatus::Played;
    }

    /// A decoded file starts playing, given its tags (`None` when the file
    /// has none) and its length: each tag present replaces its field, the
    /// others keep their value, the length is taken, and the track plays.
    pub fn start_tagged(&mut self, tags: Option<Tags>, duration: u128)
        ensures
            final(self).title@ == tag_or(tags, TagField::Title, old(self).title@),
            final(self).artist@ == tag_or(tags, TagField::Artist, old(self).artist@),
            final(self).album@ == tag_or(tags, TagField::Album, old(self).album@),
            tags matches Some(tg) ==> (tg.title matches Some(t) ==> final(self).title@ == t@),
            tags matches Some(tg) ==> (tg.artist matches Some(a) ==> final(self).artist@ == a@),
            tags matches Some(tg) ==> (tg.album matches Some(a) ==> final(self).album@ == a@),
            tags matches Some(tg) ==> (tg.title is None ==> final(self).title@ == old(self).title@),
            tags matches Some(tg) ==> (tg.artist is None ==> final(self).artist@ == old(
                self,
            ).artist@),
            tags matches Some(tg) ==> (tg.album is None ==> final(self).album@ == old(self).album@),
            tags is None ==> final(self).title@ == old(self).title@ && final(self).artist@ == old(
                self,
            ).artist@ && final(self).album@ == old(self).album@,
            final(self).duration == duration,
            final(self).status == PlayingStatus::Played,
    {
        if let Some(t) = tags {
            if let Some(title) = t.title {
                self.title = title;
            }
            if let Some(artist) = t.artist {
                self.artist = artist;
            }
            if let Some(album) = t.album {
                self.album = album;
            }
        }
        self.duration = duration;
        self.status = PlayingStatus::Played;
    }

    /// Playback is stopped.
    pub fn stop(&mut self)
        ensures
            final(self).status == PlayingStatus::Stopped,
            final(self).artist == old(self).artist,
            final(self).title == old(self).title,
            final(self).album == old(self).album,
            final(self).duration == old(self).duration,
    {
        self.status = PlayingStatus::Stopped;
    }

    /// A track failed to load: the title shows `Error: ` and the message.
    pub fn show_error(&mut self, message: &str)
        ensures
            final(self).title@ == "Error: "@ + message@,
            final(self).artist == old(self).artist,
            final(self).album == old(self).album,
            final(self).duration == old(self).duration,
            final(self).status == old(self).status,
    {
        let mut title = String::from_str("Error: ");
        title.append(message);
        self.title = title;
    }
}

/// Toggling twice brings a playing or paused track back to where it was; a
/// stopped track plays after one toggle and is paused after two.
pub proof fn lemma_toggle_twice(status: PlayingStatus)
    ensures
        status != PlayingStatus::Stopped ==> toggled(toggled(status)) == status,
        status == PlayingStatus::Stopped ==> toggled(status) == PlayingStatus::Played
            && toggled(toggled(status)) == PlayingStatus::Paused,
{
}

/// A seek never lands before the start; a backward seek never moves
/// forward, and one that passes the start goes to the first second when it
/// starts at least a second in; a seek that does not pass the start never
/// lands past the end; a forward seek never moves back (short of the end);
/// a seek that stays inside the track lands exactly `offset` away; a seek by
/// nothing stays where it is while the track is not over.
pub proof fn lemma_seek_bounds(position: int, offset: int, duration: int)
    requires
        position >= 0,
        duration >= 0,
    ensures
        0 <= seek_target(position, offset, duration),
        offset <= 0 ==> seek_target(position, offset, duration) <= position,
        position + offset < 0 && position >= ONE_SECOND_NANOS ==> seek_target(
            position,
            offset,
            duration,
        ) == ONE_SECOND_NANOS,
        position + offset >= 0 ==> seek_target(position, offset, duration) <= duration,
        offset >= 0 && position <= duration ==> seek_target(position, offset, duration)
            >= position,
        0 <= position + offset < duration ==> seek_target(position, offset, duration) == position
            + offset,
        position < duration ==> seek_target(position, 0, duration) == position,
{
}

/// Each tag a file carries becomes its field, whatever the other tags hold;
/// a field whose tag is missing keeps its value, and so does every field
/// of a file without tags.
pub proof fn lemma_tags_fill_their_fields(tags: Tags, old: Seq<char>)
    ensures
        tags.title matches Some(t) ==> tag_or(Some(tags), TagField::Title, old) == t@,
        tags.artist matches Some(a) ==> tag_or(Some(tags), TagField::Artist, old) == a@,
        tags.album matches Some(a) ==> tag_or(Some(tags), TagField::Album, old) == a@,
        tags.title is None ==> tag_or(Some(tags), TagField::Title, old) == old,
        tags.artist is None ==> tag_or(Some(tags), TagField::Artist, old) == old,
        tags.album is None ==> tag_or(Some(tags), TagField::Album, old) == old,
        tag_or(None, TagField::Title, old) == old,
        tag_or(None, TagField::Artist, old) == old,
        tag_or(None, TagField::Album, old) == old,
{
}

/// Where a seek lands, case by case on the numbers: past the end (from
/// anywhere not before the start) at the end, inside the track exactly
/// `offset` away, and back past the start at the first second, or where it
/// is when that is less than a second in.
pub proof fn lemma_seek_lands(position: int, offset: int, duration: int)
    requires
        position >= 0,
    ensures
        position + offset >= 0 && position + offset >= duration ==> seek_target(
            position,
            offset,
            duration,
        ) == duration,
        0 <= position + offset < duration ==> seek_target(position, offset, duration) == position
            + offset,
        position + offset < 0 && position >= 1_000_000_000 ==> seek_target(
            position,
            offset,
            duration,
        ) == 1_000_000_000,
        position + offset < 0 && position < 1_000_000_000 ==> seek_target(
            position,
            offset,
            duration,
        ) == position,
{
}

/// The output call that a toggle from `status` asks for.
pub open spec fn toggle_transport_spec(status: PlayingStatus) -> Transport {
    if status == PlayingStatus::Played {
        Transport::Pause
    } else {
        Transport::Resume
    }
}

} // verus!

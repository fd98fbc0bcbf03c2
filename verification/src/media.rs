//! The local media watcher: which playback status names become events, and
//! how repeated reports of the same track are told apart from track changes.

use vstd::prelude::*;
use crate::text::{join, join_seqs, same_text, views_of};

verus! {

/// A change reported by the local media watcher.
#[derive(Debug, Clone, PartialEq, Eq)]
pub enum MediaEvent {
    Playing,
    Paused,
    Stopped,
    TrackChanged { title: String, artist: String },
}

/// The event for a reported playback status name, if it is one of
/// `Playing`, `Paused` and `Stopped`.
pub open spec fn status_event_spec(status: Seq<char>) -> Option<MediaEvent> {
    if status == "Playing"@ {
        Some(MediaEvent::Playing)
    } else if status == "Paused"@ {
        Some(MediaEvent::Paused)
    } else if status == "Stopped"@ {
        Some(MediaEvent::Stopped)
    } else {
        None
    }
}

/// The event for a reported playback status name.
pub fn status_event(status: &str) -> (e: Option<MediaEvent>)
    ensures
        e == status_event_spec(status@),
{
    if same_text(status, "Playing") {
        Some(MediaEvent::Playing)
    } else if same_text(status, "Paused") {
        Some(MediaEvent::Paused)
    } else if same_text(status, "Stopped") {
        Some(MediaEvent::Stopped)
    } else {
        None
    }
}

/// Whether a properties-changed signal is about the media player interface
/// (`org.mpris.MediaPlayer2.Player`), the only one whose changes are read.
pub fn is_player_interface(interface: &str) -> (b: bool)
    ensures
        b == (interface@ == "org.mpris.MediaPlayer2.Player"@),
{
    same_text(interface, "org.mpris.MediaPlayer2.Player")
}

/// The artist text of a track: its artists joined by ", ", or empty when
/// the watcher reported none.
pub fn artist_text(artists: Option<Vec<String>>) -> (s: String)
    ensures
        s@ == match artists {
            Some(v) => join_seqs(views_of(v@), ", "@),
            None => Seq::empty(),
        },
{
    match artists {
        Some(v) => join(&v, ", "),
        None => String::new(),
    }
}

/// The title of a track: the reported one, or empty.
pub fn title_text(title: Option<String>) -> (s: String)
    ensures
        s@ == match title {
            Some(t) => t@,
            None => Seq::empty(),
        },
{
    match title {
        Some(t) => t,
        None => String::new(),
    }
}

/// The last track reported, as title and artist.
pub open spec fn last_view(last: Option<(String, String)>) -> Option<(Seq<char>, Seq<char>)> {
    match last {
        Some((t, a)) => Some((t@, a@)),
        None => None,
    }
}

/// One report of the current track: the new last track, and whether the
/// report is a change (it differs from the last track reported).
pub open spec fn track_step(last: Option<(Seq<char>, Seq<char>)>, title: Seq<char>, artist: Seq<char>) -> (
    Option<(Seq<char>, Seq<char>)>,
    bool,
) {
    if last == Some((title, artist)) {
        (last, false)
    } else {
        (Some((title, artist)), true)
    }
}

/// The watcher's memory of the last track it reported.
pub struct MediaWatcher {
    pub last_track: Option<(String, String)>,
}

impl MediaWatcher {
    /// A watcher that has reported no track yet.
    pub fn new() -> (w: MediaWatcher)
        ensures
            w.last_track is None,
    {
        MediaWatcher { last_track: None }
    }

    /// Takes a report of the current track and gives the `TrackChanged`
    /// event when it differs from the last track reported.
    pub fn track_reported(&mut self, title: String, artist: String) -> (e: Option<MediaEvent>)
        ensures
            ({
                let (next, changed) = track_step(last_view(old(self).last_track), title@, artist@);
                &&& last_view(final(self).last_track) == next
                &&& changed ==> (e matches Some(MediaEvent::TrackChanged { title: t, artist: a })
                    && t@ == title@ && a@ == artist@)
                &&& !changed ==> e is None
            }),
    {
        let same = match &self.last_track {
            Some((t, a)) => same_text(t.as_str(), title.as_str()) && same_text(
                a.as_str(),
                artist.as_str(),
            ),
            None => false,
        };
        if same {
            None
        } else {
            let event = MediaEvent::TrackChanged { title: title.clone(), artist: artist.clone() };
            self.last_track = Some((title, artist));
            Some(event)
        }
    }

    /// Takes one properties-changed signal and gives the events it makes:
    /// nothing, and no change, for a signal of another interface; otherwise
    /// the event of a recognised playback status, then a `TrackChanged`
    /// when the signal carries metadata of a track other than the last one.
    pub fn on_signal(&mut self, signal: PlayerSignal) -> (events: Vec<MediaEvent>)
        ensures
            ({
                let (next, notes) = signal_step(last_view(old(self).last_track), signal_model(signal));
                &&& last_view(final(self).last_track) == next
                &&& events@.map_values(|e: MediaEvent| note_of(e)) == notes
            }),
    {
        let ghost sm = signal_model(signal);
        let ghost last0 = last_view(self.last_track);
        let mut events: Vec<MediaEvent> = Vec::new();
        if !is_player_interface(signal.interface.as_str()) {
            assert(events@.map_values(|e: MediaEvent| note_of(e)) =~= Seq::<MediaNote>::empty());
            return events;
        }
        match &signal.status {
            Some(st) => match status_event(st.as_str()) {
                Some(e) => events.push(e),
                None => {},
            },
            None => {},
        }
        let ghost status_notes = status_notes(sm.status);
        assert(events@.map_values(|e: MediaEvent| note_of(e)) =~= status_notes);
        match signal.metadata {
            Some((title, artists)) => {
                let t = title_text(title);
                let a = artist_text(artists);
                let ghost before = events@;
                match self.track_reported(t, a) {
                    Some(e) => {
                        events.push(e);
                        assert(events@.map_values(|e: MediaEvent| note_of(e)) =~= before.map_values(
                            |e: MediaEvent| note_of(e),
                        ).push(MediaNote::TrackChanged(sm.metadata.unwrap().0, sm.metadata.unwrap().1)));
                    },
                    None => {},
                }
            },
            None => {},
        }
        events
    }
}

/// The same track reported twice in a row makes one `TrackChanged` event:
/// the second report is no change.
pub proof fn law_repeated_track_reported_once(
    last: Option<(Seq<char>, Seq<char>)>,
    title: Seq<char>,
    artist: Seq<char>,
)
    ensures
        ({
            let (next, _) = track_step(last, title, artist);
            track_step(next, title, artist) == (next, false)
        }),
{
}

/// The track changes reported for a stream of track reports, in order,
/// starting from the last track reported before them.
pub open spec fn track_changes(
    last: Option<(Seq<char>, Seq<char>)>,
    reports: Seq<(Seq<char>, Seq<char>)>,
) -> Seq<(Seq<char>, Seq<char>)>
    decreases reports.len(),
{
    if reports.len() == 0 {
        Seq::empty()
    } else {
        let (next, changed) = track_step(last, reports[0].0, reports[0].1);
        let rest = track_changes(next, reports.drop_first());
        if changed {
            seq![reports[0]] + rest
        } else {
            rest
        }
    }
}

/// Over a whole stream of track reports, no two track changes in a row are
/// the same track, and the first differs from the track reported before the
/// stream.
pub proof fn law_track_changes_differ(
    last: Option<(Seq<char>, Seq<char>)>,
    reports: Seq<(Seq<char>, Seq<char>)>,
)
    ensures
        ({
            let cs = track_changes(last, reports);
            &&& cs.len() > 0 ==> last != Some(cs[0])
            &&& forall|i: int| 0 <= i < cs.len() - 1 ==> #[trigger] cs[i] != cs[i + 1]
        }),
    decreases reports.len(),
{
    if reports.len() > 0 {
        let r = reports[0];
        let (next, changed) = track_step(last, r.0, r.1);
        law_track_changes_differ(next, reports.drop_first());
        let rest = track_changes(next, reports.drop_first());
        let cs = track_changes(last, reports);
        if changed {
            assert(cs == seq![r] + rest);
            assert(next == Some(r));
            assert forall|i: int| 0 <= i < cs.len() - 1 implies #[trigger] cs[i] != cs[i + 1] by {
                if i == 0 {
                    assert(cs[1] == rest[0]);
                } else {
                    assert(cs[i] == rest[i - 1] && cs[i + 1] == rest[i]);
                }
            }
        }
    }
}

/// A properties-changed signal of the media player, as read: its interface,
/// the new playback status when it carries one as text, and the new
/// metadata when it carries a readable dictionary (the title and the
/// artists, each when readable).
pub struct PlayerSignal {
    pub interface: String,
    pub status: Option<String>,
    pub metadata: Option<(Option<String>, Option<Vec<String>>)>,
}

/// An event, by its model.
pub enum MediaNote {
    Playing,
    Paused,
    Stopped,
    TrackChanged(Seq<char>, Seq<char>),
}

/// The model of an event.
pub open spec fn note_of(e: MediaEvent) -> MediaNote {
    match e {
        MediaEvent::Playing => MediaNote::Playing,
        MediaEvent::Paused => MediaNote::Paused,
        MediaEvent::Stopped => MediaNote::Stopped,
        MediaEvent::TrackChanged { title, artist } => MediaNote::TrackChanged(title@, artist@),
    }
}

/// The model of a signal: its interface, its status text, and the title and
/// artist text its metadata gives (each empty when unreadable).
pub struct SignalModel {
    pub interface: Seq<char>,
    pub status: Option<Seq<char>>,
    pub metadata: Option<(Seq<char>, Seq<char>)>,
}

/// The model of a signal.
pub open spec fn signal_model(s: PlayerSignal) -> SignalModel {
    SignalModel {
        interface: s.interface@,
        status: match s.status {
            Some(t) => Some(t@),
            None => None,
        },
        metadata: match s.metadata {
            Some((t, a)) => Some(
                (
                    match t {
                        Some(x) => x@,
                        None => Seq::empty(),
                    },
                    match a {
                        Some(v) => join_seqs(views_of(v@), ", "@),
                        None => Seq::empty(),
                    },
                ),
            ),
            None => None,
        },
    }
}

/// The events of a playback status text: one for a recognised status.
pub open spec fn status_notes(status: Option<Seq<char>>) -> Seq<MediaNote> {
    match status {
        Some(st) => match status_event_spec(st) {
            Some(e) => seq![note_of(e)],
            None => Seq::empty(),
        },
        None => Seq::empty(),
    }
}

/// The interface whose changes are read.
pub open spec fn player_interface() -> Seq<char> {
    "org.mpris.MediaPlayer2.Player"@
}

/// The last track after one signal, and the events of the signal.
pub open spec fn signal_step(last: Option<(Seq<char>, Seq<char>)>, s: SignalModel) -> (
    Option<(Seq<char>, Seq<char>)>,
    Seq<MediaNote>,
) {
    if s.interface != player_interface() {
        (last, Seq::empty())
    } else {
        match s.metadata {
            Some((t, a)) => {
                let (next, changed) = track_step(last, t, a);
                (
                    next,
                    if changed {
                        status_notes(s.status).push(MediaNote::TrackChanged(t, a))
                    } else {
                        status_notes(s.status)
                    },
                )
            },
            None => (last, status_notes(s.status)),
        }
    }
}

/// A signal of the player interface reports its playback status first,
/// whether or not it carries metadata: `Playing`, `Paused` and `Stopped`
/// each lead its events with their own event. A signal without metadata
/// leaves the last track as it was and makes exactly that one event (none
/// for any other status, or none at all).
pub proof fn law_status_is_reported(last: Option<(Seq<char>, Seq<char>)>, s: SignalModel)
    requires
        s.interface == "org.mpris.MediaPlayer2.Player"@,
    ensures
        s.status == Some("Playing"@) ==> signal_step(last, s).1.len() >= 1 && signal_step(last, s).1[0]
            == MediaNote::Playing,
        s.status == Some("Paused"@) ==> signal_step(last, s).1.len() >= 1 && signal_step(last, s).1[0]
            == MediaNote::Paused,
        s.status == Some("Stopped"@) ==> signal_step(last, s).1.len() >= 1 && signal_step(last, s).1[0]
            == MediaNote::Stopped,
        s.metadata is None ==> signal_step(last, s).0 == last,
        s.metadata is None && s.status == Some("Playing"@) ==> signal_step(last, s).1 == seq![MediaNote::Playing],
        s.metadata is None && s.status == Some("Paused"@) ==> signal_step(last, s).1 == seq![MediaNote::Paused],
        s.metadata is None && s.status == Some("Stopped"@) ==> signal_step(last, s).1 == seq![MediaNote::Stopped],
        s.metadata is None && s.status != Some("Playing"@) && s.status != Some("Paused"@) && s.status
            != Some("Stopped"@) ==> signal_step(last, s).1.len() == 0,
{
    reveal_strlit("Playing");
    reveal_strlit("Paused");
    reveal_strlit("Stopped");
    assert("Paused"@.len() != "Playing"@.len());
    assert("Paused"@.len() != "Stopped"@.len());
    assert("Stopped"@[0] != "Playing"@[0]);
    assert(status_event_spec("Playing"@) == Some(MediaEvent::Playing));
    assert(status_event_spec("Paused"@) == Some(MediaEvent::Paused));
    assert(status_event_spec("Stopped"@) == Some(MediaEvent::Stopped));
    let (next, notes) = signal_step(last, s);
    let sn = status_notes(s.status);
    if s.status == Some("Playing"@) {
        assert(sn == seq![MediaNote::Playing]);
    } else if s.status == Some("Paused"@) {
        assert(sn == seq![MediaNote::Paused]);
    } else if s.status == Some("Stopped"@) {
        assert(sn == seq![MediaNote::Stopped]);
    } else {
        assert(sn.len() == 0);
    }
    match s.metadata {
        Some((t, a)) => {
            let (n2, changed) = track_step(last, t, a);
            if changed {
                assert(notes == sn.push(MediaNote::TrackChanged(t, a)));
                if sn.len() > 0 {
                    assert(notes[0] == sn[0]);
                }
            }
        },
        None => {},
    }
}

/// A signal of the player interface with metadata remembers its track:
/// when that track differs from the last one, the signal's events end with
/// a track change to it; when it is the last one, no track change is made.
/// Either way, at most the status event comes before it.
pub proof fn law_signal_track_change(last: Option<(Seq<char>, Seq<char>)>, s: SignalModel, t: Seq<char>, a: Seq<char>)
    requires
        s.interface == "org.mpris.MediaPlayer2.Player"@,
        s.metadata == Some((t, a)),
    ensures
        signal_step(last, s).0 == Some((t, a)),
        last != Some((t, a)) ==> signal_step(last, s).1.len() >= 1 && signal_step(last, s).1.last()
            == MediaNote::TrackChanged(t, a) && signal_step(last, s).1.len() <= 2,
        last == Some((t, a)) ==> signal_step(last, s).1.len() <= 1 && forall|k: int|
            0 <= k < signal_step(last, s).1.len() ==> !(#[trigger] signal_step(last, s).1[k] is TrackChanged),
{
    let sn = status_notes(s.status);
    assert(sn.len() <= 1);
    if sn.len() == 1 {
        assert(!(sn[0] is TrackChanged));
    }
}

/// The last track after a stream of signals, and all their events in order.
pub open spec fn signal_run(last: Option<(Seq<char>, Seq<char>)>, ss: Seq<SignalModel>) -> (
    Option<(Seq<char>, Seq<char>)>,
    Seq<MediaNote>,
)
    decreases ss.len(),
{
    if ss.len() == 0 {
        (last, Seq::empty())
    } else {
        let (l1, n1) = signal_step(last, ss[0]);
        let (l2, n2) = signal_run(l1, ss.drop_first());
        (l2, n1 + n2)
    }
}

/// A signal of another interface makes no event and changes nothing: a
/// stream gives the same events, and leaves the same last track, without it.
pub proof fn law_other_interfaces_change_nothing(
    last: Option<(Seq<char>, Seq<char>)>,
    ss: Seq<SignalModel>,
    i: int,
)
    requires
        0 <= i < ss.len(),
        ss[i].interface != player_interface(),
    ensures
        signal_run(last, ss) == signal_run(last, ss.remove(i)),
    decreases i,
{
    if i == 0 {
        assert(ss.remove(0) =~= ss.drop_first());
        assert(signal_step(last, ss[0]).1 =~= Seq::<MediaNote>::empty());
    } else {
        let (l1, n1) = signal_step(last, ss[0]);
        law_other_interfaces_change_nothing(l1, ss.drop_first(), i - 1);
        assert(ss.remove(i).drop_first() =~= ss.drop_first().remove(i - 1));
        assert(ss.remove(i)[0] == ss[0]);
    }
}

/// The application whose media session is being watched.
pub struct SessionWatch {
    pub current_app: Option<String>,
}

impl SessionWatch {
    /// A watch that follows no application yet.
    pub fn new() -> (w: SessionWatch)
        ensures
            w.current_app is None,
    {
        SessionWatch { current_app: None }
    }

    /// The current session now belongs to application `app`: whether its
    /// events must be subscribed to, which is when it is another
    /// application than the one followed so far. It is followed from now on.
    pub fn session_changed(&mut self, app: Option<String>) -> (subscribe: bool)
        ensures
            subscribe == !(match (old(self).current_app, app) {
                (Some(a), Some(b)) => a@ == b@,
                (None, None) => true,
                _ => false,
            }),
            final(self).current_app == app,
    {
        let same = match (&self.current_app, &app) {
            (Some(a), Some(b)) => same_text(a.as_str(), b.as_str()),
            (None, None) => true,
            _ => false,
        };
        self.current_app = app;
        !same
    }

    /// There is no current session any more.
    pub fn session_lost(&mut self)
        ensures
            final(self).current_app is None,
    {
        self.current_app = None;
    }
}

} // verus!

//! Media module: playback state and the now-playing line.

use vstd::prelude::*;
use crate::config::ModulesConfig;
use crate::modules::Module;
use crate::text::{push_char, push_str, string_of};
use crate::utils::{truncate_string, truncated};

verus! {

/// Media playback state
#[derive(Debug, Clone, Copy, PartialEq, Eq, Structural)]
pub enum PlaybackState {
    Stopped,
    Playing,
    Paused,
}

/// The media key that a command sends to the system.
#[derive(Debug, Clone, Copy, PartialEq, Eq, Structural)]
pub enum MediaKey {
    PlayPause,
    Previous,
    Next,
}

/// A keyboard event to synthesise: the virtual-key code and whether the
/// key is released (`false`: pressed).
pub struct KeyEvent {
    pub virtual_key: u16,
    pub key_up: bool,
}

impl MediaKey {
    /// The system's virtual-key code for the key (play/pause 0xB3,
    /// previous track 0xB1, next track 0xB0).
    pub open spec fn spec_virtual_key(self) -> u16 {
        match self {
            MediaKey::PlayPause => 0xB3,
            MediaKey::Previous => 0xB1,
            MediaKey::Next => 0xB0,
        }
    }

    /// The system's virtual-key code for the key.
    pub fn virtual_key(&self) -> (vk: u16)
        ensures
            vk == self.spec_virtual_key(),
    {
        match self {
            MediaKey::PlayPause => 0xB3,
            MediaKey::Previous => 0xB1,
            MediaKey::Next => 0xB0,
        }
    }

    /// The events that send the key: a press, then a release, of the same
    /// (extended) key.
    pub fn key_events(&self) -> (r: Vec<KeyEvent>)
        ensures
            r@.len() == 2,
            r@[0] == (KeyEvent { virtual_key: self.spec_virtual_key(), key_up: false }),
            r@[1] == (KeyEvent { virtual_key: self.spec_virtual_key(), key_up: true }),
    {
        let vk = self.virtual_key();
        let mut r: Vec<KeyEvent> = Vec::new();
        r.push(KeyEvent { virtual_key: vk, key_up: false });
        r.push(KeyEvent { virtual_key: vk, key_up: true });
        r
    }
}

/// The state of a media module.
pub struct MediaView {
    pub cached_text: Seq<char>,
    pub show_now_playing: bool,
    pub show_controls: bool,
    pub max_title_length: usize,
    pub track_title: Option<Seq<char>>,
    pub track_artist: Option<Seq<char>>,
    pub track_album: Option<Seq<char>>,
    pub playback_state: PlaybackState,
}

/// Media module
pub struct MediaModule {
    cached_text: String,
    show_now_playing: bool,
    show_controls: bool,
    max_title_length: usize,
    track_title: Option<String>,
    track_artist: Option<String>,
    track_album: Option<String>,
    playback_state: PlaybackState,
}

impl View for MediaModule {
    type V = MediaView;

    closed spec fn view(&self) -> MediaView {
        MediaView {
            cached_text: self.cached_text@,
            show_now_playing: self.show_now_playing,
            show_controls: self.show_controls,
            max_title_length: self.max_title_length,
            track_title: crate::modules::network::opt_view(self.track_title),
            track_artist: crate::modules::network::opt_view(self.track_artist),
            track_album: crate::modules::network::opt_view(self.track_album),
            playback_state: self.playback_state,
        }
    }
}

/// The bar text for a media state: nothing when stopped, else the play or
/// pause glyph and, when shown, the cut title and artist.
pub open spec fn media_text(v: MediaView) -> Seq<char> {
    if v.playback_state == PlaybackState::Stopped {
        Seq::empty()
    } else {
        let icon = if v.playback_state == PlaybackState::Playing {
            "▶"@
        } else {
            "⏸"@
        };
        if v.show_now_playing && v.track_title is Some {
            let title = seq![' '] + truncated(v.track_title->0, v.max_title_length as nat);
            let artist = match v.track_artist {
                Some(a) => " - "@ + truncated(a, 20),
                None => Seq::empty(),
            };
            icon + title + artist
        } else {
            icon
        }
    }
}

/// The state that play/pause toggling moves to.
pub open spec fn toggled_playback(s: PlaybackState) -> PlaybackState {
    match s {
        PlaybackState::Playing => PlaybackState::Paused,
        PlaybackState::Paused => PlaybackState::Playing,
        PlaybackState::Stopped => PlaybackState::Playing,
    }
}

/// The word for a playback state.
pub open spec fn playback_word(s: PlaybackState) -> Seq<char> {
    match s {
        PlaybackState::Playing => "Playing"@,
        PlaybackState::Paused => "Paused"@,
        PlaybackState::Stopped => "Stopped"@,
    }
}

/// `s` followed by a line break, when present.
pub open spec fn line_of(o: Option<Seq<char>>) -> Seq<char> {
    match o {
        Some(s) => s.push('\n'),
        None => Seq::empty(),
    }
}

/// The tooltip for a media state.
pub open spec fn media_tooltip(v: MediaView) -> Seq<char> {
    if v.playback_state == PlaybackState::Stopped {
        "No media playing"@
    } else {
        line_of(v.track_title) + line_of(v.track_artist) + line_of(v.track_album) + "Status: "@
            + playback_word(v.playback_state)
    }
}

/// Everything but the cached text and the playback state is unchanged.
pub open spec fn same_track(a: MediaView, b: MediaView) -> bool {
    &&& a.show_now_playing == b.show_now_playing
    &&& a.show_controls == b.show_controls
    &&& a.max_title_length == b.max_title_length
    &&& a.track_title == b.track_title
    &&& a.track_artist == b.track_artist
    &&& a.track_album == b.track_album
}

fn push_opt_line(s: &mut String, o: &Option<String>)
    ensures
        final(s)@ == old(s)@ + line_of(crate::modules::network::opt_view(*o)),
{
    if let Some(t) = o {
        push_str(s, t.as_str());
        push_char(s, '\n');
    }
}

impl MediaModule {
    #[verifier::type_invariant]
    spec fn titles_fit(self) -> bool {
        match self.track_title {
            Some(t) => t@.len() <= self.max_title_length || self.max_title_length > 0,
            None => true,
        }
    }

    pub fn new() -> (m: MediaModule)
        ensures
            m@.cached_text == Seq::<char>::empty(),
            m@.show_now_playing,
            m@.show_controls,
            m@.max_title_length == 30,
            m@.track_title is None,
            m@.track_artist is None,
            m@.track_album is None,
            m@.playback_state == PlaybackState::Stopped,
    {
        MediaModule {
            cached_text: String::new(),
            show_now_playing: true,
            show_controls: true,
            max_title_length: 30,
            track_title: None,
            track_artist: None,
            track_album: None,
            playback_state: PlaybackState::Stopped,
        }
    }

    /// Set whether to show now playing info
    pub fn set_show_now_playing(&mut self, show: bool)
        ensures
            final(self)@ == (MediaView { show_now_playing: show, ..old(self)@ }),
    {
        proof {
            use_type_invariant(&*self);
        }
        self.show_now_playing = show;
    }

    /// Set maximum title length
    pub fn set_max_title_length(&mut self, length: usize)
        requires
            length > 0 || match old(self)@.track_title {
                Some(t) => t.len() <= length,
                None => true,
            },
        ensures
            final(self)@ == (MediaView { max_title_length: length, ..old(self)@ }),
    {
        proof {
            use_type_invariant(&*self);
        }
        self.max_title_length = length;
    }

    /// Rebuild the cached display text
    pub fn force_update(&mut self)
        ensures
            final(self)@ == (MediaView { cached_text: media_text(old(self)@), ..old(self)@ }),
    {
        proof {
            use_type_invariant(&*self);
        }
        self.cached_text = self.build_display_text();
    }

    /// Build the display text
    pub fn build_display_text(&self) -> (s: String)
        ensures
            s@ == media_text(self@),
    {
        proof {
            use_type_invariant(self);
        }
        if self.playback_state == PlaybackState::Stopped {
            return String::new();
        }
        let icon = if self.playback_state == PlaybackState::Playing {
            "▶"
        } else {
            "⏸"
        };
        let mut text = string_of(icon);
        if self.show_now_playing {
            if let Some(title) = &self.track_title {
                push_char(&mut text, ' ');
                let t = truncate_string(title.as_str(), self.max_title_length);
                push_str(&mut text, t.as_str());
                if let Some(artist) = &self.track_artist {
                    push_str(&mut text, " - ");
                    let a = truncate_string(artist.as_str(), 20);
                    push_str(&mut text, a.as_str());
                }
            }
        }
        text
    }

    /// Start playing
    pub fn play(&mut self)
        ensures
            final(self)@.playback_state == PlaybackState::Playing,
            same_track(final(self)@, old(self)@),
            final(self)@.cached_text == media_text(final(self)@),
    {
        proof {
            use_type_invariant(&*self);
        }
        self.playback_state = PlaybackState::Playing;
        self.cached_text = self.build_display_text();
    }

    /// Pause
    pub fn pause(&mut self)
        ensures
            final(self)@.playback_state == PlaybackState::Paused,
            same_track(final(self)@, old(self)@),
            final(self)@.cached_text == media_text(final(self)@),
    {
        proof {
            use_type_invariant(&*self);
        }
        self.playback_state = PlaybackState::Paused;
        self.cached_text = self.build_display_text();
    }

    /// Toggle play/pause; returns the media key to send to the system.
    pub fn toggle_playback(&mut self) -> (k: MediaKey)
        ensures
            final(self)@.playback_state == toggled_playback(old(self)@.playback_state),
            same_track(final(self)@, old(self)@),
            final(self)@.cached_text == media_text(final(self)@),
            k == MediaKey::PlayPause,
    {
        proof {
            use_type_invariant(&*self);
        }
        self.playback_state = match self.playback_state {
            PlaybackState::Playing => PlaybackState::Paused,
            PlaybackState::Paused => PlaybackState::Playing,
            PlaybackState::Stopped => PlaybackState::Playing,
        };
        self.cached_text = self.build_display_text();
        MediaKey::PlayPause
    }

    /// Previous track: the media key to send.
    pub fn previous(&self) -> (k: MediaKey)
        ensures
            k == MediaKey::Previous,
    {
        MediaKey::Previous
    }

    /// Next track: the media key to send.
    pub fn next(&self) -> (k: MediaKey)
        ensures
            k == MediaKey::Next,
    {
        MediaKey::Next
    }

    /// The key that a scroll sends: next track up, previous track down.
    pub fn on_scroll(&self, delta: i32) -> (k: MediaKey)
        ensures
            k == (if delta > 0 {
                MediaKey::Next
            } else {
                MediaKey::Previous
            }),
    {
        if delta > 0 {
            self.next()
        } else {
            self.previous()
        }
    }

    /// Get playback state
    pub fn playback_state(&self) -> (s: PlaybackState)
        ensures
            s == self@.playback_state,
    {
        self.playback_state
    }

    /// Check if anything is playing
    pub fn is_playing(&self) -> (b: bool)
        ensures
            b == (self@.playback_state == PlaybackState::Playing),
    {
        self.playback_state == PlaybackState::Playing
    }

    /// The tooltip text
    pub fn tooltip_text(&self) -> (s: String)
        ensures
            s@ == media_tooltip(self@),
    {
        if self.playback_state == PlaybackState::Stopped {
            return string_of("No media playing");
        }
        let state = match self.playback_state {
            PlaybackState::Playing => "Playing",
            PlaybackState::Paused => "Paused",
            PlaybackState::Stopped => "Stopped",
        };
        let mut t = String::new();
        push_opt_line(&mut t, &self.track_title);
        push_opt_line(&mut t, &self.track_artist);
        push_opt_line(&mut t, &self.track_album);
        push_str(&mut t, "Status: ");
        push_str(&mut t, state);
        t
    }
}

impl Module for MediaModule {
    open spec fn spec_id(&self) -> Seq<char> {
        "media"@
    }

    fn id(&self) -> (r: &str) {
        "media"
    }

    fn name(&self) -> &str {
        "Media Controls"
    }

    open spec fn spec_refreshed(&self, before: &Self, config: ModulesConfig) -> bool {
        self@ == MediaView { cached_text: media_text(before@), ..before@ }
    }

    open spec fn spec_text(&self, config: ModulesConfig) -> Seq<char> {
        self@.cached_text
    }

    open spec fn spec_tooltip(&self, r: Option<Seq<char>>) -> bool {
        r == Some(media_tooltip(self@))
    }

    open spec fn spec_visible(&self) -> bool {
        self@.playback_state != PlaybackState::Stopped
    }

    fn display_text(&self, _config: &ModulesConfig) -> (s: String) {
        self.cached_text.clone()
    }

    fn update(&mut self, _config: &ModulesConfig) {
        proof {
            use_type_invariant(&*self);
        }
        self.cached_text = self.build_display_text();
    }

    fn tooltip(&self) -> (r: Option<String>) {
        Some(self.tooltip_text())
    }

    fn is_visible(&self) -> (b: bool) {
        self.playback_state != PlaybackState::Stopped
    }

    fn preferred_width(&self) -> i32 {
        0
    }
}

} // verus!

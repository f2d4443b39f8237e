//! Application state: configuration, theme, popup menus, key handling and
//! the sample buffers that feed the visualizations.
//!
//! Everything that talks to the audio device, the terminal, the clock or the
//! file system stays with the caller; this module decides what happens.

use crate::config::{needs_restart, Config};
use crate::mode::{next_mode, next_mode_name};
use crate::ring::{keep_first, keep_latest, History, SampleRing, HISTORY_CAPACITY, RING_CAPACITY};
use crate::text::{lowercase_of, str_eq};
use crate::theme::{is_palette, theme_for, theme_name, theme_names, Theme, ThemeId};
use vstd::prelude::*;
use vstd::string::*;

verus! {

/// Number of latest samples the level meters look at.
pub const METRICS_WINDOW: usize = 1024;

/// Which popups are open and which entry each list has selected.
#[derive(Clone, Copy, Debug, PartialEq, Eq, Structural)]
pub struct MenuState {
    pub show_help: bool,
    pub show_device_select: bool,
    pub show_theme_select: bool,
    pub device_selected: Option<usize>,
    pub theme_selected: Option<usize>,
}

/// A key press, as far as the application distinguishes keys.
#[derive(Clone, Copy, Debug, PartialEq, Eq, Structural)]
pub enum Key {
    Esc,
    Up,
    Down,
    Enter,
    Tab,
    F(u8),
    Char(char),
    Other,
}

/// What the caller has to do after a state change.
#[derive(Clone, Copy, Debug, PartialEq, Eq, Structural)]
pub enum KeyAction {
    /// Nothing beyond redrawing.
    Nothing,
    /// Leave the program.
    Quit,
    /// Write the configuration file.
    Save,
    /// Restart audio capture with the configured device and source, then save.
    RestartAudioAndSave,
    /// Fetch the current device list and pass it to `App::open_device_select`.
    ListDevices,
}

/// The popup drawn on top of the visualization.
#[derive(Clone, Copy, Debug, PartialEq, Eq, Structural)]
pub enum Popup {
    NoPopup,
    Help,
    DeviceList,
    ThemeList,
}

/// The popup to draw: help before the device list before the theme list.
pub open spec fn popup_of(m: MenuState) -> Popup {
    if m.show_help {
        Popup::Help
    } else if m.show_device_select {
        Popup::DeviceList
    } else if m.show_theme_select {
        Popup::ThemeList
    } else {
        Popup::NoPopup
    }
}

/// The popup to draw for `menu` (see `popup_of`).
pub fn active_popup(menu: &MenuState) -> (p: Popup)
    ensures
        p == popup_of(*menu),
{
    if menu.show_help {
        Popup::Help
    } else if menu.show_device_select {
        Popup::DeviceList
    } else if menu.show_theme_select {
        Popup::ThemeList
    } else {
        Popup::NoPopup
    }
}

/// No two popups are open at once.
pub open spec fn at_most_one_popup(m: MenuState) -> bool {
    &&& !(m.show_help && m.show_device_select)
    &&& !(m.show_help && m.show_theme_select)
    &&& !(m.show_device_select && m.show_theme_select)
}

/// All popups closed, nothing selected.
pub open spec fn closed_menu() -> MenuState {
    MenuState {
        show_help: false,
        show_device_select: false,
        show_theme_select: false,
        device_selected: None,
        theme_selected: None,
    }
}

/// The entry below `sel` in a list of `len` entries, wrapping to the top; with
/// nothing selected, the first entry.
pub open spec fn next_index(sel: Option<usize>, len: nat) -> usize {
    match sel {
        Some(i) => if i >= len - 1 { 0 } else { (i + 1) as usize },
        None => 0,
    }
}

/// The entry above `sel` in a list of `len` entries, wrapping to the bottom;
/// with nothing selected, the first entry.
pub open spec fn prev_index(sel: Option<usize>, len: nat) -> usize {
    match sel {
        Some(i) => if i == 0 { (len - 1) as usize } else { (i - 1) as usize },
        None => 0,
    }
}

/// Moving down then up, or up then down, returns to a valid selection.
pub proof fn lemma_next_prev_inverse(i: usize, len: nat)
    requires
        i < len,
        len <= usize::MAX,
    ensures
        prev_index(Some(next_index(Some(i), len)), len) == i,
        next_index(Some(prev_index(Some(i), len)), len) == i,
{
}

/// Moving down `len` times from a valid selection returns to it.
pub proof fn lemma_next_cycles(i: usize, len: nat, k: nat)
    requires
        i < len,
        len <= usize::MAX,
    ensures
        repeat_next(i, len, k) == (i + k) % (len as int),
    decreases k,
{
    if k > 0 {
        lemma_next_cycles(i, len, (k - 1) as nat);
        let j = repeat_next(i, len, (k - 1) as nat);
        assert(j == (i + k - 1) % (len as int));
        assert((i + k - 1) % (len as int) + 1 == len ==> (i + k) % (len as int) == 0) by (nonlinear_arith)
            requires len > 0, 0 <= i, k >= 1;
        assert((i + k - 1) % (len as int) + 1 < len ==> (i + k) % (len as int) == (i + k - 1) % (len as int) + 1)
            by (nonlinear_arith)
            requires len > 0, 0 <= i, k >= 1;
        assert(0 <= (i + k - 1) % (len as int) < len) by (nonlinear_arith)
            requires len > 0;
    } else {
        assert((i as int) % (len as int) == i as int) by (nonlinear_arith)
            requires 0 <= i < len;
    }
}

/// The selection after moving down `k` times from entry `i`.
pub open spec fn repeat_next(i: usize, len: nat, k: nat) -> usize
    decreases k,
{
    if k == 0 {
        i
    } else {
        next_index(Some(repeat_next(i, len, (k - 1) as nat)), len)
    }
}

/// The characters of each string of a list.
pub open spec fn views(v: Seq<String>) -> Seq<Seq<char>> {
    v.map_values(|s: String| s@)
}

/// `r` is where `x` first occurs in `list`, or 0 when it does not occur.
pub open spec fn first_position(list: Seq<Seq<char>>, x: Seq<char>, r: int) -> bool {
    if exists|i: int| 0 <= i < list.len() && list[i] == x {
        &&& 0 <= r < list.len()
        &&& list[r] == x
        &&& forall|j: int| 0 <= j < r ==> list[j] != x
    } else {
        r == 0
    }
}

/// Where `x` first occurs in `list`, or 0 when it does not occur.
pub fn position_or_first(list: &Vec<String>, x: &str) -> (r: usize)
    ensures
        first_position(views(list@), x@, r as int),
{
    let mut i: usize = 0;
    while i < list.len()
        invariant
            i <= list@.len(),
            forall|j: int| 0 <= j < i ==> list@[j]@ != x@,
        decreases list.len() - i,
    {
        if str_eq(list[i].as_str(), x) {
            proof {
                assert(views(list@)[i as int] == list@[i as int]@);
                assert forall|j: int| 0 <= j < i implies views(list@)[j] != x@ by {
                    assert(views(list@)[j] == list@[j]@);
                }
            }
            return i;
        }
        i = i + 1;
    }
    proof {
        assert forall|j: int| 0 <= j < views(list@).len() implies views(list@)[j] != x@ by {
            assert(views(list@)[j] == list@[j]@);
        }
    }
    0
}

/// The visualizer's state.
pub struct App<S> {
    pub config: Config,
    pub theme: Theme,
    pub themes: Vec<String>,
    pub audio_devices: Vec<String>,
    pub menu: MenuState,
    pub waterfall_history: History<Vec<S>>,
    pub left_channel_ring: SampleRing<S>,
    pub right_channel_ring: SampleRing<S>,
    pub mono_channel_ring: SampleRing<S>,
    /// The sample the channel buffers are refilled with on a restart.
    pub silence: S,
}

impl<S> App<S> {
    /// The theme list is the built-in one.
    pub open spec fn wf(&self) -> bool {
        &&& self.themes@.len() == 6
        &&& views(self.themes@) == seq![
            theme_name(ThemeId::TokyoNight),
            theme_name(ThemeId::Catppuccin),
            theme_name(ThemeId::Gruvbox),
            theme_name(ThemeId::Nord),
            theme_name(ThemeId::Dracula),
            theme_name(ThemeId::Everforest),
        ]
    }

    /// Latest left-channel samples, oldest first.
    pub open spec fn left_view(&self) -> Seq<S> {
        self.left_channel_ring.view()
    }

    /// Latest right-channel samples, oldest first.
    pub open spec fn right_view(&self) -> Seq<S> {
        self.right_channel_ring.view()
    }

    /// Latest mono samples, oldest first.
    pub open spec fn mono_view(&self) -> Seq<S> {
        self.mono_channel_ring.view()
    }

    /// The sample the buffers are refilled with on a restart.
    pub open spec fn silence_view(&self) -> S {
        self.silence
    }
}

/// A full buffer of silence.
pub open spec fn silent<S>(s: S) -> Seq<S> {
    Seq::new(RING_CAPACITY as nat, |i: int| s)
}

/// The sample buffers of `new` are those of `old`.
pub open spec fn buffers_kept<S>(old: App<S>, new: App<S>) -> bool {
    &&& new.left_view() == old.left_view()
    &&& new.right_view() == old.right_view()
    &&& new.mono_view() == old.mono_view()
    &&& new.silence_view() == old.silence_view()
}

/// The sample buffers of `new` are full of `old`'s silence.
pub open spec fn buffers_reset<S>(old: App<S>, new: App<S>) -> bool {
    &&& new.left_view() == silent(old.silence_view())
    &&& new.right_view() == silent(old.silence_view())
    &&& new.mono_view() == silent(old.silence_view())
    &&& new.silence_view() == old.silence_view()
}

/// `new` differs from `old` at most in its menu.
pub open spec fn only_menu_changed<S>(old: App<S>, new: App<S>) -> bool {
    &&& new.config == old.config
    &&& new.theme == old.theme
    &&& new.themes == old.themes
    &&& new.audio_devices == old.audio_devices
    &&& new.waterfall_history == old.waterfall_history
    &&& buffers_kept(old, new)
}

/// Moving the selection down in the open list.
pub open spec fn next_post<S>(old: App<S>, new: App<S>) -> bool {
    &&& only_menu_changed(old, new)
    &&& if old.menu.show_device_select {
        new.menu == MenuState {
            device_selected: Some(next_index(old.menu.device_selected, old.audio_devices@.len())),
            ..old.menu
        }
    } else if old.menu.show_theme_select {
        new.menu == MenuState {
            theme_selected: Some(next_index(old.menu.theme_selected, old.themes@.len())),
            ..old.menu
        }
    } else {
        new.menu == old.menu
    }
}

/// Moving the selection up in the open list.
pub open spec fn prev_post<S>(old: App<S>, new: App<S>) -> bool {
    &&& only_menu_changed(old, new)
    &&& if old.menu.show_device_select {
        new.menu == MenuState {
            device_selected: Some(prev_index(old.menu.device_selected, old.audio_devices@.len())),
            ..old.menu
        }
    } else if old.menu.show_theme_select {
        new.menu == MenuState {
            theme_selected: Some(prev_index(old.menu.theme_selected, old.themes@.len())),
            ..old.menu
        }
    } else {
        new.menu == old.menu
    }
}

/// Closing every popup.
pub open spec fn close_post<S>(old: App<S>, new: App<S>) -> bool {
    &&& only_menu_changed(old, new)
    &&& new.menu == MenuState {
        show_help: false,
        show_device_select: false,
        show_theme_select: false,
        ..old.menu
    }
}

/// Opening the theme list at the current theme.
pub open spec fn theme_select_post<S>(old: App<S>, new: App<S>) -> bool {
    &&& only_menu_changed(old, new)
    &&& new.menu.show_theme_select
    &&& !new.menu.show_help
    &&& !new.menu.show_device_select
    &&& new.menu.device_selected == old.menu.device_selected
    &&& new.menu.theme_selected matches Some(i) && first_position(views(old.themes@), old.config.theme.name@, i as int)
}

/// Confirming the selection of the open list: a valid device entry becomes the
/// configured device and the buffers restart; a valid theme entry becomes the
/// configured and active theme; the list closes either way.
pub open spec fn confirm_post<S>(old: App<S>, new: App<S>, action: KeyAction) -> bool {
    &&& new.themes == old.themes
    &&& new.audio_devices == old.audio_devices
    &&& new.waterfall_history == old.waterfall_history
    &&& if old.menu.show_device_select {
        &&& new.menu == MenuState { show_device_select: false, ..old.menu }
        &&& new.theme == old.theme
        &&& if old.menu.device_selected is Some && old.menu.device_selected->0 < old.audio_devices@.len() {
            &&& new.config.audio.device == old.audio_devices@[old.menu.device_selected->0 as int]
            &&& new.config.audio.source == old.config.audio.source
            &&& new.config.visualizer == old.config.visualizer
            &&& new.config.theme == old.config.theme
            &&& new.config.physics == old.config.physics
            &&& buffers_reset(old, new)
            &&& action == KeyAction::RestartAudioAndSave
        } else {
            &&& new.config == old.config
            &&& buffers_kept(old, new)
            &&& action == KeyAction::Nothing
        }
    } else if old.menu.show_theme_select {
        &&& new.menu == MenuState { show_theme_select: false, ..old.menu }
        &&& buffers_kept(old, new)
        &&& if old.menu.theme_selected is Some && old.menu.theme_selected->0 < old.themes@.len() {
            &&& new.config.theme.name == old.themes@[old.menu.theme_selected->0 as int]
            &&& new.config.audio == old.config.audio
            &&& new.config.visualizer == old.config.visualizer
            &&& new.config.physics == old.config.physics
            &&& is_palette(new.theme, theme_for(lowercase_of(old.themes@[old.menu.theme_selected->0 as int]@)))
            &&& action == KeyAction::Save
        } else {
            &&& new.config == old.config
            &&& new.theme == old.theme
            &&& action == KeyAction::Nothing
        }
    } else {
        &&& new == old
        &&& action == KeyAction::Nothing
    }
}

/// The source the S key switches to: microphone from loopback, loopback from
/// anything else.
pub open spec fn toggled_source(source: Seq<char>) -> Seq<char> {
    if source == "loopback"@ {
        "mic"@
    } else {
        "loopback"@
    }
}

/// Switching the capture source to `target`: when it differs from the current
/// source the source changes, the buffers restart and capture must restart;
/// otherwise nothing happens.
pub open spec fn source_post<S>(old: App<S>, target: Seq<char>, new: App<S>, action: KeyAction) -> bool {
    if old.config.audio.source@ == target {
        new == old && action == KeyAction::Nothing
    } else {
        &&& new.config.audio.source@ == target
        &&& new.config.audio.device == old.config.audio.device
        &&& new.config.visualizer == old.config.visualizer
        &&& new.config.theme == old.config.theme
        &&& new.config.physics == old.config.physics
        &&& new.theme == old.theme
        &&& new.themes == old.themes
        &&& new.audio_devices == old.audio_devices
        &&& new.menu == old.menu
        &&& new.waterfall_history == old.waterfall_history
        &&& buffers_reset(old, new)
        &&& action == KeyAction::RestartAudioAndSave
    }
}

/// The effect of a key press: popup lists take the arrows, Enter and Esc; the
/// help popup takes Esc, F1 and `q`; otherwise `q` quits, Tab cycles the mode,
/// `t` opens the theme list, `d` asks for the device list, `s` switches between
/// loopback and microphone, `1` selects loopback, `2` selects the microphone,
/// `p` toggles the side panel and F1 opens the help.
pub open spec fn key_post<S>(old: App<S>, key: Key, new: App<S>, action: KeyAction) -> bool {
    if old.menu.show_device_select || old.menu.show_theme_select {
        match key {
            Key::Esc => close_post(old, new) && action == KeyAction::Nothing,
            Key::Up => prev_post(old, new) && action == KeyAction::Nothing,
            Key::Down => next_post(old, new) && action == KeyAction::Nothing,
            Key::Enter => confirm_post(old, new, action),
            _ => new == old && action == KeyAction::Nothing,
        }
    } else if old.menu.show_help {
        match key {
            Key::Esc => close_post(old, new) && action == KeyAction::Nothing,
            Key::F(1) => close_post(old, new) && action == KeyAction::Nothing,
            Key::Char('q') => new == old && action == KeyAction::Quit,
            Key::Char('Q') => new == old && action == KeyAction::Quit,
            _ => new == old && action == KeyAction::Nothing,
        }
    } else {
        match key {
            Key::Char('q') => new == old && action == KeyAction::Quit,
            Key::Char('Q') => new == old && action == KeyAction::Quit,
            Key::Tab => {
                &&& new.config.visualizer.mode@ == next_mode_name(old.config.visualizer.mode@)
                &&& new.config.visualizer.fps == old.config.visualizer.fps
                &&& new.config.visualizer.bar_count == old.config.visualizer.bar_count
                &&& new.config.visualizer.sensitivity_bits == old.config.visualizer.sensitivity_bits
                &&& new.config.visualizer.show_side_panel == old.config.visualizer.show_side_panel
                &&& new.config.audio == old.config.audio
                &&& new.config.theme == old.config.theme
                &&& new.config.physics == old.config.physics
                &&& new.theme == old.theme
                &&& new.themes == old.themes
                &&& new.audio_devices == old.audio_devices
                &&& new.menu == old.menu
                &&& new.waterfall_history == old.waterfall_history
                &&& buffers_kept(old, new)
                &&& action == KeyAction::Save
            },
            Key::Char('t') => theme_select_post(old, new) && action == KeyAction::Nothing,
            Key::Char('T') => theme_select_post(old, new) && action == KeyAction::Nothing,
            Key::Char('s') => source_post(old, toggled_source(old.config.audio.source@), new, action),
            Key::Char('S') => source_post(old, toggled_source(old.config.audio.source@), new, action),
            Key::Char('1') => source_post(old, "loopback"@, new, action),
            Key::Char('2') => source_post(old, "mic"@, new, action),
            Key::Char('d') => new == old && action == KeyAction::ListDevices,
            Key::Char('D') => new == old && action == KeyAction::ListDevices,
            Key::Char('p') | Key::Char('P') => {
                &&& new.config.visualizer.show_side_panel == !old.config.visualizer.show_side_panel
                &&& new.config.visualizer.mode == old.config.visualizer.mode
                &&& new.config.visualizer.fps == old.config.visualizer.fps
                &&& new.config.visualizer.bar_count == old.config.visualizer.bar_count
                &&& new.config.visualizer.sensitivity_bits == old.config.visualizer.sensitivity_bits
                &&& new.config.audio == old.config.audio
                &&& new.config.theme == old.config.theme
                &&& new.config.physics == old.config.physics
                &&& new.theme == old.theme
                &&& new.themes == old.themes
                &&& new.audio_devices == old.audio_devices
                &&& new.menu == old.menu
                &&& new.waterfall_history == old.waterfall_history
                &&& buffers_kept(old, new)
                &&& action == KeyAction::Save
            },
            Key::F(1) => {
                &&& only_menu_changed(old, new)
                &&& new.menu == MenuState { show_help: true, ..old.menu }
                &&& action == KeyAction::Nothing
            },
            _ => new == old && action == KeyAction::Nothing,
        }
    }
}

/// A key press that the state can take without an arrow key running through an
/// empty device list.
pub open spec fn key_allowed<S>(app: App<S>, key: Key) -> bool {
    (key == Key::Up || key == Key::Down) && app.menu.show_device_select && app.menu.device_selected is Some
        ==> app.audio_devices@.len() > 0
}

impl<S: Copy> App<S> {
    /// The state at start-up: `config` and its theme, the built-in theme list,
    /// the given device list, no popup, channel buffers full of `silence`, and
    /// an empty spectrogram history.
    pub fn new(config: Config, audio_devices: Vec<String>, silence: S) -> (app: Self)
        ensures
            app.wf(),
            app.config == config,
            is_palette(app.theme, theme_for(lowercase_of(config.theme.name@))),
            app.audio_devices == audio_devices,
            app.menu == closed_menu(),
            app.left_view() == silent(silence),
            app.right_view() == silent(silence),
            app.mono_view() == silent(silence),
            app.silence == silence,
            app.waterfall_history.view() == Seq::<Vec<S>>::empty(),
    {
        let theme = Theme::from_name(config.theme.name.as_str());
        let themes = theme_names();
        let app = App {
            config,
            theme,
            themes,
            audio_devices,
            menu: MenuState {
                show_help: false,
                show_device_select: false,
                show_theme_select: false,
                device_selected: None,
                theme_selected: None,
            },
            waterfall_history: History::new(),
            left_channel_ring: SampleRing::filled(silence),
            right_channel_ring: SampleRing::filled(silence),
            mono_channel_ring: SampleRing::filled(silence),
            silence,
        };
        proof {
            assert(views(app.themes@) =~= seq![
                theme_name(ThemeId::TokyoNight),
                theme_name(ThemeId::Catppuccin),
                theme_name(ThemeId::Gruvbox),
                theme_name(ThemeId::Nord),
                theme_name(ThemeId::Dracula),
                theme_name(ThemeId::Everforest),
            ]);
        }
        app
    }

    /// Refills the three channel buffers with silence, as after a capture restart.
    pub fn reset_sample_buffers(&mut self)
        ensures
            final(self).config == old(self).config,
            final(self).theme == old(self).theme,
            final(self).themes == old(self).themes,
            final(self).audio_devices == old(self).audio_devices,
            final(self).menu == old(self).menu,
            final(self).waterfall_history == old(self).waterfall_history,
            buffers_reset(*old(self), *final(self)),
    {
        self.left_channel_ring = SampleRing::filled(self.silence);
        self.right_channel_ring = SampleRing::filled(self.silence);
        self.mono_channel_ring = SampleRing::filled(self.silence);
    }

    /// Takes over a changed configuration: the new settings and their theme
    /// apply, and when the device or the source changed the buffers restart and
    /// `true` tells the caller to restart capture.
    pub fn apply_new_config(&mut self, new_config: Config) -> (restart: bool)
        ensures
            restart == needs_restart(old(self).config, new_config),
            old(self).config.audio.device@ != new_config.audio.device@ ==> restart,
            old(self).config.audio.source@ != new_config.audio.source@ ==> restart,
            final(self).config == new_config,
            is_palette(final(self).theme, theme_for(lowercase_of(new_config.theme.name@))),
            final(self).themes == old(self).themes,
            final(self).audio_devices == old(self).audio_devices,
            final(self).menu == old(self).menu,
            final(self).waterfall_history == old(self).waterfall_history,
            restart ==> buffers_reset(*old(self), *final(self)),
            !restart ==> buffers_kept(*old(self), *final(self)),
    {
        let same_device = str_eq(self.config.audio.device.as_str(), new_config.audio.device.as_str());
        let same_source = str_eq(self.config.audio.source.as_str(), new_config.audio.source.as_str());
        self.theme = Theme::from_name(new_config.theme.name.as_str());
        self.config = new_config;
        let restart = !same_device || !same_source;
        if restart {
            self.reset_sample_buffers();
        }
        restart
    }

    /// Appends one frame (left, right and mono sample) to the channel buffers.
    pub fn push_frame(&mut self, left: S, right: S, mono: S)
        ensures
            final(self).left_view() == keep_latest(old(self).left_view().push(left), RING_CAPACITY as nat),
            final(self).right_view() == keep_latest(old(self).right_view().push(right), RING_CAPACITY as nat),
            final(self).mono_view() == keep_latest(old(self).mono_view().push(mono), RING_CAPACITY as nat),
            final(self).silence == old(self).silence,
            final(self).config == old(self).config,
            final(self).theme == old(self).theme,
            final(self).themes == old(self).themes,
            final(self).audio_devices == old(self).audio_devices,
            final(self).menu == old(self).menu,
            final(self).waterfall_history == old(self).waterfall_history,
    {
        self.left_channel_ring.push(left);
        self.right_channel_ring.push(right);
        self.mono_channel_ring.push(mono);
    }

    /// The latest `min(count, available)` mono samples, oldest first.
    pub fn get_mono_samples(&self, count: usize) -> (r: Vec<S>)
        ensures
            r@ == self.mono_view().skip(self.mono_view().len() - if count < self.mono_view().len() { count as int } else { self.mono_view().len() as int }),
    {
        self.mono_channel_ring.latest(count)
    }

    /// The latest `min(count, available)` left-channel samples, oldest first.
    pub fn get_left_samples(&self, count: usize) -> (r: Vec<S>)
        ensures
            r@ == self.left_view().skip(self.left_view().len() - if count < self.left_view().len() { count as int } else { self.left_view().len() as int }),
    {
        self.left_channel_ring.latest(count)
    }

    /// The latest `min(count, available)` right-channel samples, oldest first.
    pub fn get_right_samples(&self, count: usize) -> (r: Vec<S>)
        ensures
            r@ == self.right_view().skip(self.right_view().len() - if count < self.right_view().len() { count as int } else { self.right_view().len() as int }),
    {
        self.right_channel_ring.latest(count)
    }

    /// The samples the left and right level meters measure: the latest
    /// `min(METRICS_WINDOW, left length, right length)` of each channel.
    pub fn stereo_window(&self) -> (r: (Vec<S>, Vec<S>))
        ensures
            ({
                let ll = self.left_view().len() as int;
                let rl = self.right_view().len() as int;
                let c = if ll < rl { if ll < METRICS_WINDOW { ll } else { METRICS_WINDOW as int } } else { if rl
                    < METRICS_WINDOW { rl } else { METRICS_WINDOW as int } };
                &&& r.0@ == self.left_view().skip(ll - c)
                &&& r.1@ == self.right_view().skip(rl - c)
            }),
    {
        let ll = self.left_channel_ring.len();
        let rl = self.right_channel_ring.len();
        let shorter = if ll < rl { ll } else { rl };
        let count = if shorter < METRICS_WINDOW { shorter } else { METRICS_WINDOW };
        (self.left_channel_ring.latest(count), self.right_channel_ring.latest(count))
    }

    /// Puts the newest spectrum frame on top of the spectrogram history.
    pub fn record_spectrum(&mut self, frame: Vec<S>)
        ensures
            final(self).waterfall_history.view() == keep_first(seq![frame] + old(self).waterfall_history.view(), HISTORY_CAPACITY as nat),
            final(self).config == old(self).config,
            final(self).theme == old(self).theme,
            final(self).themes == old(self).themes,
            final(self).audio_devices == old(self).audio_devices,
            final(self).menu == old(self).menu,
            buffers_kept(*old(self), *final(self)),
    {
        self.waterfall_history.push_newest(frame);
    }
}

impl<S: Copy> App<S> {
    /// Opens the device list with `devices` as its entries, selecting
    /// `current_device` when it is listed and the first entry otherwise; the
    /// other popups close.
    pub fn open_device_select(&mut self, devices: Vec<String>, current_device: &str)
        ensures
            final(self).audio_devices == devices,
            final(self).menu.show_device_select,
            !final(self).menu.show_help,
            !final(self).menu.show_theme_select,
            final(self).menu.theme_selected == old(self).menu.theme_selected,
            final(self).menu.device_selected matches Some(i) && first_position(views(devices@), current_device@, i as int),
            final(self).config == old(self).config,
            final(self).theme == old(self).theme,
            final(self).themes == old(self).themes,
            final(self).waterfall_history == old(self).waterfall_history,
            buffers_kept(*old(self), *final(self)),
    {
        let idx = position_or_first(&devices, current_device);
        self.audio_devices = devices;
        self.menu.show_device_select = true;
        self.menu.show_help = false;
        self.menu.show_theme_select = false;
        self.menu.device_selected = Some(idx);
    }

    /// Opens the theme list at the configured theme (the first entry when the
    /// configured name is not listed); the other popups close.
    pub fn open_theme_select(&mut self)
        ensures
            theme_select_post(*old(self), *final(self)),
    {
        let idx = position_or_first(&self.themes, self.config.theme.name.as_str());
        self.menu.show_theme_select = true;
        self.menu.show_help = false;
        self.menu.show_device_select = false;
        self.menu.theme_selected = Some(idx);
    }

    /// Moves the selection of the open list down one entry, wrapping to the top.
    pub fn menu_next(&mut self)
        requires
            old(self).wf(),
            old(self).menu.show_device_select && old(self).menu.device_selected is Some ==> old(
                self,
            ).audio_devices@.len() > 0,
        ensures
            next_post(*old(self), *final(self)),
    {
        if self.menu.show_device_select {
            let i = match self.menu.device_selected {
                Some(i) => if i >= self.audio_devices.len() - 1 { 0 } else { i + 1 },
                None => 0,
            };
            self.menu.device_selected = Some(i);
        } else if self.menu.show_theme_select {
            let i = match self.menu.theme_selected {
                Some(i) => if i >= self.themes.len() - 1 { 0 } else { i + 1 },
                None => 0,
            };
            self.menu.theme_selected = Some(i);
        }
    }

    /// Moves the selection of the open list up one entry, wrapping to the bottom.
    pub fn menu_prev(&mut self)
        requires
            old(self).wf(),
            old(self).menu.show_device_select && old(self).menu.device_selected is Some ==> old(
                self,
            ).audio_devices@.len() > 0,
        ensures
            prev_post(*old(self), *final(self)),
    {
        if self.menu.show_device_select {
            let i = match self.menu.device_selected {
                Some(i) => if i == 0 { self.audio_devices.len() - 1 } else { i - 1 },
                None => 0,
            };
            self.menu.device_selected = Some(i);
        } else if self.menu.show_theme_select {
            let i = match self.menu.theme_selected {
                Some(i) => if i == 0 { self.themes.len() - 1 } else { i - 1 },
                None => 0,
            };
            self.menu.theme_selected = Some(i);
        }
    }

    /// Confirms the selection of the open list (see `confirm_post`).
    pub fn menu_confirm(&mut self) -> (action: KeyAction)
        ensures
            confirm_post(*old(self), *final(self), action),
    {
        if self.menu.show_device_select {
            let mut action = KeyAction::Nothing;
            if let Some(idx) = self.menu.device_selected {
                if idx < self.audio_devices.len() {
                    let selected_device = self.audio_devices[idx].clone();
                    self.config.audio.device = selected_device;
                    self.reset_sample_buffers();
                    action = KeyAction::RestartAudioAndSave;
                }
            }
            self.menu.show_device_select = false;
            action
        } else if self.menu.show_theme_select {
            let mut action = KeyAction::Nothing;
            if let Some(idx) = self.menu.theme_selected {
                if idx < self.themes.len() {
                    let selected_theme = self.themes[idx].clone();
                    self.theme = Theme::from_name(selected_theme.as_str());
                    self.config.theme.name = selected_theme;
                    action = KeyAction::Save;
                }
            }
            self.menu.show_theme_select = false;
            action
        } else {
            KeyAction::Nothing
        }
    }

    /// Switches the capture source to `target` (see `source_post`).
    pub fn switch_source(&mut self, target: &str) -> (action: KeyAction)
        ensures
            source_post(*old(self), target@, *final(self), action),
    {
        if str_eq(self.config.audio.source.as_str(), target) {
            KeyAction::Nothing
        } else {
            self.config.audio.source = String::from_str(target);
            self.reset_sample_buffers();
            KeyAction::RestartAudioAndSave
        }
    }

    /// Closes every popup.
    pub fn menu_close(&mut self)
        ensures
            close_post(*old(self), *final(self)),
    {
        self.menu.show_help = false;
        self.menu.show_device_select = false;
        self.menu.show_theme_select = false;
    }

    /// Reacts to a key press (see `key_post`).
    pub fn handle_key(&mut self, key: Key) -> (action: KeyAction)
        requires
            old(self).wf(),
            key_allowed(*old(self), key),
        ensures
            key_post(*old(self), key, *final(self), action),
            !old(self).menu.show_device_select && !old(self).menu.show_theme_select
                && (key == Key::Char('q') || key == Key::Char('Q')) ==> action == KeyAction::Quit
                && *final(self) == *old(self),
    {
        if self.menu.show_device_select || self.menu.show_theme_select {
            match key {
                Key::Esc => {
                    self.menu_close();
                    KeyAction::Nothing
                },
                Key::Up => {
                    self.menu_prev();
                    KeyAction::Nothing
                },
                Key::Down => {
                    self.menu_next();
                    KeyAction::Nothing
                },
                Key::Enter => self.menu_confirm(),
                _ => KeyAction::Nothing,
            }
        } else if self.menu.show_help {
            match key {
                Key::Esc => {
                    self.menu_close();
                    KeyAction::Nothing
                },
                Key::F(1) => {
                    self.menu_close();
                    KeyAction::Nothing
                },
                Key::Char('q') | Key::Char('Q') => KeyAction::Quit,
                _ => KeyAction::Nothing,
            }
        } else {
            match key {
                Key::Char('q') | Key::Char('Q') => KeyAction::Quit,
                Key::Tab => {
                    let next = next_mode(self.config.visualizer.mode.as_str());
                    self.config.visualizer.mode = String::from_str(next);
                    KeyAction::Save
                },
                Key::Char('t') | Key::Char('T') => {
                    self.open_theme_select();
                    KeyAction::Nothing
                },
                Key::Char('s') | Key::Char('S') => {
                    let target = if str_eq(self.config.audio.source.as_str(), "loopback") { "mic" } else { "loopback" };
                    self.switch_source(target)
                },
                Key::Char('1') => self.switch_source("loopback"),
                Key::Char('2') => self.switch_source("mic"),
                Key::Char('d') | Key::Char('D') => KeyAction::ListDevices,
                Key::Char('p') | Key::Char('P') => {
                    self.config.visualizer.show_side_panel = !self.config.visualizer.show_side_panel;
                    KeyAction::Save
                },
                Key::F(1) => {
                    self.menu.show_help = true;
                    KeyAction::Nothing
                },
                _ => KeyAction::Nothing,
            }
        }
    }
}

/// Every key press keeps at most one popup open.
pub proof fn lemma_key_keeps_single_popup<S>(old: App<S>, key: Key, new: App<S>, action: KeyAction)
    requires
        at_most_one_popup(old.menu),
        key_post(old, key, new, action),
    ensures
        at_most_one_popup(new.menu),
{
}

/// In an open list with a valid selection, moving down and then up (or up and
/// then down) gives back the same state.
pub proof fn lemma_down_up_returns<S>(a: App<S>, b: App<S>, c: App<S>)
    requires
        a.wf(),
        a.menu.show_device_select ==> (a.menu.device_selected matches Some(i) && i < a.audio_devices@.len()),
        !a.menu.show_device_select && a.menu.show_theme_select ==> (a.menu.theme_selected matches Some(i) && i < a.themes@.len()),
        (next_post(a, b) && prev_post(b, c)) || (prev_post(a, b) && next_post(b, c)),
    ensures
        c.menu == a.menu,
        only_menu_changed(a, c),
{
    assert(a.audio_devices@.len() == a.audio_devices.len());
    assert(a.themes@.len() == a.themes.len());
    if a.menu.show_device_select {
        lemma_next_prev_inverse(a.menu.device_selected->0, a.audio_devices@.len());
    } else if a.menu.show_theme_select {
        lemma_next_prev_inverse(a.menu.theme_selected->0, a.themes@.len());
    }
}

/// Switching the source twice from loopback or microphone gives it back.
pub proof fn lemma_source_toggle_twice(source: Seq<char>)
    requires
        source == "loopback"@ || source == "mic"@,
    ensures
        toggled_source(toggled_source(source)) == source,
{
    reveal_strlit("loopback");
    reveal_strlit("mic");
    assert("loopback"@.len() == 8 && "mic"@.len() == 3);
}

/// `q` and `Q` quit, leaving the state as it was, whenever no popup list is
/// open: in the main view and also while the help popup is shown.
pub proof fn lemma_quit_keys<S>(old: App<S>, key: Key, new: App<S>, action: KeyAction)
    requires
        key_post(old, key, new, action),
        !old.menu.show_device_select,
        !old.menu.show_theme_select,
        key == Key::Char('q') || key == Key::Char('Q'),
    ensures
        action == KeyAction::Quit,
        new == old,
{
}

} // verus!

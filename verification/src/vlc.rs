//! Playback through libVLC: its options, the location of the media, the order
//! in which a player is brought up, and what is given back when that fails.

use crate::native_audio::{clamp_volume, clamped_volume};
use crate::text::{joined, optional_text};
use vstd::prelude::*;
use vstd::string::*;

verus! {

/// How many characters the path of a wallpaper has at most. No platform has
/// paths nearly as long.
pub const MAX_PATH_CHARS: usize = 0x100_0000;

/// The URL of a file, under the path rules of a platform whose main separator
/// is `separator`; a path that has none, such as a relative one, gives nothing.
pub uninterp spec fn file_url(path: Seq<char>, separator: char) -> Option<Seq<char>>;

/// Whether a text can be handed over as a C string.
pub open spec fn c_string(text: Seq<char>) -> bool {
    !text.contains('\0')
}

/// Whether a character separates the parts of a path on Windows.
pub open spec fn windows_separator(c: char) -> bool {
    c == '\\' || c == '/'
}

/// Whether a path has the form of a disk followed by a root, as in `C:\a`.
pub open spec fn disk_form(path: Seq<char>) -> bool {
    path.len() >= 3 && path[1] == ':' && windows_separator(path[2])
}

/// Whether a path begins with two separators, as network paths do.
pub open spec fn network_form(path: Seq<char>) -> bool {
    path.len() >= 2 && windows_separator(path[0]) && windows_separator(path[1])
}

/// Whether a path is certainly absolute, under the path rules of a platform
/// whose main separator is `separator`.
pub open spec fn absolute_path(path: Seq<char>, separator: char) -> bool {
    ||| separator == '/' && path.len() > 0 && path[0] == '/'
    ||| separator == '\\' && disk_form(path) && ('A' <= path[0] <= 'Z' || 'a' <= path[0] <= 'z')
}

/// Whether a path is certainly not absolute, under the path rules of a platform
/// whose main separator is `separator`.
pub open spec fn relative_path(path: Seq<char>, separator: char) -> bool {
    ||| separator == '/' && !(path.len() > 0 && path[0] == '/')
    ||| separator == '\\' && !disk_form(path) && !network_form(path)
}

/// `url::Url::from_file_path` and `url::Url::as_str`, with the main separator of
/// the platform by whose path rules the URL was made. How a path is encoded is
/// left to the name. Stated beside it: the text begins with `file://`; a path
/// that begins with `/` where that separates, or with a disk and a root on
/// Windows, has a URL, in which control characters are encoded; and a path that
/// is not absolute has none. Which network paths have a URL is left to the name.
/// The bound on the path keeps the host of a network path within the lengths
/// that can be counted.
#[verifier::external_body]
fn url_of_file(path: &str) -> (found: (Option<String>, char))
    requires
        path@.len() < MAX_PATH_CHARS,
    ensures
        optional_text(found.0) == file_url(path@, found.1),
        found.0 matches Some(url) ==> "file://"@.is_prefix_of(url@),
        absolute_path(path@, found.1) ==> (found.0 matches Some(url) && c_string(url@)),
        relative_path(path@, found.1) ==> found.0 is None,
{
    match url::Url::from_file_path(std::path::Path::new(path)) {
        Ok(url) => (Some(String::from(url.as_str())), std::path::MAIN_SEPARATOR),
        Err(()) => (None, std::path::MAIN_SEPARATOR),
    }
}

fn is_c_string(text: &str) -> (ok: bool)
    ensures
        ok == c_string(text@),
{
    let len: usize = text.unicode_len();
    let mut i: usize = 0;
    while i < len
        invariant
            i <= len,
            len == text@.len(),
            forall|k: int| 0 <= k < i ==> #[trigger] text@[k] != '\0',
        decreases len - i,
    {
        if text.get_char(i) == '\0' {
            assert(text@[i as int] == '\0');
            return false;
        }
        i = i + 1;
    }
    assert(!text@.contains('\0'));
    true
}

/// Whether `location` is what libVLC is told of a file with that URL.
pub open spec fn located(url: Option<Seq<char>>, location: Result<String, String>) -> bool {
    match url {
        None => location matches Err(error) && error@
            == "Could not convert the wallpaper path to a file URI."@,
        Some(url) => if c_string(url) {
            location matches Ok(text) && text@ == url
        } else {
            location matches Err(error) && error@
                == "Wallpaper URI contains an invalid NUL byte."@
        },
    }
}

/// What libVLC is told of a file with that URL.
pub fn location_of_url(url: Option<String>) -> (location: Result<String, String>)
    ensures
        located(optional_text(url), location),
{
    match url {
        None => Err(String::from_str("Could not convert the wallpaper path to a file URI.")),
        Some(url) => {
            if is_c_string(url.as_str()) {
                Ok(url)
            } else {
                Err(String::from_str("Wallpaper URI contains an invalid NUL byte."))
            }
        },
    }
}

/// Whether `location` is what libVLC is told of the file at `path`, under the
/// path rules of a platform whose main separator is `separator`: an absolute path
/// has a location, and one that is not has none.
pub open spec fn path_located(
    path: Seq<char>,
    separator: char,
    location: Result<String, String>,
) -> bool {
    &&& located(file_url(path, separator), location)
    &&& absolute_path(path, separator) ==> location is Ok
    &&& relative_path(path, separator) ==> location is Err
}

/// What libVLC is told of the file at `path`.
pub fn media_location(path: &str) -> (location: Result<String, String>)
    requires
        path@.len() < MAX_PATH_CHARS,
    ensures
        exists|separator: char| #[trigger] path_located(path@, separator, location),
        location matches Ok(text) ==> "file://"@.is_prefix_of(text@),
{
    let (url, separator) = url_of_file(path);
    let location = location_of_url(url);
    assert(path_located(path@, separator, location));
    location
}

/// The options that libVLC starts with.
pub open spec fn option_texts(
    plugin_directory: Seq<char>,
    performance_mode: i32,
    show_video: bool,
) -> Seq<Seq<char>> {
    seq![
        "--no-video-title-show"@,
        "--no-osd"@,
        "--no-media-library"@,
        "--input-repeat=-1"@,
        "--vout=direct3d11"@,
        "--avcodec-hw=d3d11va"@,
        "--plugin-path="@ + plugin_directory,
    ] + (if performance_mode <= 1 {
        seq!["--drop-late-frames"@]
    } else {
        Seq::empty()
    }) + (if performance_mode == 0 {
        seq!["--skip-frames"@]
    } else {
        Seq::empty()
    }) + (if !show_video {
        seq!["--no-video"@]
    } else {
        Seq::empty()
    })
}

/// Texts by their contents.
pub open spec fn contents(texts: Seq<String>) -> Seq<Seq<char>> {
    texts.map_values(|text: String| text@)
}

fn push_text(texts: &mut Vec<String>, text: String)
    ensures
        contents(final(texts)@) == contents(old(texts)@).push(text@),
{
    texts.push(text);
    assert(contents(texts@) =~= contents(old(texts)@).push(text@));
}

/// The options that libVLC starts with. Frames are dropped where performance
/// counts, and there is no video where only the sound is wanted.
pub fn instance_options(plugin_directory: &str, performance_mode: i32, show_video: bool) -> (options:
    Result<Vec<String>, String>)
    ensures
        c_string("--plugin-path="@ + plugin_directory@) ==> (options matches Ok(options)
            && contents(options@) == option_texts(plugin_directory@, performance_mode, show_video)),
        !c_string("--plugin-path="@ + plugin_directory@) ==> (options matches Err(error) && error@
            == "Invalid libVLC plugin path."@),
{
    let plugin_path = joined("--plugin-path=", plugin_directory);
    if !is_c_string(plugin_path.as_str()) {
        return Err(String::from_str("Invalid libVLC plugin path."));
    }
    let mut options: Vec<String> = Vec::new();
    assert(contents(options@) =~= Seq::empty());
    push_text(&mut options, String::from_str("--no-video-title-show"));
    push_text(&mut options, String::from_str("--no-osd"));
    push_text(&mut options, String::from_str("--no-media-library"));
    push_text(&mut options, String::from_str("--input-repeat=-1"));
    push_text(&mut options, String::from_str("--vout=direct3d11"));
    push_text(&mut options, String::from_str("--avcodec-hw=d3d11va"));
    push_text(&mut options, plugin_path);
    if performance_mode <= 1 {
        push_text(&mut options, String::from_str("--drop-late-frames"));
    }
    if performance_mode == 0 {
        push_text(&mut options, String::from_str("--skip-frames"));
    }
    if !show_video {
        push_text(&mut options, String::from_str("--no-video"));
    }
    assert(contents(options@) =~= option_texts(plugin_directory@, performance_mode, show_video));
    Ok(options)
}

/// The option that lets one media item repeat without end.
pub const REPEAT_OPTION: &'static str = ":input-repeat=-1";

/// How many functions of the library are used.
pub const SYMBOL_COUNT: usize = 13;

/// The functions of the library that are used, in the order in which they are
/// looked up.
pub open spec fn symbol_text(i: usize) -> Seq<char> {
    match i {
        0 => "libvlc_new"@,
        1 => "libvlc_release"@,
        2 => "libvlc_media_new_location"@,
        3 => "libvlc_media_add_option"@,
        4 => "libvlc_media_release"@,
        5 => "libvlc_media_player_new_from_media"@,
        6 => "libvlc_media_player_release"@,
        7 => "libvlc_media_player_set_hwnd"@,
        8 => "libvlc_media_player_play"@,
        9 => "libvlc_media_player_set_pause"@,
        10 => "libvlc_media_player_stop"@,
        11 => "libvlc_audio_set_mute"@,
        _ => "libvlc_audio_set_volume"@,
    }
}

/// The name of a function of the library.
pub fn symbol_name(i: usize) -> (name: String)
    requires
        i < SYMBOL_COUNT,
    ensures
        name@ == symbol_text(i),
{
    match i {
        0 => String::from_str("libvlc_new"),
        1 => String::from_str("libvlc_release"),
        2 => String::from_str("libvlc_media_new_location"),
        3 => String::from_str("libvlc_media_add_option"),
        4 => String::from_str("libvlc_media_release"),
        5 => String::from_str("libvlc_media_player_new_from_media"),
        6 => String::from_str("libvlc_media_player_release"),
        7 => String::from_str("libvlc_media_player_set_hwnd"),
        8 => String::from_str("libvlc_media_player_play"),
        9 => String::from_str("libvlc_media_player_set_pause"),
        10 => String::from_str("libvlc_media_player_stop"),
        11 => String::from_str("libvlc_audio_set_mute"),
        _ => String::from_str("libvlc_audio_set_volume"),
    }
}

/// What a player holds of the library, by the numbers of its handles.
#[derive(Clone, Copy, Debug, PartialEq, Eq, Structural)]
pub struct VlcPlayer {
    pub module: isize,
    pub instance: usize,
    pub media: usize,
    pub player: usize,
}

/// A handle that is given back.
#[derive(Clone, Copy, Debug, PartialEq, Eq, Structural)]
pub enum Release {
    StopPlayer(usize),
    Player(usize),
    Media(usize),
    Instance(usize),
    Library(isize),
}

/// A command to a player.
#[derive(Clone, Copy, Debug, PartialEq, Eq, Structural)]
pub struct PlayerCommand {
    pub player: usize,
    pub value: i32,
}

/// What is asked of a new player.
pub struct VlcRequest {
    pub path: String,
    pub window: usize,
    pub performance_mode: i32,
    pub show_video: bool,
}

/// How far a player has been brought up.
#[derive(Clone, Copy, Debug, PartialEq, Eq, Structural)]
pub enum VlcPhase {
    /// The directory of the library is looked for.
    Runtime,
    /// The directory is made known to the loader.
    SearchPath,
    /// The library is loaded.
    Load,
    /// A function is looked up.
    Symbol { module: isize, index: usize },
    /// An instance is created.
    Instance { module: isize },
    /// The media is opened.
    Media { module: isize, instance: usize },
    /// The player is created.
    Player { module: isize, instance: usize, media: usize },
    /// The player is given its window.
    Window { player: VlcPlayer },
    /// The player plays.
    Play { player: VlcPlayer },
    /// The player is there, or will not be.
    Over,
}

/// What came of the last action.
pub enum VlcEvent {
    /// The directory of the library, by the directory of its plugins; or none.
    Runtime(Option<String>),
    /// The loader knows the directory, or why not.
    SearchPathSet(Result<(), String>),
    /// The handle of the library, or why there is none.
    Loaded(Result<isize, String>),
    /// Whether the function is there.
    Symbol(bool),
    /// The instance; zero where there is none.
    Instance(usize),
    /// The media; zero where there is none.
    Media(usize),
    /// The player; zero where there is none.
    Player(usize),
    /// The player has its window.
    WindowSet,
    /// The answer to the request to play; zero where it is accepted.
    Played(i32),
}

/// What to do next.
pub enum VlcAction {
    /// Make the directory known to the loader.
    SetSearchPath,
    /// Load the library.
    Load,
    /// Look a function up.
    FindSymbol(String),
    /// Create an instance with these options.
    CreateInstance(Vec<String>),
    /// Open the media at this location.
    OpenMedia(String),
    /// Let the media repeat, and create its player.
    CreatePlayer,
    /// Give the player its window.
    SetWindow { player: usize, window: usize },
    /// Let the player play.
    Play { player: usize },
    /// The player is there.
    Done(VlcPlayer),
    /// Give back what is listed, in that order: there will be no player.
    Fail { error: String, release: Vec<Release> },
    /// The event does not answer the last action.
    Unexpected,
}

/// What to do next, by its contents.
pub ghost enum VlcPlan {
    SetSearchPath,
    Load,
    FindSymbol(Seq<char>),
    CreateInstance(Seq<Seq<char>>),
    OpenMedia(Seq<char>),
    CreatePlayer,
    SetWindow { player: usize, window: usize },
    Play { player: usize },
    Done(VlcPlayer),
    Fail { error: Seq<char>, release: Seq<Release> },
    Unexpected,
}

impl View for VlcAction {
    type V = VlcPlan;

    open spec fn view(&self) -> VlcPlan {
        match *self {
            VlcAction::SetSearchPath => VlcPlan::SetSearchPath,
            VlcAction::Load => VlcPlan::Load,
            VlcAction::FindSymbol(name) => VlcPlan::FindSymbol(name@),
            VlcAction::CreateInstance(options) => VlcPlan::CreateInstance(contents(options@)),
            VlcAction::OpenMedia(location) => VlcPlan::OpenMedia(location@),
            VlcAction::CreatePlayer => VlcPlan::CreatePlayer,
            VlcAction::SetWindow { player, window } => VlcPlan::SetWindow { player, window },
            VlcAction::Play { player } => VlcPlan::Play { player },
            VlcAction::Done(player) => VlcPlan::Done(player),
            VlcAction::Fail { error, release } => VlcPlan::Fail {
                error: error@,
                release: release@,
            },
            VlcAction::Unexpected => VlcPlan::Unexpected,
        }
    }
}

/// A player that is brought up.
pub struct VlcStart {
    pub request: VlcRequest,
    /// The directory of the plugins, once it is known.
    pub plugin_directory: String,
    pub phase: VlcPhase,
}

/// What a player gives back when it stops.
pub open spec fn releases(player: VlcPlayer) -> Seq<Release> {
    seq![
        Release::Player(player.player),
        Release::Media(player.media),
        Release::Instance(player.instance),
        Release::Library(player.module),
    ]
}

impl VlcStart {
    /// A request whose path is not too long.
    pub open spec fn wf(&self) -> bool {
        &&& self.request.path@.len() < MAX_PATH_CHARS
        &&& self.phase matches VlcPhase::Symbol { index, .. } ==> index < SYMBOL_COUNT
    }

    /// The start after an event. An instance that could be created is another
    /// matter: then the location of the media decides.
    pub open spec fn plan(&self, event: VlcEvent) -> (VlcPhase, VlcPlan) {
        match (self.phase, event) {
            (VlcPhase::Runtime, VlcEvent::Runtime(directory)) => match directory {
                Some(_) => (VlcPhase::SearchPath, VlcPlan::SetSearchPath),
                None => fails("libVLC runtime directory is missing."@, Seq::empty()),
            },
            (VlcPhase::SearchPath, VlcEvent::SearchPathSet(result)) => match result {
                Ok(()) => (VlcPhase::Load, VlcPlan::Load),
                Err(error) => fails(
                    "Cannot configure libVLC DLL search path: "@ + error@,
                    Seq::empty(),
                ),
            },
            (VlcPhase::Load, VlcEvent::Loaded(result)) => match result {
                Ok(module) => (
                    VlcPhase::Symbol { module, index: 0 },
                    VlcPlan::FindSymbol(symbol_text(0)),
                ),
                Err(error) => fails("Cannot load libvlc.dll: "@ + error@, Seq::empty()),
            },
            (VlcPhase::Symbol { module, index }, VlcEvent::Symbol(found)) => if !found {
                fails(
                    "libVLC export '"@ + symbol_text(index) + "' is missing."@,
                    Seq::empty(),
                )
            } else if index + 1 < SYMBOL_COUNT {
                (
                    VlcPhase::Symbol { module, index: (index + 1) as usize },
                    VlcPlan::FindSymbol(symbol_text((index + 1) as usize)),
                )
            } else if !c_string("--plugin-path="@ + self.plugin_directory@) {
                fails("Invalid libVLC plugin path."@, Seq::empty())
            } else {
                (
                    VlcPhase::Instance { module },
                    VlcPlan::CreateInstance(
                        option_texts(
                            self.plugin_directory@,
                            self.request.performance_mode,
                            self.request.show_video,
                        ),
                    ),
                )
            },
            (VlcPhase::Instance { module }, VlcEvent::Instance(_)) => fails(
                "libVLC could not create a playback instance."@,
                seq![Release::Library(module)],
            ),
            (VlcPhase::Media { module, instance }, VlcEvent::Media(media)) => if media == 0 {
                fails(
                    "libVLC could not open the media URI."@,
                    seq![Release::Instance(instance), Release::Library(module)],
                )
            } else {
                (VlcPhase::Player { module, instance, media }, VlcPlan::CreatePlayer)
            },
            (
                VlcPhase::Player { module, instance, media },
                VlcEvent::Player(player),
            ) => if player == 0 {
                fails(
                    "libVLC could not create a media player."@,
                    seq![
                        Release::Media(media),
                        Release::Instance(instance),
                        Release::Library(module),
                    ],
                )
            } else if self.request.show_video {
                (
                    VlcPhase::Window { player: VlcPlayer { module, instance, media, player } },
                    VlcPlan::SetWindow { player, window: self.request.window },
                )
            } else {
                (
                    VlcPhase::Play { player: VlcPlayer { module, instance, media, player } },
                    VlcPlan::Play { player },
                )
            },
            (VlcPhase::Window { player }, VlcEvent::WindowSet) => (
                VlcPhase::Play { player },
                VlcPlan::Play { player: player.player },
            ),
            (VlcPhase::Play { player }, VlcEvent::Played(answer)) => if answer == 0 {
                (VlcPhase::Over, VlcPlan::Done(player))
            } else {
                fails("libVLC rejected the playback request."@, releases(player))
            },
            _ => (self.phase, VlcPlan::Unexpected),
        }
    }

    /// Whether an event brings the instance, so that the location of the media
    /// decides what comes next.
    pub open spec fn opens_media(&self, event: VlcEvent) -> bool {
        self.phase is Instance && (event matches VlcEvent::Instance(instance) && instance != 0)
    }

    /// The start of a player.
    pub fn new(request: VlcRequest) -> (start: Self)
        requires
            request.path@.len() < MAX_PATH_CHARS,
        ensures
            start.wf(),
            start.request == request,
            start.plugin_directory@ == ""@,
            start.phase == VlcPhase::Runtime,
    {
        VlcStart { request, plugin_directory: String::from_str(""), phase: VlcPhase::Runtime }
    }

    fn fail(&mut self, error: String, release: Vec<Release>) -> (action: VlcAction)
        ensures
            *final(self) == (VlcStart { phase: VlcPhase::Over, ..*old(self) }),
            action@ == (VlcPlan::Fail { error: error@, release: release@ }),
    {
        self.phase = VlcPhase::Over;
        VlcAction::Fail { error, release }
    }

    /// Goes on once the location of the media is known, or why there is none.
    /// A media without a location leaves the instance as it is.
    pub fn open_media(
        &mut self,
        module: isize,
        instance: usize,
        location: Result<String, String>,
    ) -> (action: VlcAction)
        ensures
            match location {
                Ok(text) => {
                    &&& action@ == VlcPlan::OpenMedia(text@)
                    &&& *final(self) == (VlcStart {
                        phase: VlcPhase::Media { module, instance },
                        ..*old(self)
                    })
                },
                Err(error) => {
                    &&& action@ == (VlcPlan::Fail { error: error@, release: Seq::empty() })
                    &&& *final(self) == (VlcStart { phase: VlcPhase::Over, ..*old(self) })
                },
            },
    {
        match location {
            Ok(text) => {
                self.phase = VlcPhase::Media { module, instance };
                VlcAction::OpenMedia(text)
            },
            Err(error) => self.fail(error, Vec::new()),
        }
    }

    /// Goes on after an event.
    pub fn start(&mut self, event: VlcEvent) -> (action: VlcAction)
        requires
            old(self).wf(),
        ensures
            final(self).wf(),
            final(self).request == old(self).request,
            final(self).plugin_directory@ == (match (old(self).phase, event) {
                (VlcPhase::Runtime, VlcEvent::Runtime(Some(directory))) => directory@,
                _ => old(self).plugin_directory@,
            }),
            !old(self).opens_media(event) ==> (final(self).phase, action@) == old(self).plan(event),
            old(self).opens_media(event) ==> exists|separator: char, location: Result<String, String>|
                {
                    &&& #[trigger] path_located(old(self).request.path@, separator, location)
                    &&& match location {
                        Ok(text) => final(self).phase == (VlcPhase::Media {
                            module: old(self).phase->Instance_module,
                            instance: event->Instance_0,
                        }) && action@ == VlcPlan::OpenMedia(text@),
                        Err(error) => final(self).phase == VlcPhase::Over && action@ == (
                        VlcPlan::Fail { error: error@, release: Seq::empty() }),
                    }
                },
    {
        let phase = self.phase;
        match (phase, event) {
            (VlcPhase::Runtime, VlcEvent::Runtime(directory)) => match directory {
                Some(directory) => {
                    self.plugin_directory = directory;
                    self.phase = VlcPhase::SearchPath;
                    VlcAction::SetSearchPath
                },
                None => self.fail(
                    String::from_str("libVLC runtime directory is missing."),
                    Vec::new(),
                ),
            },
            (VlcPhase::SearchPath, VlcEvent::SearchPathSet(result)) => match result {
                Ok(()) => {
                    self.phase = VlcPhase::Load;
                    VlcAction::Load
                },
                Err(error) => self.fail(
                    joined("Cannot configure libVLC DLL search path: ", error.as_str()),
                    Vec::new(),
                ),
            },
            (VlcPhase::Load, VlcEvent::Loaded(result)) => match result {
                Ok(module) => {
                    self.phase = VlcPhase::Symbol { module, index: 0 };
                    VlcAction::FindSymbol(symbol_name(0))
                },
                Err(error) => self.fail(
                    joined("Cannot load libvlc.dll: ", error.as_str()),
                    Vec::new(),
                ),
            },
            (VlcPhase::Symbol { module, index }, VlcEvent::Symbol(found)) => {
                if !found {
                    let name = symbol_name(index);
                    let mut error = joined("libVLC export '", name.as_str());
                    error.append("' is missing.");
                    self.fail(error, Vec::new())
                } else if index + 1 < SYMBOL_COUNT {
                    self.phase = VlcPhase::Symbol { module, index: index + 1 };
                    VlcAction::FindSymbol(symbol_name(index + 1))
                } else {
                    match instance_options(
                        self.plugin_directory.as_str(),
                        self.request.performance_mode,
                        self.request.show_video,
                    ) {
                        Ok(options) => {
                            self.phase = VlcPhase::Instance { module };
                            VlcAction::CreateInstance(options)
                        },
                        Err(error) => self.fail(error, Vec::new()),
                    }
                }
            },
            (VlcPhase::Instance { module }, VlcEvent::Instance(instance)) => {
                if instance == 0 {
                    let release: Vec<Release> = vec![Release::Library(module)];
                    assert(release@ =~= seq![Release::Library(module)]);
                    self.fail(
                        String::from_str("libVLC could not create a playback instance."),
                        release,
                    )
                } else {
                    let location = media_location(self.request.path.as_str());
                    self.open_media(module, instance, location)
                }
            },
            (VlcPhase::Media { module, instance }, VlcEvent::Media(media)) => {
                if media == 0 {
                    let release: Vec<Release> = vec![
                        Release::Instance(instance),
                        Release::Library(module),
                    ];
                    assert(release@ =~= seq![Release::Instance(instance), Release::Library(module)]);
                    self.fail(String::from_str("libVLC could not open the media URI."), release)
                } else {
                    self.phase = VlcPhase::Player { module, instance, media };
                    VlcAction::CreatePlayer
                }
            },
            (VlcPhase::Player { module, instance, media }, VlcEvent::Player(player)) => {
                if player == 0 {
                    let release: Vec<Release> = vec![
                        Release::Media(media),
                        Release::Instance(instance),
                        Release::Library(module),
                    ];
                    assert(release@ =~= seq![
                        Release::Media(media),
                        Release::Instance(instance),
                        Release::Library(module),
                    ]);
                    self.fail(String::from_str("libVLC could not create a media player."), release)
                } else {
                    let held = VlcPlayer { module, instance, media, player };
                    if self.request.show_video {
                        self.phase = VlcPhase::Window { player: held };
                        VlcAction::SetWindow { player, window: self.request.window }
                    } else {
                        self.phase = VlcPhase::Play { player: held };
                        VlcAction::Play { player }
                    }
                }
            },
            (VlcPhase::Window { player }, VlcEvent::WindowSet) => {
                self.phase = VlcPhase::Play { player };
                VlcAction::Play { player: player.player }
            },
            (VlcPhase::Play { player }, VlcEvent::Played(answer)) => {
                if answer == 0 {
                    self.phase = VlcPhase::Over;
                    VlcAction::Done(player)
                } else {
                    let release = player.held();
                    self.fail(String::from_str("libVLC rejected the playback request."), release)
                }
            },
            _ => VlcAction::Unexpected,
        }
    }
}

/// The start of a player fails.
pub open spec fn fails(error: Seq<char>, release: Seq<Release>) -> (VlcPhase, VlcPlan) {
    (VlcPhase::Over, VlcPlan::Fail { error, release })
}

impl VlcPlayer {
    fn held(&self) -> (release: Vec<Release>)
        ensures
            release@ == releases(*self),
    {
        let release: Vec<Release> = vec![
            Release::Player(self.player),
            Release::Media(self.media),
            Release::Instance(self.instance),
            Release::Library(self.module),
        ];
        assert(release@ =~= releases(*self));
        release
    }

    /// Pauses or resumes the player.
    pub fn set_paused(&self, paused: bool) -> (command: PlayerCommand)
        ensures
            command == (PlayerCommand {
                player: self.player,
                value: if paused {
                    1
                } else {
                    0
                },
            }),
    {
        PlayerCommand {
            player: self.player,
            value: if paused {
                1
            } else {
                0
            },
        }
    }

    /// Mutes or unmutes the player.
    pub fn set_muted(&self, muted: bool) -> (command: PlayerCommand)
        ensures
            command == (PlayerCommand {
                player: self.player,
                value: if muted {
                    1
                } else {
                    0
                },
            }),
    {
        PlayerCommand {
            player: self.player,
            value: if muted {
                1
            } else {
                0
            },
        }
    }

    /// Sets the volume, brought into the range 0 to 100.
    pub fn set_volume(&self, volume: i32) -> (command: PlayerCommand)
        ensures
            command == (PlayerCommand { player: self.player, value: clamped_volume(volume) }),
    {
        PlayerCommand { player: self.player, value: clamp_volume(volume) }
    }

    /// Stops the player: what is done, in order.
    pub fn stop(self) -> (steps: Vec<Release>)
        ensures
            steps@ == seq![Release::StopPlayer(self.player)] + releases(self),
    {
        let steps: Vec<Release> = vec![
            Release::StopPlayer(self.player),
            Release::Player(self.player),
            Release::Media(self.media),
            Release::Instance(self.instance),
            Release::Library(self.module),
        ];
        assert(steps@ =~= seq![Release::StopPlayer(self.player)] + releases(self));
        steps
    }
}

/// A wallpaper repeats: every instance is told so, whatever else is asked for.
pub proof fn every_wallpaper_repeats(
    plugin_directory: Seq<char>,
    performance_mode: i32,
    show_video: bool,
)
    ensures
        option_texts(plugin_directory, performance_mode, show_video).contains(
            "--input-repeat=-1"@,
        ),
{
    let options = option_texts(plugin_directory, performance_mode, show_video);
    assert(options[3] == "--input-repeat=-1"@);
}

/// Only where the sound alone is wanted is libVLC told to show no video, and
/// then no player gets a window.
pub proof fn sound_alone_needs_no_window(start: VlcStart, event: VlcEvent)
    requires
        !start.request.show_video,
        !(start.phase is Window),
    ensures
        !(start.plan(event).1 is SetWindow),
        !(start.plan(event).0 is Window),
        option_texts(start.plugin_directory@, start.request.performance_mode, false).last()
            == "--no-video"@,
{
}

/// A text can be handed over exactly where no character of it is zero.
pub proof fn a_c_string_has_no_zero(text: Seq<char>)
    ensures
        c_string(text) <==> forall|i: int| 0 <= i < text.len() ==> #[trigger] text[i] != '\0',
{
    if !c_string(text) {
        let i = text.index_of('\0');
        assert(text[i] == '\0');
    }
    if c_string(text) {
        assert forall|i: int| 0 <= i < text.len() implies #[trigger] text[i] != '\0' by {
            assert(text.contains(text[i]));
        }
    }
}

/// libVLC is told the URL of the file as it is, wherever there is one that can be
/// handed over; otherwise it is told nothing, and the reason is reported.
pub proof fn a_location_is_the_url(url: Option<Seq<char>>, location: Result<String, String>)
    requires
        located(url, location),
    ensures
        location is Ok <==> (url matches Some(text) && c_string(text)),
        location matches Ok(text) ==> url == Some(text@),
        url is None ==> (location matches Err(error) && error@
            == "Could not convert the wallpaper path to a file URI."@),
{
}

/// Every absolute path has a location, and no relative one has: where `/`
/// separates, those that begin with it are absolute, and on Windows those with a
/// disk and a root, such as `C:\a`, while neither a root nor a disk alone is
/// enough.
pub proof fn absolute_paths_have_a_location(
    path: Seq<char>,
    separator: char,
    location: Result<String, String>,
)
    requires
        path_located(path, separator, location),
        path.len() >= 3,
    ensures
        separator == '/' ==> (location is Ok <==> path[0] == '/'),
        separator == '\\' && path[1] == ':' && path[2] == '\\' && ('A' <= path[0] <= 'Z' || 'a'
            <= path[0] <= 'z') ==> location is Ok,
        separator == '\\' && path[1] != ':' && path[1] != '\\' && path[1] != '/' ==> location
            is Err,
        separator == '\\' && path[1] == ':' && path[2] != '\\' && path[2] != '/' ==> location is Err,
        location matches Ok(text) ==> file_url(path, separator) == Some(text@),
{
}

/// An instance is told what is always told, its plugins, and what the mode and
/// the picture ask for: late frames are dropped in the two lower modes, frames
/// are skipped in the lowest, and there is no video where none is wanted.
pub proof fn an_instance_gets_its_options(
    plugin_directory: Seq<char>,
    performance_mode: i32,
    show_video: bool,
)
    ensures
        ({
            let options = option_texts(plugin_directory, performance_mode, show_video);
            let late: int = if performance_mode <= 1 {
                1
            } else {
                0
            };
            let skip: int = if performance_mode == 0 {
                1
            } else {
                0
            };
            let silent: int = if show_video {
                0
            } else {
                1
            };
            &&& options.len() == 7 + late + skip + silent
            &&& options[0] == "--no-video-title-show"@
            &&& options[1] == "--no-osd"@
            &&& options[2] == "--no-media-library"@
            &&& options[3] == "--input-repeat=-1"@
            &&& options[4] == "--vout=direct3d11"@
            &&& options[5] == "--avcodec-hw=d3d11va"@
            &&& options[6] == "--plugin-path="@ + plugin_directory
            &&& late == 1 ==> options[7] == "--drop-late-frames"@
            &&& skip == 1 ==> options[8] == "--skip-frames"@
            &&& silent == 1 ==> options.last() == "--no-video"@
        }),
{
}

/// A player gives back all that it holds, the last thing taken first.
pub proof fn a_player_gives_everything_back(player: VlcPlayer)
    ensures
        releases(player).len() == 4,
        releases(player)[0] == Release::Player(player.player),
        releases(player)[1] == Release::Media(player.media),
        releases(player)[2] == Release::Instance(player.instance),
        releases(player)[3] == Release::Library(player.module),
{
}

/// Every function of the library that is used is looked up, each under its own
/// name, before an instance is made.
pub proof fn every_function_is_looked_up(start: VlcStart, module: isize, index: usize)
    requires
        start.phase == (VlcPhase::Symbol { module, index }),
        index < 13,
    ensures
        symbol_text(0) == "libvlc_new"@,
        symbol_text(1) == "libvlc_release"@,
        symbol_text(2) == "libvlc_media_new_location"@,
        symbol_text(3) == "libvlc_media_add_option"@,
        symbol_text(4) == "libvlc_media_release"@,
        symbol_text(5) == "libvlc_media_player_new_from_media"@,
        symbol_text(6) == "libvlc_media_player_release"@,
        symbol_text(7) == "libvlc_media_player_set_hwnd"@,
        symbol_text(8) == "libvlc_media_player_play"@,
        symbol_text(9) == "libvlc_media_player_set_pause"@,
        symbol_text(10) == "libvlc_media_player_stop"@,
        symbol_text(11) == "libvlc_audio_set_mute"@,
        symbol_text(12) == "libvlc_audio_set_volume"@,
        ({
            let (next, plan) = start.plan(VlcEvent::Symbol(true));
            &&& index < 12 ==> plan == VlcPlan::FindSymbol(symbol_text((index + 1) as usize))
                && next == (VlcPhase::Symbol { module, index: (index + 1) as usize })
            &&& index == 12 ==> plan is CreateInstance || plan is Fail
            &&& start.plan(VlcEvent::Symbol(false)).1 == (VlcPlan::Fail {
                error: "libVLC export '"@ + symbol_text(index) + "' is missing."@,
                release: Seq::empty(),
            })
        }),
{
}

/// A library is found, made known and loaded, in that order, and whatever is
/// missing is reported with its reason; nothing has to be given back then.
pub proof fn a_library_is_loaded_step_by_step(
    start: VlcStart,
    directory: String,
    module: isize,
    error: String,
)
    ensures
        start.phase == VlcPhase::Runtime ==> start.plan(VlcEvent::Runtime(Some(directory))) == (
            VlcPhase::SearchPath,
            VlcPlan::SetSearchPath,
        ) && start.plan(VlcEvent::Runtime(None)).1 == (VlcPlan::Fail {
            error: "libVLC runtime directory is missing."@,
            release: Seq::empty(),
        }),
        start.phase == VlcPhase::SearchPath ==> start.plan(VlcEvent::SearchPathSet(Ok(()))) == (
            VlcPhase::Load,
            VlcPlan::Load,
        ) && start.plan(VlcEvent::SearchPathSet(Err(error))).1 == (VlcPlan::Fail {
            error: "Cannot configure libVLC DLL search path: "@ + error@,
            release: Seq::empty(),
        }),
        start.phase == VlcPhase::Load ==> start.plan(VlcEvent::Loaded(Ok(module))) == (
            VlcPhase::Symbol { module, index: 0 },
            VlcPlan::FindSymbol("libvlc_new"@),
        ) && start.plan(VlcEvent::Loaded(Err(error))).1 == (VlcPlan::Fail {
            error: "Cannot load libvlc.dll: "@ + error@,
            release: Seq::empty(),
        }),
{
}

/// An instance is made with the options that the request asks for.
pub proof fn an_instance_is_made_for_the_request(start: VlcStart, module: isize)
    requires
        start.phase == (VlcPhase::Symbol { module, index: 12 }),
        c_string("--plugin-path="@ + start.plugin_directory@),
    ensures
        start.plan(VlcEvent::Symbol(true)) == (
            VlcPhase::Instance { module },
            VlcPlan::CreateInstance(
                option_texts(
                    start.plugin_directory@,
                    start.request.performance_mode,
                    start.request.show_video,
                ),
            ),
        ),
{
}

/// A media becomes a player, which is given its window where it shows video,
/// plays, and is handed over with all that was taken for it. Wherever that stops
/// short, everything that was taken is given back, the last thing first.
pub proof fn a_player_is_brought_up_or_given_back(
    start: VlcStart,
    held: VlcPlayer,
    answer: i32,
)
    requires
        held.media != 0,
        held.player != 0,
    ensures
        start.phase == (VlcPhase::Instance { module: held.module }) ==> start.plan(
            VlcEvent::Instance(0),
        ).1 == (VlcPlan::Fail {
            error: "libVLC could not create a playback instance."@,
            release: seq![Release::Library(held.module)],
        }),
        start.phase == (VlcPhase::Media { module: held.module, instance: held.instance }) ==> {
            &&& start.plan(VlcEvent::Media(held.media)) == (
                VlcPhase::Player {
                    module: held.module,
                    instance: held.instance,
                    media: held.media,
                },
                VlcPlan::CreatePlayer,
            )
            &&& start.plan(VlcEvent::Media(0)).1 == (VlcPlan::Fail {
                error: "libVLC could not open the media URI."@,
                release: seq![Release::Instance(held.instance), Release::Library(held.module)],
            })
        },
        start.phase == (VlcPhase::Player {
            module: held.module,
            instance: held.instance,
            media: held.media,
        }) ==> {
            &&& start.request.show_video ==> start.plan(VlcEvent::Player(held.player)) == (
                VlcPhase::Window { player: held },
                VlcPlan::SetWindow { player: held.player, window: start.request.window },
            )
            &&& !start.request.show_video ==> start.plan(VlcEvent::Player(held.player)) == (
                VlcPhase::Play { player: held },
                VlcPlan::Play { player: held.player },
            )
            &&& start.plan(VlcEvent::Player(0)).1 == (VlcPlan::Fail {
                error: "libVLC could not create a media player."@,
                release: seq![
                    Release::Media(held.media),
                    Release::Instance(held.instance),
                    Release::Library(held.module),
                ],
            })
        },
        start.phase == (VlcPhase::Window { player: held }) ==> start.plan(VlcEvent::WindowSet) == (
            VlcPhase::Play { player: held },
            VlcPlan::Play { player: held.player },
        ),
        start.phase == (VlcPhase::Play { player: held }) ==> {
            &&& answer == 0 ==> start.plan(VlcEvent::Played(answer)).1 == VlcPlan::Done(held)
            &&& answer != 0 ==> start.plan(VlcEvent::Played(answer)).1 == (VlcPlan::Fail {
                error: "libVLC rejected the playback request."@,
                release: seq![
                    Release::Player(held.player),
                    Release::Media(held.media),
                    Release::Instance(held.instance),
                    Release::Library(held.module),
                ],
            })
        },
{
}

/// The location of the media decides exactly where an instance could be made.
pub proof fn only_a_made_instance_opens_media(start: VlcStart, event: VlcEvent)
    ensures
        start.opens_media(event) <==> start.phase is Instance && event is Instance && event
            != VlcEvent::Instance(0),
{
}

/// Texts by their contents are the same texts, each in its place.
pub proof fn contents_are_the_texts(texts: Seq<String>)
    ensures
        contents(texts).len() == texts.len(),
        forall|i: int| 0 <= i < texts.len() ==> #[trigger] contents(texts)[i] == texts[i]@,
{
}

} // verus!

//! Installing the icon font, as a state machine.
//!
//! The installer decides; its caller touches the file system. The caller
//! reports what it found (the font is there, the home directory is this, the
//! copy succeeded) and carries out the step that comes back.

use vstd::prelude::*;
use vstd::string::StringExecFns;
use crate::engine::{Invocation, InvocationView};

verus! {

/// The operating systems that the installer tells apart.
#[derive(Clone, Copy, Debug, PartialEq, Eq, Structural)]
pub enum Platform {
    Linux,
    MacOs,
    Windows,
    Other,
}

/// Where the fonts of a user are kept.
#[derive(Clone, Debug, PartialEq, Eq)]
pub enum FontDirectory {
    /// The directory `relative` below the home directory `home`.
    UnderHome { home: String, relative: String },
    /// The directory with this absolute path.
    Fixed(String),
}

/// Where an installation stands.
#[derive(Clone, Copy, Debug, PartialEq, Eq, Structural)]
pub enum InstallPhase {
    Ready,
    CheckingFont,
    ReadingHome,
    CheckingDestination,
    CreatingDirectory,
    Copying,
    RefreshingCache,
    Finished,
}

/// What the caller reports to the installer.
#[derive(Debug, PartialEq, Eq)]
pub enum InstallEvent {
    /// The caller wants the installation to begin.
    Start,
    /// The answer to `CheckFont` or `CheckDestination`.
    Exists(bool),
    /// The answer to `ReadHome`: the home directory, or why it is unknown.
    Home(Result<String, String>),
    /// The answer to `CreateDirectory`, `CopyFont` or `RefreshCache`:
    /// done, or why not.
    Done(Result<(), String>),
}

/// What the installer asks of the caller.
#[derive(Debug, PartialEq, Eq)]
pub enum InstallAction {
    /// Say whether the font file exists.
    CheckFont(String),
    /// Say what the home directory is.
    ReadHome,
    /// Say whether the font's file name exists in this directory.
    CheckDestination(FontDirectory),
    /// Create this directory and those above it.
    CreateDirectory(FontDirectory),
    /// Copy the font file into this directory under its own file name.
    CopyFont(FontDirectory),
    /// Run this command.
    RefreshCache(Invocation),
    /// The installation is over, with this result.
    Finish(Result<(), String>),
    /// The event has no meaning in this phase; nothing has changed.
    Ignore,
}

/// The mathematical value of a `FontDirectory`.
pub enum FontDirectoryView {
    UnderHome { home: Seq<char>, relative: Seq<char> },
    Fixed(Seq<char>),
}

/// The mathematical value of an `InstallEvent`.
pub enum InstallEventView {
    Start,
    Exists(bool),
    Home(Result<Seq<char>, Seq<char>>),
    Done(Result<(), Seq<char>>),
}

/// The mathematical value of an `InstallAction`.
pub enum InstallActionView {
    CheckFont(Seq<char>),
    ReadHome,
    CheckDestination(FontDirectoryView),
    CreateDirectory(FontDirectoryView),
    CopyFont(FontDirectoryView),
    RefreshCache(InvocationView),
    Finish(Result<(), Seq<char>>),
    Ignore,
}

/// The mathematical value of an `Installer`.
pub struct InstallerView {
    pub font_path: Seq<char>,
    pub platform: Platform,
    pub phase: InstallPhase,
    /// The font directory, once it is known.
    pub directory: Option<FontDirectoryView>,
}

impl View for FontDirectory {
    type V = FontDirectoryView;

    open spec fn view(&self) -> FontDirectoryView {
        match self {
            FontDirectory::UnderHome { home, relative } => FontDirectoryView::UnderHome {
                home: home@,
                relative: relative@,
            },
            FontDirectory::Fixed(path) => FontDirectoryView::Fixed(path@),
        }
    }
}

/// The mathematical value of a step's result.
pub open spec fn done_view(r: Result<(), String>) -> Result<(), Seq<char>> {
    match r {
        Ok(_) => Ok(()),
        Err(why) => Err(why@),
    }
}

impl View for InstallEvent {
    type V = InstallEventView;

    open spec fn view(&self) -> InstallEventView {
        match self {
            InstallEvent::Start => InstallEventView::Start,
            InstallEvent::Exists(b) => InstallEventView::Exists(*b),
            InstallEvent::Home(r) => InstallEventView::Home(
                match r {
                    Ok(home) => Ok(home@),
                    Err(why) => Err(why@),
                },
            ),
            InstallEvent::Done(r) => InstallEventView::Done(done_view(*r)),
        }
    }
}

impl View for InstallAction {
    type V = InstallActionView;

    open spec fn view(&self) -> InstallActionView {
        match self {
            InstallAction::CheckFont(path) => InstallActionView::CheckFont(path@),
            InstallAction::ReadHome => InstallActionView::ReadHome,
            InstallAction::CheckDestination(d) => InstallActionView::CheckDestination(d@),
            InstallAction::CreateDirectory(d) => InstallActionView::CreateDirectory(d@),
            InstallAction::CopyFont(d) => InstallActionView::CopyFont(d@),
            InstallAction::RefreshCache(inv) => InstallActionView::RefreshCache(inv@),
            InstallAction::Finish(r) => InstallActionView::Finish(done_view(*r)),
            InstallAction::Ignore => InstallActionView::Ignore,
        }
    }
}

/// The platform that an operating system's name stands for.
pub open spec fn platform_named(os: Seq<char>) -> Platform {
    if os == "linux"@ {
        Platform::Linux
    } else if os == "macos"@ {
        Platform::MacOs
    } else if os == "windows"@ {
        Platform::Windows
    } else {
        Platform::Other
    }
}

/// The font directory of a platform that keeps fonts below the home
/// directory.
pub open spec fn home_relative(platform: Platform) -> Option<Seq<char>> {
    match platform {
        Platform::Linux => Some(".local/share/fonts"@),
        Platform::MacOs => Some("Library/Fonts"@),
        _ => None,
    }
}

/// The command that makes the font cache take up a new font.
pub open spec fn cache_command() -> InvocationView {
    InvocationView { program: "fc-cache"@, arguments: seq!["-f"@, "-v"@] }
}

/// The message for a font file that is not there.
pub open spec fn missing_font(font_path: Seq<char>) -> Seq<char> {
    "Font file does not exist: "@ + font_path
}

/// The installer that is over.
pub open spec fn finished(s: InstallerView) -> InstallerView {
    InstallerView { phase: InstallPhase::Finished, ..s }
}

/// The installer after `event`, and what it asks of the caller.
pub open spec fn install_transition(s: InstallerView, event: InstallEventView) -> (
    InstallerView,
    InstallActionView,
) {
    match (s.phase, event) {
        (InstallPhase::Ready, InstallEventView::Start) => (
            InstallerView { phase: InstallPhase::CheckingFont, ..s },
            InstallActionView::CheckFont(s.font_path),
        ),
        (InstallPhase::CheckingFont, InstallEventView::Exists(found)) => if !found {
            (finished(s), InstallActionView::Finish(Err(missing_font(s.font_path))))
        } else if home_relative(s.platform) is Some {
            (InstallerView { phase: InstallPhase::ReadingHome, ..s }, InstallActionView::ReadHome)
        } else if s.platform == Platform::Windows {
            let dir = FontDirectoryView::Fixed("C:\\Windows\\Fonts"@);
            (
                InstallerView {
                    phase: InstallPhase::CheckingDestination,
                    directory: Some(dir),
                    ..s
                },
                InstallActionView::CheckDestination(dir),
            )
        } else {
            (finished(s), InstallActionView::Finish(Err("Unsupported OS"@)))
        },
        (InstallPhase::ReadingHome, InstallEventView::Home(Err(why))) => (
            finished(s),
            InstallActionView::Finish(Err(why)),
        ),
        (InstallPhase::ReadingHome, InstallEventView::Home(Ok(home))) => match home_relative(
            s.platform,
        ) {
            Some(relative) => {
                let dir = FontDirectoryView::UnderHome { home, relative };
                (
                    InstallerView {
                        phase: InstallPhase::CheckingDestination,
                        directory: Some(dir),
                        ..s
                    },
                    InstallActionView::CheckDestination(dir),
                )
            },
            None => (s, InstallActionView::Ignore),
        },
        (InstallPhase::CheckingDestination, InstallEventView::Exists(found)) => match s.directory {
            Some(dir) => if found {
                (finished(s), InstallActionView::Finish(Ok(())))
            } else {
                (
                    InstallerView { phase: InstallPhase::CreatingDirectory, ..s },
                    InstallActionView::CreateDirectory(dir),
                )
            },
            None => (s, InstallActionView::Ignore),
        },
        (InstallPhase::CreatingDirectory, InstallEventView::Done(r)) => match (r, s.directory) {
            (Err(why), _) => (finished(s), InstallActionView::Finish(Err(why))),
            (Ok(_), Some(dir)) => (
                InstallerView { phase: InstallPhase::Copying, ..s },
                InstallActionView::CopyFont(dir),
            ),
            (Ok(_), None) => (s, InstallActionView::Ignore),
        },
        (InstallPhase::Copying, InstallEventView::Done(r)) => match r {
            Err(why) => (finished(s), InstallActionView::Finish(Err(why))),
            Ok(_) => if s.platform == Platform::Linux {
                (
                    InstallerView { phase: InstallPhase::RefreshingCache, ..s },
                    InstallActionView::RefreshCache(cache_command()),
                )
            } else {
                (finished(s), InstallActionView::Finish(Ok(())))
            },
        },
        (InstallPhase::RefreshingCache, InstallEventView::Done(r)) => (
            finished(s),
            InstallActionView::Finish(r),
        ),
        _ => (s, InstallActionView::Ignore),
    }
}

/// Once the font directory has to be known it is: the installer never asks
/// for a destination, a directory or a copy without saying where.
pub open spec fn well_formed(s: InstallerView) -> bool {
    (s.phase == InstallPhase::CheckingDestination || s.phase == InstallPhase::CreatingDirectory)
        ==> s.directory is Some
}

/// The installer keeps itself well formed, never changes the font or the
/// platform it was made for, and once it is finished it ignores every event.
pub proof fn lemma_install_transition(s: InstallerView, event: InstallEventView)
    requires
        well_formed(s),
    ensures
        well_formed(install_transition(s, event).0),
        install_transition(s, event).0.font_path == s.font_path,
        install_transition(s, event).0.platform == s.platform,
        s.phase == InstallPhase::Finished ==> install_transition(s, event) == (
            s,
            InstallActionView::Ignore,
        ),
{
}

/// On a platform other than the three that are known, a font that exists
/// is refused as unsupported before the file system is touched again.
pub proof fn lemma_unsupported_platform(font_path: Seq<char>)
    ensures
        ({
            let s0 = InstallerView {
                font_path,
                platform: Platform::Other,
                phase: InstallPhase::Ready,
                directory: None,
            };
            let s1 = install_transition(s0, InstallEventView::Start).0;
            install_transition(s1, InstallEventView::Exists(true)).1 == InstallActionView::Finish(
                Err("Unsupported OS"@),
            )
        }),
{
}

/// The state machine that installs one font file.
pub struct Installer {
    font_path: String,
    platform: Platform,
    phase: InstallPhase,
    directory: Option<FontDirectory>,
}

impl View for Installer {
    type V = InstallerView;

    closed spec fn view(&self) -> InstallerView {
        InstallerView {
            font_path: self.font_path@,
            platform: self.platform,
            phase: self.phase,
            directory: match self.directory {
                Some(d) => Some(d@),
                None => None,
            },
        }
    }
}

/// Tells the platform from the operating system's name.
pub fn platform_of(os: &str) -> (platform: Platform)
    ensures
        platform == platform_named(os@),
{
    let name = os.to_owned();
    if name == "linux".to_owned() {
        Platform::Linux
    } else if name == "macos".to_owned() {
        Platform::MacOs
    } else if name == "windows".to_owned() {
        Platform::Windows
    } else {
        Platform::Other
    }
}

/// Copies a font directory.
fn copy_directory(d: &FontDirectory) -> (copy: FontDirectory)
    ensures
        copy@ == d@,
{
    match d {
        FontDirectory::UnderHome { home, relative } => FontDirectory::UnderHome {
            home: home.clone(),
            relative: relative.clone(),
        },
        FontDirectory::Fixed(path) => FontDirectory::Fixed(path.clone()),
    }
}

/// Builds the command that refreshes the font cache.
pub fn cache_invocation() -> (inv: Invocation)
    ensures
        inv@ == cache_command(),
{
    let mut arguments: Vec<String> = Vec::new();
    arguments.push("-f".to_owned());
    arguments.push("-v".to_owned());
    let inv = Invocation { program: "fc-cache".to_owned(), arguments };
    assert(inv@.arguments =~= cache_command().arguments);
    inv
}

/// The installer for the font file at `font_path` on the operating system
/// named `os`, ready to start.
pub fn install_font(font_path: &str, os: &str) -> (installer: Installer)
    ensures
        installer@ == (InstallerView {
            font_path: font_path@,
            platform: platform_named(os@),
            phase: InstallPhase::Ready,
            directory: None,
        }),
        well_formed(installer@),
{
    Installer {
        font_path: font_path.to_owned(),
        platform: platform_of(os),
        phase: InstallPhase::Ready,
        directory: None,
    }
}

impl Installer {
    /// Where the installation stands.
    pub fn phase(&self) -> (phase: InstallPhase)
        ensures
            phase == self@.phase,
    {
        self.phase
    }

    /// Ends the installation with `result`.
    fn finish(&mut self, result: Result<(), String>) -> (action: InstallAction)
        ensures
            final(self)@ == finished(old(self)@),
            action@ == InstallActionView::Finish(done_view(result)),
    {
        self.phase = InstallPhase::Finished;
        InstallAction::Finish(result)
    }

    /// Settles the font directory and asks whether the font is in it.
    fn settle(&mut self, directory: FontDirectory) -> (action: InstallAction)
        ensures
            final(self)@ == (InstallerView {
                phase: InstallPhase::CheckingDestination,
                directory: Some(directory@),
                ..old(self)@
            }),
            action@ == InstallActionView::CheckDestination(directory@),
    {
        let action = InstallAction::CheckDestination(copy_directory(&directory));
        self.directory = Some(directory);
        self.phase = InstallPhase::CheckingDestination;
        action
    }

    /// The font directory below `home` on this platform, where it has one.
    fn under_home(&self, home: String) -> (directory: Option<FontDirectory>)
        ensures
            match directory {
                Some(d) => home_relative(self@.platform) is Some && d@
                    == (FontDirectoryView::UnderHome {
                    home: home@,
                    relative: home_relative(self@.platform)->0,
                }),
                None => home_relative(self@.platform) is None,
            },
    {
        match self.platform {
            Platform::Linux => Some(
                FontDirectory::UnderHome { home, relative: ".local/share/fonts".to_owned() },
            ),
            Platform::MacOs => Some(
                FontDirectory::UnderHome { home, relative: "Library/Fonts".to_owned() },
            ),
            _ => None,
        }
    }

    /// Takes in one event, moves to the next state and says what the caller
    /// is to do. An event that the phase does not expect changes nothing and
    /// is answered with `Ignore`.
    pub fn step(&mut self, event: InstallEvent) -> (action: InstallAction)
        ensures
            final(self)@ == install_transition(old(self)@, event@).0,
            action@ == install_transition(old(self)@, event@).1,
    {
        match (self.phase, event) {
            (InstallPhase::Ready, InstallEvent::Start) => {
                self.phase = InstallPhase::CheckingFont;
                InstallAction::CheckFont(self.font_path.clone())
            },
            (InstallPhase::CheckingFont, InstallEvent::Exists(found)) => {
                if !found {
                    let why = "Font file does not exist: ".to_owned().concat(
                        self.font_path.as_str(),
                    );
                    self.finish(Err(why))
                } else {
                    match self.platform {
                        Platform::Linux | Platform::MacOs => {
                            self.phase = InstallPhase::ReadingHome;
                            InstallAction::ReadHome
                        },
                        Platform::Windows => self.settle(
                            FontDirectory::Fixed("C:\\Windows\\Fonts".to_owned()),
                        ),
                        Platform::Other => self.finish(Err("Unsupported OS".to_owned())),
                    }
                }
            },
            (InstallPhase::ReadingHome, InstallEvent::Home(Err(why))) => self.finish(Err(why)),
            (InstallPhase::ReadingHome, InstallEvent::Home(Ok(home))) => {
                match self.under_home(home) {
                    Some(directory) => self.settle(directory),
                    None => InstallAction::Ignore,
                }
            },
            (InstallPhase::CheckingDestination, InstallEvent::Exists(found)) => {
                match &self.directory {
                    Some(directory) => {
                        if found {
                            self.finish(Ok(()))
                        } else {
                            let action = InstallAction::CreateDirectory(copy_directory(directory));
                            self.phase = InstallPhase::CreatingDirectory;
                            action
                        }
                    },
                    None => InstallAction::Ignore,
                }
            },
            (InstallPhase::CreatingDirectory, InstallEvent::Done(Err(why))) => self.finish(
                Err(why),
            ),
            (InstallPhase::CreatingDirectory, InstallEvent::Done(Ok(_))) => {
                match &self.directory {
                    Some(directory) => {
                        let action = InstallAction::CopyFont(copy_directory(directory));
                        self.phase = InstallPhase::Copying;
                        action
                    },
                    None => InstallAction::Ignore,
                }
            },
            (InstallPhase::Copying, InstallEvent::Done(Err(why))) => self.finish(Err(why)),
            (InstallPhase::Copying, InstallEvent::Done(Ok(_))) => {
                match self.platform {
                    Platform::Linux => {
                        self.phase = InstallPhase::RefreshingCache;
                        InstallAction::RefreshCache(cache_invocation())
                    },
                    _ => self.finish(Ok(())),
                }
            },
            (InstallPhase::RefreshingCache, InstallEvent::Done(r)) => self.finish(r),
            _ => InstallAction::Ignore,
        }
    }
}

} // verus!

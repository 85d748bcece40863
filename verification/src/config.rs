//! What the user asked for: the settings, and how each option of the command
//! line changes them.

use crate::enforce::DEFAULT_FPS;
use vstd::prelude::*;

verus! {

/// One option of the command line, with its value where it has one.
#[derive(Debug)]
pub enum CliOption {
    /// `--hdr`: switch on the HDR setting of the game before it starts.
    Hdr,
    /// `-n`, `--no-disable-vsync`: leave vertical sync as the game sets it.
    NoDisableVsync,
    /// `-f`, `--fps`: the frame rate to enforce.
    Fps(i32),
    /// `-c`, `--cwd`: the working directory of the game.
    Cwd(String),
    /// `-o`, `--open`: the path of the game's executable.
    Open(String),
    /// A free argument: handed on to the game.
    GameArg(String),
}

/// The settings of one run.
#[derive(Debug)]
pub struct Args {
    pub game_path: Option<String>,
    pub game_cwd: Option<String>,
    pub enable_hdr: bool,
    pub fps: i32,
    pub disable_vsync: bool,
    pub game_args: Vec<String>,
}

/// The settings as the contracts see them: texts as sequences of characters.
pub struct Settings {
    pub game_path: Option<Seq<char>>,
    pub game_cwd: Option<Seq<char>>,
    pub enable_hdr: bool,
    pub fps: int,
    pub disable_vsync: bool,
    pub game_args: Seq<Seq<char>>,
}

/// The characters of a text that may be absent.
pub open spec fn text_of(text: Option<String>) -> Option<Seq<char>> {
    match text {
        Some(text) => Some(text@),
        None => None,
    }
}

impl View for Args {
    type V = Settings;

    open spec fn view(&self) -> Settings {
        Settings {
            game_path: text_of(self.game_path),
            game_cwd: text_of(self.game_cwd),
            enable_hdr: self.enable_hdr,
            fps: self.fps as int,
            disable_vsync: self.disable_vsync,
            game_args: self.game_args@.map_values(|arg: String| arg@),
        }
    }
}

impl Settings {
    /// The settings of a run without options: 120 frames per second,
    /// vertical sync switched off, HDR untouched, no paths, no arguments for
    /// the game.
    pub open spec fn initial() -> Settings {
        Settings {
            game_path: None,
            game_cwd: None,
            enable_hdr: false,
            fps: DEFAULT_FPS as int,
            disable_vsync: true,
            game_args: Seq::empty(),
        }
    }

    /// The settings after one more option. A frame rate below 1 counts as 1;
    /// of an option given twice the later value stands; free arguments add up
    /// in their order.
    pub open spec fn with(self, option: CliOption) -> Settings {
        match option {
            CliOption::Hdr => Settings { enable_hdr: true, ..self },
            CliOption::NoDisableVsync => Settings { disable_vsync: false, ..self },
            CliOption::Fps(fps) => Settings {
                fps: if fps < 1 {
                    1
                } else {
                    fps as int
                },
                ..self
            },
            CliOption::Cwd(path) => Settings { game_cwd: Some(path@), ..self },
            CliOption::Open(path) => Settings { game_path: Some(path@), ..self },
            CliOption::GameArg(arg) => Settings { game_args: self.game_args.push(arg@), ..self },
        }
    }
}

impl Args {
    /// The settings of a run without options.
    pub fn new() -> (args: Args)
        ensures
            args@ == Settings::initial(),
    {
        let args = Args {
            game_path: None,
            game_cwd: None,
            enable_hdr: false,
            fps: DEFAULT_FPS,
            disable_vsync: true,
            game_args: Vec::new(),
        };
        assert(args@.game_args =~= Seq::<Seq<char>>::empty());
        args
    }

    /// Takes one more option into the settings.
    pub fn apply(&mut self, option: CliOption)
        ensures
            final(self)@ == old(self)@.with(option),
            final(self).fps >= 1 || final(self).fps == old(self).fps,
    {
        match option {
            CliOption::Hdr => {
                self.enable_hdr = true;
            },
            CliOption::NoDisableVsync => {
                self.disable_vsync = false;
            },
            CliOption::Fps(fps) => {
                self.fps = if fps < 1 {
                    1
                } else {
                    fps
                };
            },
            CliOption::Cwd(path) => {
                self.game_cwd = Some(path);
            },
            CliOption::Open(path) => {
                self.game_path = Some(path);
            },
            CliOption::GameArg(arg) => {
                self.game_args.push(arg);
                assert(final(self)@.game_args =~= old(self)@.game_args.push(arg@));
            },
        }
    }
}

/// Where the path of the game's executable is taken from.
#[derive(Clone, Copy, Debug, PartialEq, Eq, Structural)]
pub enum PathSource {
    /// From the option `--open`.
    Option,
    /// From the first free argument, which is then no argument of the game.
    FirstArgument,
    /// From the list of usual places, at this index.
    Default(usize),
}

/// Why no path of the game's executable could be chosen.
#[derive(Clone, Copy, Debug, PartialEq, Eq, Structural)]
pub enum PathError {
    /// The path given with `--open` does not exist.
    GivenPathMissing,
    /// No path was given, and the game is in none of the usual places.
    NotInstalled,
}

/// Chooses where the path of the game's executable comes from: the option
/// if it was given, and then only if that path exists; else the first free
/// argument if it is the path of a file; else the first of the usual places
/// where the game is found. `given` says whether the path of `--open`
/// exists, if there was one; `first_argument` says the same of the first
/// free argument; `defaults` says it of each usual place.
pub fn select_game_path(
    given: Option<bool>,
    first_argument: Option<bool>,
    defaults: &[bool],
) -> (chosen: Result<PathSource, PathError>)
    ensures
        match chosen {
            Ok(PathSource::Option) => given == Some(true),
            Ok(PathSource::FirstArgument) => given is None && first_argument == Some(true),
            Ok(PathSource::Default(index)) => {
                &&& given is None
                &&& first_argument != Some(true)
                &&& index < defaults@.len()
                &&& defaults@[index as int]
                &&& forall|before: int| 0 <= before < index ==> !defaults@[before]
            },
            Err(PathError::GivenPathMissing) => given == Some(false),
            Err(PathError::NotInstalled) => {
                &&& given is None
                &&& first_argument != Some(true)
                &&& forall|index: int| 0 <= index < defaults@.len() ==> !defaults@[index]
            },
        },
{
    match given {
        Some(true) => {
            return Ok(PathSource::Option);
        },
        Some(false) => {
            return Err(PathError::GivenPathMissing);
        },
        None => {},
    }
    match first_argument {
        Some(true) => {
            return Ok(PathSource::FirstArgument);
        },
        _ => {},
    }
    let mut index: usize = 0;
    while index < defaults.len()
        invariant
            index <= defaults@.len(),
            given is None,
            first_argument != Some(true),
            forall|before: int| 0 <= before < index ==> !defaults@[before],
        decreases defaults@.len() - index,
    {
        if defaults[index] {
            return Ok(PathSource::Default(index));
        }
        index += 1;
    }
    Err(PathError::NotInstalled)
}

} // verus!

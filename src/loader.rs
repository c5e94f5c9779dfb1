use vstd::prelude::*;

use crate::config::{
    config_entries, config_of_text, parse_config, render_config, repair_config, repaired_in,
    verify_config, Config,
};
use crate::document::{parsed_document, rendered_document};

verus! {

/// Where a load stands.
#[derive(PartialEq, Eq, Structural, Clone, Copy, Debug)]
pub enum Phase {
    /// Nothing read yet.
    Start,
    /// The default file is being written.
    Creating,
    /// The default file was written and is to be read.
    Created,
    /// The repaired file is being written.
    Repairing,
    /// The repaired file was written and is to be read.
    Repaired,
    /// The configuration is loaded.
    Ready,
    /// The load failed for good.
    Stopped,
}

/// What became of the last file operation.
pub enum Event {
    /// The file was read and held this text.
    Read(String),
    /// There is no file.
    NotFound,
    /// Reading failed for another reason.
    ReadFailed,
    /// The file was written.
    Written,
    /// Writing failed.
    WriteFailed,
}

/// Why a load fails for good.
#[derive(PartialEq, Eq, Structural, Clone, Copy, Debug)]
pub enum Fatal {
    /// The file exists but cannot be read.
    Unreadable,
    /// The default file cannot be written.
    CreateFailed,
    /// The repaired file cannot be written.
    RepairFailed,
    /// The file written by the loader itself does not hold a configuration.
    Unparsable,
}

/// What the loader asks to be done next.
pub enum Action {
    /// Read the configuration file.
    ReadFile,
    /// Write this text as a new configuration file.
    CreateFile(String),
    /// Replace the configuration file's contents with this text.
    RewriteFile(String),
    /// The configuration is loaded; `true` asks for the warning on an empty log level.
    Finish(bool),
    /// Stop the process.
    Abort(Fatal),
}

/// An action, with its text as a sequence of characters.
pub enum Step {
    ReadFile,
    CreateFile(Seq<char>),
    RewriteFile(Seq<char>),
    Finish(bool),
    Abort(Fatal),
}

pub open spec fn step_of(a: Action) -> Step {
    match a {
        Action::ReadFile => Step::ReadFile,
        Action::CreateFile(t) => Step::CreateFile(t@),
        Action::RewriteFile(t) => Step::RewriteFile(t@),
        Action::Finish(w) => Step::Finish(w),
        Action::Abort(f) => Step::Abort(f),
    }
}

pub open spec fn default_document_text() -> Seq<char> {
    "[logging]\n# The log level of the bot: Trace, Debug, Info, Warn or Error.\n# Default: Info\nlevel = \"Info\"\n\n[discord]\n# The token the bot signs in with; the bot cannot run without it.\n# Default: \"\"\nbot_token = \"\"\n"@
}

/// The text of a freshly created configuration file.
pub fn default_document() -> (r: String)
    ensures
        r@ == default_document_text(),
{
    "[logging]\n# The log level of the bot: Trace, Debug, Info, Warn or Error.\n# Default: Info\nlevel = \"Info\"\n\n[discord]\n# The token the bot signs in with; the bot cannot run without it.\n# Default: \"\"\nbot_token = \"\"\n".to_owned()
}

/// What the file's text gives once it holds a configuration as a whole.
pub open spec fn finish_with(
    c: (Seq<char>, Seq<char>),
    next: Phase,
    snapshot: Option<(Seq<char>, Seq<char>)>,
    step: Step,
) -> bool {
    next == Phase::Ready && snapshot == Some(c) && step == Step::Finish(c.0.len() == 0)
}

pub open spec fn stop_with(
    f: Fatal,
    next: Phase,
    snapshot: Option<(Seq<char>, Seq<char>)>,
    step: Step,
) -> bool {
    next == Phase::Stopped && snapshot is None && step == Step::Abort(f)
}

/// The text written back for a file that does not hold a configuration as a whole.
pub open spec fn repaired_text(text: Seq<char>) -> Seq<char> {
    rendered_document(config_entries(repaired_in(parsed_document(text))))
}

/// One move of the load: from `phase`, on `event`, to `next`, with the configuration
/// `snapshot` and the action `step`.
pub open spec fn transition(
    phase: Phase,
    event: Event,
    next: Phase,
    snapshot: Option<(Seq<char>, Seq<char>)>,
    step: Step,
) -> bool {
    match phase {
        Phase::Start => match event {
            Event::Read(text) => match config_of_text(text@) {
                Some(c) => finish_with(c, next, snapshot, step),
                None => next == Phase::Repairing && snapshot is None && step == Step::RewriteFile(
                    repaired_text(text@),
                ),
            },
            Event::NotFound => next == Phase::Creating && snapshot is None && step
                == Step::CreateFile(default_document_text()),
            _ => stop_with(Fatal::Unreadable, next, snapshot, step),
        },
        Phase::Creating => match event {
            Event::Written => next == Phase::Created && snapshot is None && step == Step::ReadFile,
            _ => stop_with(Fatal::CreateFailed, next, snapshot, step),
        },
        Phase::Repairing => match event {
            Event::Written => next == Phase::Repaired && snapshot is None && step
                == Step::ReadFile,
            _ => stop_with(Fatal::RepairFailed, next, snapshot, step),
        },
        Phase::Created | Phase::Repaired => match event {
            Event::Read(text) => match config_of_text(text@) {
                Some(c) => finish_with(c, next, snapshot, step),
                None => stop_with(Fatal::Unparsable, next, snapshot, step),
            },
            _ => stop_with(Fatal::Unreadable, next, snapshot, step),
        },
        Phase::Ready | Phase::Stopped => false,
    }
}

/// The load of the configuration, one file operation at a time. The caller performs each
/// action and reports what came of it; once loaded, the configuration never changes.
pub struct ConfigLoader {
    phase: Phase,
    config: Option<Config>,
}

impl ConfigLoader {
    pub closed spec fn phase(&self) -> Phase {
        self.phase
    }

    /// The loaded configuration, if any.
    pub closed spec fn snapshot(&self) -> Option<(Seq<char>, Seq<char>)> {
        match self.config {
            Some(c) => Some(c@),
            None => None,
        }
    }

    /// A configuration is held exactly when the load is done.
    pub open spec fn wf(&self) -> bool {
        (self.phase() == Phase::Ready) == (self.snapshot() is Some)
    }

    /// A load that has not started; its first action is to read the file.
    pub fn new() -> (r: ConfigLoader)
        ensures
            r.wf(),
            r.phase() == Phase::Start,
    {
        ConfigLoader { phase: Phase::Start, config: None }
    }

    /// Whether the load is over, loaded or failed.
    pub fn is_done(&self) -> (r: bool)
        ensures
            r == (self.phase() == Phase::Ready || self.phase() == Phase::Stopped),
    {
        self.phase == Phase::Ready || self.phase == Phase::Stopped
    }

    /// Takes in what came of the last action and says what to do next.
    pub fn step(&mut self, event: Event) -> (a: Action)
        requires
            old(self).wf(),
            old(self).phase() != Phase::Ready,
            old(self).phase() != Phase::Stopped,
        ensures
            final(self).wf(),
            transition(old(self).phase(), event, final(self).phase(), final(self).snapshot(), step_of(a)),
    {
        match self.phase {
            Phase::Start => match event {
                Event::Read(text) => match parse_config(text.as_str()) {
                    Some(c) => self.finish(c),
                    None => {
                        let fixed = repair_config(text.as_str());
                        self.phase = Phase::Repairing;
                        Action::RewriteFile(render_config(&fixed))
                    },
                },
                Event::NotFound => {
                    self.phase = Phase::Creating;
                    Action::CreateFile(default_document())
                },
                _ => self.stop(Fatal::Unreadable),
            },
            Phase::Creating => match event {
                Event::Written => {
                    self.phase = Phase::Created;
                    Action::ReadFile
                },
                _ => self.stop(Fatal::CreateFailed),
            },
            Phase::Repairing => match event {
                Event::Written => {
                    self.phase = Phase::Repaired;
                    Action::ReadFile
                },
                _ => self.stop(Fatal::RepairFailed),
            },
            _ => match event {
                Event::Read(text) => match parse_config(text.as_str()) {
                    Some(c) => self.finish(c),
                    None => self.stop(Fatal::Unparsable),
                },
                _ => self.stop(Fatal::Unreadable),
            },
        }
    }

    fn finish(&mut self, c: Config) -> (a: Action)
        requires
            old(self).config is None,
        ensures
            final(self).phase() == Phase::Ready,
            final(self).snapshot() == Some(c@),
            step_of(a) == Step::Finish(c@.0.len() == 0),
    {
        let warn = verify_config(&c);
        self.config = Some(c);
        self.phase = Phase::Ready;
        Action::Finish(warn)
    }

    fn stop(&mut self, f: Fatal) -> (a: Action)
        requires
            old(self).config is None,
        ensures
            final(self).phase() == Phase::Stopped,
            final(self).snapshot() is None,
            step_of(a) == Step::Abort(f),
    {
        self.phase = Phase::Stopped;
        Action::Abort(f)
    }
}

/// The loaded configuration: the same value on every call once the load is done, and
/// `None` before.
pub fn get_config(loader: &ConfigLoader) -> (r: Option<&Config>)
    ensures
        match r {
            Some(c) => loader.snapshot() == Some(c@),
            None => loader.snapshot() is None,
        },
{
    match &loader.config {
        Some(c) => Some(c),
        None => None,
    }
}

} // verus!

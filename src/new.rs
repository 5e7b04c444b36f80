//! Creation of a plugin project, one decision at a time.
//!
//! A [`Session`] decides what to do next; the caller performs each
//! [`Action`] (probing the disk, running the project creation tool, reading
//! and writing files) and hands back what happened as an [`Event`].

use crate::error::NewError;
use crate::manifest::{lines_view, rewrite_manifest, rewritten_manifest};
use crate::path::{absolute_path, cleaned, file_name, file_name_spec, join, joined};
use crate::template::{
    has_alphanumeric, pascal_of, plugin_name, render_source, replaced, LIB_RS_FILE_TEXT,
    PLACEHOLDER, PLUGIN_SUFFIX,
};
use vstd::prelude::*;

verus! {

/// The request to create a plugin project at `path`.
pub struct New {
    pub path: String,
}

/// What is known of the project once its path has been resolved.
pub struct Config {
    /// The final component of the target path.
    pub name: String,
    /// The absolute, lexically clean target path.
    pub path: String,
}

/// Where a session stands.
#[derive(Debug, Clone, Copy, PartialEq, Eq, Structural)]
pub enum Phase {
    /// Waiting to learn whether the target exists, and the working directory.
    Probing,
    /// Waiting for the project creation tool.
    Creating,
    /// Waiting for the lines of the generated manifest.
    ReadingManifest,
    /// Waiting for the new manifest to be written.
    WritingManifest,
    /// Waiting for the plugin source to be written.
    WritingSource,
    /// The project is complete.
    Finished,
    /// The session stopped on an error.
    Failed,
}

/// What happened when an action was carried out.
pub enum Event {
    /// Whether the target path exists, and the current working directory.
    Probed { exists: bool, cwd: String },
    /// Whether the project creation tool ran and exited with success.
    ProjectCreated { success: bool },
    /// The lines of the generated manifest.
    ManifestRead { lines: Vec<String> },
    /// The requested file was written in full.
    Written,
    /// Reading the working directory, or a file, failed.
    IoFailed,
}

/// What the caller is asked to do next.
#[derive(Debug)]
pub enum Action {
    /// Report whether `path` exists, and the current working directory.
    Probe { path: String },
    /// Create a library project called `name` in the working directory.
    CreateProject { name: String },
    /// Read the manifest at `path` line by line.
    ReadManifest { path: String },
    /// Replace the contents of the manifest at `path` by `text`.
    WriteManifest { path: String, text: String },
    /// Replace the contents of the source file at `path` by `text`.
    WriteSource { path: String, text: String },
    /// The project called `name` was created.
    Report { name: String },
    /// Stop with `error`.
    Fail { error: NewError },
}

/// The manifest's location inside the project directory.
pub open spec fn manifest_path(dir: Seq<char>) -> Seq<char> {
    joined(dir, "Cargo.toml"@)
}

/// The entry-point source file's location inside the project directory.
pub open spec fn source_path(dir: Seq<char>) -> Seq<char> {
    joined(joined(dir, "src"@), "lib.rs"@)
}

/// True when `phase` is waiting for an event of the kind of `event`.
pub open spec fn expects(phase: Phase, event: Event) -> bool {
    match event {
        Event::Probed { .. } => phase == Phase::Probing,
        Event::ProjectCreated { .. } => phase == Phase::Creating,
        Event::ManifestRead { .. } => phase == Phase::ReadingManifest,
        Event::Written => phase == Phase::WritingManifest || phase == Phase::WritingSource,
        Event::IoFailed => phase != Phase::Finished && phase != Phase::Failed,
    }
}

/// A session on the target path `target`.
pub struct Session {
    /// The target path as it was given.
    pub target: String,
    /// Where the session stands.
    pub phase: Phase,
    /// The resolved project; meaningful once probing succeeded.
    pub config: Config,
    /// The plugin type name; meaningful once probing succeeded.
    pub plugin: String,
}

impl Session {
    /// Starts a session for `args`; the first thing to do is to probe its path.
    pub fn start(args: &New) -> (r: (Session, Action))
        ensures
            r.0.phase == Phase::Probing,
            r.0.target@ == args.path@,
            r.1 matches Action::Probe { path } && path@ == args.path@,
    {
        let session = Session {
            target: args.path.clone(),
            phase: Phase::Probing,
            config: Config { name: String::new(), path: String::new() },
            plugin: String::new(),
        };
        let action = Action::Probe { path: args.path.clone() };
        (session, action)
    }

    /// Takes the outcome of the last action and decides the next one.
    ///
    /// An existing target stops the session with `TargetExists` before
    /// anything is created or written. Each failure stops it with its error;
    /// an event that the session does not wait for leaves it as it was.
    pub fn step(&mut self, event: Event) -> (r: Action)
        ensures
            final(self).target == old(self).target,
            !expects(old(self).phase, event) ==> *final(self) == *old(self) && r == (Action::Fail {
                error: NewError::UnexpectedEvent,
            }),
            expects(old(self).phase, event) && event is IoFailed ==> final(self).phase
                == Phase::Failed && r == (Action::Fail { error: NewError::IoFailure }),
            old(self).phase == Phase::Probing ==> match event {
                Event::Probed { exists, cwd } => if exists {
                    final(self).phase == Phase::Failed && r == (Action::Fail {
                        error: NewError::TargetExists,
                    })
                } else if file_name_spec(old(self).target@) is None {
                    final(self).phase == Phase::Failed && r == (Action::Fail {
                        error: NewError::InvalidPath,
                    })
                } else if !has_alphanumeric(file_name_spec(old(self).target@)->Some_0) {
                    final(self).phase == Phase::Failed && r == (Action::Fail {
                        error: NewError::InvalidName,
                    })
                } else {
                    &&& final(self).phase == Phase::Creating
                    &&& final(self).config.name@ == file_name_spec(old(self).target@)->Some_0
                    &&& final(self).config.path@ == cleaned(joined(cwd@, old(self).target@))
                    &&& final(self).plugin@ == pascal_of(final(self).config.name@)
                        + PLUGIN_SUFFIX@
                    &&& r matches Action::CreateProject { name } && name@
                        == final(self).config.name@
                },
                _ => true,
            },
            old(self).phase == Phase::Creating ==> match event {
                Event::ProjectCreated { success } => if success {
                    &&& final(self).phase == Phase::ReadingManifest
                    &&& final(self).config == old(self).config
                    &&& final(self).plugin == old(self).plugin
                    &&& r matches Action::ReadManifest { path } && path@ == manifest_path(
                        old(self).config.path@,
                    )
                } else {
                    final(self).phase == Phase::Failed && r == (Action::Fail {
                        error: NewError::ExternalToolFailure,
                    })
                },
                _ => true,
            },
            old(self).phase == Phase::ReadingManifest ==> match event {
                Event::ManifestRead { lines } => if lines.len() < 2 {
                    final(self).phase == Phase::Failed && r == (Action::Fail {
                        error: NewError::ManifestTooShort,
                    })
                } else {
                    &&& final(self).phase == Phase::WritingManifest
                    &&& final(self).config == old(self).config
                    &&& final(self).plugin == old(self).plugin
                    &&& r matches Action::WriteManifest { path, text } && path@ == manifest_path(
                        old(self).config.path@,
                    ) && text@ == rewritten_manifest(lines_view(lines@))
                },
                _ => true,
            },
            old(self).phase == Phase::WritingManifest && event is Written ==> {
                &&& final(self).phase == Phase::WritingSource
                &&& final(self).config == old(self).config
                &&& final(self).plugin == old(self).plugin
                &&& r matches Action::WriteSource { path, text } && path@ == source_path(
                    old(self).config.path@,
                ) && text@ == replaced(LIB_RS_FILE_TEXT@, PLACEHOLDER@, old(self).plugin@)
            },
            old(self).phase == Phase::WritingSource && event is Written ==> {
                &&& final(self).phase == Phase::Finished
                &&& final(self).config == old(self).config
                &&& r matches Action::Report { name } && name@ == old(self).config.name@
            },
    {
        match event {
            Event::IoFailed => {
                if self.phase == Phase::Finished || self.phase == Phase::Failed {
                    return Action::Fail { error: NewError::UnexpectedEvent };
                }
                self.phase = Phase::Failed;
                Action::Fail { error: NewError::IoFailure }
            },
            Event::Probed { exists, cwd } => {
                if self.phase != Phase::Probing {
                    return Action::Fail { error: NewError::UnexpectedEvent };
                }
                if exists {
                    self.phase = Phase::Failed;
                    return Action::Fail { error: NewError::TargetExists };
                }
                let name = match file_name(self.target.as_str()) {
                    Some(n) => n,
                    None => {
                        self.phase = Phase::Failed;
                        return Action::Fail { error: NewError::InvalidPath };
                    },
                };
                let plugin = match plugin_name(name.as_str()) {
                    Ok(p) => p,
                    Err(e) => {
                        self.phase = Phase::Failed;
                        return Action::Fail { error: e };
                    },
                };
                let path = absolute_path(self.target.as_str(), cwd.as_str());
                let action = Action::CreateProject { name: name.clone() };
                self.config = Config { name, path };
                self.plugin = plugin;
                self.phase = Phase::Creating;
                action
            },
            Event::ProjectCreated { success } => {
                if self.phase != Phase::Creating {
                    return Action::Fail { error: NewError::UnexpectedEvent };
                }
                if !success {
                    self.phase = Phase::Failed;
                    return Action::Fail { error: NewError::ExternalToolFailure };
                }
                self.phase = Phase::ReadingManifest;
                Action::ReadManifest { path: join(self.config.path.as_str(), "Cargo.toml") }
            },
            Event::ManifestRead { lines } => {
                if self.phase != Phase::ReadingManifest {
                    return Action::Fail { error: NewError::UnexpectedEvent };
                }
                match rewrite_manifest(&lines) {
                    Ok(text) => {
                        self.phase = Phase::WritingManifest;
                        Action::WriteManifest {
                            path: join(self.config.path.as_str(), "Cargo.toml"),
                            text,
                        }
                    },
                    Err(e) => {
                        self.phase = Phase::Failed;
                        Action::Fail { error: e }
                    },
                }
            },
            Event::Written => {
                if self.phase == Phase::WritingManifest {
                    let dir = join(self.config.path.as_str(), "src");
                    let path = join(dir.as_str(), "lib.rs");
                    let text = render_source(self.plugin.as_str());
                    self.phase = Phase::WritingSource;
                    Action::WriteSource { path, text }
                } else if self.phase == Phase::WritingSource {
                    self.phase = Phase::Finished;
                    Action::Report { name: self.config.name.clone() }
                } else {
                    Action::Fail { error: NewError::UnexpectedEvent }
                }
            },
        }
    }
}

} // verus!

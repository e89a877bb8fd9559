use vstd::prelude::*;

use crate::config::{theme_name, AppConfig, ThemeChoice};

verus! {

/// A set of files the user asked to write into the output directory.
#[derive(Debug, Clone, Copy, PartialEq, Eq)]
pub enum PendingAction {
    /// The input parameters.
    InputParams,
    /// The results of the last solve.
    Result,
}

/// What the shell around the session must do after a request to save.
#[derive(Debug, Clone, Copy, PartialEq, Eq)]
pub enum SaveStep {
    /// No output directory is known yet: ask the user for one.
    AskOutputDir,
    /// Write these files into the configured output directory.
    Write(PendingAction),
}

/// What the shell must do once the user answered the directory question.
#[derive(Debug, Clone, Copy, PartialEq, Eq)]
pub enum DirStep {
    /// Store the settings, then write the files asked for, if any.
    PersistAndWrite(Option<PendingAction>),
    /// No directory was chosen: report it; nothing is written.
    Abandoned,
}

/// The decisions of the application shell: settings and a save that waits
/// for an output directory.
#[derive(Debug, Clone)]
pub struct Session {
    pub config: AppConfig,
    pub pending_action: Option<PendingAction>,
}

impl Session {
    /// A session on the given settings with nothing pending.
    pub fn new(config: AppConfig) -> (r: Self)
        ensures
            r.config == config,
            r.pending_action is None,
    {
        Session { config, pending_action: None }
    }

    /// A request to save `what`. Without an output directory the request is
    /// kept until one is chosen; otherwise the files are written at once.
    pub fn request_save(&mut self, what: PendingAction) -> (r: SaveStep)
        ensures
            final(self).config == old(self).config,
            old(self).config.output_path@.len() == 0 ==> r == SaveStep::AskOutputDir
                && final(self).pending_action == Some(what),
            old(self).config.output_path@.len() != 0 ==> r == SaveStep::Write(what)
                && final(self).pending_action == old(self).pending_action,
    {
        if self.config.needs_output_dir() {
            self.pending_action = Some(what);
            SaveStep::AskOutputDir
        } else {
            SaveStep::Write(what)
        }
    }

    /// The answer to the directory question: the chosen path, or none when
    /// the question was dismissed. Either way nothing stays pending.
    pub fn output_dir_selected(&mut self, chosen: Option<String>) -> (r: DirStep)
        ensures
            final(self).pending_action is None,
            final(self).config.theme == old(self).config.theme,
            chosen is Some ==> final(self).config.output_path == chosen->0 && r
                == DirStep::PersistAndWrite(old(self).pending_action),
            chosen is None ==> final(self).config.output_path == old(self).config.output_path
                && r == DirStep::Abandoned,
    {
        let pending = self.pending_action;
        self.pending_action = None;
        match chosen {
            Some(path) => {
                self.config.output_path = path;
                DirStep::PersistAndWrite(pending)
            },
            None => DirStep::Abandoned,
        }
    }

    /// Selects a theme; the settings are then to be stored.
    pub fn select_theme(&mut self, theme: ThemeChoice)
        ensures
            final(self).config.theme@ == theme_name(theme),
            final(self).config.output_path == old(self).config.output_path,
            final(self).pending_action == old(self).pending_action,
    {
        self.config.set_theme(theme);
    }
}

} // verus!

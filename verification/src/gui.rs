//! What a progress window knows and how it takes in what the bridge tells
//! it. How the window is drawn is not decided here.

use vstd::prelude::*;

verus! {

/// What the window was opened for.
#[derive(Clone, Debug, PartialEq, Eq)]
pub enum RunApp {
    /// A bundle file, by its path.
    Bundle(String),
}

/// What the window shows.
#[derive(Clone, Debug, PartialEq, Eq)]
pub enum AppState {
    /// The install is under way: progress is shown.
    LoadingFile(RunApp),
    /// The application runs: its name and a button to close it are shown.
    Done,
}

/// What the bridge tells the window.
#[derive(Debug, PartialEq, Eq)]
pub enum Message {
    /// A progress record: repository, operation, reference, status text and
    /// percentage.
    Progress((String, String, String, String, u8)),
    /// The application runs; the process id of the helper that runs it.
    Finished(i32),
    /// The window is to close.
    Close,
}

/// What the window's owner does after a message.
#[derive(Clone, Debug, PartialEq, Eq)]
pub enum Command {
    /// Nothing.
    Nothing,
    /// Send an interrupt to the process.
    Interrupt { pid: i32 },
    /// Remove the directory and close the window.
    CloseWindow { remove: String },
}

/// The state of the progress window.
#[derive(Debug, PartialEq, Eq)]
pub struct ProgressInfo {
    pub repo: String,
    pub action: String,
    pub app_ref: String,
    pub message: String,
    /// The percentage that the bar shows.
    pub progress: u8,
    /// The repository of the run.
    pub temp_repo: String,
    /// The repository of the runtimes.
    pub deps_repo: String,
    pub app_state: AppState,
    /// The helper's process, once the application runs.
    pub process: Option<i32>,
}

impl ProgressInfo {
    /// The window at its start: nothing to show yet, and no process.
    pub fn new(flags: (String, String, AppState)) -> (w: ProgressInfo)
        ensures
            w.repo@ == Seq::<char>::empty(),
            w.action@ == Seq::<char>::empty(),
            w.app_ref@ == Seq::<char>::empty(),
            w.message@ == Seq::<char>::empty(),
            w.progress == 0,
            w.temp_repo == flags.0,
            w.deps_repo == flags.1,
            w.app_state == flags.2,
            w.process is None,
    {
        ProgressInfo {
            repo: String::new(),
            action: String::new(),
            app_ref: String::new(),
            message: String::new(),
            progress: 0,
            temp_repo: flags.0,
            deps_repo: flags.1,
            app_state: flags.2,
            process: None,
        }
    }

    /// The title of the window.
    pub fn title(&self) -> (t: String)
        ensures
            t@ == "Flatrun"@,
    {
        "Flatrun".to_owned()
    }

    /// Takes in a message.
    ///
    /// A progress record replaces what is shown. `Finished` switches to the
    /// running display and keeps the process. `Close` asks for an interrupt
    /// to the process where one is known, and for nothing where none is.
    pub fn update(&mut self, message: Message) -> (c: Command)
        ensures
            final(self).temp_repo == old(self).temp_repo,
            final(self).deps_repo == old(self).deps_repo,
            match message {
                Message::Progress(record) => {
                    &&& final(self).repo == record.0
                    &&& final(self).action == record.1
                    &&& final(self).app_ref == record.2
                    &&& final(self).message == record.3
                    &&& final(self).progress == record.4
                    &&& final(self).app_state == old(self).app_state
                    &&& final(self).process == old(self).process
                    &&& c == Command::Nothing
                },
                Message::Finished(pid) => {
                    &&& final(self).app_state == AppState::Done
                    &&& final(self).process == Some(pid)
                    &&& final(self).repo == old(self).repo
                    &&& final(self).action == old(self).action
                    &&& final(self).app_ref == old(self).app_ref
                    &&& final(self).message == old(self).message
                    &&& final(self).progress == old(self).progress
                    &&& c == Command::Nothing
                },
                Message::Close => {
                    &&& *final(self) == *old(self)
                    &&& c == match old(self).process {
                        Some(pid) => Command::Interrupt { pid },
                        None => Command::Nothing,
                    }
                },
            },
    {
        match message {
            Message::Progress(record) => {
                let (repo, action, app_ref, text, progress) = record;
                self.repo = repo;
                self.action = action;
                self.app_ref = app_ref;
                self.message = text;
                self.progress = progress;
                Command::Nothing
            },
            Message::Finished(pid) => {
                self.app_state = AppState::Done;
                self.process = Some(pid);
                Command::Nothing
            },
            Message::Close => match self.process {
                Some(pid) => Command::Interrupt { pid },
                None => Command::Nothing,
            },
        }
    }

    /// What follows the interrupt that `Close` asked for: where it was
    /// delivered, the repository of the run is removed and the window
    /// closes; where it was not, the window stays.
    pub fn after_interrupt(&self, delivered: bool) -> (c: Command)
        ensures
            c == (if delivered {
                Command::CloseWindow { remove: self.temp_repo }
            } else {
                Command::Nothing
            }),
    {
        if delivered {
            Command::CloseWindow { remove: self.temp_repo.clone() }
        } else {
            Command::Nothing
        }
    }

    /// What the window waits for: the run of a bundle while the install is
    /// under way, and nothing once the application runs.
    pub fn subscription(&self) -> (r: Option<RunApp>)
        ensures
            r == match self.app_state {
                AppState::LoadingFile(app) => Some(app),
                AppState::Done => None,
            },
    {
        match &self.app_state {
            AppState::LoadingFile(RunApp::Bundle(path)) => Some(RunApp::Bundle(path.clone())),
            AppState::Done => None,
        }
    }
}

} // verus!

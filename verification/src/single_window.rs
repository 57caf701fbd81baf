//! The single-window interface: what each user action and each background
//! report does to the window's state, and which work it starts.

use vstd::prelude::*;
use crate::config::{Config, ServerConfig};
use crate::dvd::types::Title;
use crate::session::state::AppStatus;
use crate::text::{
    chars_of, decimal_digits, decimal_string, owned, parse_unsigned, push_decimal, push_str, unsigned_from_str,
};

verus! {

/// The window's state. Progress is in percent.
#[derive(Debug)]
pub struct DvdRipperGui {
    pub input_path: String,
    pub output_path: String,
    pub selected_titles: Vec<usize>,
    pub chapter_split: bool,
    pub main_feature_only: bool,
    pub upload_to_server: bool,
    pub is_scanning: bool,
    pub is_ripping: bool,
    pub is_uploading: bool,
    pub scan_complete: bool,
    pub rip_percent: u32,
    pub upload_percent: u32,
    pub status_message: String,
    pub error_message: Option<String>,
    pub titles: Vec<Title>,
    pub handbrake_cli_path_input: String,
    pub encode_algo: String,
    pub thread_count_input: String,
    pub eject_after_rip: bool,
    pub server_host: String,
    pub server_username: String,
    pub server_password: String,
    pub server_path: String,
    pub show_config_panel: bool,
    pub show_server_config: bool,
}

/// What the user did, or what background work reported. Progress is in
/// percent.
#[derive(Debug)]
pub enum Message {
    InputPathChanged(String),
    OutputPathChanged(String),
    BrowseInput,
    BrowseOutput,
    ScanDvd,
    TitleSelected(usize, bool),
    ToggleMainFeature(bool),
    ToggleChapterSplit(bool),
    ToggleUpload(bool),
    StartRipping,
    CancelRipping,
    StatusUpdate(String),
    ScanComplete(Vec<Title>),
    RipProgress(u32),
    UploadProgress(u32),
    RipComplete,
    UploadComplete,
    Error(String),
    DismissError,
    Tick,
    Noop,
    ToggleConfigPanel,
    ToggleServerConfig,
    HandbrakePathChanged(String),
    EncodeAlgoChanged(String),
    ThreadCountChanged(String),
    ToggleEjectAfterRip(bool),
    ServerHostChanged(String),
    ServerUsernameChanged(String),
    ServerPasswordChanged(String),
    ServerPathChanged(String),
    SaveConfig,
}

/// The work an update starts.
#[derive(Debug)]
pub enum Command {
    Noop,
    /// Ask the user for the disc's folder.
    BrowseInput,
    /// Ask the user for the output folder.
    BrowseOutput,
    /// Report this as an error message.
    Fail(String),
    /// Scan the disc at this path.
    Scan { input_path: String },
    /// Rip into `output_path`: the titles given, or the main feature when
    /// none are given.
    Rip { output_path: String, selected_titles: Option<Vec<usize>>, chapter_split: bool, upload: bool },
    /// Store this configuration.
    Save(Config),
    /// Read the run's status.
    Poll,
}

/// The selection after title `n` is checked (added once) or unchecked (all
/// its entries removed).
pub open spec fn selection_after(sel: Seq<usize>, n: usize, selected: bool) -> Seq<usize> {
    if selected {
        if sel.contains(n) {
            sel
        } else {
            sel.push(n)
        }
    } else {
        without(sel, n)
    }
}

/// `sel` with every entry `n` removed.
pub open spec fn without(sel: Seq<usize>, n: usize) -> Seq<usize>
    decreases sel.len(),
{
    if sel.len() == 0 {
        sel
    } else if sel.last() == n {
        without(sel.drop_last(), n)
    } else {
        without(sel.drop_last(), n).push(sel.last())
    }
}

/// The thread count the editor holds, if it is a positive number.
pub open spec fn positive_count(text: Seq<char>) -> Option<usize> {
    match unsigned_from_str(text, usize::MAX as nat) {
        Some(n) => if n > 0 {
            Some(n as usize)
        } else {
            None
        },
        None => None,
    }
}

/// The server settings saved with uploads on: none when host, user name or
/// path is missing.
pub open spec fn server_complete(g: DvdRipperGui) -> bool {
    g.server_host@.len() > 0 && g.server_username@.len() > 0 && g.server_path@.len() > 0
}

/// The configuration saved from the window, on top of `current`.
pub open spec fn saved_config(g: DvdRipperGui, current: Config, threads: usize) -> Config {
    Config {
        handbrake_path: if g.handbrake_cli_path_input@.len() == 0 {
            None
        } else {
            Some(g.handbrake_cli_path_input)
        },
        encode_algo: g.encode_algo,
        thread_count: threads,
        eject_after_rip: g.eject_after_rip,
        output_dir: g.output_path,
        server: if g.upload_to_server && server_complete(g) {
            Some(
                ServerConfig {
                    host: g.server_host,
                    username: g.server_username,
                    password: if g.server_password@.len() == 0 {
                        None
                    } else {
                        Some(g.server_password)
                    },
                    path: g.server_path,
                },
            )
        } else {
            None
        },
        ..current
    }
}

/// What one message does: `g0` is the window before, `g1` after, `r` the
/// work started; `cur` is the configuration in use.
#[verifier::opaque]
pub open spec fn updated(g0: DvdRipperGui, message: Message, cur: Config, g1: DvdRipperGui, r: Command) -> bool {
    match message {
        Message::InputPathChanged(p) => r is Noop && g1 == (DvdRipperGui {
            input_path: p,
            ..g0
        }),
        Message::OutputPathChanged(p) => r is Noop && g1 == (DvdRipperGui {
            output_path: p,
            ..g0
        }),
        Message::BrowseInput => r is BrowseInput && g1 == g0,
        Message::BrowseOutput => r is BrowseOutput && g1 == g0,
        Message::ScanDvd => if g0.input_path@.len() == 0 {
            r matches Command::Fail(m) && m@ == "Please select a DVD path first"@ && g1 == g0
        } else {
            &&& r matches Command::Scan { input_path } && input_path == g0.input_path
            &&& g1.status_message@ == "Scanning DVD..."@
            &&& g1 == (DvdRipperGui {
                is_scanning: true,
                scan_complete: false,
                status_message: g1.status_message,
                ..g0
            })
        },
        Message::TitleSelected(n, selected) => r is Noop && g1.selected_titles@ == selection_after(
            g0.selected_titles@,
            n,
            selected,
        ) && g1 == (DvdRipperGui { selected_titles: g1.selected_titles, ..g0 }),
        Message::ToggleMainFeature(enabled) => r is Noop && g1.main_feature_only == enabled && (
        enabled ==> g1.selected_titles@.len() == 0) && (!enabled ==> g1.selected_titles
            == g0.selected_titles) && g1 == (DvdRipperGui {
            main_feature_only: enabled,
            selected_titles: g1.selected_titles,
            ..g0
        }),
        Message::ToggleChapterSplit(enabled) => r is Noop && g1 == (DvdRipperGui {
            chapter_split: enabled,
            ..g0
        }),
        Message::ToggleUpload(enabled) => r is Noop && g1 == (DvdRipperGui {
            upload_to_server: enabled,
            ..g0
        }),
        Message::StartRipping => if g0.output_path@.len() == 0 {
            r matches Command::Fail(m) && m@ == "Please select an output directory first"@ && g1
                == g0
        } else if !g0.main_feature_only && g0.selected_titles@.len() == 0 {
            r matches Command::Fail(m) && m@ == "Please select at least one title to rip"@ && g1
                == g0
        } else {
            &&& r matches Command::Rip { output_path, selected_titles, chapter_split, upload }
                && output_path == g0.output_path && chapter_split == g0.chapter_split && upload
                == g0.upload_to_server && (if g0.main_feature_only {
                selected_titles is None
            } else {
                selected_titles matches Some(v) && v@ == g0.selected_titles@
            })
            &&& g1.status_message@ == "Starting ripping process..."@
            &&& g1 == (DvdRipperGui {
                is_ripping: true,
                rip_percent: 0,
                status_message: g1.status_message,
                ..g0
            })
        },
        Message::CancelRipping => r is Noop && g1.status_message@ == "Ripping cancelled"@
            && g1 == (DvdRipperGui {
            is_ripping: false,
            status_message: g1.status_message,
            ..g0
        }),
        Message::StatusUpdate(m) => r is Noop && g1 == (DvdRipperGui {
            status_message: m,
            ..g0
        }),
        Message::ScanComplete(titles) => r is Noop && g1.titles == titles
            && g1.status_message@ == "Found "@ + decimal_digits(titles@.len()) + " titles"@
            && g1.selected_titles@.len() == 0 && g1 == (DvdRipperGui {
            is_scanning: false,
            scan_complete: true,
            titles: g1.titles,
            status_message: g1.status_message,
            selected_titles: g1.selected_titles,
            ..g0
        }),
        Message::RipProgress(p) => r is Noop && g1 == (DvdRipperGui {
            rip_percent: p,
            ..g0
        }),
        Message::UploadProgress(p) => r is Noop && g1.status_message@ == "Uploading: "@
            + decimal_digits(p as nat) + "%"@ && g1 == (DvdRipperGui {
            upload_percent: p,
            status_message: g1.status_message,
            ..g0
        }),
        Message::RipComplete => r is Noop && g1.status_message@ == "Ripping completed"@
            && g1 == (DvdRipperGui {
            is_ripping: false,
            status_message: g1.status_message,
            ..g0
        }),
        Message::UploadComplete => r is Noop && g1.status_message@ == "Upload completed"@
            && g1 == (DvdRipperGui {
            is_uploading: false,
            status_message: g1.status_message,
            ..g0
        }),
        Message::Error(m) => r is Noop && g1.error_message == Some(m) && g1.status_message@ == "Error: "@ + m@ && g1 == (DvdRipperGui {
            error_message: g1.error_message,
            is_scanning: false,
            is_ripping: false,
            is_uploading: false,
            status_message: g1.status_message,
            ..g0
        }),
        Message::DismissError => r is Noop && g1 == (DvdRipperGui {
            error_message: Option::None,
            ..g0
        }),
        Message::Tick => r is Poll && g1 == g0,
        Message::Noop => r is Noop && g1 == g0,
        Message::ToggleConfigPanel => r is Noop && g1 == (DvdRipperGui {
            show_config_panel: !g0.show_config_panel,
            ..g0
        }),
        Message::ToggleServerConfig => r is Noop && g1 == (DvdRipperGui {
            show_server_config: !g0.show_server_config,
            ..g0
        }),
        Message::HandbrakePathChanged(v) => r is Noop && g1 == (DvdRipperGui {
            handbrake_cli_path_input: v,
            ..g0
        }),
        Message::EncodeAlgoChanged(v) => r is Noop && g1 == (DvdRipperGui {
            encode_algo: v,
            ..g0
        }),
        Message::ThreadCountChanged(v) => r is Noop && g1 == (DvdRipperGui {
            thread_count_input: v,
            ..g0
        }),
        Message::ToggleEjectAfterRip(v) => r is Noop && g1 == (DvdRipperGui {
            eject_after_rip: v,
            ..g0
        }),
        Message::ServerHostChanged(v) => r is Noop && g1 == (DvdRipperGui {
            server_host: v,
            ..g0
        }),
        Message::ServerUsernameChanged(v) => r is Noop && g1 == (DvdRipperGui {
            server_username: v,
            ..g0
        }),
        Message::ServerPasswordChanged(v) => r is Noop && g1 == (DvdRipperGui {
            server_password: v,
            ..g0
        }),
        Message::ServerPathChanged(v) => r is Noop && g1 == (DvdRipperGui {
            server_path: v,
            ..g0
        }),
        Message::SaveConfig => match positive_count(g0.thread_count_input@) {
            Some(n) => {
                &&& r matches Command::Save(c) && c == saved_config(g0, cur, n)
                &&& g1 == (DvdRipperGui { error_message: g1.error_message, ..g0 })
                &&& g0.upload_to_server && !server_complete(g0) ==> (g1.error_message matches Some(m) && m@
                    == "Server host, username, and path are required for upload."@)
                &&& !(g0.upload_to_server && !server_complete(g0)) ==> g1.error_message == g0.error_message
            },
            Option::None => {
                &&& r is Noop
                &&& g1 == (DvdRipperGui { error_message: g1.error_message, ..g0 })
                &&& g1.error_message matches Some(m) && m@ == "Invalid thread count '"@ + g0.thread_count_input@
                    + "'. Please enter a positive number."@
            },
        },
    }
}

/// Messages that only edit the window's fields.
pub open spec fn is_edit(m: Message) -> bool {
    m is InputPathChanged || m is OutputPathChanged || m is HandbrakePathChanged || m is EncodeAlgoChanged
        || m is ThreadCountChanged || m is ServerHostChanged || m is ServerUsernameChanged || m is ServerPasswordChanged
        || m is ServerPathChanged || m is ToggleChapterSplit || m is ToggleUpload || m is ToggleEjectAfterRip
        || m is ToggleConfigPanel || m is ToggleServerConfig || m is DismissError || m is StatusUpdate || m is RipProgress
}

/// Messages that start work.
pub open spec fn is_work(m: Message) -> bool {
    m is BrowseInput || m is BrowseOutput || m is ScanDvd || m is StartRipping || m is Tick || m is Noop
        || m is SaveConfig || m is CancelRipping
}

impl DvdRipperGui {
    /// The window as it opens: paths, options, editor fields and server
    /// settings from the configuration, uploads on when a server is set.
    pub fn new(config: &Config) -> (r: DvdRipperGui)
        ensures
            r.input_path@.len() == 0,
            r.output_path == config.output_dir,
            r.selected_titles@.len() == 0,
            r.chapter_split == config.chapter_split,
            !r.main_feature_only,
            r.upload_to_server == config.server is Some,
            !r.is_scanning && !r.is_ripping && !r.is_uploading && !r.scan_complete,
            r.rip_percent == 0 && r.upload_percent == 0,
            r.status_message@ == "Ready to scan DVD"@,
            r.error_message is None,
            r.titles@.len() == 0,
            r.handbrake_cli_path_input@ == (match config.handbrake_path {
                Some(p) => p@,
                None => Seq::<char>::empty(),
            }),
            r.encode_algo == config.encode_algo,
            r.thread_count_input@ == decimal_digits(config.thread_count as nat),
            r.eject_after_rip == config.eject_after_rip,
            match config.server {
                Some(s) => r.server_host == s.host && r.server_username == s.username && r.server_path == s.path
                    && r.server_password@ == (match s.password {
                    Some(p) => p@,
                    None => Seq::<char>::empty(),
                }),
                None => r.server_host@.len() == 0 && r.server_username@.len() == 0 && r.server_password@.len()
                    == 0 && r.server_path@.len() == 0,
            },
            !r.show_config_panel,
            r.show_server_config == config.server is Some,
    {
        let (host, username, password, path) = match &config.server {
            Some(s) => (
                s.host.clone(),
                s.username.clone(),
                match &s.password {
                    Some(p) => p.clone(),
                    None => String::new(),
                },
                s.path.clone(),
            ),
            None => (String::new(), String::new(), String::new(), String::new()),
        };
        DvdRipperGui {
            input_path: String::new(),
            output_path: config.output_dir.clone(),
            selected_titles: Vec::new(),
            chapter_split: config.chapter_split,
            main_feature_only: false,
            upload_to_server: config.server.is_some(),
            is_scanning: false,
            is_ripping: false,
            is_uploading: false,
            scan_complete: false,
            rip_percent: 0,
            upload_percent: 0,
            status_message: owned("Ready to scan DVD"),
            error_message: None,
            titles: Vec::new(),
            handbrake_cli_path_input: match &config.handbrake_path {
                Some(p) => p.clone(),
                None => String::new(),
            },
            encode_algo: config.encode_algo.clone(),
            thread_count_input: decimal_string(config.thread_count as u64),
            eject_after_rip: config.eject_after_rip,
            server_host: host,
            server_username: username,
            server_password: password,
            server_path: path,
            show_config_panel: false,
            show_server_config: config.server.is_some(),
        }
    }

    /// The window's title.
    pub fn title(&self) -> (r: String)
        ensures
            r@ == "DVD Ripper"@,
    {
        owned("DVD Ripper")
    }

    fn select_title(&mut self, n: usize, selected: bool)
        ensures
            final(self).selected_titles@ == selection_after(old(self).selected_titles@, n, selected),
            *final(self) == (DvdRipperGui { selected_titles: final(self).selected_titles, ..*old(self) }),
    {
        if selected {
            let mut found = false;
            let mut i: usize = 0;
            while i < self.selected_titles.len()
                invariant
                    i <= self.selected_titles@.len(),
                    found == (exists|k: int| 0 <= k < i && self.selected_titles@[k] == n),
                decreases self.selected_titles@.len() - i,
            {
                if self.selected_titles[i] == n {
                    found = true;
                }
                i = i + 1;
            }
            if !found {
                self.selected_titles.push(n);
            } else {
                assert(self.selected_titles@.contains(n));
            }
        } else {
            let ghost before = self.selected_titles@;
            let mut kept: Vec<usize> = Vec::new();
            let mut i: usize = 0;
            while i < self.selected_titles.len()
                invariant
                    i <= self.selected_titles@.len(),
                    self.selected_titles@ == before,
                    kept@ == without(before.take(i as int), n),
                decreases self.selected_titles@.len() - i,
            {
                proof {
                    assert(before.take(i + 1).drop_last() =~= before.take(i as int));
                    assert(before.take(i + 1).last() == before[i as int]);
                }
                if self.selected_titles[i] != n {
                    kept.push(self.selected_titles[i]);
                }
                i = i + 1;
            }
            assert(before.take(before.len() as int) =~= before);
            self.selected_titles = kept;
        }
    }

    /// The configuration saved from the window: the current one with the
    /// edited HandBrake path (none when empty), format, thread count, eject
    /// option and output folder, and the server settings when uploads are on
    /// and host, user name and path are given. A thread count that is not a
    /// positive number is an error and nothing is saved; missing server
    /// settings are reported and the server is left out.
    pub fn save_request(&mut self, current: &Config) -> (r: Option<Config>)
        ensures
            positive_count(old(self).thread_count_input@) is None ==> {
                &&& r is None
                &&& final(self).error_message matches Some(m) && m@ == "Invalid thread count '"@
                    + old(self).thread_count_input@ + "'. Please enter a positive number."@
                &&& *final(self) == (DvdRipperGui { error_message: final(self).error_message, ..*old(self) })
            },
            positive_count(old(self).thread_count_input@) matches Some(n) ==> {
                &&& r == Some(saved_config(*old(self), *current, n))
                &&& old(self).upload_to_server && !server_complete(*old(self)) ==> (final(self).error_message matches Some(m) && m@ == "Server host, username, and path are required for upload."@)
                &&& !(old(self).upload_to_server && !server_complete(*old(self))) ==> final(self).error_message
                    == old(self).error_message
                &&& *final(self) == (DvdRipperGui { error_message: final(self).error_message, ..*old(self) })
            },
    {
        let tc = chars_of(self.thread_count_input.as_str());
        let threads: usize = match parse_unsigned(tc.as_slice(), usize::MAX as u64) {
            Some(c) => {
                if c > 0 {
                    c as usize
                } else {
                    0
                }
            },
            None => 0,
        };
        if threads == 0 {
            let mut m = owned("Invalid thread count '");
            push_str(&mut m, self.thread_count_input.as_str());
            push_str(&mut m, "'. Please enter a positive number.");
            self.error_message = Some(m);
            return None;
        }
        let mut config = current.duplicate();
        config.handbrake_path = if self.handbrake_cli_path_input.as_str().is_empty() {
            None
        } else {
            Some(self.handbrake_cli_path_input.clone())
        };
        config.encode_algo = self.encode_algo.clone();
        config.thread_count = threads;
        config.eject_after_rip = self.eject_after_rip;
        config.output_dir = self.output_path.clone();
        if self.upload_to_server {
            if self.server_host.as_str().is_empty() || self.server_username.as_str().is_empty()
                || self.server_path.as_str().is_empty() {
                self.error_message = Some(owned("Server host, username, and path are required for upload."));
                config.server = None;
            } else {
                config.server = Some(
                    ServerConfig {
                        host: self.server_host.clone(),
                        username: self.server_username.clone(),
                        password: if self.server_password.as_str().is_empty() {
                            None
                        } else {
                            Some(self.server_password.clone())
                        },
                        path: self.server_path.clone(),
                    },
                );
            }
        } else {
            config.server = None;
        }
        Some(config)
    }

    /// Takes in one message; the result is the work to start. `current` is
    /// the configuration in use, which saving builds on.
    pub fn update(&mut self, message: Message, current: &Config) -> (r: Command)
        ensures
            updated(*old(self), message, *current, *final(self), r),
    {
        if message_is_edit(&message) {
            self.apply_edit(message, current)
        } else if message_is_work(&message) {
            self.start_work(message, current)
        } else {
            self.take_report(message, current)
        }
    }

    /// Takes in a message that edits a field.
    fn apply_edit(&mut self, message: Message, current: &Config) -> (r: Command)
        requires
            is_edit(message),
        ensures
            updated(*old(self), message, *current, *final(self), r),
    {
        if message_edits_paths(&message) {
            self.edit_paths(message, current)
        } else if message_edits_server(&message) {
            self.edit_server(message, current)
        } else {
            self.edit_flags(message, current)
        }
    }

    /// Takes in an edit of a path or an encoding field.
    fn edit_paths(&mut self, message: Message, current: &Config) -> (r: Command)
        requires
            message is EncodeAlgoChanged || message is HandbrakePathChanged || message is InputPathChanged || message is OutputPathChanged || message is ThreadCountChanged,
        ensures
            updated(*old(self), message, *current, *final(self), r),
    {
        proof {
            reveal(updated);
        }
        match message {
            Message::InputPathChanged(p) => {
                self.input_path = p;
                Command::Noop
            },
            Message::OutputPathChanged(p) => {
                self.output_path = p;
                Command::Noop
            },
            Message::HandbrakePathChanged(v) => {
                self.handbrake_cli_path_input = v;
                Command::Noop
            },
            Message::EncodeAlgoChanged(v) => {
                self.encode_algo = v;
                Command::Noop
            },
            Message::ThreadCountChanged(v) => {
                self.thread_count_input = v;
                Command::Noop
            },
            _ => Command::Noop,
        }
    }

    /// Takes in an edit of a server field or of the status line.
    fn edit_server(&mut self, message: Message, current: &Config) -> (r: Command)
        requires
            message is ServerHostChanged || message is ServerPasswordChanged || message is ServerPathChanged || message is ServerUsernameChanged || message is StatusUpdate,
        ensures
            updated(*old(self), message, *current, *final(self), r),
    {
        proof {
            reveal(updated);
        }
        match message {
            Message::StatusUpdate(m) => {
                self.status_message = m;
                Command::Noop
            },
            Message::ServerHostChanged(v) => {
                self.server_host = v;
                Command::Noop
            },
            Message::ServerUsernameChanged(v) => {
                self.server_username = v;
                Command::Noop
            },
            Message::ServerPasswordChanged(v) => {
                self.server_password = v;
                Command::Noop
            },
            Message::ServerPathChanged(v) => {
                self.server_path = v;
                Command::Noop
            },
            _ => Command::Noop,
        }
    }

    /// Takes in a switch, a dismissal or a progress report.
    fn edit_flags(&mut self, message: Message, current: &Config) -> (r: Command)
        requires
            is_edit(message) && !(message is EncodeAlgoChanged || message is HandbrakePathChanged || message is InputPathChanged || message is OutputPathChanged || message is ThreadCountChanged) && !(message is ServerHostChanged || message is ServerPasswordChanged || message is ServerPathChanged || message is ServerUsernameChanged || message is StatusUpdate),
        ensures
            updated(*old(self), message, *current, *final(self), r),
    {
        proof {
            reveal(updated);
        }
        match message {
            Message::ToggleChapterSplit(enabled) => {
                self.chapter_split = enabled;
                Command::Noop
            },
            Message::ToggleUpload(enabled) => {
                self.upload_to_server = enabled;
                Command::Noop
            },
            Message::RipProgress(p) => {
                self.rip_percent = p;
                Command::Noop
            },
            Message::DismissError => {
                self.error_message = None;
                Command::Noop
            },
            Message::ToggleConfigPanel => {
                self.show_config_panel = !self.show_config_panel;
                Command::Noop
            },
            Message::ToggleServerConfig => {
                self.show_server_config = !self.show_server_config;
                Command::Noop
            },
            Message::ToggleEjectAfterRip(v) => {
                self.eject_after_rip = v;
                Command::Noop
            },
            _ => Command::Noop,
        }
    }

    /// Takes in a message that starts work.
    fn start_work(&mut self, message: Message, current: &Config) -> (r: Command)
        requires
            is_work(message),
        ensures
            updated(*old(self), message, *current, *final(self), r),
    {
        proof {
            reveal(updated);
        }
        match message {
            Message::BrowseInput => Command::BrowseInput,
            Message::BrowseOutput => Command::BrowseOutput,
            Message::ScanDvd => {
                if self.input_path.as_str().is_empty() {
                    return Command::Fail(owned("Please select a DVD path first"));
                }
                self.is_scanning = true;
                self.scan_complete = false;
                self.status_message = owned("Scanning DVD...");
                Command::Scan { input_path: self.input_path.clone() }
            },
            Message::StartRipping => {
                if self.output_path.as_str().is_empty() {
                    return Command::Fail(owned("Please select an output directory first"));
                }
                if !self.main_feature_only && self.selected_titles.len() == 0 {
                    return Command::Fail(owned("Please select at least one title to rip"));
                }
                self.is_ripping = true;
                self.status_message = owned("Starting ripping process...");
                self.rip_percent = 0;
                let selected_titles = if self.main_feature_only {
                    None
                } else {
                    Some(self.selected_titles.clone())
                };
                Command::Rip {
                    output_path: self.output_path.clone(),
                    selected_titles,
                    chapter_split: self.chapter_split,
                    upload: self.upload_to_server,
                }
            },
            Message::CancelRipping => {
                self.is_ripping = false;
                self.status_message = owned("Ripping cancelled");
                Command::Noop
            },
            Message::Tick => Command::Poll,
            Message::Noop => Command::Noop,
            Message::SaveConfig => self.save_step(current),
            _ => Command::Noop,
        }
    }

    /// Takes in a request to save the settings.
    fn save_step(&mut self, current: &Config) -> (r: Command)
        ensures
            updated(*old(self), Message::SaveConfig, *current, *final(self), r),
    {
        proof {
            reveal(updated);
        }
        match self.save_request(current) {
            Some(c) => Command::Save(c),
            None => Command::Noop,
        }
    }

    /// Takes in a selection or a report from background work.
    fn take_report(&mut self, message: Message, current: &Config) -> (r: Command)
        requires
            !is_edit(message) && !is_work(message),
        ensures
            updated(*old(self), message, *current, *final(self), r),
    {
        proof {
            reveal(updated);
        }
        match message {
            Message::TitleSelected(n, selected) => {
                self.select_title(n, selected);
                Command::Noop
            },
            Message::ToggleMainFeature(enabled) => {
                self.main_feature_only = enabled;
                if enabled {
                    self.selected_titles = Vec::new();
                }
                Command::Noop
            },
            Message::ScanComplete(titles) => {
                self.is_scanning = false;
                self.scan_complete = true;
                let mut m = owned("Found ");
                push_decimal(&mut m, titles.len() as u64);
                push_str(&mut m, " titles");
                self.titles = titles;
                self.status_message = m;
                self.selected_titles = Vec::new();
                Command::Noop
            },
            Message::UploadProgress(p) => {
                self.upload_percent = p;
                let mut m = owned("Uploading: ");
                push_decimal(&mut m, p as u64);
                push_str(&mut m, "%");
                self.status_message = m;
                Command::Noop
            },
            Message::RipComplete => {
                self.is_ripping = false;
                self.status_message = owned("Ripping completed");
                Command::Noop
            },
            Message::UploadComplete => {
                self.is_uploading = false;
                self.status_message = owned("Upload completed");
                Command::Noop
            },
            Message::Error(m) => {
                let mut s = owned("Error: ");
                push_str(&mut s, m.as_str());
                self.error_message = Some(m);
                self.is_scanning = false;
                self.is_ripping = false;
                self.is_uploading = false;
                self.status_message = s;
                Command::Noop
            },
            _ => Command::Noop,
        }
    }
}

fn message_is_edit(m: &Message) -> (r: bool)
    ensures
        r == is_edit(*m),
{
    match m {
        Message::InputPathChanged(_) | Message::OutputPathChanged(_) | Message::HandbrakePathChanged(_)
        | Message::EncodeAlgoChanged(_) | Message::ThreadCountChanged(_) | Message::ServerHostChanged(_)
        | Message::ServerUsernameChanged(_) | Message::ServerPasswordChanged(_) | Message::ServerPathChanged(_)
        | Message::ToggleChapterSplit(_) | Message::ToggleUpload(_) | Message::ToggleEjectAfterRip(_)
        | Message::ToggleConfigPanel | Message::ToggleServerConfig | Message::DismissError | Message::StatusUpdate(_)
        | Message::RipProgress(_) => true,
        _ => false,
    }
}

fn message_edits_paths(m: &Message) -> (r: bool)
    ensures
        r == (*m is InputPathChanged || *m is OutputPathChanged || *m is HandbrakePathChanged || *m is EncodeAlgoChanged
            || *m is ThreadCountChanged),
{
    match m {
        Message::InputPathChanged(_) | Message::OutputPathChanged(_) | Message::HandbrakePathChanged(_)
        | Message::EncodeAlgoChanged(_) | Message::ThreadCountChanged(_) => true,
        _ => false,
    }
}

fn message_edits_server(m: &Message) -> (r: bool)
    ensures
        r == (*m is ServerHostChanged || *m is ServerUsernameChanged || *m is ServerPasswordChanged
            || *m is ServerPathChanged || *m is StatusUpdate),
{
    match m {
        Message::ServerHostChanged(_) | Message::ServerUsernameChanged(_) | Message::ServerPasswordChanged(_)
        | Message::ServerPathChanged(_) | Message::StatusUpdate(_) => true,
        _ => false,
    }
}

fn message_is_work(m: &Message) -> (r: bool)
    ensures
        r == is_work(*m),
{
    match m {
        Message::BrowseInput | Message::BrowseOutput | Message::ScanDvd | Message::StartRipping | Message::Tick
        | Message::Noop | Message::SaveConfig | Message::CancelRipping => true,
        _ => false,
    }
}

/// The rip progress in whole percent (more than 100 where more tasks were
/// reported than planned), at most `u32::MAX`.
pub open spec fn percent_done(completed: usize, total: usize) -> u32 {
    let v = (completed as int * 100) / (total as int);
    if v > u32::MAX {
        u32::MAX
    } else {
        v as u32
    }
}

/// The message a poll of the run's status gives on a tick: progress while
/// ripping (a note while nothing is planned yet), the upload's progress, the
/// end of the run or its error; nothing otherwise.
pub fn tick_message(status: &AppStatus) -> (r: Option<Message>)
    ensures
        status is Scanning ==> (r matches Some(Message::StatusUpdate(m)) && m@ == "Scanning..."@),
        *status matches AppStatus::Ripping { completed, total } ==> if total > 0 {
            r matches Some(Message::RipProgress(p)) && p == percent_done(completed, total)
        } else {
            r matches Some(Message::StatusUpdate(m)) && m@ == "Preparing to rip..."@
        },
        *status matches AppStatus::Uploading { percent } ==> (r matches Some(Message::UploadProgress(p)) && p
            == percent),
        status is Completed ==> (r matches Some(Message::StatusUpdate(m)) && m@ == "Process completed"@),
        *status matches AppStatus::Error(e) ==> (r matches Some(Message::Error(m)) && m == e),
        !(status is Scanning || status is Ripping || status is Uploading || status is Completed || status is Error)
            ==> r is None,
{
    match status {
        AppStatus::Scanning => Some(Message::StatusUpdate(owned("Scanning..."))),
        AppStatus::Ripping { completed, total } => {
            if *total > 0 {
                Some(Message::RipProgress(rip_percent(*completed, *total)))
            } else {
                Some(Message::StatusUpdate(owned("Preparing to rip...")))
            }
        },
        AppStatus::Uploading { percent } => Some(Message::UploadProgress(*percent)),
        AppStatus::Completed => Some(Message::StatusUpdate(owned("Process completed"))),
        AppStatus::Error(e) => Some(Message::Error(e.clone())),
        _ => None,
    }
}

fn rip_percent(completed: usize, total: usize) -> (r: u32)
    requires
        total > 0,
    ensures
        r == percent_done(completed, total),
{
    let c = completed as u128;
    let t = total as u128;
    assert(c * 100 <= 0xffff_ffff_ffff_ffff * 100) by (nonlinear_arith)
        requires
            c <= 0xffff_ffff_ffff_ffff,
    ;
    let q = (c * 100) / t;
    if q > 0xffff_ffff {
        0xffff_ffff
    } else {
        q as u32
    }
}

/// Where the background status poll stands.
#[derive(Debug, Clone, Copy, PartialEq, Eq, Structural)]
pub enum PollState {
    Initial,
    Polling,
    Finished,
}

/// One step of the background status poll: the first step only ticks; while
/// polling, the status gives a message (progress, `All tasks completed.`, the
/// error, or nothing) and a finished or idle run ends the polling; once
/// finished, nothing more is reported.
pub fn poll_step(state: PollState, status: &AppStatus) -> (r: (Message, PollState))
    ensures
        state == PollState::Initial ==> (r.0 is Tick && r.1 == PollState::Polling),
        state == PollState::Finished ==> (r.0 is Noop && r.1 == PollState::Finished),
        state == PollState::Polling ==> {
            &&& (status is Completed || status is Idle) ==> r.1 == PollState::Finished
            &&& !(status is Completed || status is Idle) ==> r.1 == PollState::Polling
            &&& *status matches AppStatus::Ripping { completed, total } ==> if total > 0 {
                r.0 matches Message::RipProgress(p) && p == percent_done(completed, total)
            } else {
                r.0 matches Message::StatusUpdate(m) && m@ == "Preparing to rip..."@
            }
            &&& *status matches AppStatus::Uploading { percent } ==> (r.0 matches Message::UploadProgress(p) && p
                == percent)
            &&& status is Completed ==> (r.0 matches Message::StatusUpdate(m) && m@ == "All tasks completed."@)
            &&& *status matches AppStatus::Error(e) ==> (r.0 matches Message::Error(m) && m == e)
            &&& !(status is Ripping || status is Uploading || status is Completed || status is Error) ==> r.0 is Noop
        },
{
    match state {
        PollState::Initial => (Message::Tick, PollState::Polling),
        PollState::Finished => (Message::Noop, PollState::Finished),
        PollState::Polling => {
            let message = match status {
                AppStatus::Ripping { completed, total } => {
                    if *total > 0 {
                        Message::RipProgress(rip_percent(*completed, *total))
                    } else {
                        Message::StatusUpdate(owned("Preparing to rip..."))
                    }
                },
                AppStatus::Uploading { percent } => Message::UploadProgress(*percent),
                AppStatus::Completed => Message::StatusUpdate(owned("All tasks completed.")),
                AppStatus::Error(e) => Message::Error(e.clone()),
                _ => Message::Noop,
            };
            let next = match status {
                AppStatus::Completed | AppStatus::Idle => PollState::Finished,
                _ => PollState::Polling,
            };
            (message, next)
        },
    }
}

/// Whether the window polls the run's status: while it scans, rips or
/// uploads.
pub fn polls(gui: &DvdRipperGui) -> (r: bool)
    ensures
        r == (gui.is_ripping || gui.is_scanning || gui.is_uploading),
{
    gui.is_ripping || gui.is_scanning || gui.is_uploading
}

proof fn lemma_push_contains(t: Seq<usize>, a: usize, x: usize)
    ensures
        t.push(a).contains(x) == (t.contains(x) || a == x),
{
    if t.push(a).contains(x) {
        let i = choose|i: int| 0 <= i < t.push(a).len() && t.push(a)[i] == x;
        if i < t.len() {
            assert(t[i] == x);
        }
    }
    if t.contains(x) {
        let i = choose|i: int| 0 <= i < t.len() && t[i] == x;
        assert(t.push(a)[i] == x);
    }
    if a == x {
        assert(t.push(a)[t.len() as int] == x);
    }
}

/// Unchecking a title removes it from the selection entirely, and keeps the
/// other titles.
pub proof fn lemma_uncheck_removes(sel: Seq<usize>, n: usize, k: usize)
    requires
        k != n,
    ensures
        !selection_after(sel, n, false).contains(n),
        sel.contains(k) == selection_after(sel, n, false).contains(k),
    decreases sel.len(),
{
    if sel.len() > 0 {
        let d = sel.drop_last();
        let l = sel.last();
        lemma_uncheck_removes(d, n, k);
        assert(sel =~= d.push(l));
        lemma_push_contains(d, l, k);
        if l != n {
            lemma_push_contains(without(d, n), l, n);
            lemma_push_contains(without(d, n), l, k);
        }
    }
}

/// Checking a title that is already checked changes nothing, and a checked
/// title is in the selection.
pub proof fn lemma_check_once(sel: Seq<usize>, n: usize)
    ensures
        selection_after(selection_after(sel, n, true), n, true) == selection_after(sel, n, true),
        selection_after(sel, n, true).contains(n),
{
    if !sel.contains(n) {
        assert(sel.push(n)[sel.len() as int] == n);
    }
}

proof fn lemma_without_is_filter(sel: Seq<usize>, n: usize)
    ensures
        without(sel, n) == sel.filter(|x: usize| x != n),
    decreases sel.len(),
{
    reveal(Seq::filter);
    if sel.len() > 0 {
        lemma_without_is_filter(sel.drop_last(), n);
    }
}

proof fn lemma_without_no_duplicates(sel: Seq<usize>, n: usize)
    requires
        sel.no_duplicates(),
    ensures
        without(sel, n).no_duplicates(),
    decreases sel.len(),
{
    if sel.len() > 0 {
        let d = sel.drop_last();
        let l = sel.last();
        assert(d.no_duplicates());
        lemma_without_no_duplicates(d, n);
        if l != n {
            let w = without(d, n);
            assert(!d.contains(l)) by {
                if d.contains(l) {
                    let i = choose|i: int| 0 <= i < d.len() && d[i] == l;
                    assert(sel[i] == sel[sel.len() - 1]);
                }
            }
            lemma_uncheck_removes(d, n, l);
            assert(!w.contains(l));
            assert forall|a: int, b: int| 0 <= a < w.push(l).len() && 0 <= b < w.push(l).len() && a != b implies w.push(
                l,
            )[a] != w.push(l)[b] by {
                if a == w.len() {
                    assert(w[b] == w.push(l)[b]);
                } else if b == w.len() {
                    assert(w[a] == w.push(l)[a]);
                }
            }
        }
    }
}

/// A selection without repeats stays without repeats when a title is checked
/// or unchecked. Unchecking keeps exactly the other titles, in their order;
/// checking keeps the selection as it was at the front.
pub proof fn lemma_selection_no_duplicates(sel: Seq<usize>, n: usize, selected: bool)
    requires
        sel.no_duplicates(),
    ensures
        selection_after(sel, n, selected).no_duplicates(),
        !selected ==> selection_after(sel, n, false) == sel.filter(|x: usize| x != n),
        selected ==> sel.is_prefix_of(selection_after(sel, n, true)),
{
    if selected {
        if !sel.contains(n) {
            let s = sel.push(n);
            assert forall|a: int, b: int| 0 <= a < s.len() && 0 <= b < s.len() && a != b implies s[a] != s[b] by {
                if a == sel.len() {
                    assert(s[b] == sel[b]);
                } else if b == sel.len() {
                    assert(s[a] == sel[a]);
                }
            }
            assert(sel =~= s.subrange(0, sel.len() as int));
        } else {
            assert(sel =~= sel.subrange(0, sel.len() as int));
        }
    } else {
        lemma_without_no_duplicates(sel, n);
        lemma_without_is_filter(sel, n);
    }
}

} // verus!

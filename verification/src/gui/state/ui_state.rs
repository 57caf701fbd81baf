//! The interface's own state: the open tab, the title selection, messages,
//! the configuration being edited, HandBrake operations and toasts.

use vstd::prelude::*;
use crate::config::{available_cpus, Config, ServerConfig};
use crate::dvd::types::{title_views, Title, TitleView};
use crate::error::{error_message, AppError};
use crate::gui::utils::updates::UpdateCheckResult;
use crate::text::{
    chars_of, decimal_digits, decimal_string, owned, parse_unsigned, push_decimal, push_str, starts_with,
    unsigned_from_str,
};

verus! {

/// Available tabs in the application
#[derive(Debug, Clone, Copy, PartialEq, Eq, Structural)]
pub enum Tab {
    Main,
    Config,
    Server,
    HandBrake,
    About,
}

/// The label of a tab.
pub open spec fn tab_name(t: Tab) -> Seq<char> {
    match t {
        Tab::Main => "Main"@,
        Tab::Config => "Config"@,
        Tab::Server => "Server"@,
        Tab::HandBrake => "HandBrake"@,
        Tab::About => "About"@,
    }
}

/// The icon a tab is drawn with.
pub open spec fn tab_icon(t: Tab) -> Seq<char> {
    match t {
        Tab::Main => "play"@,
        Tab::Config => "gear"@,
        Tab::Server => "upload"@,
        Tab::HandBrake => "wrench"@,
        Tab::About => "info"@,
    }
}

/// The tabs in the order they are shown.
pub open spec fn tab_order() -> Seq<Tab> {
    seq![Tab::Main, Tab::Config, Tab::Server, Tab::HandBrake, Tab::About]
}

impl Tab {
    /// The label of the tab.
    pub fn name(&self) -> (r: &'static str)
        ensures
            r@ == tab_name(*self),
    {
        match self {
            Tab::Main => "Main",
            Tab::Config => "Config",
            Tab::Server => "Server",
            Tab::HandBrake => "HandBrake",
            Tab::About => "About",
        }
    }

    /// The icon of the tab.
    pub fn icon(&self) -> (r: &'static str)
        ensures
            r@ == tab_icon(*self),
    {
        match self {
            Tab::Main => "play",
            Tab::Config => "gear",
            Tab::Server => "upload",
            Tab::HandBrake => "wrench",
            Tab::About => "info",
        }
    }

    /// Every tab, in the order they are shown.
    pub fn all() -> (r: Vec<Tab>)
        ensures
            r@ == tab_order(),
    {
        let mut v: Vec<Tab> = Vec::new();
        v.push(Tab::Main);
        v.push(Tab::Config);
        v.push(Tab::Server);
        v.push(Tab::HandBrake);
        v.push(Tab::About);
        assert(v@ =~= tab_order());
        v
    }
}

/// Every tab is listed once, and no two tabs share a label or an icon.
pub proof fn lemma_tabs_listed_once()
    ensures
        forall|t: Tab| #[trigger] tab_order().contains(t),
        forall|i: int, j: int| 0 <= i < j < 5 ==> tab_order()[i] != tab_order()[j],
        forall|a: Tab, b: Tab| a != b ==> tab_name(a) != tab_name(b),
        forall|a: Tab, b: Tab| a != b ==> tab_icon(a) != tab_icon(b),
{
    reveal_strlit("Main");
    reveal_strlit("Config");
    reveal_strlit("Server");
    reveal_strlit("HandBrake");
    reveal_strlit("About");
    reveal_strlit("play");
    reveal_strlit("gear");
    reveal_strlit("upload");
    reveal_strlit("wrench");
    reveal_strlit("info");
    assert forall|t: Tab| #[trigger] tab_order().contains(t) by {
        match t {
            Tab::Main => assert(tab_order()[0] == t),
            Tab::Config => assert(tab_order()[1] == t),
            Tab::Server => assert(tab_order()[2] == t),
            Tab::HandBrake => assert(tab_order()[3] == t),
            Tab::About => assert(tab_order()[4] == t),
        }
    }
    assert forall|a: Tab, b: Tab| a != b implies tab_name(a) != tab_name(b) by {
        assert(tab_name(a).len() != tab_name(b).len() || tab_name(a)[0] != tab_name(b)[0]
            || tab_name(a)[1] != tab_name(b)[1]);
    }
    assert forall|a: Tab, b: Tab| a != b implies tab_icon(a) != tab_icon(b) by {
        assert(tab_icon(a).len() != tab_icon(b).len() || tab_icon(a)[0] != tab_icon(b)[0]);
    }
}

/// Temporary configuration storage for UI editing
#[derive(Debug)]
pub struct ConfigTemp {
    pub handbrake_path: String,
    pub encode_algo: String,
    pub video_codec: String,
    pub thread_count: String,
    pub eject_after_rip: bool,
    pub auto_download: bool,
    pub prefer_system: bool,
    pub max_cache_size_mb: String,
    pub verify_on_startup: bool,
    pub cache_info: Option<(String, String)>,
    pub server_host: String,
    pub server_username: String,
    pub server_password: String,
    pub server_path: String,
    pub gpu_acceleration: bool,
    pub two_pass_encoding: bool,
    /// HandBrake's constant quality (RF; lower is better).
    pub quality: u32,
    /// The HandBrake preset.
    pub handbrake_preset: String,
    pub fast_start: bool,
    pub custom_args: String,
    pub organize_by_date: bool,
    pub auto_cleanup: bool,
    pub naming_pattern: String,
    pub compress_transfer: bool,
    pub resume_uploads: bool,
    pub preserve_permissions: bool,
    pub delete_after_upload: bool,
}

/// The values the configuration editor starts with.
pub open spec fn is_default_config_temp(c: ConfigTemp) -> bool {
    &&& c.handbrake_path@ == Seq::<char>::empty()
    &&& c.encode_algo@ == "MP4"@
    &&& c.video_codec@ == "H.264"@
    &&& c.thread_count@ == "0"@
    &&& c.eject_after_rip
    &&& c.auto_download
    &&& c.prefer_system
    &&& c.max_cache_size_mb@ == "100"@
    &&& c.verify_on_startup
    &&& c.cache_info is None
    &&& c.server_host@ == Seq::<char>::empty()
    &&& c.server_username@ == Seq::<char>::empty()
    &&& c.server_password@ == Seq::<char>::empty()
    &&& c.server_path@ == Seq::<char>::empty()
    &&& !c.gpu_acceleration
    &&& !c.two_pass_encoding
    &&& c.quality == 20
    &&& c.handbrake_preset@ == "Fast 1080p30"@
    &&& c.fast_start
    &&& c.custom_args@ == Seq::<char>::empty()
    &&& !c.organize_by_date
    &&& c.auto_cleanup
    &&& c.naming_pattern@ == "{title} - {date}"@
    &&& c.compress_transfer
    &&& c.resume_uploads
    &&& c.preserve_permissions
    &&& !c.delete_after_upload
}

impl Default for ConfigTemp {
    fn default() -> (r: Self)
        ensures
            is_default_config_temp(r),
    {
        ConfigTemp {
            handbrake_path: String::new(),
            encode_algo: owned("MP4"),
            video_codec: owned("H.264"),
            thread_count: owned("0"),
            eject_after_rip: true,
            auto_download: true,
            prefer_system: true,
            max_cache_size_mb: owned("100"),
            verify_on_startup: true,
            cache_info: None,
            server_host: String::new(),
            server_username: String::new(),
            server_password: String::new(),
            server_path: String::new(),
            gpu_acceleration: false,
            two_pass_encoding: false,
            quality: 20,
            handbrake_preset: owned("Fast 1080p30"),
            fast_start: true,
            custom_args: String::new(),
            organize_by_date: false,
            auto_cleanup: true,
            naming_pattern: owned("{title} - {date}"),
            compress_transfer: true,
            resume_uploads: true,
            preserve_permissions: true,
            delete_after_upload: false,
        }
    }
}

/// Update checking status
#[derive(Debug)]
pub enum UpdateStatus {
    Unknown,
    UpToDate,
    UpdateAvailable { version: String, url: String },
    Error(String),
}

/// HandBrake operation status; download progress is in percent.
#[derive(Debug)]
pub enum HandBrakeOperationStatus {
    Idle,
    CheckingStatus,
    Downloading { percent: u32 },
    Extracting,
    Installing,
    VerifyingInstallation,
    ClearingCache,
    Error(String),
}

/// Toast notification types
#[derive(Debug, Clone, Copy, PartialEq, Eq, Structural)]
pub enum ToastType {
    Success,
    Error,
    Warning,
    Info,
}

/// How long a toast of each type stays, in milliseconds.
pub open spec fn toast_duration_ms(t: ToastType) -> u64 {
    match t {
        ToastType::Success => 3000,
        ToastType::Info => 2000,
        ToastType::Warning => 4000,
        ToastType::Error => 4000,
    }
}

/// A short message shown for a while. Times are milliseconds of a monotonic
/// clock.
#[derive(Debug)]
pub struct ToastNotification {
    pub message: String,
    pub toast_type: ToastType,
    pub created_at_ms: u64,
    pub duration_ms: u64,
}

impl ToastNotification {
    /// A toast created at `now_ms`, shown for 3 s on success, 2 s for
    /// information and 4 s for warnings and errors.
    pub fn new(message: String, toast_type: ToastType, now_ms: u64) -> (r: ToastNotification)
        ensures
            r.message == message,
            r.toast_type == toast_type,
            r.created_at_ms == now_ms,
            r.duration_ms == toast_duration_ms(toast_type),
    {
        let duration_ms: u64 = match toast_type {
            ToastType::Success => 3000,
            ToastType::Info => 2000,
            ToastType::Warning => 4000,
            ToastType::Error => 4000,
        };
        ToastNotification { message, toast_type, created_at_ms: now_ms, duration_ms }
    }

    /// A toast has expired once more than its duration has passed since it
    /// was created.
    pub fn is_expired(&self, now_ms: u64) -> (r: bool)
        ensures
            r == (now_ms > self.created_at_ms && now_ms - self.created_at_ms > self.duration_ms),
    {
        now_ms > self.created_at_ms && now_ms - self.created_at_ms > self.duration_ms
    }
}

/// The number of selected titles.
pub open spec fn count_selected(s: Seq<bool>) -> nat
    decreases s.len(),
{
    if s.len() == 0 {
        0
    } else {
        count_selected(s.drop_last()) + if s.last() {
            1nat
        } else {
            0nat
        }
    }
}

/// The selection with entry `i` flipped (unchanged when `i` is out of range).
pub open spec fn toggled(s: Seq<bool>, i: int) -> Seq<bool> {
    if 0 <= i < s.len() {
        s.update(i, !s[i])
    } else {
        s
    }
}

/// What an error's message reads in the interface: the error's text, which
/// for an operating-system error continues with the system's words.
pub open spec fn shows_error(text: Seq<char>, prefix: Seq<char>, e: AppError) -> bool {
    &&& starts_with(text, prefix + error_message(e))
    &&& !(e is Io) ==> text == prefix + error_message(e)
}

/// UI-specific state that doesn't belong in the core app state
#[derive(Debug)]
pub struct UiState {
    pub active_tab: Tab,
    pub input_path: String,
    pub output_path: String,
    pub selected_titles: Vec<bool>,
    pub titles: Vec<Title>,
    pub main_feature_only: bool,
    pub chapter_split: bool,
    pub upload_to_server: bool,
    pub status_message: String,
    pub error_message: String,
    pub config_temp: ConfigTemp,
    pub show_about_dialog: bool,
    pub show_update_dialog: bool,
    pub show_cache_clear_dialog: bool,
    pub update_status: UpdateStatus,
    pub checking_updates: bool,
    pub handbrake_status: HandBrakeOperationStatus,
    pub handbrake_version: Option<String>,
    /// Until when (milliseconds of a monotonic clock) the verification notice
    /// stays visible.
    pub handbrake_verification_visible_until_ms: Option<u64>,
}

/// The state the interface opens with.
pub open spec fn is_initial_ui_state(u: UiState) -> bool {
    &&& u.active_tab == Tab::Main
    &&& u.input_path@ == Seq::<char>::empty()
    &&& u.output_path@ == Seq::<char>::empty()
    &&& u.selected_titles@.len() == 0
    &&& u.titles@.len() == 0
    &&& !u.main_feature_only
    &&& !u.chapter_split
    &&& !u.upload_to_server
    &&& u.status_message@ == "Ready"@
    &&& u.error_message@ == Seq::<char>::empty()
    &&& is_default_config_temp(u.config_temp)
    &&& !u.show_about_dialog
    &&& !u.show_update_dialog
    &&& !u.show_cache_clear_dialog
    &&& u.update_status is Unknown
    &&& !u.checking_updates
    &&& u.handbrake_status is Idle
    &&& u.handbrake_version is None
    &&& u.handbrake_verification_visible_until_ms is None
}

impl Default for UiState {
    fn default() -> (r: Self)
        ensures
            is_initial_ui_state(r),
    {
        UiState {
            active_tab: Tab::Main,
            input_path: String::new(),
            output_path: String::new(),
            selected_titles: Vec::new(),
            titles: Vec::new(),
            main_feature_only: false,
            chapter_split: false,
            upload_to_server: false,
            status_message: owned("Ready"),
            error_message: String::new(),
            config_temp: ConfigTemp::default(),
            show_about_dialog: false,
            show_update_dialog: false,
            show_cache_clear_dialog: false,
            update_status: UpdateStatus::Unknown,
            checking_updates: false,
            handbrake_status: HandBrakeOperationStatus::Idle,
            handbrake_version: None,
            handbrake_verification_visible_until_ms: None,
        }
    }
}

/// `n` unselected titles.
pub open spec fn none_selected(n: nat) -> Seq<bool> {
    Seq::new(n, |i: int| false)
}

/// Every one of `n` titles selected.
pub open spec fn all_selected(n: nat) -> Seq<bool> {
    Seq::new(n, |i: int| true)
}

impl UiState {
    /// The state the interface opens with.
    pub fn new() -> (r: UiState)
        ensures
            is_initial_ui_state(r),
    {
        UiState::default()
    }

    /// Takes a new list of titles; when its length differs from the old one,
    /// the selection is cleared to one unselected entry per title.
    pub fn update_titles(&mut self, new_titles: Vec<Title>)
        ensures
            title_views(final(self).titles@) == title_views(new_titles@),
            old(self).titles@.len() != new_titles@.len() ==> final(self).selected_titles@ == none_selected(
                new_titles@.len(),
            ),
            old(self).titles@.len() == new_titles@.len() ==> final(self).selected_titles@ == old(self).selected_titles@,
    {
        if self.titles.len() != new_titles.len() {
            let mut sel: Vec<bool> = Vec::new();
            let mut i: usize = 0;
            while i < new_titles.len()
                invariant
                    i <= new_titles@.len(),
                    sel@ == none_selected(i as nat),
                decreases new_titles@.len() - i,
            {
                sel.push(false);
                assert(sel@ =~= none_selected((i + 1) as nat));
                i = i + 1;
            }
            self.selected_titles = sel;
        }
        self.titles = new_titles;
    }

    /// The number of selected titles.
    pub fn selected_title_count(&self) -> (r: usize)
        ensures
            r == count_selected(self.selected_titles@),
    {
        let mut n: usize = 0;
        let mut i: usize = 0;
        while i < self.selected_titles.len()
            invariant
                i <= self.selected_titles@.len(),
                n == count_selected(self.selected_titles@.take(i as int)),
                n <= i,
            decreases self.selected_titles@.len() - i,
        {
            assert(self.selected_titles@.take(i + 1).drop_last() =~= self.selected_titles@.take(i as int));
            if self.selected_titles[i] {
                n = n + 1;
            }
            i = i + 1;
        }
        assert(self.selected_titles@.take(i as int) =~= self.selected_titles@);
        n
    }

    /// Selects every title.
    pub fn select_all_titles(&mut self)
        ensures
            final(self).selected_titles@ == all_selected(old(self).selected_titles@.len()),
            title_views(final(self).titles@) == title_views(old(self).titles@),
            *final(self) == (UiState { selected_titles: final(self).selected_titles, ..*old(self) }),
    {
        let n = self.selected_titles.len();
        let mut i: usize = 0;
        while i < n
            invariant
                n == old(self).selected_titles@.len(),
                self.selected_titles@.len() == n,
                i <= n,
                forall|k: int| 0 <= k < i ==> self.selected_titles@[k],
                self.titles@ == old(self).titles@,
                *self == (UiState { selected_titles: self.selected_titles, ..*old(self) }),
            decreases n - i,
        {
            self.selected_titles.set(i, true);
            i = i + 1;
        }
        assert(self.selected_titles@ =~= all_selected(n as nat));
    }

    /// Clears the selection.
    pub fn deselect_all_titles(&mut self)
        ensures
            final(self).selected_titles@ == none_selected(old(self).selected_titles@.len()),
            title_views(final(self).titles@) == title_views(old(self).titles@),
            *final(self) == (UiState { selected_titles: final(self).selected_titles, ..*old(self) }),
    {
        let n = self.selected_titles.len();
        let mut i: usize = 0;
        while i < n
            invariant
                n == old(self).selected_titles@.len(),
                self.selected_titles@.len() == n,
                i <= n,
                forall|k: int| 0 <= k < i ==> !self.selected_titles@[k],
                self.titles@ == old(self).titles@,
                *self == (UiState { selected_titles: self.selected_titles, ..*old(self) }),
            decreases n - i,
        {
            self.selected_titles.set(i, false);
            i = i + 1;
        }
        assert(self.selected_titles@ =~= none_selected(n as nat));
    }

    /// Flips the selection of title `index`; an index past the end is ignored.
    pub fn toggle_title(&mut self, index: usize)
        ensures
            final(self).selected_titles@ == toggled(old(self).selected_titles@, index as int),
            title_views(final(self).titles@) == title_views(old(self).titles@),
            *final(self) == (UiState { selected_titles: final(self).selected_titles, ..*old(self) }),
    {
        if index < self.selected_titles.len() {
            let v = self.selected_titles[index];
            self.selected_titles.set(index, !v);
        }
    }

    /// Shows an error message.
    pub fn set_error(&mut self, message: String)
        ensures
            *final(self) == (UiState { error_message: message, ..*old(self) }),
    {
        self.error_message = message;
    }

    /// Clears the error message.
    pub fn clear_error(&mut self)
        ensures
            final(self).error_message@ == Seq::<char>::empty(),
            *final(self) == (UiState { error_message: final(self).error_message, ..*old(self) }),
    {
        self.error_message = String::new();
    }

    /// Shows a status message.
    pub fn set_status(&mut self, message: String)
        ensures
            *final(self) == (UiState { status_message: message, ..*old(self) }),
    {
        self.status_message = message;
    }

    /// Copies the configuration into the editor: HandBrake path (empty when
    /// none), formats, thread count, eject and HandBrake management settings,
    /// the server settings when there are any (an absent password as empty),
    /// and the output directory.
    pub fn load_config_temp(&mut self, config: &Config)
        ensures
            final(self).config_temp.handbrake_path@ == (match config.handbrake_path {
                Some(p) => p@,
                None => Seq::<char>::empty(),
            }),
            final(self).config_temp.encode_algo@ == config.encode_algo@,
            final(self).config_temp.video_codec@ == config.video_codec@,
            final(self).config_temp.thread_count@ == decimal_digits(config.thread_count as nat),
            final(self).config_temp.eject_after_rip == config.eject_after_rip,
            final(self).config_temp.auto_download == config.handbrake_management.auto_download,
            final(self).config_temp.prefer_system == config.handbrake_management.prefer_system,
            final(self).config_temp.max_cache_size_mb@ == decimal_digits(
                config.handbrake_management.max_cache_size_mb as nat,
            ),
            final(self).config_temp.verify_on_startup == config.handbrake_management.verify_on_startup,
            config.server matches Some(s) ==> {
                &&& final(self).config_temp.server_host@ == s.host@
                &&& final(self).config_temp.server_username@ == s.username@
                &&& final(self).config_temp.server_password@ == (match s.password {
                    Some(p) => p@,
                    None => Seq::<char>::empty(),
                })
                &&& final(self).config_temp.server_path@ == s.path@
            },
            config.server is None ==> {
                &&& final(self).config_temp.server_host == old(self).config_temp.server_host
                &&& final(self).config_temp.server_username == old(self).config_temp.server_username
                &&& final(self).config_temp.server_password == old(self).config_temp.server_password
                &&& final(self).config_temp.server_path == old(self).config_temp.server_path
            },
            final(self).output_path@ == config.output_dir@,
            final(self).config_temp.cache_info == old(self).config_temp.cache_info,
    {
        self.config_temp.handbrake_path = match &config.handbrake_path {
            Some(p) => p.clone(),
            None => String::new(),
        };
        self.config_temp.encode_algo = config.encode_algo.clone();
        self.config_temp.video_codec = config.video_codec.clone();
        self.config_temp.thread_count = decimal_string(config.thread_count as u64);
        self.config_temp.eject_after_rip = config.eject_after_rip;
        self.config_temp.auto_download = config.handbrake_management.auto_download;
        self.config_temp.prefer_system = config.handbrake_management.prefer_system;
        self.config_temp.max_cache_size_mb = decimal_string(config.handbrake_management.max_cache_size_mb);
        self.config_temp.verify_on_startup = config.handbrake_management.verify_on_startup;
        match &config.server {
            Some(server) => {
                self.config_temp.server_host = server.host.clone();
                self.config_temp.server_username = server.username.clone();
                self.config_temp.server_password = match &server.password {
                    Some(p) => p.clone(),
                    None => String::new(),
                };
                self.config_temp.server_path = server.path.clone();
            },
            None => {},
        }
        self.output_path = config.output_dir.clone();
    }
}

/// Toggling the same title twice gives the selection back.
pub proof fn lemma_toggle_twice(s: Seq<bool>, i: int)
    ensures
        toggled(toggled(s, i), i) == s,
{
    if 0 <= i < s.len() {
        assert(toggled(toggled(s, i), i) =~= s);
    }
}

/// Toggling a title changes the count of selected titles by exactly one.
pub proof fn lemma_toggle_count(s: Seq<bool>, i: int)
    requires
        0 <= i < s.len(),
    ensures
        s[i] ==> count_selected(toggled(s, i)) + 1 == count_selected(s),
        !s[i] ==> count_selected(toggled(s, i)) == count_selected(s) + 1,
    decreases s.len(),
{
    let t = toggled(s, i);
    if i == s.len() - 1 {
        assert(t.drop_last() =~= s.drop_last());
    } else {
        lemma_toggle_count(s.drop_last(), i);
        assert(t.drop_last() =~= toggled(s.drop_last(), i));
    }
}

/// The selected titles are never more than the titles.
pub proof fn lemma_count_at_most_len(s: Seq<bool>)
    ensures
        count_selected(s) <= s.len(),
    decreases s.len(),
{
    if s.len() > 0 {
        lemma_count_at_most_len(s.drop_last());
    }
}

/// After selecting all titles every title counts; after clearing, none does.
pub proof fn lemma_select_all_counts(n: nat)
    ensures
        count_selected(all_selected(n)) == n,
        count_selected(none_selected(n)) == 0,
    decreases n,
{
    if n > 0 {
        lemma_select_all_counts((n - 1) as nat);
        assert(all_selected(n).drop_last() =~= all_selected((n - 1) as nat));
        assert(none_selected(n).drop_last() =~= none_selected((n - 1) as nat));
    }
}

/// The worth of the last bit a double keeps of `size`, found by doubling
/// from `p`: 1 while the size fits in 53 bits, else the power of two that
/// brings it below 2^53.
pub open spec fn double_unit(size: u64, p: nat) -> nat
    decreases 4096 - p,
{
    if p == 0 || p >= 2048 || (size as nat) / p < 0x20000000000000 {
        p
    } else {
        double_unit(size, p * 2)
    }
}

/// `n / d` rounded to the nearest whole number, a tie going to the even one.
pub open spec fn div_round_even(n: nat, d: nat) -> nat {
    let q = n / d;
    let rem = n % d;
    if rem * 2 > d || (rem * 2 == d && q % 2 == 1) {
        q + 1
    } else {
        q
    }
}

/// `size as f64`: the nearest multiple of the double's unit for the size, a
/// tie going to the even multiple.
pub open spec fn as_double(size: u64) -> nat {
    let p = double_unit(size, 1);
    div_round_even(size as nat, p) * p
}

/// The size as a double, in tenths of a MiB, rounded to the nearest tenth, a
/// tie going to the even tenth.
pub open spec fn cache_size_tenths(size: u64) -> nat {
    div_round_even(as_double(size) * 10, 1048576)
}

/// The cache size in MiB rounded to one decimal, followed by ` MB`.
pub open spec fn cache_size_text(size: u64) -> Seq<char> {
    let tenths = cache_size_tenths(size);
    decimal_digits(tenths / 10) + "."@ + decimal_digits(tenths % 10) + " MB"@
}

fn round_even_div(n: u128, d: u128) -> (r: u128)
    requires
        0 < d < 0x10000000000000000000000000,
        n < 0x1000000000000000000000000000000,
    ensures
        r == div_round_even(n as nat, d as nat),
        r <= n / d + 1,
{
    let q = n / d;
    let rem = n % d;
    if rem * 2 > d || (rem * 2 == d && q % 2 == 1) {
        q + 1
    } else {
        q
    }
}

/// Writes a cache size (in bytes) as MiB with one decimal, as `{:.1} MB`
/// prints the size turned into a double and divided by 1024 twice: the
/// double is the nearest one (ties to even), the division is exact, and the
/// printed tenth is the nearest one (ties to even).
pub fn format_cache_size(size: u64) -> (r: String)
    ensures
        r@ == cache_size_text(size),
{
    let mut p: u64 = 1;
    while p < 2048 && size / p >= 0x20000000000000
        invariant
            1 <= p <= 4096,
            double_unit(size, p as nat) == double_unit(size, 1),
        decreases 4096 - p,
    {
        p = p * 2;
    }
    assert(size / p < 0x20000000000000) by {
        if p >= 2048 {
            assert(size / p <= size / 2048) by (nonlinear_arith)
                requires
                    p >= 2048,
            ;
        }
    }
    assert(double_unit(size, p as nat) == p);
    let q = round_even_div(size as u128, p as u128);
    assert(q <= 0x20000000000000);
    assert(q * p <= 0x20000000000000 * 4096) by (nonlinear_arith)
        requires
            q <= 0x20000000000000,
            p <= 4096,
    ;
    let d: u128 = q * (p as u128);
    assert(d == as_double(size));
    let t = round_even_div(d * 10, 1048576);
    assert(t <= (0x20000000000000 * 4096 * 10) / 1048576 + 1);
    let tenths = t as u64;
    let mut s = decimal_string(tenths / 10);
    push_str(&mut s, ".");
    push_decimal(&mut s, tenths % 10);
    push_str(&mut s, " MB");
    s
}

impl UiState {
    /// A HandBrake download starts.
    pub fn begin_download(&mut self)
        ensures
            final(self).handbrake_status == (HandBrakeOperationStatus::Downloading { percent: 0 }),
            final(self).status_message == old(self).status_message,
            final(self).error_message == old(self).error_message,
    {
        self.handbrake_status = HandBrakeOperationStatus::Downloading { percent: 0 };
    }

    /// Records how a HandBrake download ended.
    pub fn finish_download(&mut self, result: Result<(), AppError>) -> (r: Result<(), String>)
        ensures
            result is Ok ==> (r is Ok && final(self).handbrake_status is Idle && final(self).status_message@
                == "HandBrake downloaded successfully"@ && final(self).error_message == old(self).error_message),
            result matches Err(e) ==> {
                &&& r is Err
                &&& shows_error(r->Err_0@, Seq::empty(), e)
                &&& final(self).handbrake_status is Error
                &&& final(self).handbrake_status->Error_0@ == r->Err_0@
                &&& shows_error(final(self).error_message@, "Failed to download HandBrake: "@, e)
                &&& final(self).status_message == old(self).status_message
            },
    {
        match result {
            Ok(()) => {
                self.handbrake_status = HandBrakeOperationStatus::Idle;
                self.set_status(owned("HandBrake downloaded successfully"));
                Ok(())
            },
            Err(e) => {
                let t = error_text(&e);
                self.handbrake_status = HandBrakeOperationStatus::Error(t.clone());
                self.set_error(prefixed("Failed to download HandBrake: ", &e));
                Err(t)
            },
        }
    }

    /// A HandBrake verification starts.
    pub fn begin_verify(&mut self)
        ensures
            final(self).handbrake_status is VerifyingInstallation,
            final(self).status_message == old(self).status_message,
            final(self).error_message == old(self).error_message,
    {
        self.handbrake_status = HandBrakeOperationStatus::VerifyingInstallation;
    }

    /// Records how a HandBrake verification ended; success hands back the
    /// binary's path.
    pub fn finish_verify(&mut self, result: Result<String, AppError>) -> (r: Result<String, String>)
        ensures
            result matches Ok(p) ==> (r == Ok::<String, String>(p) && final(self).handbrake_status is Idle
                && final(self).status_message@ == "HandBrake verification successful"@
                && final(self).error_message == old(self).error_message),
            result matches Err(e) ==> {
                &&& r is Err
                &&& shows_error(r->Err_0@, Seq::empty(), e)
                &&& final(self).handbrake_status is Error
                &&& final(self).handbrake_status->Error_0@ == r->Err_0@
                &&& shows_error(final(self).error_message@, "HandBrake verification failed: "@, e)
                &&& final(self).status_message == old(self).status_message
            },
    {
        match result {
            Ok(p) => {
                self.handbrake_status = HandBrakeOperationStatus::Idle;
                self.set_status(owned("HandBrake verification successful"));
                Ok(p)
            },
            Err(e) => {
                let t = error_text(&e);
                self.handbrake_status = HandBrakeOperationStatus::Error(t.clone());
                self.set_error(prefixed("HandBrake verification failed: ", &e));
                Err(t)
            },
        }
    }

    /// Clearing the HandBrake cache starts.
    pub fn begin_clear_cache(&mut self)
        ensures
            final(self).handbrake_status is ClearingCache,
            final(self).status_message == old(self).status_message,
            final(self).error_message == old(self).error_message,
    {
        self.handbrake_status = HandBrakeOperationStatus::ClearingCache;
    }

    /// Records how clearing the HandBrake cache ended.
    pub fn finish_clear_cache(&mut self, result: Result<(), AppError>) -> (r: Result<(), String>)
        ensures
            result is Ok ==> (r is Ok && final(self).handbrake_status is Idle && final(self).status_message@
                == "HandBrake cache cleared successfully"@ && final(self).error_message == old(self).error_message),
            result matches Err(e) ==> {
                &&& r is Err
                &&& shows_error(r->Err_0@, Seq::empty(), e)
                &&& final(self).handbrake_status is Error
                &&& final(self).handbrake_status->Error_0@ == r->Err_0@
                &&& shows_error(final(self).error_message@, "Failed to clear cache: "@, e)
                &&& final(self).status_message == old(self).status_message
            },
    {
        match result {
            Ok(()) => {
                self.handbrake_status = HandBrakeOperationStatus::Idle;
                self.set_status(owned("HandBrake cache cleared successfully"));
                Ok(())
            },
            Err(e) => {
                let t = error_text(&e);
                self.handbrake_status = HandBrakeOperationStatus::Error(t.clone());
                self.set_error(prefixed("Failed to clear cache: ", &e));
                Err(t)
            },
        }
    }

    /// Shows where the cache is and how large it is, or why that is unknown.
    pub fn record_cache_info(&mut self, result: Result<(String, u64), AppError>)
        ensures
            result matches Ok(info) ==> (final(self).config_temp.cache_info matches Some(c) && c.0@ == info.0@
                && c.1@ == cache_size_text(info.1) && final(self).error_message == old(self).error_message),
            result matches Err(e) ==> (shows_error(final(self).error_message@, "Failed to get cache info: "@, e)
                && final(self).config_temp.cache_info == old(self).config_temp.cache_info),
    {
        match result {
            Ok((dir, size)) => {
                self.config_temp.cache_info = Some((dir, format_cache_size(size)));
            },
            Err(e) => {
                self.set_error(prefixed("Failed to get cache info: ", &e));
            },
        }
    }

    /// Takes in the result of an update check: the status it gives, and the
    /// check is over.
    pub fn record_update_result(&mut self, result: UpdateCheckResult)
        ensures
            !final(self).checking_updates,
            result is UpToDate ==> final(self).update_status is UpToDate,
            result matches UpdateCheckResult::UpdateAvailable { version, download_url, changelog } ==> (final(self).update_status matches UpdateStatus::UpdateAvailable { version: v, url } && v == version && url
                == download_url),
            result matches UpdateCheckResult::Error(e) ==> (final(self).update_status matches UpdateStatus::Error(m)
                && m == e),
    {
        match result {
            UpdateCheckResult::UpdateAvailable { version, download_url, changelog: _ } => {
                self.update_status = UpdateStatus::UpdateAvailable { version, url: download_url };
            },
            UpdateCheckResult::UpToDate => {
                self.update_status = UpdateStatus::UpToDate;
            },
            UpdateCheckResult::Error(e) => {
                self.update_status = UpdateStatus::Error(e);
            },
        }
        self.checking_updates = false;
    }

    /// Takes in a HandBrake status report from a background operation. When
    /// it leaves HandBrake idle with a known version, the verification notice
    /// is shown for five seconds from `now_ms`.
    pub fn record_handbrake_update(
        &mut self,
        status: HandBrakeOperationStatus,
        version: Option<String>,
        now_ms: u64,
    )
        requires
            now_ms <= u64::MAX - 5000,
        ensures
            final(self).handbrake_status == status,
            final(self).handbrake_version == version,
            status is Idle && version is Some ==> final(self).handbrake_verification_visible_until_ms == Some(
                (now_ms + 5000) as u64,
            ),
            !(status is Idle && version is Some) ==> final(self).handbrake_verification_visible_until_ms == old(self).handbrake_verification_visible_until_ms,
    {
        let ready = match (&status, &version) {
            (HandBrakeOperationStatus::Idle, Some(_)) => true,
            _ => false,
        };
        self.handbrake_status = status;
        self.handbrake_version = version;
        if ready {
            self.handbrake_verification_visible_until_ms = Some(now_ms + 5000);
        }
    }
}

/// The text an error shows (its `Display`).
fn error_text(e: &AppError) -> (r: String)
    ensures
        shows_error(r@, Seq::empty(), *e),
{
    let m = e.message();
    proof {
        assert(Seq::<char>::empty() + error_message(*e) =~= error_message(*e));
        if !(e is Io) {
            assert(m@.take(error_message(*e).len() as int) =~= error_message(*e));
        }
    }
    m
}

/// `prefix` followed by an error's text.
fn prefixed(prefix: &str, e: &AppError) -> (r: String)
    ensures
        shows_error(r@, prefix@, *e),
{
    let mut s = owned(prefix);
    let m = e.message();
    push_str(&mut s, m.as_str());
    proof {
        let p = prefix@ + error_message(*e);
        assert(s@ =~= prefix@ + m@);
        assert(s@.take(p.len() as int) =~= p);
    }
    s
}

impl UiState {
    /// Writes the editor's settings into the configuration: output directory,
    /// formats, thread count (when it does not read as a number, one per
    /// processor, at least one), eject and chapter splitting, the HandBrake
    /// path when one is given, and the HandBrake management settings (a cache
    /// size that does not read as a number becomes 100 MB). The server and
    /// the first-start flag stay.
    pub fn apply_to_config(&self, config: &mut Config)
        ensures
            final(config).output_dir@ == self.output_path@,
            final(config).encode_algo@ == self.config_temp.encode_algo@,
            final(config).video_codec@ == self.config_temp.video_codec@,
            unsigned_from_str(self.config_temp.thread_count@, usize::MAX as nat) matches Some(n) ==> final(config).thread_count == n,
            unsigned_from_str(self.config_temp.thread_count@, usize::MAX as nat) is None ==> final(config).thread_count
                >= 1,
            final(config).eject_after_rip == self.config_temp.eject_after_rip,
            final(config).chapter_split == self.chapter_split,
            self.config_temp.handbrake_path@.len() > 0 ==> (final(config).handbrake_path matches Some(p) && p@
                == self.config_temp.handbrake_path@),
            self.config_temp.handbrake_path@.len() == 0 ==> final(config).handbrake_path == old(config).handbrake_path,
            final(config).handbrake_management.auto_download == self.config_temp.auto_download,
            final(config).handbrake_management.prefer_system == self.config_temp.prefer_system,
            final(config).handbrake_management.max_cache_size_mb == (match unsigned_from_str(
                self.config_temp.max_cache_size_mb@,
                u64::MAX as nat,
            ) {
                Some(n) => n,
                None => 100,
            }),
            final(config).handbrake_management.verify_on_startup == self.config_temp.verify_on_startup,
            final(config).server == old(config).server,
            final(config).optimal_settings_calculated == old(config).optimal_settings_calculated,
    {
        config.output_dir = self.output_path.clone();
        config.encode_algo = self.config_temp.encode_algo.clone();
        config.video_codec = self.config_temp.video_codec.clone();
        let tc = chars_of(self.config_temp.thread_count.as_str());
        config.thread_count = match parse_unsigned(tc.as_slice(), usize::MAX as u64) {
            Some(n) => n as usize,
            None => {
                let cpus = available_cpus();
                if cpus >= 1 {
                    cpus
                } else {
                    1
                }
            },
        };
        config.eject_after_rip = self.config_temp.eject_after_rip;
        config.chapter_split = self.chapter_split;
        if !self.config_temp.handbrake_path.as_str().is_empty() {
            config.handbrake_path = Some(self.config_temp.handbrake_path.clone());
        }
        config.handbrake_management.auto_download = self.config_temp.auto_download;
        config.handbrake_management.prefer_system = self.config_temp.prefer_system;
        let mc = chars_of(self.config_temp.max_cache_size_mb.as_str());
        config.handbrake_management.max_cache_size_mb = match parse_unsigned(mc.as_slice(), u64::MAX) {
            Some(n) => n,
            None => 100,
        };
        config.handbrake_management.verify_on_startup = self.config_temp.verify_on_startup;
    }

    /// The server settings in the editor; an empty password means none.
    pub fn editor_server_config(&self) -> (r: ServerConfig)
        ensures
            r.host@ == self.config_temp.server_host@,
            r.username@ == self.config_temp.server_username@,
            self.config_temp.server_password@.len() == 0 ==> r.password is None,
            self.config_temp.server_password@.len() > 0 ==> (r.password matches Some(p) && p@
                == self.config_temp.server_password@),
            r.path@ == self.config_temp.server_path@,
    {
        ServerConfig {
            host: self.config_temp.server_host.clone(),
            username: self.config_temp.server_username.clone(),
            password: if self.config_temp.server_password.as_str().is_empty() {
                None
            } else {
                Some(self.config_temp.server_password.clone())
            },
            path: self.config_temp.server_path.clone(),
        }
    }

    /// A connection can only be tested with a host and a user name; the
    /// error names what is missing.
    pub fn connection_test_input(&self) -> (r: Result<(), &'static str>)
        ensures
            self.config_temp.server_host@.len() == 0 ==> (r matches Err(m) && m@ == "Please enter a server host"@),
            self.config_temp.server_host@.len() > 0 && self.config_temp.server_username@.len() == 0 ==> (r matches Err(
                m,
            ) && m@ == "Please enter a username"@),
            self.config_temp.server_host@.len() > 0 && self.config_temp.server_username@.len() > 0 ==> r is Ok,
    {
        if self.config_temp.server_host.as_str().is_empty() {
            return Err("Please enter a server host");
        }
        if self.config_temp.server_username.as_str().is_empty() {
            return Err("Please enter a username");
        }
        Ok(())
    }

    /// Empties the server settings in the editor and turns uploading off.
    pub fn clear_server_settings(&mut self)
        ensures
            final(self).config_temp.server_host@.len() == 0,
            final(self).config_temp.server_username@.len() == 0,
            final(self).config_temp.server_password@.len() == 0,
            final(self).config_temp.server_path@.len() == 0,
            !final(self).upload_to_server,
    {
        self.config_temp.server_host = String::new();
        self.config_temp.server_username = String::new();
        self.config_temp.server_password = String::new();
        self.config_temp.server_path = String::new();
        self.upload_to_server = false;
    }
}

/// The settings written to an exported configuration file.
#[derive(Debug)]
pub struct ExportableConfig {
    pub input_path: String,
    pub output_path: String,
    pub encode_algo: String,
    pub video_codec: String,
    pub thread_count: String,
    pub custom_args: String,
    pub naming_pattern: String,
    pub main_feature_only: bool,
    pub auto_download: bool,
    pub organize_by_date: bool,
    pub auto_cleanup: bool,
    pub gpu_acceleration: bool,
    pub two_pass_encoding: bool,
    pub version: String,
}

impl UiState {
    /// The settings to export, stamped with the program's `version`.
    pub fn export_config(&self, version: &str) -> (r: ExportableConfig)
        ensures
            r.input_path == self.input_path,
            r.output_path == self.output_path,
            r.encode_algo == self.config_temp.encode_algo,
            r.video_codec == self.config_temp.video_codec,
            r.thread_count == self.config_temp.thread_count,
            r.custom_args == self.config_temp.custom_args,
            r.naming_pattern == self.config_temp.naming_pattern,
            r.main_feature_only == self.main_feature_only,
            r.auto_download == self.config_temp.auto_download,
            r.organize_by_date == self.config_temp.organize_by_date,
            r.auto_cleanup == self.config_temp.auto_cleanup,
            r.gpu_acceleration == self.config_temp.gpu_acceleration,
            r.two_pass_encoding == self.config_temp.two_pass_encoding,
            r.version@ == version@,
    {
        ExportableConfig {
            input_path: self.input_path.clone(),
            output_path: self.output_path.clone(),
            encode_algo: self.config_temp.encode_algo.clone(),
            video_codec: self.config_temp.video_codec.clone(),
            thread_count: self.config_temp.thread_count.clone(),
            custom_args: self.config_temp.custom_args.clone(),
            naming_pattern: self.config_temp.naming_pattern.clone(),
            main_feature_only: self.main_feature_only,
            auto_download: self.config_temp.auto_download,
            organize_by_date: self.config_temp.organize_by_date,
            auto_cleanup: self.config_temp.auto_cleanup,
            gpu_acceleration: self.config_temp.gpu_acceleration,
            two_pass_encoding: self.config_temp.two_pass_encoding,
            version: owned(version),
        }
    }

    /// Takes the settings of an imported configuration.
    pub fn apply_imported_config(&mut self, c: ExportableConfig)
        ensures
            final(self).input_path == c.input_path,
            final(self).output_path == c.output_path,
            final(self).config_temp.encode_algo == c.encode_algo,
            final(self).config_temp.video_codec == c.video_codec,
            final(self).config_temp.thread_count == c.thread_count,
            final(self).config_temp.custom_args == c.custom_args,
            final(self).config_temp.naming_pattern == c.naming_pattern,
            final(self).main_feature_only == c.main_feature_only,
            final(self).config_temp.auto_download == c.auto_download,
            final(self).config_temp.organize_by_date == c.organize_by_date,
            final(self).config_temp.auto_cleanup == c.auto_cleanup,
            final(self).config_temp.gpu_acceleration == c.gpu_acceleration,
            final(self).config_temp.two_pass_encoding == c.two_pass_encoding,
            final(self).config_temp.server_host == old(self).config_temp.server_host,
            final(self).error_message == old(self).error_message,
    {
        self.input_path = c.input_path;
        self.output_path = c.output_path;
        self.config_temp.encode_algo = c.encode_algo;
        self.config_temp.video_codec = c.video_codec;
        self.config_temp.thread_count = c.thread_count;
        self.config_temp.custom_args = c.custom_args;
        self.config_temp.naming_pattern = c.naming_pattern;
        self.main_feature_only = c.main_feature_only;
        self.config_temp.auto_download = c.auto_download;
        self.config_temp.organize_by_date = c.organize_by_date;
        self.config_temp.auto_cleanup = c.auto_cleanup;
        self.config_temp.gpu_acceleration = c.gpu_acceleration;
        self.config_temp.two_pass_encoding = c.two_pass_encoding;
    }

    /// Fills the editor with the settings suited to `cpus` processors: the
    /// thread count of the first start, H.264 in MP4, no GPU acceleration
    /// and one pass. The thread count comes back.
    pub fn apply_optimal_settings(&mut self, cpus: usize) -> (r: usize)
        ensures
            r == crate::gui::spec_optimal_threads(cpus),
            final(self).config_temp.thread_count@ == decimal_digits(r as nat),
            final(self).config_temp.video_codec@ == "H.264"@,
            final(self).config_temp.encode_algo@ == "MP4"@,
            !final(self).config_temp.gpu_acceleration,
            !final(self).config_temp.two_pass_encoding,
            final(self).config_temp.quality == 22,
            final(self).config_temp.handbrake_preset@ == "Fast 1080p30"@,
            *final(self) == (UiState { config_temp: final(self).config_temp, ..*old(self) }),
            final(self).config_temp == (ConfigTemp {
                thread_count: final(self).config_temp.thread_count,
                video_codec: final(self).config_temp.video_codec,
                encode_algo: final(self).config_temp.encode_algo,
                gpu_acceleration: false,
                two_pass_encoding: false,
                quality: 22,
                handbrake_preset: final(self).config_temp.handbrake_preset,
                ..old(self).config_temp
            }),
    {
        let threads = crate::gui::optimal_thread_count(cpus);
        self.config_temp.thread_count = decimal_string(threads as u64);
        self.config_temp.video_codec = owned("H.264");
        self.config_temp.encode_algo = owned("MP4");
        self.config_temp.gpu_acceleration = false;
        self.config_temp.two_pass_encoding = false;
        self.config_temp.quality = 22;
        self.config_temp.handbrake_preset = owned("Fast 1080p30");
        threads
    }

    /// Puts the editor back to its defaults, with `default_output` (the
    /// user's video folder) as the output folder.
    pub fn reset_to_defaults(&mut self, default_output: String)
        ensures
            final(self).input_path@.len() == 0,
            final(self).output_path == default_output,
            is_default_config_temp(final(self).config_temp),
            !final(self).main_feature_only,
    {
        self.input_path = String::new();
        self.output_path = default_output;
        self.config_temp = ConfigTemp::default();
        self.main_feature_only = false;
    }
}

} // verus!

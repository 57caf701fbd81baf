//! The colours, spacing and roundings the interface is drawn with. Colours
//! are `0xRRGGBB`; lengths are in points.

use vstd::prelude::*;
use crate::session::state::AppStatus;
use crate::text::{decimal_digits, owned, push_decimal, push_str};

verus! {

/// The colour scheme.
#[derive(Debug, Clone, Copy)]
pub struct ModernTheme;

impl ModernTheme {
    pub const BACKGROUND_PRIMARY: u32 = 0x101418;
    pub const BACKGROUND_SECONDARY: u32 = 0x181E24;
    pub const BACKGROUND_TERTIARY: u32 = 0x202830;
    pub const ACCENT_PRIMARY: u32 = 0x8A5CF6;
    pub const ACCENT_SECONDARY: u32 = 0x7C4EE6;
    pub const ACCENT_HOVER: u32 = 0x986AFF;
    pub const SUCCESS: u32 = 0x22C55E;
    pub const WARNING: u32 = 0xFB923C;
    pub const ERROR: u32 = 0xEF4444;
    pub const INFO: u32 = 0x3B82F6;
    pub const TEXT_PRIMARY: u32 = 0xFFFFFF;
    pub const TEXT_SECONDARY: u32 = 0xAEAEB2;
    pub const TEXT_TERTIARY: u32 = 0x8E8E93;
    pub const TEXT_DISABLED: u32 = 0x636366;
    pub const BUTTON_PRIMARY: u32 = 0x8A5CF6;
    pub const BUTTON_SECONDARY: u32 = 0x283038;
    pub const BUTTON_HOVER: u32 = 0x986AFF;
    pub const BUTTON_ACTIVE: u32 = 0x7C4EE6;
    pub const BORDER_PRIMARY: u32 = 0x404850;
    pub const BORDER_SECONDARY: u32 = 0x303840;
    pub const BORDER_ACCENT: u32 = 0x8A5CF6;
}

/// The spacing scale.
#[derive(Debug, Clone, Copy)]
pub struct Spacing;

impl Spacing {
    pub const NONE: u32 = 0;
    pub const XS: u32 = 4;
    pub const SM: u32 = 8;
    pub const MD: u32 = 16;
    pub const LG: u32 = 24;
    pub const XL: u32 = 32;
    pub const XXL: u32 = 48;
    pub const XXXL: u32 = 64;
}

/// The corner radii.
#[derive(Debug, Clone, Copy)]
pub struct BorderRadius;

impl BorderRadius {
    pub const NONE: u32 = 0;
    pub const SM: u32 = 6;
    pub const MD: u32 = 12;
    pub const LG: u32 = 16;
    pub const XL: u32 = 24;
    pub const FULL: u32 = 999;
}

/// The older names of a few colours.
#[derive(Debug, Clone, Copy)]
pub struct BasicTheme;

impl BasicTheme {
    pub const SUCCESS: u32 = 0x22C55E;
    pub const WARNING: u32 = 0xFB923C;
    pub const ERROR: u32 = 0xEF4444;
    pub const ACCENT: u32 = 0x8A5CF6;
    pub const SURFACE: u32 = 0x181E24;
}

/// The older names of a few lengths.
#[derive(Debug, Clone, Copy)]
pub struct Layout;

impl Layout {
    pub const SPACING: u32 = 16;
    pub const SPACING_SMALL: u32 = 8;
    pub const SPACING_LARGE: u32 = 24;
    pub const ROUNDING: u32 = 12;
}

/// Button style variants
#[derive(Debug, Clone, Copy, PartialEq, Eq, Structural)]
pub enum ButtonVariant {
    Primary,
    Secondary,
    Success,
    Warning,
    Error,
}

/// The kinds of status messages.
#[derive(Debug, Clone, Copy, PartialEq, Eq, Structural)]
pub enum StatusType {
    Success,
    Warning,
    Error,
    Info,
}

/// The fill, text and border colours of a button variant.
pub open spec fn spec_button_colors(v: ButtonVariant) -> (u32, u32, u32) {
    match v {
        ButtonVariant::Primary => (ModernTheme::ACCENT_PRIMARY, ModernTheme::TEXT_PRIMARY, ModernTheme::ACCENT_PRIMARY),
        ButtonVariant::Secondary => (ModernTheme::BUTTON_SECONDARY, ModernTheme::TEXT_PRIMARY, ModernTheme::BORDER_PRIMARY),
        ButtonVariant::Success => (ModernTheme::SUCCESS, ModernTheme::TEXT_PRIMARY, ModernTheme::SUCCESS),
        ButtonVariant::Warning => (ModernTheme::WARNING, ModernTheme::BACKGROUND_PRIMARY, ModernTheme::WARNING),
        ButtonVariant::Error => (ModernTheme::ERROR, ModernTheme::TEXT_PRIMARY, ModernTheme::ERROR),
    }
}

impl ButtonVariant {
    /// The fill, text and border colours of the variant.
    pub fn colors(&self) -> (r: (u32, u32, u32))
        ensures
            r == spec_button_colors(*self),
    {
        match self {
            ButtonVariant::Primary => (ModernTheme::ACCENT_PRIMARY, ModernTheme::TEXT_PRIMARY, ModernTheme::ACCENT_PRIMARY),
            ButtonVariant::Secondary => (ModernTheme::BUTTON_SECONDARY, ModernTheme::TEXT_PRIMARY, ModernTheme::BORDER_PRIMARY),
            ButtonVariant::Success => (ModernTheme::SUCCESS, ModernTheme::TEXT_PRIMARY, ModernTheme::SUCCESS),
            ButtonVariant::Warning => (ModernTheme::WARNING, ModernTheme::BACKGROUND_PRIMARY, ModernTheme::WARNING),
            ButtonVariant::Error => (ModernTheme::ERROR, ModernTheme::TEXT_PRIMARY, ModernTheme::ERROR),
        }
    }
}

impl StatusType {
    /// The colour of a status message and the icon named for it.
    pub fn appearance(&self) -> (r: (u32, &'static str))
        ensures
            r.0 == (match *self {
                StatusType::Success => ModernTheme::SUCCESS,
                StatusType::Warning => ModernTheme::WARNING,
                StatusType::Error => ModernTheme::ERROR,
                StatusType::Info => ModernTheme::INFO,
            }),
            r.1@ == (match *self {
                StatusType::Success => "check"@,
                StatusType::Warning => "warning"@,
                StatusType::Error => "cross"@,
                StatusType::Info => "info"@,
            }),
    {
        match self {
            StatusType::Success => (ModernTheme::SUCCESS, "check"),
            StatusType::Warning => (ModernTheme::WARNING, "warning"),
            StatusType::Error => (ModernTheme::ERROR, "cross"),
            StatusType::Info => (ModernTheme::INFO, "info"),
        }
    }
}

/// What the main tab's workflow section says of the run, and how it is
/// marked.
pub open spec fn spec_workflow_status(s: AppStatus) -> (Seq<char>, StatusType) {
    match s {
        AppStatus::Idle => ("Ready to scan DVD"@, StatusType::Info),
        AppStatus::Scanning => ("Scanning DVD..."@, StatusType::Warning),
        AppStatus::Ripping { completed, total } => (
            "Ripping... "@ + decimal_digits(completed as nat) + " of "@ + decimal_digits(total as nat),
            StatusType::Success,
        ),
        AppStatus::Error(e) => ("Error: "@ + e@, StatusType::Error),
        _ => ("Processing..."@, StatusType::Info),
    }
}

/// The workflow section's status line for the run.
pub fn workflow_status(s: &AppStatus) -> (r: (String, StatusType))
    ensures
        (r.0@, r.1) == spec_workflow_status(*s),
{
    match s {
        AppStatus::Idle => (owned("Ready to scan DVD"), StatusType::Info),
        AppStatus::Scanning => (owned("Scanning DVD..."), StatusType::Warning),
        AppStatus::Ripping { completed, total } => {
            let mut m = owned("Ripping... ");
            push_decimal(&mut m, *completed as u64);
            push_str(&mut m, " of ");
            push_decimal(&mut m, *total as u64);
            (m, StatusType::Success)
        },
        AppStatus::Error(e) => {
            let mut m = owned("Error: ");
            push_str(&mut m, e.as_str());
            (m, StatusType::Error)
        },
        _ => (owned("Processing..."), StatusType::Info),
    }
}

} // verus!

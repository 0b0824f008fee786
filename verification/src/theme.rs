//! Colors of the popup.

use vstd::prelude::*;

use crate::models::QuotaFamilyId;
use crate::settings::AppTheme;

verus! {

#[derive(Clone, Copy, Debug, PartialEq, Eq, Structural)]
pub struct Color {
    pub r: u8,
    pub g: u8,
    pub b: u8,
}

pub open spec fn rgb(r: u8, g: u8, b: u8) -> Color {
    Color { r, g, b }
}

/// The first provider's identification color, the same under every theme.
pub fn claude_accent_color() -> (r: Color)
    ensures
        r == rgb(0xD9, 0x77, 0x57),
{
    Color { r: 0xD9, g: 0x77, b: 0x57 }
}

/// Identification color of Codex.
pub fn codex_accent_color() -> (r: Color)
    ensures
        r == rgb(0x74, 0x77, 0xE8),
{
    Color { r: 0x74, g: 0x77, b: 0xE8 }
}

/// Identification color of Antigravity.
pub fn antigravity_accent_color() -> (r: Color)
    ensures
        r == rgb(0x42, 0x85, 0xF4),
{
    Color { r: 0x42, g: 0x85, b: 0xF4 }
}

/// Identification color of GitHub Copilot.
pub fn github_copilot_accent_color() -> (r: Color)
    ensures
        r == rgb(0x82, 0x50, 0xDF),
{
    Color { r: 0x82, g: 0x50, b: 0xDF }
}

/// A color as the window system takes it: red in the low byte, then green, then blue.
pub open spec fn colorref(color: Color) -> int {
    color.r + color.g * 0x100 + color.b * 0x1_0000
}

/// A color as a bitmap of 32 bits per pixel holds it: blue in the low byte, then green,
/// then red.
pub open spec fn pixel_number(color: Color) -> int {
    color.b + color.g * 0x100 + color.r * 0x1_0000
}

impl Color {
    pub fn to_pixel(self) -> (r: u32)
        ensures
            r == pixel_number(self),
            r < 0x100_0000,
    {
        self.b as u32 + (self.g as u32) * 0x100 + (self.r as u32) * 0x1_0000
    }

    pub fn to_colorref(self) -> (r: u32)
        ensures
            r == colorref(self),
            r < 0x100_0000,
    {
        self.r as u32 + (self.g as u32) * 0x100 + (self.b as u32) * 0x1_0000
    }
}

/// Identification color of a provider.
pub open spec fn spec_accent_color(family: QuotaFamilyId) -> Color {
    match family {
        QuotaFamilyId::Claude => rgb(0xD9, 0x77, 0x57),
        QuotaFamilyId::Codex => rgb(0x74, 0x77, 0xE8),
        QuotaFamilyId::Antigravity => rgb(0x42, 0x85, 0xF4),
        QuotaFamilyId::GithubCopilot => rgb(0x82, 0x50, 0xDF),
    }
}

#[verifier::when_used_as_spec(spec_accent_color)]
pub fn accent_color(family: QuotaFamilyId) -> (r: Color)
    ensures
        r == spec_accent_color(family),
{
    match family {
        QuotaFamilyId::Claude => claude_accent_color(),
        QuotaFamilyId::Codex => codex_accent_color(),
        QuotaFamilyId::Antigravity => antigravity_accent_color(),
        QuotaFamilyId::GithubCopilot => github_copilot_accent_color(),
    }
}

/// No two providers share an identification color.
pub proof fn accents_differ(a: QuotaFamilyId, b: QuotaFamilyId)
    ensures
        accent_color(a) == accent_color(b) <==> a == b,
{
}

/// The popup's colors under one theme.
#[derive(Clone, Copy, Debug, PartialEq, Eq, Structural)]
pub struct PopupPalette {
    pub background: Color,
    pub track: Color,
    pub primary_text: Color,
    pub secondary_text: Color,
    pub border: Color,
    pub warning: Color,
    pub heading_text: Color,
}

pub open spec fn spec_popup_palette(theme: AppTheme) -> PopupPalette {
    match theme {
        AppTheme::RecommendedDark => PopupPalette {
            background: rgb(0x11, 0x17, 0x1D),
            track: rgb(0x18, 0x22, 0x2B),
            primary_text: rgb(0xF4, 0xF8, 0xFB),
            secondary_text: rgb(0xAA, 0xB8, 0xC3),
            border: rgb(0x31, 0x42, 0x4F),
            warning: rgb(0xF2, 0xB8, 0x4B),
            heading_text: rgb(0xF4, 0xF8, 0xFB),
        },
        AppTheme::Light => PopupPalette {
            background: rgb(0xF4, 0xF7, 0xFA),
            track: rgb(0xE3, 0xE9, 0xEF),
            primary_text: rgb(0x17, 0x21, 0x2B),
            secondary_text: rgb(0x5D, 0x6C, 0x78),
            border: rgb(0xBD, 0xCC, 0xD7),
            warning: rgb(0xB1, 0x5C, 0x00),
            heading_text: rgb(0x17, 0x21, 0x2B),
        },
        AppTheme::HighVisibility => PopupPalette {
            background: rgb(0x00, 0x00, 0x00),
            track: rgb(0x48, 0x48, 0x48),
            primary_text: rgb(0xFF, 0xFF, 0xFF),
            secondary_text: rgb(0x00, 0xE5, 0xFF),
            border: rgb(0xFF, 0xFF, 0xFF),
            warning: rgb(0xFF, 0x4D, 0x4D),
            heading_text: rgb(0xFF, 0xFF, 0x00),
        },
    }
}

/// The one source of the popup's colors.
#[verifier::when_used_as_spec(spec_popup_palette)]
pub fn popup_palette(theme: AppTheme) -> (r: PopupPalette)
    ensures
        r == spec_popup_palette(theme),
{
    match theme {
        AppTheme::RecommendedDark => PopupPalette {
            background: Color { r: 0x11, g: 0x17, b: 0x1D },
            track: Color { r: 0x18, g: 0x22, b: 0x2B },
            primary_text: Color { r: 0xF4, g: 0xF8, b: 0xFB },
            secondary_text: Color { r: 0xAA, g: 0xB8, b: 0xC3 },
            border: Color { r: 0x31, g: 0x42, b: 0x4F },
            warning: Color { r: 0xF2, g: 0xB8, b: 0x4B },
            heading_text: Color { r: 0xF4, g: 0xF8, b: 0xFB },
        },
        AppTheme::Light => PopupPalette {
            background: Color { r: 0xF4, g: 0xF7, b: 0xFA },
            track: Color { r: 0xE3, g: 0xE9, b: 0xEF },
            primary_text: Color { r: 0x17, g: 0x21, b: 0x2B },
            secondary_text: Color { r: 0x5D, g: 0x6C, b: 0x78 },
            border: Color { r: 0xBD, g: 0xCC, b: 0xD7 },
            warning: Color { r: 0xB1, g: 0x5C, b: 0x00 },
            heading_text: Color { r: 0x17, g: 0x21, b: 0x2B },
        },
        AppTheme::HighVisibility => PopupPalette {
            background: Color { r: 0x00, g: 0x00, b: 0x00 },
            track: Color { r: 0x48, g: 0x48, b: 0x48 },
            primary_text: Color { r: 0xFF, g: 0xFF, b: 0xFF },
            secondary_text: Color { r: 0x00, g: 0xE5, b: 0xFF },
            border: Color { r: 0xFF, g: 0xFF, b: 0xFF },
            warning: Color { r: 0xFF, g: 0x4D, b: 0x4D },
            heading_text: Color { r: 0xFF, g: 0xFF, b: 0x00 },
        },
    }
}

/// Under every theme the track, both texts, the heading and the warning can be
/// told from the background, and the warning from the primary text.
pub proof fn palette_parts_are_distinct(theme: AppTheme)
    ensures
        popup_palette(theme).track != popup_palette(theme).background,
        popup_palette(theme).primary_text != popup_palette(theme).background,
        popup_palette(theme).secondary_text != popup_palette(theme).background,
        popup_palette(theme).heading_text != popup_palette(theme).background,
        popup_palette(theme).warning != popup_palette(theme).background,
        popup_palette(theme).warning != popup_palette(theme).primary_text,
{
}

/// No two themes share a background.
pub proof fn themes_differ(a: AppTheme, b: AppTheme)
    ensures
        popup_palette(a).background == popup_palette(b).background <==> a == b,
{
}

/// Only the high-visibility theme draws dividers between provider columns.
pub fn theme_shows_column_dividers(theme: AppTheme) -> (r: bool)
    ensures
        r == (theme is HighVisibility),
{
    matches!(theme, AppTheme::HighVisibility)
}

/// Only the high-visibility theme outlines the unfilled part of a bar.
pub fn theme_outlines_usage_track(theme: AppTheme) -> (r: bool)
    ensures
        r == (theme is HighVisibility),
{
    matches!(theme, AppTheme::HighVisibility)
}

/// Whether a theme uses the dark variants of the provider text tints.
pub fn theme_is_dark_variant(theme: AppTheme) -> (r: bool)
    ensures
        r == !(theme is Light),
{
    !matches!(theme, AppTheme::Light)
}

pub fn claude_usage_text_color(is_dark: bool) -> (r: Color)
    ensures
        r == if is_dark {
            rgb(0xF0, 0x9A, 0x7A)
        } else {
            rgb(0xA9, 0x4F, 0x32)
        },
{
    if is_dark {
        Color { r: 0xF0, g: 0x9A, b: 0x7A }
    } else {
        Color { r: 0xA9, g: 0x4F, b: 0x32 }
    }
}

pub fn codex_usage_text_color(is_dark: bool) -> (r: Color)
    ensures
        r == if is_dark {
            rgb(0xF5, 0xF5, 0xF5)
        } else {
            rgb(0x1F, 0x1F, 0x1F)
        },
{
    if is_dark {
        Color { r: 0xF5, g: 0xF5, b: 0xF5 }
    } else {
        Color { r: 0x1F, g: 0x1F, b: 0x1F }
    }
}

pub fn antigravity_usage_text_color(is_dark: bool) -> (r: Color)
    ensures
        r == if is_dark {
            rgb(0x8A, 0xB4, 0xF8)
        } else {
            rgb(0x19, 0x67, 0xD2)
        },
{
    if is_dark {
        Color { r: 0x8A, g: 0xB4, b: 0xF8 }
    } else {
        Color { r: 0x19, g: 0x67, b: 0xD2 }
    }
}

pub open spec fn spec_usage_text_color(family: QuotaFamilyId, is_dark: bool) -> Color {
    match family {
        QuotaFamilyId::Claude => if is_dark {
            rgb(0xF0, 0x9A, 0x7A)
        } else {
            rgb(0xA9, 0x4F, 0x32)
        },
        QuotaFamilyId::Codex => if is_dark {
            rgb(0xF5, 0xF5, 0xF5)
        } else {
            rgb(0x1F, 0x1F, 0x1F)
        },
        QuotaFamilyId::Antigravity => if is_dark {
            rgb(0x8A, 0xB4, 0xF8)
        } else {
            rgb(0x19, 0x67, 0xD2)
        },
        QuotaFamilyId::GithubCopilot => accent_color(family),
    }
}

/// Text color of a provider beside others.
#[verifier::when_used_as_spec(spec_usage_text_color)]
pub fn usage_text_color(family: QuotaFamilyId, is_dark: bool) -> (r: Color)
    ensures
        r == spec_usage_text_color(family, is_dark),
{
    match family {
        QuotaFamilyId::Claude => claude_usage_text_color(is_dark),
        QuotaFamilyId::Codex => codex_usage_text_color(is_dark),
        QuotaFamilyId::Antigravity => antigravity_usage_text_color(is_dark),
        QuotaFamilyId::GithubCopilot => github_copilot_accent_color(),
    }
}

/// A color's parts can be read from both its numbers: red is the lowest byte of the one
/// and blue that of the other.
pub proof fn color_numbers_hold_the_parts(color: Color)
    ensures
        colorref(color) % 0x100 == color.r,
        colorref(color) / 0x100 % 0x100 == color.g,
        colorref(color) / 0x1_0000 == color.b,
        pixel_number(color) % 0x100 == color.b,
        pixel_number(color) / 0x100 % 0x100 == color.g,
        pixel_number(color) / 0x1_0000 == color.r,
{
}

/// How bright a color is, as the sum of its parts.
pub open spec fn brightness(color: Color) -> int {
    color.r + color.g + color.b
}

/// Texts stand out from what is behind them: the light theme writes dark on light, the
/// others light on dark, and so do the providers' colors for values.
pub proof fn texts_stand_out(theme: AppTheme, family: QuotaFamilyId)
    ensures
        ({
            let palette = popup_palette(theme);
            let back = brightness(palette.background);
            if theme is Light {
                &&& brightness(palette.primary_text) < brightness(palette.secondary_text) < back
                &&& brightness(palette.heading_text) < back
                &&& brightness(palette.track) < back
                &&& brightness(palette.border) < brightness(palette.track)
                &&& brightness(usage_text_color(family, false)) < brightness(palette.track)
            } else {
                &&& brightness(palette.primary_text) > brightness(palette.secondary_text) > back
                &&& brightness(palette.heading_text) > back
                &&& brightness(palette.track) > back
                &&& brightness(palette.border) > brightness(palette.track)
                &&& brightness(usage_text_color(family, true)) > brightness(palette.track)
            }
        }),
        brightness(usage_text_color(family, false)) <= brightness(usage_text_color(family, true)),
{
}

} // verus!

//! The theme token engine: a theme descriptor (two values per
//! semantic token, light and dark), the derived token store, and the
//! derivation that fills the store for the active mode.
//!
//! Colors are held in a hue / saturation / lightness form with the
//! saturation and lightness channels in thousandths of the unit
//! interval, so the lighten / darken rule is exact integer arithmetic.

use vstd::prelude::*;
use vstd::string::StringExecFns;

verus! {

/// The selected theme of the application.
#[derive(Clone, Copy, Debug, PartialEq, Eq, Structural)]
pub enum Theme {
    Light,
    Dark,
}

impl Theme {
    pub open spec fn spec_flip(self) -> Theme {
        match self {
            Theme::Light => Theme::Dark,
            Theme::Dark => Theme::Light,
        }
    }

    /// The other mode.
    pub fn flip(self) -> (t: Theme)
        ensures
            t == self.spec_flip(),
    {
        match self {
            Theme::Light => Theme::Dark,
            Theme::Dark => Theme::Light,
        }
    }

    /// The mode's code for the persistence collaborator.
    pub fn code(&self) -> (s: String)
        ensures
            *self is Light ==> s@ == "light"@,
            *self is Dark ==> s@ == "dark"@,
    {
        match self {
            Theme::Light => String::from_str("light"),
            Theme::Dark => String::from_str("dark"),
        }
    }

    /// The mode to start in, from what the persistence collaborator
    /// remembered: the saved code `dark` means dark, any other saved
    /// code means light, and nothing saved falls back to dark.
    pub fn from_saved(saved: &Option<String>) -> (t: Theme)
        ensures
            saved is None ==> t is Dark,
            (saved matches Some(code) && code@ == "dark"@) ==> t is Dark,
            (saved matches Some(code) && code@ != "dark"@) ==> t is Light,
    {
        match saved.as_ref() {
            Option::None => Theme::Dark,
            Option::Some(code) => {
                let dark = String::from_str("dark");
                if *code == dark {
                    Theme::Dark
                } else {
                    Theme::Light
                }
            },
        }
    }
}

/// A color as hue (degrees below 360), saturation and lightness (both
/// in thousandths of the unit interval).
#[derive(Clone, Copy, Debug, PartialEq, Eq, Structural)]
pub struct Hsl {
    pub h: u16,
    pub s: u16,
    pub l: u16,
}

/// Lightness clamped to the representable interval.
pub open spec fn clamp_lightness(x: int) -> int {
    if x < 0 {
        0
    } else if x > 1000 {
        1000
    } else {
        x
    }
}

impl Hsl {
    /// Channel bounds: hue below a full turn, saturation and lightness
    /// at most the whole unit.
    pub open spec fn wf(self) -> bool {
        self.h < 360 && self.s <= 1000 && self.l <= 1000
    }

    /// The lighten / darken rule: the signed delta is added to the
    /// lightness channel and clamped; hue and saturation are
    /// unchanged.
    pub open spec fn spec_lighten(self, delta: int) -> Hsl {
        Hsl { h: self.h, s: self.s, l: clamp_lightness(self.l + delta) as u16 }
    }

    pub fn lighten(self, delta: i32) -> (r: Hsl)
        requires
            self.wf(),
            -1000 <= delta <= 1000,
        ensures
            r == self.spec_lighten(delta as int),
            r.wf(),
    {
        let shifted: i32 = self.l as i32 + delta;
        let l: u16 = if shifted < 0 {
            0
        } else if shifted > 1000 {
            1000
        } else {
            shifted as u16
        };
        Hsl { h: self.h, s: self.s, l }
    }
}

/// Lightening by a delta and darkening by the same delta returns the
/// original color exactly, whenever the intermediate lightness did not
/// clamp.
pub proof fn lemma_lighten_darken_round_trip(c: Hsl, delta: int)
    requires
        c.wf(),
        0 <= c.l + delta <= 1000,
    ensures
        c.spec_lighten(delta).spec_lighten(-delta) == c,
{
}

/// For any given token, a light and a dark color must be specified;
/// the active mode selects one of the pair.
#[derive(Clone, Copy, Debug, PartialEq, Eq, Structural)]
pub struct ThemeColor {
    pub light: Hsl,
    pub dark: Hsl,
}

impl ThemeColor {
    pub open spec fn wf(self) -> bool {
        self.light.wf() && self.dark.wf()
    }

    pub open spec fn spec_resolve(self, theme: Theme) -> Hsl {
        match theme {
            Theme::Light => self.light,
            Theme::Dark => self.dark,
        }
    }

    /// The member of the pair the mode selects.
    pub fn resolve(&self, theme: &Theme) -> (c: Hsl)
        ensures
            c == self.spec_resolve(*theme),
    {
        match theme {
            Theme::Light => self.light,
            Theme::Dark => self.dark,
        }
    }

    /// The mode-selected member, lightened by the signed delta.
    pub fn lighten(&self, theme: &Theme, delta: i32) -> (c: Hsl)
        requires
            self.wf(),
            -1000 <= delta <= 1000,
        ensures
            c == self.spec_resolve(*theme).spec_lighten(delta as int),
    {
        self.resolve(theme).lighten(delta)
    }
}

/// A shadow specification pair, written to the store verbatim.
#[derive(Clone, Debug, PartialEq, Eq)]
pub struct Shadow {
    pub light: String,
    pub dark: String,
}

/// Abstract value of a [`Shadow`].
pub struct ShadowModel {
    pub light: Seq<char>,
    pub dark: Seq<char>,
}

impl View for Shadow {
    type V = ShadowModel;

    open spec fn view(&self) -> ShadowModel {
        ShadowModel { light: self.light@, dark: self.dark@ }
    }
}

impl ShadowModel {
    pub open spec fn spec_resolve(self, theme: Theme) -> Seq<char> {
        match theme {
            Theme::Light => self.light,
            Theme::Dark => self.dark,
        }
    }
}

impl Shadow {
    /// The member of the pair the mode selects.
    pub fn shadow(&self, theme: &Theme) -> (s: String)
        ensures
            s@ == self@.spec_resolve(*theme),
    {
        match theme {
            Theme::Light => self.light.clone(),
            Theme::Dark => self.dark.clone(),
        }
    }
}

/// A distance or size value, in tenths of its unit.
#[derive(Debug, PartialEq, Eq)]
pub struct Sizes {
    pub tenths: u32,
    pub unit: String,
}

/// Abstract value of a [`Sizes`].
pub struct SizeModel {
    pub tenths: int,
    pub unit: Seq<char>,
}

impl View for Sizes {
    type V = SizeModel;

    open spec fn view(&self) -> SizeModel {
        SizeModel { tenths: self.tenths as int, unit: self.unit@ }
    }
}

impl Clone for Sizes {
    fn clone(&self) -> (s: Self)
        ensures
            s@ == self@,
    {
        Sizes { tenths: self.tenths, unit: self.unit.clone() }
    }
}

impl Default for Sizes {
    /// One pixel.
    fn default() -> (s: Self)
        ensures
            s@.tenths == 10,
            s@.unit == "px"@,
    {
        Sizes { tenths: 10, unit: String::from_str("px") }
    }
}

/// Font family and sizes.
#[derive(Clone, Debug, PartialEq, Eq)]
pub struct Fonts {
    pub family: String,
    pub small: Sizes,
    pub medium: Sizes,
    pub large: Sizes,
    pub very_large: Sizes,
}

/// Abstract value of a [`Fonts`].
pub struct FontsModel {
    pub family: Seq<char>,
    pub small: SizeModel,
    pub medium: SizeModel,
    pub large: SizeModel,
    pub very_large: SizeModel,
}

impl View for Fonts {
    type V = FontsModel;

    open spec fn view(&self) -> FontsModel {
        FontsModel {
            family: self.family@,
            small: self.small@,
            medium: self.medium@,
            large: self.large@,
            very_large: self.very_large@,
        }
    }
}

pub open spec fn rem_size(tenths: int) -> SizeModel {
    SizeModel { tenths, unit: "rem"@ }
}

pub open spec fn px_size(tenths: int) -> SizeModel {
    SizeModel { tenths, unit: "px"@ }
}

pub open spec fn default_fonts() -> FontsModel {
    FontsModel {
        family: "Roboto, Inter, Helvetica, sans-serif, serif"@,
        small: rem_size(8),
        medium: rem_size(10),
        large: rem_size(15),
        very_large: rem_size(25),
    }
}

impl Default for Fonts {
    fn default() -> (f: Self)
        ensures
            f@ == default_fonts(),
    {
        Fonts {
            family: String::from_str("Roboto, Inter, Helvetica, sans-serif, serif"),
            small: Sizes { tenths: 8, unit: String::from_str("rem") },
            medium: Sizes { tenths: 10, unit: String::from_str("rem") },
            large: Sizes { tenths: 15, unit: String::from_str("rem") },
            very_large: Sizes { tenths: 25, unit: String::from_str("rem") },
        }
    }
}

/// Spacing steps.
#[derive(Clone, Debug, PartialEq, Eq)]
pub struct Spacing {
    pub small: Sizes,
    pub medium: Sizes,
    pub large: Sizes,
}

/// Abstract value of a [`Spacing`].
pub struct SpacingModel {
    pub small: SizeModel,
    pub medium: SizeModel,
    pub large: SizeModel,
}

impl View for Spacing {
    type V = SpacingModel;

    open spec fn view(&self) -> SpacingModel {
        SpacingModel { small: self.small@, medium: self.medium@, large: self.large@ }
    }
}

pub open spec fn default_spacing() -> SpacingModel {
    SpacingModel { small: rem_size(10), medium: rem_size(20), large: rem_size(40) }
}

impl Default for Spacing {
    fn default() -> (s: Self)
        ensures
            s@ == default_spacing(),
    {
        Spacing {
            small: Sizes { tenths: 10, unit: String::from_str("rem") },
            medium: Sizes { tenths: 20, unit: String::from_str("rem") },
            large: Sizes { tenths: 40, unit: String::from_str("rem") },
        }
    }
}

/// Corner radii.
#[derive(Clone, Debug, PartialEq, Eq)]
pub struct Radius {
    pub input_radius: Sizes,
    pub box_radius: Sizes,
}

/// Abstract value of a [`Radius`].
pub struct RadiusModel {
    pub input_radius: SizeModel,
    pub box_radius: SizeModel,
}

impl View for Radius {
    type V = RadiusModel;

    open spec fn view(&self) -> RadiusModel {
        RadiusModel { input_radius: self.input_radius@, box_radius: self.box_radius@ }
    }
}

pub open spec fn default_radius() -> RadiusModel {
    RadiusModel { input_radius: px_size(80), box_radius: px_size(160) }
}

impl Default for Radius {
    fn default() -> (r: Self)
        ensures
            r@ == default_radius(),
    {
        Radius {
            input_radius: Sizes { tenths: 80, unit: String::from_str("px") },
            box_radius: Sizes { tenths: 160, unit: String::from_str("px") },
        }
    }
}

/// Layout breakpoints.
#[derive(Clone, Debug, PartialEq, Eq)]
pub struct BreakPoints {
    pub small_form: Sizes,
    pub mobile: Sizes,
    pub tablet: Sizes,
    pub desktop: Sizes,
}

/// Abstract value of a [`BreakPoints`].
pub struct BreakPointsModel {
    pub small_form: SizeModel,
    pub mobile: SizeModel,
    pub tablet: SizeModel,
    pub desktop: SizeModel,
}

impl View for BreakPoints {
    type V = BreakPointsModel;

    open spec fn view(&self) -> BreakPointsModel {
        BreakPointsModel {
            small_form: self.small_form@,
            mobile: self.mobile@,
            tablet: self.tablet@,
            desktop: self.desktop@,
        }
    }
}

pub open spec fn default_breakpoints() -> BreakPointsModel {
    BreakPointsModel {
        small_form: px_size(4000),
        mobile: px_size(6000),
        tablet: px_size(9000),
        desktop: px_size(12000),
    }
}

impl Default for BreakPoints {
    fn default() -> (b: Self)
        ensures
            b@ == default_breakpoints(),
    {
        BreakPoints {
            small_form: Sizes { tenths: 4000, unit: String::from_str("px") },
            mobile: Sizes { tenths: 6000, unit: String::from_str("px") },
            tablet: Sizes { tenths: 9000, unit: String::from_str("px") },
            desktop: Sizes { tenths: 12000, unit: String::from_str("px") },
        }
    }
}

/// The currently-applicable computed value of every token. After any
/// `apply` call completes, every entry reflects the mode that call was
/// made for — no entry lags behind a mode switch.
#[derive(Clone, Debug, PartialEq, Eq)]
pub struct DerivedTokenStore {
    pub white: Hsl,
    pub black: Hsl,
    pub gray: Hsl,
    pub text: Hsl,
    pub text_hover: Hsl,
    pub dp_0: Hsl,
    pub dp_1: Hsl,
    pub dp_2: Hsl,
    pub dp_3: Hsl,
    pub dp_4: Hsl,
    pub dp_6: Hsl,
    pub dp_8: Hsl,
    pub dp_12: Hsl,
    pub dp_16: Hsl,
    pub dp_24: Hsl,
    pub emphasis: Hsl,
    pub emphasis_hover: Hsl,
    pub secondary: Hsl,
    pub secondary_hover: Hsl,
    pub shadow_small: String,
    pub shadow_medium: String,
    pub shadow_large: String,
    pub shadow_x_large: String,
    pub success: Hsl,
    pub error: Hsl,
    pub font_family: String,
    pub font_small: Sizes,
    pub font_medium: Sizes,
    pub font_large: Sizes,
    pub font_x_large: Sizes,
    pub spacing_small: Sizes,
    pub spacing_medium: Sizes,
    pub spacing_large: Sizes,
    pub radius_input: Sizes,
    pub radius_box: Sizes,
    pub breakpoint_small: Sizes,
    pub breakpoint_mobile: Sizes,
    pub breakpoint_tablet: Sizes,
    pub breakpoint_desktop: Sizes,
}

/// Abstract value of a [`DerivedTokenStore`].
pub struct TokenStoreModel {
    pub white: Hsl,
    pub black: Hsl,
    pub gray: Hsl,
    pub text: Hsl,
    pub text_hover: Hsl,
    pub dp_0: Hsl,
    pub dp_1: Hsl,
    pub dp_2: Hsl,
    pub dp_3: Hsl,
    pub dp_4: Hsl,
    pub dp_6: Hsl,
    pub dp_8: Hsl,
    pub dp_12: Hsl,
    pub dp_16: Hsl,
    pub dp_24: Hsl,
    pub emphasis: Hsl,
    pub emphasis_hover: Hsl,
    pub secondary: Hsl,
    pub secondary_hover: Hsl,
    pub shadow_small: Seq<char>,
    pub shadow_medium: Seq<char>,
    pub shadow_large: Seq<char>,
    pub shadow_x_large: Seq<char>,
    pub success: Hsl,
    pub error: Hsl,
    pub font_family: Seq<char>,
    pub font_small: SizeModel,
    pub font_medium: SizeModel,
    pub font_large: SizeModel,
    pub font_x_large: SizeModel,
    pub spacing_small: SizeModel,
    pub spacing_medium: SizeModel,
    pub spacing_large: SizeModel,
    pub radius_input: SizeModel,
    pub radius_box: SizeModel,
    pub breakpoint_small: SizeModel,
    pub breakpoint_mobile: SizeModel,
    pub breakpoint_tablet: SizeModel,
    pub breakpoint_desktop: SizeModel,
}

impl View for DerivedTokenStore {
    type V = TokenStoreModel;

    open spec fn view(&self) -> TokenStoreModel {
        TokenStoreModel {
            white: self.white,
            black: self.black,
            gray: self.gray,
            text: self.text,
            text_hover: self.text_hover,
            dp_0: self.dp_0,
            dp_1: self.dp_1,
            dp_2: self.dp_2,
            dp_3: self.dp_3,
            dp_4: self.dp_4,
            dp_6: self.dp_6,
            dp_8: self.dp_8,
            dp_12: self.dp_12,
            dp_16: self.dp_16,
            dp_24: self.dp_24,
            emphasis: self.emphasis,
            emphasis_hover: self.emphasis_hover,
            secondary: self.secondary,
            secondary_hover: self.secondary_hover,
            shadow_small: self.shadow_small@,
            shadow_medium: self.shadow_medium@,
            shadow_large: self.shadow_large@,
            shadow_x_large: self.shadow_x_large@,
            success: self.success,
            error: self.error,
            font_family: self.font_family@,
            font_small: self.font_small@,
            font_medium: self.font_medium@,
            font_large: self.font_large@,
            font_x_large: self.font_x_large@,
            spacing_small: self.spacing_small@,
            spacing_medium: self.spacing_medium@,
            spacing_large: self.spacing_large@,
            radius_input: self.radius_input@,
            radius_box: self.radius_box@,
            breakpoint_small: self.breakpoint_small@,
            breakpoint_mobile: self.breakpoint_mobile@,
            breakpoint_tablet: self.breakpoint_tablet@,
            breakpoint_desktop: self.breakpoint_desktop@,
        }
    }
}

/// The theme descriptor: the mode-independent half of the engine's
/// state, immutable once constructed.
pub struct DescriptorModel {
    pub white: ThemeColor,
    pub black: ThemeColor,
    pub gray: ThemeColor,
    pub text: ThemeColor,
    pub text_hover: ThemeColor,
    pub background: ThemeColor,
    pub emphasis: ThemeColor,
    pub secondary: ThemeColor,
    pub shadow_small: ShadowModel,
    pub shadow_medium: ShadowModel,
    pub shadow_large: ShadowModel,
    pub shadow_x_large: ShadowModel,
    pub success: ThemeColor,
    pub error: ThemeColor,
    pub fonts: FontsModel,
    pub spacing: SpacingModel,
    pub radius: RadiusModel,
    pub breakpoints: BreakPointsModel,
}

impl DescriptorModel {
    pub open spec fn wf(self) -> bool {
        &&& self.white.wf()
        &&& self.black.wf()
        &&& self.gray.wf()
        &&& self.text.wf()
        &&& self.text_hover.wf()
        &&& self.background.wf()
        &&& self.emphasis.wf()
        &&& self.secondary.wf()
        &&& self.success.wf()
        &&& self.error.wf()
    }
}

/// One stacked-surface shade: in dark mode the base background is
/// lightened by the ladder step's offset; in light mode elevation is
/// visually flat by design, and the base is reused unmodified.
pub open spec fn elevated(background: Hsl, mode: Theme, offset: int) -> Hsl {
    match mode {
        Theme::Light => background,
        Theme::Dark => background.spec_lighten(offset),
    }
}

/// The hover variant of an accent color: one fixed lightness delta,
/// darkening in light mode and lightening in dark mode.
pub open spec fn hover_shade(base: Hsl, mode: Theme) -> Hsl {
    match mode {
        Theme::Light => base.spec_lighten(-100),
        Theme::Dark => base.spec_lighten(100),
    }
}

/// The full token set the mode derives from the descriptor: plain
/// dual-value tokens are resolved verbatim, the elevation ladder
/// offsets (0.05, 0.07, 0.08, 0.09, 0.11, 0.12, 0.14, 0.15, 0.16 of
/// the lightness unit) shade the background, and the accent tokens get
/// hover variants.
pub open spec fn derive_tokens(d: DescriptorModel, mode: Theme) -> TokenStoreModel {
    let bg = d.background.spec_resolve(mode);
    TokenStoreModel {
        white: d.white.spec_resolve(mode),
        black: d.black.spec_resolve(mode),
        gray: d.gray.spec_resolve(mode),
        text: d.text.spec_resolve(mode),
        text_hover: d.text_hover.spec_resolve(mode),
        dp_0: bg,
        dp_1: elevated(bg, mode, 50),
        dp_2: elevated(bg, mode, 70),
        dp_3: elevated(bg, mode, 80),
        dp_4: elevated(bg, mode, 90),
        dp_6: elevated(bg, mode, 110),
        dp_8: elevated(bg, mode, 120),
        dp_12: elevated(bg, mode, 140),
        dp_16: elevated(bg, mode, 150),
        dp_24: elevated(bg, mode, 160),
        emphasis: d.emphasis.spec_resolve(mode),
        emphasis_hover: hover_shade(d.emphasis.spec_resolve(mode), mode),
        secondary: d.secondary.spec_resolve(mode),
        secondary_hover: hover_shade(d.secondary.spec_resolve(mode), mode),
        shadow_small: d.shadow_small.spec_resolve(mode),
        shadow_medium: d.shadow_medium.spec_resolve(mode),
        shadow_large: d.shadow_large.spec_resolve(mode),
        shadow_x_large: d.shadow_x_large.spec_resolve(mode),
        success: d.success.spec_resolve(mode),
        error: d.error.spec_resolve(mode),
        font_family: d.fonts.family,
        font_small: d.fonts.small,
        font_medium: d.fonts.medium,
        font_large: d.fonts.large,
        font_x_large: d.fonts.very_large,
        spacing_small: d.spacing.small,
        spacing_medium: d.spacing.medium,
        spacing_large: d.spacing.large,
        radius_input: d.radius.input_radius,
        radius_box: d.radius.box_radius,
        breakpoint_small: d.breakpoints.small_form,
        breakpoint_mobile: d.breakpoints.mobile,
        breakpoint_tablet: d.breakpoints.tablet,
        breakpoint_desktop: d.breakpoints.desktop,
    }
}

/// The theme of the application: the active mode, the descriptor, and
/// the derived token store.
#[derive(Clone, Debug, PartialEq, Eq)]
pub struct GlobalTheme {
    pub theme: Theme,
    pub white: ThemeColor,
    pub black: ThemeColor,
    pub gray: ThemeColor,
    pub text: ThemeColor,
    pub text_hover: ThemeColor,
    pub background: ThemeColor,
    pub emphasis: ThemeColor,
    pub secondary: ThemeColor,
    pub shadow_small: Shadow,
    pub shadow_medium: Shadow,
    pub shadow_large: Shadow,
    pub shadow_x_large: Shadow,
    pub success: ThemeColor,
    pub error: ThemeColor,
    pub fonts: Fonts,
    pub spacing: Spacing,
    pub radius: Radius,
    pub breakpoints: BreakPoints,
    pub store: DerivedTokenStore,
}

impl GlobalTheme {
    /// The descriptor half of the state: everything but the mode and
    /// the derived store.
    pub open spec fn descriptor(&self) -> DescriptorModel {
        DescriptorModel {
            white: self.white,
            black: self.black,
            gray: self.gray,
            text: self.text,
            text_hover: self.text_hover,
            background: self.background,
            emphasis: self.emphasis,
            secondary: self.secondary,
            shadow_small: self.shadow_small@,
            shadow_medium: self.shadow_medium@,
            shadow_large: self.shadow_large@,
            shadow_x_large: self.shadow_x_large@,
            success: self.success,
            error: self.error,
            fonts: self.fonts@,
            spacing: self.spacing@,
            radius: self.radius@,
            breakpoints: self.breakpoints@,
        }
    }

    pub open spec fn wf(&self) -> bool {
        self.descriptor().wf()
    }

    /// Recomputes the whole token store for the active mode. No
    /// partial recomputation: after the call every entry reflects that
    /// mode.
    pub fn apply(&mut self)
        requires
            old(self).wf(),
        ensures
            final(self).theme == old(self).theme,
            final(self).descriptor() == old(self).descriptor(),
            final(self).store@ == derive_tokens(old(self).descriptor(), old(self).theme),
    {
        let theme = self.theme;
        let bg = self.background.resolve(&theme);
        self.store.white = self.white.resolve(&theme);
        self.store.black = self.black.resolve(&theme);
        self.store.gray = self.gray.resolve(&theme);
        self.store.text = self.text.resolve(&theme);
        self.store.text_hover = self.text_hover.resolve(&theme);
        self.store.dp_0 = bg;
        if matches!(theme, Theme::Light) {
            self.store.dp_1 = bg;
            self.store.dp_2 = bg;
            self.store.dp_3 = bg;
            self.store.dp_4 = bg;
            self.store.dp_6 = bg;
            self.store.dp_8 = bg;
            self.store.dp_12 = bg;
            self.store.dp_16 = bg;
            self.store.dp_24 = bg;
            self.store.emphasis_hover = self.emphasis.lighten(&theme, -100);
            self.store.secondary_hover = self.secondary.lighten(&theme, -100);
        } else {
            self.store.dp_1 = bg.lighten(50);
            self.store.dp_2 = bg.lighten(70);
            self.store.dp_3 = bg.lighten(80);
            self.store.dp_4 = bg.lighten(90);
            self.store.dp_6 = bg.lighten(110);
            self.store.dp_8 = bg.lighten(120);
            self.store.dp_12 = bg.lighten(140);
            self.store.dp_16 = bg.lighten(150);
            self.store.dp_24 = bg.lighten(160);
            self.store.emphasis_hover = self.emphasis.lighten(&theme, 100);
            self.store.secondary_hover = self.secondary.lighten(&theme, 100);
        }
        self.store.emphasis = self.emphasis.resolve(&theme);
        self.store.secondary = self.secondary.resolve(&theme);
        self.store.shadow_small = self.shadow_small.shadow(&theme);
        self.store.shadow_medium = self.shadow_medium.shadow(&theme);
        self.store.shadow_large = self.shadow_large.shadow(&theme);
        self.store.shadow_x_large = self.shadow_x_large.shadow(&theme);
        self.store.success = self.success.resolve(&theme);
        self.store.error = self.error.resolve(&theme);
        self.store.font_family = self.fonts.family.clone();
        self.store.font_small = self.fonts.small.clone();
        self.store.font_medium = self.fonts.medium.clone();
        self.store.font_large = self.fonts.large.clone();
        self.store.font_x_large = self.fonts.very_large.clone();
        self.store.spacing_small = self.spacing.small.clone();
        self.store.spacing_medium = self.spacing.medium.clone();
        self.store.spacing_large = self.spacing.large.clone();
        self.store.radius_input = self.radius.input_radius.clone();
        self.store.radius_box = self.radius.box_radius.clone();
        self.store.breakpoint_small = self.breakpoints.small_form.clone();
        self.store.breakpoint_mobile = self.breakpoints.mobile.clone();
        self.store.breakpoint_tablet = self.breakpoints.tablet.clone();
        self.store.breakpoint_desktop = self.breakpoints.desktop.clone();
    }

    /// Flips the mode, recomputes the whole store for the new mode,
    /// and returns the new mode's code for the persistence
    /// collaborator to remember.
    pub fn toggle(&mut self) -> (code: String)
        requires
            old(self).wf(),
        ensures
            final(self).theme == old(self).theme.spec_flip(),
            final(self).descriptor() == old(self).descriptor(),
            final(self).store@ == derive_tokens(
                old(self).descriptor(),
                old(self).theme.spec_flip(),
            ),
            final(self).theme is Light ==> code@ == "light"@,
            final(self).theme is Dark ==> code@ == "dark"@,
    {
        self.theme = self.theme.flip();
        self.apply();
        self.theme.code()
    }
}

/// The built-in descriptor: a neutral gray scale with violet and teal
/// accents, the colors given in the hue / saturation / lightness
/// model.
pub open spec fn default_descriptor() -> DescriptorModel {
    DescriptorModel {
        white: ThemeColor {
            light: Hsl { h: 0, s: 0, l: 882 },
            dark: Hsl { h: 0, s: 0, l: 882 },
        },
        black: ThemeColor { light: Hsl { h: 0, s: 0, l: 71 }, dark: Hsl { h: 0, s: 0, l: 71 } },
        gray: ThemeColor { light: Hsl { h: 0, s: 0, l: 694 }, dark: Hsl { h: 0, s: 0, l: 694 } },
        text: ThemeColor { light: Hsl { h: 0, s: 0, l: 71 }, dark: Hsl { h: 0, s: 0, l: 882 } },
        text_hover: ThemeColor {
            light: Hsl { h: 0, s: 0, l: 882 },
            dark: Hsl { h: 0, s: 0, l: 71 },
        },
        background: ThemeColor {
            light: Hsl { h: 0, s: 0, l: 820 },
            dark: Hsl { h: 0, s: 0, l: 94 },
        },
        emphasis: ThemeColor {
            light: Hsl { h: 267, s: 697, l: 612 },
            dark: Hsl { h: 266, s: 662, l: 559 },
        },
        secondary: ThemeColor {
            light: Hsl { h: 174, s: 793, l: 398 },
            dark: Hsl { h: 174, s: 973, l: 433 },
        },
        shadow_small: ShadowModel {
            light: "rgba(17, 17, 26, 0.1) 0px 4px 12px, rgba(17, 17, 26, 0.05) 0px 8px 24px"@,
            dark: "rgba(248, 248, 229, 0.1) 0px 4px 12px, rgba(248, 248, 229, 0.05) 0px 8px 24px"@,
        },
        shadow_medium: ShadowModel {
            light: "rgba(17, 17, 26, 0.1) 0px 1px 0px, rgba(17, 17, 26, 0.1) 0px 8px 24px, rgba(17, 17, 26, 0.1) 0px 16px 48px"@,
            dark: "rgba(248, 248, 229, 0.1) 0px 1px 0px, rgba(248, 248, 229, 0.1) 0px 8px 24px, rgba(248, 248, 229, 0.1) 0px 16px 48px"@,
        },
        shadow_large: ShadowModel {
            light: "rgba(17, 17, 26, 0.1) 0px 4px 16px, rgba(17, 17, 26, 0.1) 0px 8px 24px, rgba(17, 17, 26, 0.1) 0px 16px 56px)"@,
            dark: "rgba(248, 248, 229, 0.1) 0px 4px 16px, rgba(248, 248, 229, 0.1) 0px 8px 24px, rgba(248, 248, 229, 0.1) 0px 16px 56px"@,
        },
        shadow_x_large: ShadowModel {
            light: "rgba(17, 17, 26, 0.1) 0px 8px 24px, rgba(17, 17, 26, 0.1) 0px 16px 56px, rgba(17, 17, 26, 0.1) 0px 24px 80px"@,
            dark: "rgba(248, 248, 229, 0.1) 0px 8px 24px, rgba(248, 248, 229, 0.1) 0px 16px 56px, rgba(248, 248, 229, 0.1) 0px 24px 80px"@,
        },
        success: ThemeColor {
            light: Hsl { h: 122, s: 394, l: 492 },
            dark: Hsl { h: 122, s: 394, l: 492 },
        },
        error: ThemeColor {
            light: Hsl { h: 0, s: 552, l: 527 },
            dark: Hsl { h: 0, s: 552, l: 527 },
        },
        fonts: default_fonts(),
        spacing: default_spacing(),
        radius: default_radius(),
        breakpoints: default_breakpoints(),
    }
}

impl Default for GlobalTheme {
    /// The built-in theme, in dark mode (the fallback when the
    /// persistence collaborator remembers nothing), with the token
    /// store already derived for that mode.
    fn default() -> (g: Self)
        ensures
            g.theme is Dark,
            g.descriptor() == default_descriptor(),
            g.store@ == derive_tokens(default_descriptor(), Theme::Dark),
            g.wf(),
    {
        let zero = Hsl { h: 0, s: 0, l: 0 };
        let mut g = GlobalTheme {
            theme: Theme::Dark,
            white: ThemeColor {
                light: Hsl { h: 0, s: 0, l: 882 },
                dark: Hsl { h: 0, s: 0, l: 882 },
            },
            black: ThemeColor {
                light: Hsl { h: 0, s: 0, l: 71 },
                dark: Hsl { h: 0, s: 0, l: 71 },
            },
            gray: ThemeColor {
                light: Hsl { h: 0, s: 0, l: 694 },
                dark: Hsl { h: 0, s: 0, l: 694 },
            },
            text: ThemeColor {
                light: Hsl { h: 0, s: 0, l: 71 },
                dark: Hsl { h: 0, s: 0, l: 882 },
            },
            text_hover: ThemeColor {
                light: Hsl { h: 0, s: 0, l: 882 },
                dark: Hsl { h: 0, s: 0, l: 71 },
            },
            background: ThemeColor {
                light: Hsl { h: 0, s: 0, l: 820 },
                dark: Hsl { h: 0, s: 0, l: 94 },
            },
            emphasis: ThemeColor {
                light: Hsl { h: 267, s: 697, l: 612 },
                dark: Hsl { h: 266, s: 662, l: 559 },
            },
            secondary: ThemeColor {
                light: Hsl { h: 174, s: 793, l: 398 },
                dark: Hsl { h: 174, s: 973, l: 433 },
            },
            shadow_small: Shadow {
                light: String::from_str(
                    "rgba(17, 17, 26, 0.1) 0px 4px 12px, rgba(17, 17, 26, 0.05) 0px 8px 24px",
                ),
                dark: String::from_str(
                    "rgba(248, 248, 229, 0.1) 0px 4px 12px, rgba(248, 248, 229, 0.05) 0px 8px 24px",
                ),
            },
            shadow_medium: Shadow {
                light: String::from_str(
                    "rgba(17, 17, 26, 0.1) 0px 1px 0px, rgba(17, 17, 26, 0.1) 0px 8px 24px, rgba(17, 17, 26, 0.1) 0px 16px 48px",
                ),
                dark: String::from_str(
                    "rgba(248, 248, 229, 0.1) 0px 1px 0px, rgba(248, 248, 229, 0.1) 0px 8px 24px, rgba(248, 248, 229, 0.1) 0px 16px 48px",
                ),
            },
            shadow_large: Shadow {
                light: String::from_str(
                    "rgba(17, 17, 26, 0.1) 0px 4px 16px, rgba(17, 17, 26, 0.1) 0px 8px 24px, rgba(17, 17, 26, 0.1) 0px 16px 56px)",
                ),
                dark: String::from_str(
                    "rgba(248, 248, 229, 0.1) 0px 4px 16px, rgba(248, 248, 229, 0.1) 0px 8px 24px, rgba(248, 248, 229, 0.1) 0px 16px 56px",
                ),
            },
            shadow_x_large: Shadow {
                light: String::from_str(
                    "rgba(17, 17, 26, 0.1) 0px 8px 24px, rgba(17, 17, 26, 0.1) 0px 16px 56px, rgba(17, 17, 26, 0.1) 0px 24px 80px",
                ),
                dark: String::from_str(
                    "rgba(248, 248, 229, 0.1) 0px 8px 24px, rgba(248, 248, 229, 0.1) 0px 16px 56px, rgba(248, 248, 229, 0.1) 0px 24px 80px",
                ),
            },
            success: ThemeColor {
                light: Hsl { h: 122, s: 394, l: 492 },
                dark: Hsl { h: 122, s: 394, l: 492 },
            },
            error: ThemeColor {
                light: Hsl { h: 0, s: 552, l: 527 },
                dark: Hsl { h: 0, s: 552, l: 527 },
            },
            fonts: Fonts::default(),
            spacing: Spacing::default(),
            radius: Radius::default(),
            breakpoints: BreakPoints::default(),
            store: DerivedTokenStore {
                white: zero,
                black: zero,
                gray: zero,
                text: zero,
                text_hover: zero,
                dp_0: zero,
                dp_1: zero,
                dp_2: zero,
                dp_3: zero,
                dp_4: zero,
                dp_6: zero,
                dp_8: zero,
                dp_12: zero,
                dp_16: zero,
                dp_24: zero,
                emphasis: zero,
                emphasis_hover: zero,
                secondary: zero,
                secondary_hover: zero,
                shadow_small: String::new(),
                shadow_medium: String::new(),
                shadow_large: String::new(),
                shadow_x_large: String::new(),
                success: zero,
                error: zero,
                font_family: String::new(),
                font_small: Sizes::default(),
                font_medium: Sizes::default(),
                font_large: Sizes::default(),
                font_x_large: Sizes::default(),
                spacing_small: Sizes::default(),
                spacing_medium: Sizes::default(),
                spacing_large: Sizes::default(),
                radius_input: Sizes::default(),
                radius_box: Sizes::default(),
                breakpoint_small: Sizes::default(),
                breakpoint_mobile: Sizes::default(),
                breakpoint_tablet: Sizes::default(),
                breakpoint_desktop: Sizes::default(),
            },
        };
        g.apply();
        g
    }
}

/// The name of one derived token.
#[derive(Clone, Copy, Debug, PartialEq, Eq, Structural)]
pub enum TokenName {
    White,
    Black,
    Gray,
    Text,
    TextHover,
    Dp0,
    Dp1,
    Dp2,
    Dp3,
    Dp4,
    Dp6,
    Dp8,
    Dp12,
    Dp16,
    Dp24,
    Emphasis,
    EmphasisHover,
    Secondary,
    SecondaryHover,
    ShadowSmall,
    ShadowMedium,
    ShadowLarge,
    ShadowXLarge,
    Success,
    Error,
    FontFamily,
    FontSmall,
    FontMedium,
    FontLarge,
    FontXLarge,
    SpacingSmall,
    SpacingMedium,
    SpacingLarge,
    RadiusInput,
    RadiusBox,
    BreakpointSmall,
    BreakpointMobile,
    BreakpointTablet,
    BreakpointDesktop,
}

/// The value a token lookup returns.
#[derive(Clone, Debug, PartialEq, Eq)]
pub enum TokenValue {
    Color(Hsl),
    Shadow(String),
    Size(Sizes),
    Text(String),
}

/// Abstract value of a [`TokenValue`].
pub enum TokenValueModel {
    Color(Hsl),
    Shadow(Seq<char>),
    Size(SizeModel),
    Text(Seq<char>),
}

impl View for TokenValue {
    type V = TokenValueModel;

    open spec fn view(&self) -> TokenValueModel {
        match self {
            TokenValue::Color(c) => TokenValueModel::Color(*c),
            TokenValue::Shadow(s) => TokenValueModel::Shadow(s@),
            TokenValue::Size(s) => TokenValueModel::Size(s@),
            TokenValue::Text(s) => TokenValueModel::Text(s@),
        }
    }
}

/// What a lookup of each name returns from a store.
pub open spec fn spec_token(m: TokenStoreModel, name: TokenName) -> TokenValueModel {
    match name {
        TokenName::White => TokenValueModel::Color(m.white),
        TokenName::Black => TokenValueModel::Color(m.black),
        TokenName::Gray => TokenValueModel::Color(m.gray),
        TokenName::Text => TokenValueModel::Color(m.text),
        TokenName::TextHover => TokenValueModel::Color(m.text_hover),
        TokenName::Dp0 => TokenValueModel::Color(m.dp_0),
        TokenName::Dp1 => TokenValueModel::Color(m.dp_1),
        TokenName::Dp2 => TokenValueModel::Color(m.dp_2),
        TokenName::Dp3 => TokenValueModel::Color(m.dp_3),
        TokenName::Dp4 => TokenValueModel::Color(m.dp_4),
        TokenName::Dp6 => TokenValueModel::Color(m.dp_6),
        TokenName::Dp8 => TokenValueModel::Color(m.dp_8),
        TokenName::Dp12 => TokenValueModel::Color(m.dp_12),
        TokenName::Dp16 => TokenValueModel::Color(m.dp_16),
        TokenName::Dp24 => TokenValueModel::Color(m.dp_24),
        TokenName::Emphasis => TokenValueModel::Color(m.emphasis),
        TokenName::EmphasisHover => TokenValueModel::Color(m.emphasis_hover),
        TokenName::Secondary => TokenValueModel::Color(m.secondary),
        TokenName::SecondaryHover => TokenValueModel::Color(m.secondary_hover),
        TokenName::ShadowSmall => TokenValueModel::Shadow(m.shadow_small),
        TokenName::ShadowMedium => TokenValueModel::Shadow(m.shadow_medium),
        TokenName::ShadowLarge => TokenValueModel::Shadow(m.shadow_large),
        TokenName::ShadowXLarge => TokenValueModel::Shadow(m.shadow_x_large),
        TokenName::Success => TokenValueModel::Color(m.success),
        TokenName::Error => TokenValueModel::Color(m.error),
        TokenName::FontFamily => TokenValueModel::Text(m.font_family),
        TokenName::FontSmall => TokenValueModel::Size(m.font_small),
        TokenName::FontMedium => TokenValueModel::Size(m.font_medium),
        TokenName::FontLarge => TokenValueModel::Size(m.font_large),
        TokenName::FontXLarge => TokenValueModel::Size(m.font_x_large),
        TokenName::SpacingSmall => TokenValueModel::Size(m.spacing_small),
        TokenName::SpacingMedium => TokenValueModel::Size(m.spacing_medium),
        TokenName::SpacingLarge => TokenValueModel::Size(m.spacing_large),
        TokenName::RadiusInput => TokenValueModel::Size(m.radius_input),
        TokenName::RadiusBox => TokenValueModel::Size(m.radius_box),
        TokenName::BreakpointSmall => TokenValueModel::Size(m.breakpoint_small),
        TokenName::BreakpointMobile => TokenValueModel::Size(m.breakpoint_mobile),
        TokenName::BreakpointTablet => TokenValueModel::Size(m.breakpoint_tablet),
        TokenName::BreakpointDesktop => TokenValueModel::Size(m.breakpoint_desktop),
    }
}

impl DerivedTokenStore {
    /// Reads one token by name. Every name of [`TokenName`] is an
    /// entry of the store, so the lookup is total; the rendering layer
    /// treats an unmapped name string as a lookup miss before it
    /// reaches this point.
    pub fn get(&self, name: TokenName) -> (v: TokenValue)
        ensures
            v@ == spec_token(self@, name),
    {
        match name {
            TokenName::White => TokenValue::Color(self.white),
            TokenName::Black => TokenValue::Color(self.black),
            TokenName::Gray => TokenValue::Color(self.gray),
            TokenName::Text => TokenValue::Color(self.text),
            TokenName::TextHover => TokenValue::Color(self.text_hover),
            TokenName::Dp0 => TokenValue::Color(self.dp_0),
            TokenName::Dp1 => TokenValue::Color(self.dp_1),
            TokenName::Dp2 => TokenValue::Color(self.dp_2),
            TokenName::Dp3 => TokenValue::Color(self.dp_3),
            TokenName::Dp4 => TokenValue::Color(self.dp_4),
            TokenName::Dp6 => TokenValue::Color(self.dp_6),
            TokenName::Dp8 => TokenValue::Color(self.dp_8),
            TokenName::Dp12 => TokenValue::Color(self.dp_12),
            TokenName::Dp16 => TokenValue::Color(self.dp_16),
            TokenName::Dp24 => TokenValue::Color(self.dp_24),
            TokenName::Emphasis => TokenValue::Color(self.emphasis),
            TokenName::EmphasisHover => TokenValue::Color(self.emphasis_hover),
            TokenName::Secondary => TokenValue::Color(self.secondary),
            TokenName::SecondaryHover => TokenValue::Color(self.secondary_hover),
            TokenName::ShadowSmall => TokenValue::Shadow(self.shadow_small.clone()),
            TokenName::ShadowMedium => TokenValue::Shadow(self.shadow_medium.clone()),
            TokenName::ShadowLarge => TokenValue::Shadow(self.shadow_large.clone()),
            TokenName::ShadowXLarge => TokenValue::Shadow(self.shadow_x_large.clone()),
            TokenName::Success => TokenValue::Color(self.success),
            TokenName::Error => TokenValue::Color(self.error),
            TokenName::FontFamily => TokenValue::Text(self.font_family.clone()),
            TokenName::FontSmall => TokenValue::Size(self.font_small.clone()),
            TokenName::FontMedium => TokenValue::Size(self.font_medium.clone()),
            TokenName::FontLarge => TokenValue::Size(self.font_large.clone()),
            TokenName::FontXLarge => TokenValue::Size(self.font_x_large.clone()),
            TokenName::SpacingSmall => TokenValue::Size(self.spacing_small.clone()),
            TokenName::SpacingMedium => TokenValue::Size(self.spacing_medium.clone()),
            TokenName::SpacingLarge => TokenValue::Size(self.spacing_large.clone()),
            TokenName::RadiusInput => TokenValue::Size(self.radius_input.clone()),
            TokenName::RadiusBox => TokenValue::Size(self.radius_box.clone()),
            TokenName::BreakpointSmall => TokenValue::Size(self.breakpoint_small.clone()),
            TokenName::BreakpointMobile => TokenValue::Size(self.breakpoint_mobile.clone()),
            TokenName::BreakpointTablet => TokenValue::Size(self.breakpoint_tablet.clone()),
            TokenName::BreakpointDesktop => TokenValue::Size(self.breakpoint_desktop.clone()),
        }
    }
}

/// Toggling twice restores the mode and, with it, the derived token
/// store contents exactly: the derivation is a function of descriptor
/// and mode alone, and flipping the mode is an involution.
pub proof fn lemma_toggle_round_trip(d: DescriptorModel, mode: Theme)
    ensures
        mode.spec_flip().spec_flip() == mode,
        derive_tokens(d, mode.spec_flip().spec_flip()) == derive_tokens(d, mode),
{
}

} // verus!

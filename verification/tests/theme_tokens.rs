//! The theme token engine: mode handling, the lighten / darken rule,
//! the derivation, and the store lookup.

use reactive_inputs::theme::{
    GlobalTheme, Hsl, Shadow, Sizes, Theme, ThemeColor, TokenName, TokenValue,
};

#[test]
fn from_saved_mode() {
    assert_eq!(Theme::from_saved(&None), Theme::Dark);
    assert_eq!(Theme::from_saved(&Some(String::from("dark"))), Theme::Dark);
    assert_eq!(Theme::from_saved(&Some(String::from("light"))), Theme::Light);
    assert_eq!(Theme::from_saved(&Some(String::from("anything"))), Theme::Light);
}

#[test]
fn mode_codes() {
    assert_eq!(Theme::Light.code(), "light");
    assert_eq!(Theme::Dark.code(), "dark");
    assert_eq!(Theme::Light.flip(), Theme::Dark);
    assert_eq!(Theme::Dark.flip(), Theme::Light);
}

#[test]
fn lighten_and_darken_round_trip() {
    let c = Hsl { h: 200, s: 300, l: 400 };
    let lightened = c.lighten(250);
    assert_eq!(lightened, Hsl { h: 200, s: 300, l: 650 });
    assert_eq!(lightened.lighten(-250), c);
}

#[test]
fn lighten_clamps_at_the_ends() {
    let c = Hsl { h: 0, s: 0, l: 950 };
    assert_eq!(c.lighten(100).l, 1000);
    let d = Hsl { h: 0, s: 0, l: 30 };
    assert_eq!(d.lighten(-100).l, 0);
}

#[test]
fn theme_color_resolves_by_mode() {
    let color = ThemeColor {
        light: Hsl { h: 1, s: 2, l: 3 },
        dark: Hsl { h: 4, s: 5, l: 6 },
    };
    assert_eq!(color.resolve(&Theme::Light), color.light);
    assert_eq!(color.resolve(&Theme::Dark), color.dark);
    assert_eq!(color.lighten(&Theme::Dark, 10).l, 16);
}

#[test]
fn shadow_resolves_by_mode() {
    let shadow = Shadow {
        light: String::from("light shadow"),
        dark: String::from("dark shadow"),
    };
    assert_eq!(shadow.shadow(&Theme::Light), "light shadow");
    assert_eq!(shadow.shadow(&Theme::Dark), "dark shadow");
}

#[test]
fn default_sizes() {
    let s = Sizes::default();
    assert_eq!(s.tenths, 10);
    assert_eq!(s.unit, "px");
    let g = GlobalTheme::default();
    assert_eq!(g.fonts.small.tenths, 8);
    assert_eq!(g.fonts.small.unit, "rem");
    assert_eq!(g.fonts.very_large.tenths, 25);
    assert_eq!(g.radius.box_radius.tenths, 160);
    assert_eq!(g.breakpoints.desktop.tenths, 12000);
    assert_eq!(g.spacing.large.tenths, 40);
}

#[test]
fn default_theme_is_dark_and_derived() {
    let g = GlobalTheme::default();
    assert_eq!(g.theme, Theme::Dark);
    // The store already reflects dark mode: the base surface is the
    // dark background.
    assert_eq!(g.store.dp_0, Hsl { h: 0, s: 0, l: 94 });
    assert_eq!(g.store.text, g.text.dark);
    assert_eq!(g.store.shadow_small, g.shadow_small.dark);
}

#[test]
fn dark_mode_elevation_ladder_is_progressive() {
    let mut g = GlobalTheme::default();
    g.theme = Theme::Dark;
    g.apply();
    let base = g.background.dark.l;
    assert_eq!(g.store.dp_1.l, base + 50);
    assert_eq!(g.store.dp_2.l, base + 70);
    assert_eq!(g.store.dp_3.l, base + 80);
    assert_eq!(g.store.dp_4.l, base + 90);
    assert_eq!(g.store.dp_6.l, base + 110);
    assert_eq!(g.store.dp_8.l, base + 120);
    assert_eq!(g.store.dp_12.l, base + 140);
    assert_eq!(g.store.dp_16.l, base + 150);
    assert_eq!(g.store.dp_24.l, base + 160);
    // Hue and saturation are untouched by the ladder.
    assert_eq!(g.store.dp_24.h, g.background.dark.h);
    assert_eq!(g.store.dp_24.s, g.background.dark.s);
}

#[test]
fn light_mode_elevation_is_flat() {
    let mut g = GlobalTheme::default();
    g.theme = Theme::Light;
    g.apply();
    let base = g.background.light;
    assert_eq!(g.store.dp_0, base);
    assert_eq!(g.store.dp_1, base);
    assert_eq!(g.store.dp_4, base);
    assert_eq!(g.store.dp_24, base);
}

#[test]
fn hover_delta_sign_depends_on_mode() {
    let mut g = GlobalTheme::default();
    g.theme = Theme::Light;
    g.apply();
    assert_eq!(g.store.emphasis_hover.l, g.emphasis.light.l - 100);
    assert_eq!(g.store.secondary_hover.l, g.secondary.light.l - 100);
    g.theme = Theme::Dark;
    g.apply();
    assert_eq!(g.store.emphasis_hover.l, g.emphasis.dark.l + 100);
    assert_eq!(g.store.secondary_hover.l, g.secondary.dark.l + 100);
}

#[test]
fn toggle_twice_restores_the_store_exactly() {
    let mut g = GlobalTheme::default();
    let mode_before = g.theme;
    let store_before = g.store.clone();
    let first = g.toggle();
    assert_eq!(first, "light");
    assert_ne!(g.store, store_before);
    let second = g.toggle();
    assert_eq!(second, "dark");
    assert_eq!(g.theme, mode_before);
    assert_eq!(g.store, store_before);
}

#[test]
fn toggle_recomputes_every_entry_for_the_new_mode() {
    let mut g = GlobalTheme::default();
    g.toggle();
    // Now light: elevation flat, light shadows, light text.
    assert_eq!(g.theme, Theme::Light);
    assert_eq!(g.store.dp_1, g.background.light);
    assert_eq!(g.store.shadow_medium, g.shadow_medium.light);
    assert_eq!(g.store.text, g.text.light);
}

#[test]
fn token_lookup_reads_the_current_entries() {
    let g = GlobalTheme::default();
    assert_eq!(g.store.get(TokenName::Dp0), TokenValue::Color(g.store.dp_0));
    assert_eq!(
        g.store.get(TokenName::ShadowLarge),
        TokenValue::Shadow(g.store.shadow_large.clone())
    );
    assert_eq!(
        g.store.get(TokenName::FontFamily),
        TokenValue::Text(String::from("Roboto, Inter, Helvetica, sans-serif, serif"))
    );
    match g.store.get(TokenName::RadiusInput) {
        TokenValue::Size(s) => {
            assert_eq!(s.tenths, 80);
            assert_eq!(s.unit, "px");
        }
        other => panic!("unexpected token value {other:?}"),
    }
}

use user_colors::colors::{copy_color, same_color, slot_index, slot_name, ColorOverrides, SLOT_COUNT};
use user_colors::error::ThemeError;
use user_colors::text::{bytes_eq, str_eq};

const CATALOG: [&str; 31] = [
    "accent_bg_color",
    "accent_fg_color",
    "accent_color",
    "destructive_bg_color",
    "destructive_fg_color",
    "destructive_color",
    "success_color",
    "success_bg_color",
    "success_fg_color",
    "warning_color",
    "warning_bg_color",
    "warning_fg_color",
    "error_color",
    "error_bg_color",
    "error_fg_color",
    "window_bg_color",
    "window_fg_color",
    "view_bg_color",
    "view_fg_color",
    "shade_color",
    "headerbar_bg_color",
    "headerbar_fg_color",
    "headerbar_border_color",
    "headerbar_backdrop_color",
    "headerbar_shade_color",
    "card_bg_color",
    "card_fg_color",
    "card_shade_color",
    "popover_bg_color",
    "popover_fg_color",
    "scrollbar_outline_color",
];

fn ocean() -> ColorOverrides {
    ColorOverrides {
        name: "Ocean".to_string(),
        accent_bg_color: Some("#336699".to_string()),
        ..Default::default()
    }
}

#[test]
fn light_default() {
    ColorOverrides::light_default();
}

#[test]
fn dark_default() {
    ColorOverrides::dark_default();
}

#[test]
fn catalog_has_thirty_one_slots_in_stylesheet_order() {
    assert_eq!(SLOT_COUNT, 31);
    for (index, name) in CATALOG.iter().enumerate() {
        assert_eq!(slot_name(index), *name);
        assert_eq!(slot_index(name), Some(index));
    }
}

#[test]
fn slot_index_rejects_names_outside_the_catalog() {
    assert_eq!(slot_index(""), None);
    assert_eq!(slot_index("name"), None);
    assert_eq!(slot_index("accent_bg_colour"), None);
    assert_eq!(slot_index("accent_bg_color "), None);
    assert_eq!(slot_index("ACCENT_BG_COLOR"), None);
    assert_eq!(slot_index("accent_bg_colo"), None);
}

#[test]
fn set_then_get_returns_the_value_for_every_slot() {
    for name in CATALOG.iter() {
        let mut colors = ColorOverrides::default();
        let value = format!("#{}", name);
        assert_eq!(colors.set_key(name, Some(value.clone())), Ok(()));
        assert_eq!(colors.get_key(name), Some(value));
        for other in CATALOG.iter() {
            if other != name {
                assert_eq!(colors.get_key(other), None);
            }
        }
    }
}

#[test]
fn set_none_clears_every_slot() {
    for name in CATALOG.iter() {
        let mut colors = ColorOverrides::light_default();
        assert!(colors.get_key(name).is_some());
        assert_eq!(colors.set_key(name, None), Ok(()));
        assert_eq!(colors.get_key(name), None);
        for other in CATALOG.iter() {
            if other != name {
                assert_eq!(colors.get_key(other), ColorOverrides::light_default().get_key(other));
            }
        }
    }
}

#[test]
fn set_key_reaches_the_field_of_the_same_name() {
    let mut colors = ColorOverrides::default();
    colors.set_key("success_bg_color", Some("#111111".to_string())).unwrap();
    colors.set_key("warning_fg_color", Some("#222222".to_string())).unwrap();
    colors.set_key("error_bg_color", Some("#333333".to_string())).unwrap();
    colors.set_key("shade_color", Some("#444444".to_string())).unwrap();
    assert_eq!(colors.success_bg_color, Some("#111111".to_string()));
    assert_eq!(colors.success_color, None);
    assert_eq!(colors.warning_fg_color, Some("#222222".to_string()));
    assert_eq!(colors.warning_color, None);
    assert_eq!(colors.error_bg_color, Some("#333333".to_string()));
    assert_eq!(colors.error_color, None);
    assert_eq!(colors.shade_color, Some("#444444".to_string()));
}

#[test]
fn get_key_reads_the_field_of_the_same_name() {
    let colors = ColorOverrides {
        success_fg_color: Some("#abcdef".to_string()),
        ..Default::default()
    };
    assert_eq!(colors.get_key("success_fg_color"), Some("#abcdef".to_string()));
    assert_eq!(colors.get_key("success_color"), None);
    assert_eq!(colors.get_key("success_bg_color"), None);
}

#[test]
fn unknown_slot_fails_on_set_and_reads_as_unset() {
    let mut colors = ocean();
    let before = colors.clone();
    assert_eq!(colors.set_key("no_such_color", Some("#000000".to_string())), Err(ThemeError::InvalidSlot));
    assert_eq!(colors.set_key("name", None), Err(ThemeError::InvalidSlot));
    assert_eq!(colors.set_key("", Some("#000000".to_string())), Err(ThemeError::InvalidSlot));
    assert!(colors == before);
    assert_eq!(colors.get_key("no_such_color"), None);
    assert_eq!(colors.get_key("name"), None);
    assert_eq!(colors.get_key(""), None);
}

#[test]
fn stylesheet_of_one_slot_is_one_rule() {
    assert_eq!(ocean().as_gtk_css(), "@define-color accent_bg_color #336699;\n");
}

#[test]
fn stylesheet_of_no_slot_is_empty() {
    assert_eq!(ColorOverrides::default().as_gtk_css(), "");
    let named = ColorOverrides { name: "Bare".to_string(), ..Default::default() };
    assert_eq!(named.as_gtk_css(), "");
}

#[test]
fn stylesheet_lists_set_slots_in_catalog_order() {
    let mut colors = ColorOverrides::default();
    colors.set_key("scrollbar_outline_color", Some("#010101".to_string())).unwrap();
    colors.set_key("shade_color", Some("rgba(0, 0, 0, 0.1)".to_string())).unwrap();
    colors.set_key("view_fg_color", Some("black".to_string())).unwrap();
    colors.set_key("headerbar_bg_color", Some("#020202".to_string())).unwrap();
    colors.set_key("accent_color", Some("#030303".to_string())).unwrap();
    assert_eq!(
        colors.as_gtk_css(),
        "@define-color accent_color #030303;\n\
         @define-color view_fg_color black;\n\
         @define-color shade_color rgba(0, 0, 0, 0.1);\n\
         @define-color headerbar_bg_color #020202;\n\
         @define-color scrollbar_outline_color #010101;\n"
    );
}

#[test]
fn stylesheet_has_one_rule_per_set_slot() {
    let light = ColorOverrides::light_default();
    let css = light.as_gtk_css();
    let lines: Vec<&str> = css.lines().collect();
    assert_eq!(lines.len(), 31);
    for (index, line) in lines.iter().enumerate() {
        let name = CATALOG[index];
        let value = light.get_key(name).unwrap();
        assert_eq!(*line, format!("@define-color {} {};", name, value));
    }
    assert!(css.ends_with(";\n"));

    let mut fewer = light.clone();
    fewer.set_key("card_bg_color", None).unwrap();
    fewer.set_key("accent_bg_color", None).unwrap();
    let css = fewer.as_gtk_css();
    assert_eq!(css.lines().count(), 29);
    assert!(!css.contains("card_bg_color"));
    assert!(!css.contains("accent_bg_color"));
}

#[test]
fn stylesheet_is_the_same_for_equal_sets() {
    let first = ocean();
    let second = ocean();
    assert!(first == second);
    assert_eq!(first.as_gtk_css(), second.as_gtk_css());
    assert_eq!(first.as_gtk_css(), first.as_gtk_css());
    let dark = ColorOverrides::dark_default();
    assert_eq!(dark.as_gtk_css(), dark.clone().as_gtk_css());
}

#[test]
fn light_baseline_sets_every_slot() {
    let light = ColorOverrides::light_default();
    assert_eq!(light.name, "light_default");
    for name in CATALOG.iter() {
        assert!(light.get_key(name).is_some(), "{}", name);
    }
    assert_eq!(light.accent_bg_color, Some("#3584e4".to_string()));
    assert_eq!(light.window_bg_color, Some("#fafafa".to_string()));
    assert_eq!(light.window_fg_color, Some("rgba(0, 0, 0, 0.8)".to_string()));
    assert_eq!(light.scrollbar_outline_color, Some("#ffffff".to_string()));
}

#[test]
fn dark_baseline_sets_every_slot() {
    let dark = ColorOverrides::dark_default();
    assert_eq!(dark.name, "dark_default");
    for name in CATALOG.iter() {
        assert!(dark.get_key(name).is_some(), "{}", name);
    }
    assert_eq!(dark.accent_color, Some("#78aeed".to_string()));
    assert_eq!(dark.window_bg_color, Some("#242424".to_string()));
    assert_eq!(dark.window_fg_color, Some("#ffffff".to_string()));
    assert_eq!(dark.card_bg_color, Some("rgba(255, 255, 255, 0.08)".to_string()));
}

#[test]
fn baselines_differ() {
    assert!(ColorOverrides::light_default() != ColorOverrides::dark_default());
}

#[test]
fn default_is_nameless_and_unset() {
    let empty = ColorOverrides::default();
    assert_eq!(empty.name, "");
    for name in CATALOG.iter() {
        assert_eq!(empty.get_key(name), None);
    }
}

#[test]
fn sets_are_equal_when_name_and_slots_are() {
    let first = ocean();
    let mut second = ocean();
    assert!(first == second);
    second.name = "Sea".to_string();
    assert!(first != second);
    let mut third = ocean();
    third.set_key("scrollbar_outline_color", Some("#336699".to_string())).unwrap();
    assert!(first != third);
    third.set_key("scrollbar_outline_color", None).unwrap();
    assert!(first == third);
    let mut fourth = ocean();
    fourth.set_key("accent_bg_color", Some("#336698".to_string())).unwrap();
    assert!(first != fourth);
    let mut fifth = ocean();
    fifth.set_key("accent_bg_color", None).unwrap();
    assert!(first != fifth);
}

#[test]
fn clone_is_equal_to_its_source() {
    let light = ColorOverrides::light_default();
    let copy = light.clone();
    assert!(light == copy);
    assert_eq!(copy.name, "light_default");
    assert_eq!(copy.as_gtk_css(), light.as_gtk_css());
}

#[test]
fn high_contrast_keeps_every_slot() {
    let dark = ColorOverrides::dark_default();
    assert!(dark.clone().to_high_contrast() == dark);
    assert!(ocean().to_high_contrast() == ocean());
}

#[test]
fn slot_access_by_position_matches_access_by_name() {
    let mut colors = ColorOverrides::default();
    colors.set_slot(19, Some("#191919".to_string()));
    assert_eq!(colors.get_key("shade_color"), Some("#191919".to_string()));
    assert_eq!(colors.slot(19), &Some("#191919".to_string()));
    assert_eq!(colors.slot(30), &None);
    colors.set_slot(30, Some("#303030".to_string()));
    assert_eq!(colors.scrollbar_outline_color, Some("#303030".to_string()));
    colors.set_slot(19, None);
    assert_eq!(colors.shade_color, None);
}

#[test]
fn text_comparison_is_by_content() {
    assert!(str_eq("", ""));
    assert!(str_eq("accent_color", "accent_color"));
    assert!(!str_eq("accent_color", "accent_colour"));
    assert!(!str_eq("accent_color", "accent_colos"));
    assert!(!str_eq("a", ""));
    assert!(str_eq("gr\u{fc}n", "gr\u{fc}n"));
    assert!(!str_eq("gr\u{fc}n", "grun"));
    assert!(bytes_eq(b"", b""));
    assert!(bytes_eq(b"abc", b"abc"));
    assert!(!bytes_eq(b"abc", b"abd"));
    assert!(!bytes_eq(b"abc", b"ab"));
}

#[test]
fn slots_compare_and_copy_by_content() {
    let red = Some("#ff0000".to_string());
    let blue = Some("#0000ff".to_string());
    assert!(same_color(&red, &red.clone()));
    assert!(!same_color(&red, &blue));
    assert!(!same_color(&red, &None));
    assert!(!same_color(&None, &blue));
    assert!(same_color(&None, &None));
    assert_eq!(copy_color(&red), red);
    assert_eq!(copy_color(&None), None);
}

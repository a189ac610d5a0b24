use gimoji::color_scheme::ColorScheme;

#[test]
fn names_of_schemes() {
    assert_eq!(ColorScheme::from_name("light"), Some(ColorScheme::Light));
    assert_eq!(ColorScheme::from_name("dark"), Some(ColorScheme::Dark));
}

#[test]
fn other_texts_name_no_scheme() {
    for name in ["", "Light", "DARK", "dark ", " light", "lightdark", "darker", "ligh", "auto"] {
        assert_eq!(ColorScheme::from_name(name), None, "{name:?}");
    }
}

#[test]
fn environment_comes_before_argument() {
    assert_eq!(
        ColorScheme::pick(Some("light"), Some(ColorScheme::Dark)),
        Some(ColorScheme::Light)
    );
    assert_eq!(
        ColorScheme::pick(Some("dark"), Some(ColorScheme::Light)),
        Some(ColorScheme::Dark)
    );
    assert_eq!(ColorScheme::pick(Some("dark"), None), Some(ColorScheme::Dark));
}

#[test]
fn argument_decides_where_environment_names_none() {
    assert_eq!(ColorScheme::pick(None, Some(ColorScheme::Light)), Some(ColorScheme::Light));
    assert_eq!(ColorScheme::pick(Some("bogus"), Some(ColorScheme::Dark)), Some(ColorScheme::Dark));
    assert_eq!(ColorScheme::pick(Some(""), Some(ColorScheme::Light)), Some(ColorScheme::Light));
}

#[test]
fn nothing_chosen_leaves_it_to_detection() {
    assert_eq!(ColorScheme::pick(None, None), None);
    assert_eq!(ColorScheme::pick(Some("bogus"), None), None);
}

#[test]
fn detection_falls_back_to_dark() {
    assert_eq!(ColorScheme::or_default(Some(ColorScheme::Light)), ColorScheme::Light);
    assert_eq!(ColorScheme::or_default(Some(ColorScheme::Dark)), ColorScheme::Dark);
    assert_eq!(ColorScheme::or_default(None), ColorScheme::Dark);
}

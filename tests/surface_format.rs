use lcd_renderer::surface::pick_surface_format;

#[test]
fn picks_first_srgb_format() {
    assert_eq!(pick_surface_format(&vec![false, true, true]), Some(1));
    assert_eq!(pick_surface_format(&vec![true, false]), Some(0));
    assert_eq!(pick_surface_format(&vec![false, false, false, true]), Some(3));
}

#[test]
fn falls_back_to_first_format() {
    assert_eq!(pick_surface_format(&vec![false, false]), Some(0));
    assert_eq!(pick_surface_format(&vec![false]), Some(0));
}

#[test]
fn no_formats_gives_none() {
    assert_eq!(pick_surface_format(&Vec::new()), None);
}

use sensi_alternada::brand::Brand;
use std::collections::HashSet;

/// Two brands with the same label in the selector are indistinguishable to whoever
/// picks, and that is the mistake a copy-pasted list produces.
#[test]
fn every_brand_has_a_distinct_label_and_method() {
    let labels: HashSet<&str> = Brand::ALL.iter().map(|b| b.label()).collect();
    assert_eq!(labels.len(), Brand::ALL.len(), "rotulo repetido");
    let methods: HashSet<&str> = Brand::ALL.iter().map(|b| b.method()).collect();
    assert_eq!(methods.len(), Brand::ALL.len(), "metodo repetido");
}

#[test]
fn all_lists_every_variant() {
    // A variant left out of ALL never shows up in the selector.
    for brand in [Brand::Logitech, Brand::Sinowealth, Brand::SemMarca] {
        assert!(Brand::ALL.contains(&brand), "{brand:?} fora de ALL");
    }
}

#[test]
fn brand_labels_and_methods_are_the_panel_texts() {
    assert_eq!(Brand::Logitech.label(), "Logitech");
    assert_eq!(Brand::Sinowealth.label(), "Genérico (SINOWEALTH)");
    assert_eq!(Brand::SemMarca.label(), "Sem marca");
    assert_eq!(Brand::Logitech.method(), "HID++ direto no mouse");
    assert_eq!(Brand::Sinowealth.method(), "troca de perfil no mouse");
    assert_eq!(Brand::SemMarca.method(), "driver RawAccel");
}

#[test]
fn the_default_brand_is_logitech() {
    assert_eq!(Brand::default(), Brand::Logitech);
}

use mc_app::brand::{name, seal, Brand};

#[test]
fn a_single_word_name_gives_its_first_two_letters() {
    assert_eq!(seal("Prism"), "PR");
    assert_eq!(seal("samflix"), "SA");
}

#[test]
fn a_multi_word_name_gives_its_initials() {
    assert_eq!(seal("My Network"), "MN");
    assert_eq!(seal("The Big Server"), "TB");
}

#[test]
fn a_dash_separates_two_words_like_a_space() {
    assert_eq!(seal("samflix-mc"), "SM");
    assert_eq!(seal("my_network"), "MN");
}

#[test]
fn a_name_without_a_letter_does_not_give_an_empty_circle() {
    assert_eq!(seal(""), "??");
    assert_eq!(seal("— —"), "??");
}

#[test]
fn a_single_letter_name_remains_displayable() {
    assert_eq!(seal("X"), "X");
}

#[test]
fn the_default_name_is_the_network_s() {
    assert!(!name(None).is_empty());
}

#[test]
fn an_empty_configured_name_falls_back_to_the_default() {
    assert_eq!(name(None), "Helm");
    assert_eq!(name(Some("")), "Helm");
    assert_eq!(name(Some("My Network")), "My Network");
}

#[test]
fn the_brand_carries_its_name_and_the_seal_of_it() {
    let brand = Brand::current(Some("My Network"));
    assert_eq!(brand.name, "My Network");
    assert_eq!(brand.seal, "MN");

    let default = Brand::current(None);
    assert_eq!(default.name, "Helm");
    assert_eq!(default.seal, "HE");
}

#[test]
fn the_seal_is_uppercased_beyond_ascii() {
    assert_eq!(seal("élan vital"), "ÉV");
    assert_eq!(seal("ßeta"), "SSE");
}

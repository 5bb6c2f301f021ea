use nargo::context::Lang;
use nargo::get_lang;
use nargo::package::PackageType;

#[test]
fn the_secondary_classification_selects_the_alternate_dialect() {
    assert_eq!(get_lang(&PackageType::Sol), Lang::Solc);
}

#[test]
fn every_other_classification_selects_the_default_dialect() {
    assert_eq!(get_lang(&PackageType::Binary), Lang::Noir);
    assert_eq!(get_lang(&PackageType::Library), Lang::Noir);
    assert_eq!(get_lang(&PackageType::Contract), Lang::Noir);
}

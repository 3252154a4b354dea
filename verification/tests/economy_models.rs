use poe2_overlord::domain::economy::models::EconomyType;
use std::str::FromStr;

// ========== FromStr Tests for EconomyType ==========

#[test]
fn test_economy_type_from_str_all_variants() {
    assert_eq!(EconomyType::from_str("Currency"), Ok(EconomyType::Currency));
    assert_eq!(
        EconomyType::from_str("Fragments"),
        Ok(EconomyType::Fragments)
    );
    assert_eq!(EconomyType::from_str("Abyss"), Ok(EconomyType::Abyss));
    assert_eq!(
        EconomyType::from_str("UncutGems"),
        Ok(EconomyType::UncutGems)
    );
    assert_eq!(
        EconomyType::from_str("LineageSupportGems"),
        Ok(EconomyType::LineageSupportGems)
    );
    assert_eq!(
        EconomyType::from_str("Essences"),
        Ok(EconomyType::Essences)
    );
    assert_eq!(
        EconomyType::from_str("SoulCores"),
        Ok(EconomyType::SoulCores)
    );
    assert_eq!(EconomyType::from_str("Idols"), Ok(EconomyType::Idols));
    assert_eq!(EconomyType::from_str("Runes"), Ok(EconomyType::Runes));
    assert_eq!(EconomyType::from_str("Ritual"), Ok(EconomyType::Ritual));
    assert_eq!(
        EconomyType::from_str("Expedition"),
        Ok(EconomyType::Expedition)
    );
    assert_eq!(
        EconomyType::from_str("Delirium"),
        Ok(EconomyType::Delirium)
    );
    assert_eq!(EconomyType::from_str("Breach"), Ok(EconomyType::Breach));
}

#[test]
fn test_economy_type_from_str_unknown() {
    assert!(EconomyType::from_str("Unknown").is_err());
    assert!(EconomyType::from_str("").is_err());
    assert!(EconomyType::from_str("currency").is_err()); // case-sensitive
}

#[test]
fn test_economy_type_roundtrip() {
    // Test that as_str() and from_str() are inverses
    for economy_type in EconomyType::all() {
        let str_repr = economy_type.as_str();
        let parsed = EconomyType::from_str(str_repr).unwrap();
        assert_eq!(economy_type, parsed);
    }
}

#[test]
fn test_economy_type_parse_method() {
    // Test the .parse() method works (uses FromStr internally)
    let result: Result<EconomyType, _> = "Currency".parse();
    assert_eq!(result, Ok(EconomyType::Currency));

    let result: Result<EconomyType, _> = "Invalid".parse();
    assert!(result.is_err());
}

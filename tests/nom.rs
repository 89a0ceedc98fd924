use diffusion_chat::nom::{valider_nom_utilisateur, ErreurNom};

#[test]
fn test_validation_nom_utilisateur() {
    assert!(valider_nom_utilisateur("Alice").is_ok());
    assert!(valider_nom_utilisateur("").is_err());
    assert!(valider_nom_utilisateur("A".repeat(51).as_str()).is_err());
    assert!(valider_nom_utilisateur("Alice Bob").is_err());
}

#[test]
fn nom_erreurs_dans_l_ordre() {
    assert_eq!(valider_nom_utilisateur(""), Err(ErreurNom::Vide));
    assert_eq!(valider_nom_utilisateur(&"B".repeat(51)), Err(ErreurNom::TropLong));
    assert_eq!(valider_nom_utilisateur(&"B c".repeat(20)), Err(ErreurNom::TropLong));
    assert_eq!(valider_nom_utilisateur("a b"), Err(ErreurNom::ContientEspace));
    assert_eq!(valider_nom_utilisateur(&"C".repeat(50)), Ok(()));
    // Fifty bytes, not fifty characters: "é" takes two bytes.
    assert_eq!(valider_nom_utilisateur(&"é".repeat(25)), Ok(()));
    assert_eq!(valider_nom_utilisateur(&"é".repeat(26)), Err(ErreurNom::TropLong));
    // Any white space is refused, not only the space character.
    assert_eq!(valider_nom_utilisateur("a\tb"), Err(ErreurNom::ContientEspace));
    assert_eq!(valider_nom_utilisateur("a\u{3000}b"), Err(ErreurNom::ContientEspace));
    assert_eq!(valider_nom_utilisateur("a_b-c.d"), Ok(()));
}

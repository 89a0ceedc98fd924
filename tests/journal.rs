use diffusion_chat::fichiers::GestionnaireFichiers;
use diffusion_chat::journal::{
    filtrer_par_niveau, format_timestamp, statistiques_log, EntreeDonnee, EntreeLog,
};

#[test]
fn ligne_avec_donnees() {
    let e = EntreeLog::parse_ligne_log("[1721580000] ERROR - Échec de validation | Data: Code erreur: ERR_001").unwrap();
    assert_eq!(e.timestamp, "1721580000");
    assert_eq!(e.niveau, "ERROR");
    assert_eq!(e.message, "Échec de validation");
    // The data keep the space after the colon.
    assert_eq!(e.donnees, Some(" Code erreur: ERR_001".to_string()));
}

#[test]
fn ligne_sans_donnees_et_lignes_rejetees() {
    let e = EntreeLog::parse_ligne_log("[t]   INFO - Démarrage - suite  ").unwrap();
    assert_eq!(e.timestamp, "t");
    assert_eq!(e.niveau, "INFO");
    assert_eq!(e.message, "Démarrage - suite");
    assert_eq!(e.donnees, None);
    assert_eq!(EntreeLog::parse_ligne_log("=== JOURNAL TECHNIQUE ==="), None);
    assert_eq!(EntreeLog::parse_ligne_log("[sans fin"), None);
    assert_eq!(EntreeLog::parse_ligne_log("[x] INFO message"), None);
    assert_eq!(EntreeLog::parse_ligne_log(""), None);
    // Trimming takes the trailing space of the separator away.
    assert_eq!(EntreeLog::parse_ligne_log("[] A - "), None);
    let vide = EntreeLog::parse_ligne_log("[] A - x").unwrap();
    assert_eq!((vide.timestamp.as_str(), vide.niveau.as_str(), vide.message.as_str()), ("", "A", "x"));
}

#[test]
fn filtre_par_niveau() {
    let lignes = ["[1] ERROR - a", "[2] INFO - b", "[3] ERROR - c | Data: d"];
    let entrees: Vec<EntreeLog> = lignes.iter().map(|l| EntreeLog::parse_ligne_log(l).unwrap()).collect();
    let erreurs = filtrer_par_niveau(&entrees, "ERROR");
    assert_eq!(erreurs.len(), 2);
    assert_eq!(erreurs[0].message, "a");
    assert_eq!(erreurs[1].message, "c");
    assert!(filtrer_par_niveau(&entrees, "WARNING").is_empty());
}

#[test]
fn formats_d_ecriture() {
    let e = EntreeDonnee {
        timestamp: 125,
        niveau: "TRANSACTION".to_string(),
        message: "Dépôt effectué".to_string(),
        donnees: Some("Montant: 250.00€".to_string()),
    };
    assert_eq!(e.vers_format_log(), "[125] TRANSACTION - Dépôt effectué | Data: Montant: 250.00€\n");
    assert_eq!(e.vers_format_txt(), "2025-07-21 23:5:5 [TRANSACTION] Dépôt effectué - Données: Montant: 250.00€\n");
    let f = EntreeDonnee { donnees: None, ..e.clone() };
    assert_eq!(f.vers_format_log(), "[125] TRANSACTION - Dépôt effectué\n");
    assert_eq!(f.vers_format_txt(), "2025-07-21 23:5:5 [TRANSACTION] Dépôt effectué\n");
    assert_eq!(format_timestamp(0), "2025-07-21 18:0:0");
    let relue = EntreeLog::parse_ligne_log(e.vers_format_log().trim_end()).unwrap();
    assert_eq!(relue.niveau, "TRANSACTION");
    assert_eq!(relue.donnees, Some(" Montant: 250.00€".to_string()));
    let n = EntreeDonnee::nouvelle("INFO", "Démarrage", None);
    assert_eq!(n.niveau, "INFO");
    assert_eq!(n.donnees, None);
    assert!(n.timestamp > 1_600_000_000);
}

#[test]
fn statistiques_par_niveau() {
    let lignes = ["[1] ERROR - a", "[2] INFO - b | Data: x", "[3] ERROR - c | Data: d", "[4] DEBUG - e"];
    let entrees: Vec<EntreeLog> = lignes.iter().map(|l| EntreeLog::parse_ligne_log(l).unwrap()).collect();
    let s = statistiques_log(&entrees);
    assert_eq!(s.total, 4);
    assert_eq!(s.avec_donnees, 2);
    assert_eq!(
        s.par_niveau,
        vec![("ERROR".to_string(), 2), ("INFO".to_string(), 1), ("DEBUG".to_string(), 1)]
    );
    let vide = statistiques_log(&[]);
    assert_eq!((vide.total, vide.avec_donnees, vide.par_niveau.len()), (0, 0, 0));
}

#[test]
fn gestionnaire_chemins() {
    let g = GestionnaireFichiers::nouveau("data".to_string());
    assert_eq!(g.chemin_base, "data");
    assert_eq!(g.chemin_complet("a.txt"), "data/a.txt");
}

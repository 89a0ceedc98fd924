use diffusion_chat::client::{donnees_fichier_simule, ClientWebSocket};
use diffusion_chat::connexion::{Connexion, Ecriture, Evenement, Phase};
use diffusion_chat::message::{Metadonnees, MessageWebSocket, TypeMessageWs};
use diffusion_chat::nom::ErreurNom;
use diffusion_chat::serveur::{EtatServeur, CAPACITE_FILE};

fn ecrits(c: &Connexion, etat: &mut EtatServeur) -> Vec<MessageWebSocket> {
    let mut v = Vec::new();
    loop {
        match c.ecriture(etat) {
            Ecriture::Envoyer(m) => v.push(m),
            Ecriture::Ignorer => {}
            Ecriture::Attendre | Ecriture::Fermer => return v,
        }
    }
}

#[test]
fn cycle_de_vie_d_une_connexion() {
    let mut etat = EtatServeur::new(CAPACITE_FILE);
    let mut alice = Connexion::new("10.0.0.1:5000".to_string());
    let mut bob = Connexion::new("10.0.0.2:5000".to_string());
    let r = alice.evenement(&mut etat, Evenement::Trame(MessageWebSocket::nouvelle_connexion("alice".to_string())));
    assert_eq!(r.len(), 1);
    assert!(matches!(alice.phase, Phase::Active { .. }));
    bob.evenement(&mut etat, Evenement::Trame(MessageWebSocket::nouvelle_connexion("bob".to_string())));
    ecrits(&alice, &mut etat);
    ecrits(&bob, &mut etat);
    assert!(alice.evenement(&mut etat, Evenement::TrameInvalide).is_empty());
    let r = alice.evenement(&mut etat, Evenement::Trame(MessageWebSocket::nouveau_chat("alice".to_string(), "coucou".to_string())));
    assert!(r.is_empty());
    assert!(ecrits(&alice, &mut etat).is_empty());
    let pour_bob = ecrits(&bob, &mut etat);
    assert_eq!(pour_bob.len(), 1);
    assert_eq!(pour_bob[0].contenu, Some("coucou".to_string()));
    let delai = alice.evenement(&mut etat, Evenement::Delai);
    assert_eq!(delai.len(), 1);
    assert_eq!(delai[0].type_message, TypeMessageWs::Ping);
    let r = alice.evenement(&mut etat, Evenement::Trame(MessageWebSocket::nouveau_chat("alice".to_string(), "/quit".to_string())));
    assert!(r.is_empty());
    assert!(alice.est_fermee());
    assert!(alice.evenement(&mut etat, Evenement::Coupure).is_empty());
    assert_eq!(etat.liste_noms(), vec!["bob".to_string()]);
    let pour_bob = ecrits(&bob, &mut etat);
    assert_eq!(pour_bob.len(), 1);
    assert_eq!(pour_bob[0].contenu, Some("alice a quitté le chat".to_string()));
    bob.evenement(&mut etat, Evenement::Coupure);
    assert!(bob.est_fermee());
    assert!(etat.liste_noms().is_empty());
}

#[test]
fn poignee_de_main_echouee_ferme() {
    let mut etat = EtatServeur::new(CAPACITE_FILE);
    let mut c = Connexion::new("p".to_string());
    let r = c.evenement(&mut etat, Evenement::Trame(MessageWebSocket::nouveau_ping()));
    assert_eq!(r.len(), 1);
    assert!(c.est_fermee());
    let mut d = Connexion::new("p".to_string());
    assert!(d.evenement(&mut etat, Evenement::Delai).is_empty());
    assert!(d.est_fermee());
    assert!(matches!(d.ecriture(&mut etat), Ecriture::Fermer));
}

#[test]
fn client_nouveau_valide_le_nom() {
    let c = ClientWebSocket::new("Alice".to_string(), "127.0.0.1:9001".to_string()).unwrap();
    assert_eq!(c.nom_utilisateur(), "Alice");
    assert_eq!(c.url_serveur(), "127.0.0.1:9001");
    assert!(!c.est_connecte());
    let mut c = c;
    c.marquer_connecte(true);
    assert!(c.est_connecte());
    assert_eq!(c.nom_utilisateur(), "Alice");
    assert_eq!(ClientWebSocket::new("A B".to_string(), "u".to_string()).err(), Some(ErreurNom::ContientEspace));
    assert_eq!(ClientWebSocket::new("".to_string(), "u".to_string()).err(), Some(ErreurNom::Vide));
}

#[test]
fn fichier_simule_selon_l_extension() {
    assert_eq!(donnees_fichier_simule("notes.txt"), "Ceci est le contenu d'un fichier texte simulé.".as_bytes());
    assert_eq!(donnees_fichier_simule("txt"), "Ceci est le contenu d'un fichier texte simulé.".as_bytes());
    let image = donnees_fichier_simule("photo.v2.png");
    assert_eq!(&image[..4], &[0xFF, 0xD8, 0xFF, 0xE0]);
    assert_eq!(image.len(), 4 + "Données d'image simulées...".len() + 100);
    assert!(image[image.len() - 100..].iter().all(|b| *b == 0));
    assert_eq!(donnees_fichier_simule("a.jpg")[..4], [0xFF, 0xD8, 0xFF, 0xE0]);
    let autre = donnees_fichier_simule("archive.tar.gz");
    let mut attendu = "Fichier binaire simulé: archive.tar.gz".as_bytes().to_vec();
    attendu.extend(vec![42u8; 50]);
    assert_eq!(autre, attendu);
    assert!(donnees_fichier_simule("txt.").starts_with("Fichier binaire simulé: ".as_bytes()));
    let c = ClientWebSocket::new("Bob".to_string(), "u".to_string()).unwrap();
    let m = c.fichier_simule("x.txt");
    assert_eq!(m.type_message, TypeMessageWs::Binaire);
    assert_eq!(m.utilisateur, Some("Bob".to_string()));
    assert_eq!(
        m.metadonnees,
        Some(Metadonnees::Fichier {
            nom_fichier: Some("x.txt".to_string()),
            taille: "Ceci est le contenu d'un fichier texte simulé.".len() as u64
        })
    );
}

#[test]
fn client_filtre_l_affichage() {
    let c = ClientWebSocket::new("Bob".to_string(), "u".to_string()).unwrap();
    assert!(!c.doit_afficher(&MessageWebSocket::nouveau_chat("Bob".to_string(), "x".to_string())));
    assert!(c.doit_afficher(&MessageWebSocket::nouveau_chat("Eve".to_string(), "x".to_string())));
    let mut sans = MessageWebSocket::nouveau_chat("Eve".to_string(), "x".to_string());
    sans.utilisateur = None;
    assert!(c.doit_afficher(&sans));
    let mut fichier = MessageWebSocket::nouveau_binaire("Eve".to_string(), vec![], None);
    assert!(c.doit_afficher(&fichier));
    fichier.utilisateur = None;
    assert!(!c.doit_afficher(&fichier));
    assert!(!c.doit_afficher(&MessageWebSocket::nouveau_binaire("Bob".to_string(), vec![], None)));
    assert!(c.doit_afficher(&MessageWebSocket::nouvelle_notification("n".to_string())));
    assert!(!c.doit_afficher(&MessageWebSocket::nouvelle_demande_utilisateurs()));
    assert!(c.doit_afficher(&MessageWebSocket::nouvelle_liste_utilisateurs(vec![])));
    let mut liste = MessageWebSocket::nouvelle_liste_utilisateurs(vec![]);
    liste.metadonnees = None;
    assert!(!c.doit_afficher(&liste));
    assert!(c.doit_afficher(&MessageWebSocket::nouveau_ping()));
}

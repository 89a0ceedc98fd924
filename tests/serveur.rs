use diffusion_chat::diffuseur::Reception;
use diffusion_chat::message::{doit_livrer, Metadonnees, MessageWebSocket, TypeMessageWs};
use diffusion_chat::registre::{ErreurInscription, Registre};
use diffusion_chat::nom::ErreurNom;
use diffusion_chat::serveur::{Authentification, EtatServeur, CAPACITE_FILE};

fn entrer(etat: &mut EtatServeur, nom: &str) -> u64 {
    match etat.authentifier(MessageWebSocket::nouvelle_connexion(nom.to_string()), "127.0.0.1:4000".to_string()) {
        Authentification::Acceptee { abonnement, nom: n, bienvenue, annonce, .. } => {
            assert_eq!(n, nom);
            assert_eq!(bienvenue.type_message, TypeMessageWs::Notification);
            assert_eq!(bienvenue.contenu, Some(format!("Bienvenue {} ! Vous êtes connecté au chat.", nom)));
            assert_eq!(annonce.type_message, TypeMessageWs::Notification);
            abonnement
        }
        Authentification::Refusee(m) => panic!("refused: {:?}", m.contenu),
    }
}

fn vider(etat: &mut EtatServeur, abonnement: u64) -> Vec<MessageWebSocket> {
    let mut v = Vec::new();
    loop {
        match etat.recevoir(abonnement) {
            Reception::Message(m) => v.push(m),
            Reception::Vide => return v,
            autre => panic!("unexpected {:?}", autre),
        }
    }
}

fn livres(etat: &mut EtatServeur, abonnement: u64, nom: &str) -> Vec<MessageWebSocket> {
    vider(etat, abonnement).into_iter().filter(|m| doit_livrer(m, nom)).collect()
}

#[test]
fn inscription_double_une_seule_reussit() {
    let mut r = Registre::new();
    assert!(r.ajouter_utilisateur("n1".to_string(), "a".to_string()).is_ok());
    assert!(r.ajouter_utilisateur("n2".to_string(), "b".to_string()).is_ok());
    assert_eq!(r.ajouter_utilisateur("n1".to_string(), "c".to_string()), Err(ErreurInscription::NomPris));
    assert_eq!(
        r.ajouter_utilisateur("n 3".to_string(), "c".to_string()),
        Err(ErreurInscription::NomInvalide(ErreurNom::ContientEspace))
    );
    assert_eq!(r.nombre_utilisateurs(), 2);
    let mut noms = r.obtenir_liste_utilisateurs();
    noms.sort();
    assert_eq!(noms, vec!["n1".to_string(), "n2".to_string()]);
    assert!(r.supprimer_utilisateur("n1"));
    assert!(!r.supprimer_utilisateur("n1"));
    let s = r.obtenir_statistiques();
    assert_eq!(s.utilisateurs_connectes, 1);
    assert_eq!(s.total_connexions, 2);
}

#[test]
fn diffusion_aux_abonnes_presents_sans_echo() {
    let mut etat = EtatServeur::new(CAPACITE_FILE);
    let a = entrer(&mut etat, "alice");
    let b = entrer(&mut etat, "bob");
    let c = entrer(&mut etat, "carol");
    for ab in [a, b, c] {
        vider(&mut etat, ab);
    }
    let chat = MessageWebSocket::nouveau_chat("ignored".to_string(), "salut".to_string());
    let reaction = etat.traiter_message_client("alice", chat);
    assert!(reaction.reponses.is_empty());
    assert!(!reaction.fermer);
    let publie = reaction.diffusion.expect("published");
    assert_eq!(publie.utilisateur, Some("alice".to_string()));
    assert_eq!(publie.contenu, Some("salut".to_string()));
    assert!(livres(&mut etat, a, "alice").is_empty());
    for (ab, nom) in [(b, "bob"), (c, "carol")] {
        let recus = livres(&mut etat, ab, nom);
        assert_eq!(recus.len(), 1);
        assert_eq!(recus[0].contenu, Some("salut".to_string()));
    }
    // A subscription made afterwards sees nothing of it.
    let tard = etat.abonner().unwrap();
    assert!(vider(&mut etat, tard).is_empty());
    // A server notification reaches every subscription, the late one too.
    etat.diffuser_message(&MessageWebSocket::nouvelle_notification("info".to_string()));
    for (ab, nom) in [(a, "alice"), (b, "bob"), (c, "carol"), (tard, "")] {
        assert_eq!(livres(&mut etat, ab, nom).len(), 1);
    }
}

#[test]
fn ping_recoit_un_seul_pong_pour_lui() {
    let mut etat = EtatServeur::new(CAPACITE_FILE);
    let a = entrer(&mut etat, "alice");
    let b = entrer(&mut etat, "bob");
    vider(&mut etat, a);
    vider(&mut etat, b);
    let ping = MessageWebSocket::nouveau_ping();
    let id = ping.id;
    let reaction = etat.traiter_message_client("alice", ping);
    assert!(reaction.diffusion.is_none());
    assert_eq!(reaction.reponses.len(), 1);
    assert_eq!(reaction.reponses[0].type_message, TypeMessageWs::Pong);
    assert_eq!(reaction.reponses[0].metadonnees, Some(Metadonnees::Reponse(id)));
    assert!(vider(&mut etat, a).is_empty());
    assert!(vider(&mut etat, b).is_empty());
}

#[test]
fn depart_retire_le_nom_et_previent_les_autres() {
    let mut etat = EtatServeur::new(CAPACITE_FILE);
    let a = entrer(&mut etat, "alice");
    let b = entrer(&mut etat, "bob");
    let c = entrer(&mut etat, "carol");
    for ab in [a, b, c] {
        vider(&mut etat, ab);
    }
    let annonce = etat.deconnecter("alice", a).expect("announced");
    assert_eq!(annonce.type_message, TypeMessageWs::Notification);
    assert_eq!(annonce.contenu, Some("alice a quitté le chat".to_string()));
    let mut noms = etat.liste_noms();
    noms.sort();
    assert_eq!(noms, vec!["bob".to_string(), "carol".to_string()]);
    for (ab, nom) in [(b, "bob"), (c, "carol")] {
        let recus = livres(&mut etat, ab, nom);
        assert_eq!(recus.len(), 1);
        assert_eq!(recus[0].contenu, Some("alice a quitté le chat".to_string()));
    }
    assert!(matches!(etat.recevoir(a), Reception::Inconnu));
    // Closing again does nothing.
    assert!(etat.deconnecter("alice", a).is_none());
    assert!(vider(&mut etat, b).is_empty());
}

#[test]
fn scenario_alice_puis_bob() {
    let mut etat = EtatServeur::new(CAPACITE_FILE);
    let a = entrer(&mut etat, "alice");
    etat.traiter_message_client("alice", MessageWebSocket::nouveau_chat("alice".to_string(), "hello room".to_string()));
    let b = entrer(&mut etat, "bob");
    let recus = livres(&mut etat, b, "bob");
    assert!(recus.iter().all(|m| m.contenu != Some("hello room".to_string())));
    etat.traiter_message_client("alice", MessageWebSocket::nouveau_chat("alice".to_string(), "encore".to_string()));
    let recus = livres(&mut etat, b, "bob");
    assert_eq!(recus.len(), 1);
    assert_eq!(recus[0].contenu, Some("encore".to_string()));
    assert_eq!(recus[0].utilisateur, Some("alice".to_string()));
    vider(&mut etat, a);
}

#[test]
fn abonne_lent_coupe_sans_bloquer_les_autres() {
    let mut etat = EtatServeur::new(CAPACITE_FILE);
    let lent = entrer(&mut etat, "lent");
    let a = entrer(&mut etat, "alice");
    let b = entrer(&mut etat, "bob");
    vider(&mut etat, a);
    vider(&mut etat, b);
    let mut recus_b = 0;
    for i in 0..10_000 {
        let auteur = if i % 2 == 0 { "alice" } else { "bob" };
        etat.traiter_message_client(auteur, MessageWebSocket::nouveau_chat(auteur.to_string(), format!("m{}", i)));
        livres(&mut etat, a, "alice");
        recus_b += livres(&mut etat, b, "bob").len();
    }
    assert_eq!(recus_b, 5_000);
    assert!(matches!(etat.recevoir(lent), Reception::Deborde));
    // The cut-off connection then closes.
    assert!(etat.deconnecter("lent", lent).is_some());
    assert_eq!(livres(&mut etat, a, "alice").len(), 1);
}

#[test]
fn commande_stats_compteurs() {
    let mut etat = EtatServeur::new(CAPACITE_FILE);
    let a = entrer(&mut etat, "alice");
    let b = entrer(&mut etat, "bob");
    etat.deconnecter("bob", b);
    let reaction = etat.traiter_message_client("alice", MessageWebSocket::nouveau_chat("alice".to_string(), "/stats".to_string()));
    assert_eq!(reaction.reponses.len(), 1);
    assert_eq!(
        reaction.reponses[0].contenu,
        Some("Statistiques du serveur:\nutilisateurs_connectes: 1\ntotal_connexions: 2\nutilisateurs:\n• alice".to_string())
    );
    let s = etat.statistiques();
    assert!(s.total_connexions >= s.utilisateurs_connectes);
    assert_eq!((s.utilisateurs_connectes, s.total_connexions), (1, 2));
    vider(&mut etat, a);
}

#[test]
fn commandes_aide_utilisateurs_inconnue_quitter() {
    let mut etat = EtatServeur::new(CAPACITE_FILE);
    let a = entrer(&mut etat, "alice");
    let _b = entrer(&mut etat, "bob");
    vider(&mut etat, a);
    let aide = etat.traiter_commande("/help");
    assert!(aide.reponses[0].contenu.as_ref().unwrap().starts_with("Commandes disponibles:"));
    let users = etat.traiter_commande("/users");
    assert_eq!(users.reponses[0].contenu, Some("Utilisateurs connectés (2):\n• alice\n• bob".to_string()));
    let inconnue = etat.traiter_commande("/dance now");
    assert_eq!(inconnue.reponses[0].contenu, Some("Commande inconnue: /dance. Tapez /help pour l'aide.".to_string()));
    assert!(inconnue.diffusion.is_none() && !inconnue.fermer);
    let quitter = etat.traiter_commande("/quit");
    assert!(quitter.fermer && quitter.reponses.is_empty());
    let ping = etat.traiter_commande("/ping  extra");
    assert_eq!(ping.diffusion.as_ref().map(|m| m.type_message.clone()), Some(TypeMessageWs::Ping));
    assert!(vider(&mut etat, a).iter().any(|m| m.type_message == TypeMessageWs::Ping));
    // Only the issuing client gets the answers.
    assert!(vider(&mut etat, a).is_empty());
}

#[test]
fn poignee_de_main_refusee() {
    let mut etat = EtatServeur::new(CAPACITE_FILE);
    let _a = entrer(&mut etat, "alice");
    let cas = [
        (MessageWebSocket::nouvelle_connexion("alice".to_string()), "Erreur de connexion: L'utilisateur 'alice' est déjà connecté"),
        (MessageWebSocket::nouvelle_connexion("".to_string()), "Erreur de connexion: Le nom d'utilisateur ne peut pas être vide"),
        (MessageWebSocket::nouvelle_connexion("a b".to_string()), "Erreur de connexion: Le nom d'utilisateur ne peut pas contenir d'espaces"),
        (MessageWebSocket::nouvelle_connexion("x".repeat(51)), "Erreur de connexion: Le nom d'utilisateur ne peut pas dépasser 50 octets"),
        (MessageWebSocket::nouveau_chat("z".to_string(), "hi".to_string()), "Connexion requise avant l'envoi de messages"),
        (MessageWebSocket::nouveau_ping(), "Connexion requise avant l'envoi de messages"),
    ];
    for (m, texte) in cas {
        match etat.authentifier(m, "peer".to_string()) {
            Authentification::Refusee(n) => {
                assert_eq!(n.type_message, TypeMessageWs::Notification);
                assert_eq!(n.contenu, Some(texte.to_string()));
            }
            autre => panic!("accepted {:?}", autre),
        }
    }
    let mut sans_nom = MessageWebSocket::nouvelle_connexion("q".to_string());
    sans_nom.utilisateur = None;
    match etat.authentifier(sans_nom, "peer".to_string()) {
        Authentification::Refusee(n) => assert_eq!(n.contenu, Some("Nom d'utilisateur requis pour la connexion".to_string())),
        autre => panic!("accepted {:?}", autre),
    }
    assert_eq!(etat.liste_noms(), vec!["alice".to_string()]);
    assert_eq!(etat.statistiques().total_connexions, 1);
}

#[test]
fn arrivee_annoncee_a_tous_y_compris_le_nouveau() {
    let mut etat = EtatServeur::new(CAPACITE_FILE);
    let a = entrer(&mut etat, "alice");
    vider(&mut etat, a);
    let b = entrer(&mut etat, "bob");
    let pour_a = livres(&mut etat, a, "alice");
    let pour_b = livres(&mut etat, b, "bob");
    let texte = Some("bob a rejoint le chat (2 utilisateurs connectés)".to_string());
    assert_eq!(pour_a.len(), 1);
    assert_eq!(pour_a[0].contenu, texte);
    assert_eq!(pour_b.len(), 1);
    assert_eq!(pour_b[0].contenu, texte);
}

#[test]
fn binaire_et_liste_utilisateurs() {
    let mut etat = EtatServeur::new(CAPACITE_FILE);
    let a = entrer(&mut etat, "alice");
    let b = entrer(&mut etat, "bob");
    vider(&mut etat, a);
    vider(&mut etat, b);
    let envoi = MessageWebSocket::nouveau_binaire("mallory".to_string(), vec![1, 2, 3], Some("f.txt".to_string()));
    let reaction = etat.traiter_message_client("alice", envoi);
    let publie = reaction.diffusion.unwrap();
    assert_eq!(publie.utilisateur, Some("alice".to_string()));
    assert_eq!(publie.metadonnees, Some(Metadonnees::Fichier { nom_fichier: Some("f.txt".to_string()), taille: 3 }));
    assert_eq!(livres(&mut etat, b, "bob").len(), 1);
    assert!(livres(&mut etat, a, "alice").is_empty());
    let demande = etat.traiter_message_client("bob", MessageWebSocket::nouvelle_demande_utilisateurs());
    assert_eq!(demande.reponses[0].type_message, TypeMessageWs::ListeUtilisateurs);
    assert_eq!(
        demande.reponses[0].metadonnees,
        Some(Metadonnees::Utilisateurs(vec!["alice".to_string(), "bob".to_string()]))
    );
    let depart = etat.traiter_message_client("bob", MessageWebSocket::nouvelle_deconnexion("bob".to_string()));
    assert!(depart.fermer);
    let autre = etat.traiter_message_client("bob", MessageWebSocket::nouvelle_notification("x".to_string()));
    assert!(autre.reponses.is_empty() && autre.diffusion.is_none() && !autre.fermer);
}

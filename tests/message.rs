use diffusion_chat::codec::EtatTrame;
use diffusion_chat::message::{doit_livrer, Metadonnees, MessageWebSocket, TypeMessageWs};

fn relire(m: &MessageWebSocket) -> MessageWebSocket {
    let trame = m.vers_bytes().expect("frame");
    match MessageWebSocket::depuis_bytes(&trame) {
        EtatTrame::Complet { message, consommes } => {
            assert_eq!(consommes, trame.len());
            message
        }
        autre => panic!("unexpected {:?}", autre),
    }
}

#[test]
fn test_creation_message_chat() {
    let message = MessageWebSocket::nouveau_chat("Alice".to_string(), "Hello World!".to_string());
    assert_eq!(message.type_message, TypeMessageWs::Chat);
    assert_eq!(message.utilisateur, Some("Alice".to_string()));
    assert_eq!(message.contenu, Some("Hello World!".to_string()));
    assert!(!message.est_binaire());
}

#[test]
fn test_creation_message_binaire() {
    let donnees = vec![1, 2, 3, 4, 5];
    let message = MessageWebSocket::nouveau_binaire("Bob".to_string(), donnees.clone(), Some("test.bin".to_string()));
    assert_eq!(message.type_message, TypeMessageWs::Binaire);
    assert_eq!(message.utilisateur, Some("Bob".to_string()));
    assert_eq!(message.donnees_binaires, Some(donnees));
    assert!(message.est_binaire());
    assert_eq!(
        message.metadonnees,
        Some(Metadonnees::Fichier { nom_fichier: Some("test.bin".to_string()), taille: 5 })
    );
}

#[test]
fn lib_test_serialisation_deserialisation() {
    let message = MessageWebSocket::nouveau_chat("Charlie".to_string(), "Test message".to_string());
    let message_deserialise = relire(&message);
    assert_eq!(message.type_message, message_deserialise.type_message);
    assert_eq!(message.utilisateur, message_deserialise.utilisateur);
    assert_eq!(message.contenu, message_deserialise.contenu);
}

#[test]
fn constructeurs_de_chaque_type() {
    let n = MessageWebSocket::nouvelle_notification("salut".to_string());
    assert_eq!(n.type_message, TypeMessageWs::Notification);
    assert_eq!(n.utilisateur, None);
    assert_eq!(n.contenu, Some("salut".to_string()));
    let c = MessageWebSocket::nouvelle_connexion("dora".to_string());
    assert_eq!(c.type_message, TypeMessageWs::Connexion);
    assert_eq!(c.utilisateur, Some("dora".to_string()));
    let d = MessageWebSocket::nouvelle_deconnexion("dora".to_string());
    assert_eq!(d.type_message, TypeMessageWs::Deconnexion);
    let l = MessageWebSocket::nouvelle_liste_utilisateurs(vec!["a".to_string(), "b".to_string()]);
    assert_eq!(l.metadonnees, Some(Metadonnees::Utilisateurs(vec!["a".to_string(), "b".to_string()])));
    let p = MessageWebSocket::nouveau_ping();
    let q = MessageWebSocket::nouveau_pong(p.id);
    assert_eq!(q.type_message, TypeMessageWs::Pong);
    assert_eq!(q.metadonnees, Some(Metadonnees::Reponse(p.id)));
    assert_ne!(p.id, q.id);
    let r = MessageWebSocket::nouvelle_demande_utilisateurs();
    assert_eq!(r.type_message, TypeMessageWs::DemandeUtilisateurs);
    assert!(!r.est_binaire());
}

#[test]
fn pas_d_echo_sauf_notifications() {
    let chat = MessageWebSocket::nouveau_chat("alice".to_string(), "x".to_string());
    assert!(!doit_livrer(&chat, "alice"));
    assert!(doit_livrer(&chat, "bob"));
    let bin = MessageWebSocket::nouveau_binaire("alice".to_string(), vec![], None);
    assert!(!doit_livrer(&bin, "alice"));
    assert!(doit_livrer(&bin, "alicia"));
    let mut notif = MessageWebSocket::nouvelle_notification("about alice".to_string());
    assert!(doit_livrer(&notif, "alice"));
    notif.utilisateur = Some("alice".to_string());
    assert!(doit_livrer(&notif, "alice"));
    let dep = MessageWebSocket::nouvelle_deconnexion("alice".to_string());
    assert!(doit_livrer(&dep, "alice"));
}

#[test]
fn texte_affiche() {
    let mut m = MessageWebSocket::nouveau_chat("Alice".to_string(), "Hello".to_string());
    m.timestamp = (13 * 3600 + 5 * 60 + 9) * 1000 + 999;
    assert_eq!(m.vers_texte(), "[13:05:09] Alice: Hello");
    m.utilisateur = None;
    m.contenu = None;
    assert_eq!(m.vers_texte(), "[13:05:09] Anonyme: ");
    let mut b = MessageWebSocket::nouveau_binaire("Bob".to_string(), vec![1, 2, 3], Some("a.bin".to_string()));
    b.timestamp = 86_400_000 + 1000;
    assert_eq!(b.vers_texte(), "[00:00:01] Bob a envoyé un fichier: a.bin (3 bytes)");
    let mut n = MessageWebSocket::nouvelle_notification("salut".to_string());
    n.timestamp = 0;
    assert_eq!(n.vers_texte(), "[00:00:00] SYSTÈME: salut");
    let mut c = MessageWebSocket::nouvelle_connexion("Zed".to_string());
    c.timestamp = 0;
    assert_eq!(c.vers_texte(), "[00:00:00] Zed s'est connecté");
    let mut d = MessageWebSocket::nouvelle_deconnexion("Zed".to_string());
    d.timestamp = 0;
    assert_eq!(d.vers_texte(), "[00:00:00] Un utilisateur s'est déconnecté");
    let mut p = MessageWebSocket::nouveau_ping();
    p.timestamp = 0;
    assert_eq!(p.vers_texte(), "[00:00:00] Ping");
    let mut l = MessageWebSocket::nouvelle_liste_utilisateurs(vec![]);
    l.timestamp = 0;
    assert_eq!(l.vers_texte(), "[00:00:00] Utilisateurs connectés");
}

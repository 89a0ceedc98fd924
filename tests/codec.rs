use diffusion_chat::codec::{decoder_message, encoder_message, EtatTrame};
use diffusion_chat::message::{Metadonnees, MessageWebSocket, TypeMessageWs};

fn aller_retour(m: &MessageWebSocket) {
    let trame = m.vers_bytes().expect("frame");
    let charge = encoder_message(m);
    assert_eq!(trame.len(), charge.len() + 4);
    assert_eq!(&trame[0..4], &(charge.len() as u32).to_be_bytes());
    assert_eq!(decoder_message(&charge).as_ref(), Some(m));
    assert_eq!(m.vers_message_websocket().as_ref(), Some(&charge));
    assert_eq!(MessageWebSocket::depuis_message_websocket(&charge).as_ref(), Some(m));
    match MessageWebSocket::depuis_bytes(&trame) {
        EtatTrame::Complet { message, consommes } => {
            assert_eq!(&message, m);
            assert_eq!(consommes, trame.len());
        }
        autre => panic!("unexpected {:?}", autre),
    }
}

#[test]
fn aller_retour_chaque_type() {
    aller_retour(&MessageWebSocket::nouveau_chat("alice".to_string(), "hello room".to_string()));
    aller_retour(&MessageWebSocket::nouveau_binaire("bob".to_string(), vec![], None));
    aller_retour(&MessageWebSocket::nouveau_binaire("bob".to_string(), vec![0, 255, 7], Some("f.bin".to_string())));
    aller_retour(&MessageWebSocket::nouvelle_connexion("carl".to_string()));
    aller_retour(&MessageWebSocket::nouvelle_deconnexion("carl".to_string()));
    aller_retour(&MessageWebSocket::nouvelle_notification("système: ünïcödé ✓".to_string()));
    aller_retour(&MessageWebSocket::nouvelle_demande_utilisateurs());
    aller_retour(&MessageWebSocket::nouvelle_liste_utilisateurs(vec![]));
    aller_retour(&MessageWebSocket::nouvelle_liste_utilisateurs(vec!["a".to_string(), "".to_string(), "ccc".to_string()]));
    aller_retour(&MessageWebSocket::nouveau_ping());
    aller_retour(&MessageWebSocket::nouveau_pong(u128::MAX));
    let mut m = MessageWebSocket::nouveau_chat("x".to_string(), "".to_string());
    m.id = 0x0102_0304_0506_0708_090a_0b0c_0d0e_0f10;
    m.timestamp = u64::MAX;
    aller_retour(&m);
}

#[test]
fn octets_exacts_d_un_ping() {
    let mut m = MessageWebSocket::nouveau_ping();
    m.id = 1;
    m.timestamp = 2;
    let charge = encoder_message(&m);
    let mut attendu = vec![7u8];
    attendu.extend_from_slice(&1u128.to_be_bytes());
    attendu.extend_from_slice(&2u64.to_be_bytes());
    attendu.extend_from_slice(&[0, 0, 0, 0]);
    assert_eq!(charge, attendu);
    assert_eq!(m.type_message, TypeMessageWs::Ping);
}

#[test]
fn trame_partielle_demande_plus() {
    let m = MessageWebSocket::nouveau_binaire("eve".to_string(), vec![9; 40], Some("n".to_string()));
    let trame = m.vers_bytes().unwrap();
    for k in 0..trame.len() {
        assert!(matches!(MessageWebSocket::depuis_bytes(&trame[..k]), EtatTrame::Incomplet), "prefix {}", k);
    }
}

#[test]
fn trame_suivie_d_autres_octets() {
    let a = MessageWebSocket::nouveau_chat("a".to_string(), "un".to_string());
    let b = MessageWebSocket::nouveau_chat("b".to_string(), "deux".to_string());
    let mut tampon = a.vers_bytes().unwrap();
    let la = tampon.len();
    tampon.extend(b.vers_bytes().unwrap());
    match MessageWebSocket::depuis_bytes(&tampon) {
        EtatTrame::Complet { message, consommes } => {
            assert_eq!(message, a);
            assert_eq!(consommes, la);
            match MessageWebSocket::depuis_bytes(&tampon[consommes..]) {
                EtatTrame::Complet { message, .. } => assert_eq!(message, b),
                autre => panic!("unexpected {:?}", autre),
            }
        }
        autre => panic!("unexpected {:?}", autre),
    }
}

#[test]
fn trame_invalide_est_sautee() {
    // A complete frame of three bytes that hold no envelope.
    let tampon = vec![0, 0, 0, 3, 1, 2, 3, 9];
    match MessageWebSocket::depuis_bytes(&tampon) {
        EtatTrame::Invalide { consommes } => assert_eq!(consommes, 7),
        autre => panic!("unexpected {:?}", autre),
    }
    // Unknown kind.
    let mut m = encoder_message(&MessageWebSocket::nouveau_ping());
    m[0] = 42;
    assert_eq!(decoder_message(&m), None);
    // Trailing byte inside the payload.
    let mut m = encoder_message(&MessageWebSocket::nouveau_ping());
    m.push(0);
    assert_eq!(decoder_message(&m), None);
    // Text that is not UTF-8.
    let mut m = encoder_message(&MessageWebSocket::nouvelle_notification("ab".to_string()));
    let n = m.len();
    m[n - 3] = 0xff;
    assert_eq!(decoder_message(&m), None);
    assert_eq!(decoder_message(&[]), None);
}

#[test]
fn metadonnees_fichier_sans_nom() {
    let m = MessageWebSocket::nouveau_binaire("z".to_string(), vec![1], None);
    assert_eq!(m.metadonnees, Some(Metadonnees::Fichier { nom_fichier: None, taille: 1 }));
    aller_retour(&m);
}

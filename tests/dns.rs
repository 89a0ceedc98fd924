use diffusion_chat::dns::{
    interpreter_reponse, repondre, DnsAnswer, DnsHeader, DnsMessage, DnsQuestion, ErreurDns,
    Resolution, DNS_TYPE_A,
};

#[test]
fn entete_nouvelle() {
    let q = DnsHeader::new(0x1234, false);
    assert_eq!(q.flags, 0x0100);
    assert_eq!(q.id, 0x1234);
    assert_eq!((q.qdcount, q.ancount, q.nscount, q.arcount), (0, 0, 0, 0));
    assert_eq!(DnsHeader::new(7, true).flags, 0x8100);
}

#[test]
fn entete_octets_aller_retour() {
    let h = DnsHeader { id: 0xabcd, flags: 0x8183, qdcount: 1, ancount: 2, nscount: 3, arcount: 4 };
    let b = h.to_bytes();
    assert_eq!(b, vec![0xab, 0xcd, 0x81, 0x83, 0, 1, 0, 2, 0, 3, 0, 4]);
    assert_eq!(DnsHeader::from_bytes(&b), Ok(h));
    assert_eq!(DnsHeader::from_bytes(&b[..11]), Err(ErreurDns::DonneesInsuffisantes));
}

#[test]
fn nom_de_domaine_encode() {
    assert_eq!(
        DnsQuestion::encode_domain_name("www.exemple.com"),
        vec![3, b'w', b'w', b'w', 7, b'e', b'x', b'e', b'm', b'p', b'l', b'e', 3, b'c', b'o', b'm', 0]
    );
    assert_eq!(DnsQuestion::encode_domain_name(""), vec![0]);
    assert_eq!(DnsQuestion::encode_domain_name("a..b."), vec![1, b'a', 1, b'b', 0]);
}

#[test]
fn nom_de_domaine_decode() {
    let b = DnsQuestion::encode_domain_name("test.local");
    let mut data = vec![9, 9];
    data.extend(&b);
    assert_eq!(DnsQuestion::decode_domain_name(&data, 2), Ok(("test.local".to_string(), data.len())));
    assert_eq!(DnsQuestion::decode_domain_name(&[0], 0), Ok((String::new(), 1)));
    assert_eq!(DnsQuestion::decode_domain_name(&[3, b'a', b'b'], 0), Err(ErreurDns::DonneesInsuffisantes));
    assert_eq!(DnsQuestion::decode_domain_name(&[1, b'a'], 0), Err(ErreurDns::DonneesInsuffisantes));
    assert_eq!(DnsQuestion::decode_domain_name(&[1, b'a', 0], 5), Err(ErreurDns::DonneesInsuffisantes));
    assert_eq!(DnsQuestion::decode_domain_name(&[2, 0xff, b'x', 0], 0), Ok(("\u{fffd}x".to_string(), 4)));
}

#[test]
fn requete_et_reponse() {
    let q = DnsMessage::new_query(42, "exemple.com".to_string(), DNS_TYPE_A);
    assert_eq!(q.header.qdcount, 1);
    assert_eq!(q.header.flags, 0x0100);
    assert_eq!(q.questions.len(), 1);
    assert_eq!(q.questions[0].qclass, 1);
    let octets = q.to_bytes();
    let mut attendu = vec![0, 42, 0x01, 0x00, 0, 1, 0, 0, 0, 0, 0, 0];
    attendu.extend(DnsQuestion::encode_domain_name("exemple.com"));
    attendu.extend(&[0, 1, 0, 1]);
    assert_eq!(octets, attendu);
    let mut r = DnsMessage::new_response(&q);
    assert_eq!(r.header.id, 42);
    assert_eq!(r.header.flags, 0x8100);
    assert_eq!(r.header.qdcount, 1);
    assert_eq!(r.questions, q.questions);
    assert!(r.answers.is_empty());
    let a = DnsAnswer::new_a_record("exemple.com".to_string(), [192, 168, 1, 100], 300);
    assert_eq!((a.rtype, a.rclass, a.ttl, a.rdlength), (1, 1, 300, 4));
    assert_eq!(a.rdata, vec![192, 168, 1, 100]);
    let ab = a.to_bytes();
    let mut attendu_a = DnsQuestion::encode_domain_name("exemple.com");
    attendu_a.extend(&[0, 1, 0, 1, 0, 0, 1, 44, 0, 4, 192, 168, 1, 100]);
    assert_eq!(ab, attendu_a);
    r.answers.push(a);
    r.header.ancount = 1;
    let rb = r.to_bytes();
    assert!(rb.ends_with(&attendu_a));
    assert_eq!(rb.len(), 12 + q.questions[0].to_bytes().len() + attendu_a.len());
}

fn table() -> Vec<(String, [u8; 4])> {
    vec![
        ("exemple.com".to_string(), [192, 168, 1, 100]),
        ("test.local".to_string(), [127, 0, 0, 1]),
    ]
}

#[test]
fn message_octets_aller_retour() {
    let q = DnsMessage::new_query(7, "test.local".to_string(), DNS_TYPE_A);
    let lu = DnsMessage::from_bytes(&q.to_bytes()).unwrap();
    assert_eq!(lu.header, q.header);
    assert_eq!(lu.questions, q.questions);
    assert!(lu.answers.is_empty());
    let r = repondre(&lu, &table());
    let relu = DnsMessage::from_bytes(&r.to_bytes()).unwrap();
    assert_eq!(relu.header, r.header);
    assert_eq!(relu.answers, r.answers);
    assert_eq!(DnsMessage::from_bytes(&[0; 11]).err(), Some(ErreurDns::DonneesInsuffisantes));
}

#[test]
fn message_tronque() {
    let q = DnsMessage::new_query(7, "test.local".to_string(), DNS_TYPE_A);
    let b = q.to_bytes();
    // The question's type and class are cut off: an error.
    assert_eq!(DnsMessage::from_bytes(&b[..b.len() - 1]).err(), Some(ErreurDns::DonneesInsuffisantes));
    // An answer whose data is cut off is left out.
    let mut r = repondre(&q, &table());
    assert_eq!(r.answers.len(), 1);
    r.header.ancount = 2;
    let rb = r.to_bytes();
    let lu = DnsMessage::from_bytes(&rb[..rb.len() - 2]).unwrap();
    assert!(lu.answers.is_empty());
    let lu = DnsMessage::from_bytes(&rb).unwrap();
    assert_eq!(lu.answers.len(), 1);
}

#[test]
fn serveur_repond_selon_la_table() {
    let mut q = DnsMessage::new_query(9, "exemple.com".to_string(), DNS_TYPE_A);
    q.questions.push(DnsQuestion::new("inconnu.org".to_string(), DNS_TYPE_A));
    q.questions.push(DnsQuestion::new("test.local".to_string(), 28));
    q.header.qdcount = 3;
    let r = repondre(&q, &table());
    assert_eq!(r.header.id, 9);
    assert_eq!(r.header.flags, 0x8100 | 0x0003 | 0x0004);
    assert_eq!(r.header.ancount, 1);
    assert_eq!(r.answers[0].name, "exemple.com");
    assert_eq!(r.answers[0].rdata, vec![192, 168, 1, 100]);
    assert_eq!(r.answers[0].ttl, 300);
}

#[test]
fn client_interprete_la_reponse() {
    let q = DnsMessage::new_query(11, "exemple.com".to_string(), DNS_TYPE_A);
    let r = repondre(&q, &table());
    assert_eq!(
        interpreter_reponse(&r, 11),
        Resolution::Adresse { ip: "192.168.1.100".to_string(), ttl: 300 }
    );
    assert_eq!(interpreter_reponse(&r, 12), Resolution::IdIncorrect { attendu: 12, recu: 11 });
    let inconnu = repondre(&DnsMessage::new_query(1, "x.y".to_string(), DNS_TYPE_A), &table());
    assert_eq!(interpreter_reponse(&inconnu, 1), Resolution::DomaineInexistant);
    let aaaa = repondre(&DnsMessage::new_query(1, "x.y".to_string(), 28), &table());
    assert_eq!(interpreter_reponse(&aaaa, 1), Resolution::NonSupporte);
    let mut vide = DnsMessage::new_response(&q);
    assert_eq!(interpreter_reponse(&vide, 11), Resolution::AucuneReponse);
    vide.answers.push(DnsAnswer {
        name: "exemple.com".to_string(),
        rtype: 5,
        rclass: 1,
        ttl: 1,
        rdlength: 0,
        rdata: vec![],
    });
    assert_eq!(interpreter_reponse(&vide, 11), Resolution::AucuneAdresseIpv4);
    vide.header.flags |= 2;
    assert_eq!(interpreter_reponse(&vide, 11), Resolution::ErreurServeur(2));
}

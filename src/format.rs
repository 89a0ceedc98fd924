use vstd::prelude::*;
use vstd::utf8::{decode_utf8, encode_utf8, valid_utf8};
use crate::message::{MessageVue, MetaVue, TypeMessageWs};

verus! {

broadcast use vstd::seq::group_seq_axioms;

// Byte layout of an envelope. Integers are big-endian; a string is its
// UTF-8 length on four bytes followed by its UTF-8 bytes; an optional
// field is a presence byte (0 or 1) followed by the field.

pub open spec fn octets_u32(x: u32) -> Seq<u8> {
    seq![(x >> 24u32) as u8, (x >> 16u32) as u8, (x >> 8u32) as u8, x as u8]
}

pub open spec fn u32_de(a: u8, b: u8, c: u8, d: u8) -> u32 {
    ((a as u32) << 24u32) | ((b as u32) << 16u32) | ((c as u32) << 8u32) | (d as u32)
}

pub open spec fn octets_u64(x: u64) -> Seq<u8> {
    octets_u32((x >> 32u64) as u32) + octets_u32(x as u32)
}

pub open spec fn u64_de(h: u32, l: u32) -> u64 {
    ((h as u64) << 32u64) | (l as u64)
}

pub open spec fn octets_u128(x: u128) -> Seq<u8> {
    octets_u64((x >> 64u128) as u64) + octets_u64(x as u64)
}

pub open spec fn u128_de(h: u64, l: u64) -> u128 {
    ((h as u128) << 64u128) | (l as u128)
}

pub open spec fn code_type(t: TypeMessageWs) -> u8 {
    match t {
        TypeMessageWs::Chat => 0,
        TypeMessageWs::Binaire => 1,
        TypeMessageWs::Connexion => 2,
        TypeMessageWs::Deconnexion => 3,
        TypeMessageWs::Notification => 4,
        TypeMessageWs::DemandeUtilisateurs => 5,
        TypeMessageWs::ListeUtilisateurs => 6,
        TypeMessageWs::Ping => 7,
        TypeMessageWs::Pong => 8,
    }
}

pub open spec fn type_de_code(c: u8) -> Option<TypeMessageWs> {
    if c == 0 {
        Some(TypeMessageWs::Chat)
    } else if c == 1 {
        Some(TypeMessageWs::Binaire)
    } else if c == 2 {
        Some(TypeMessageWs::Connexion)
    } else if c == 3 {
        Some(TypeMessageWs::Deconnexion)
    } else if c == 4 {
        Some(TypeMessageWs::Notification)
    } else if c == 5 {
        Some(TypeMessageWs::DemandeUtilisateurs)
    } else if c == 6 {
        Some(TypeMessageWs::ListeUtilisateurs)
    } else if c == 7 {
        Some(TypeMessageWs::Ping)
    } else if c == 8 {
        Some(TypeMessageWs::Pong)
    } else {
        None
    }
}

pub open spec fn enc_octets(o: Seq<u8>) -> Seq<u8> {
    octets_u32(o.len() as u32) + o
}

pub open spec fn enc_chaine(s: Seq<char>) -> Seq<u8> {
    enc_octets(encode_utf8(s))
}

pub open spec fn enc_opt_chaine(o: Option<Seq<char>>) -> Seq<u8> {
    match o {
        None => seq![0u8],
        Some(s) => seq![1u8] + enc_chaine(s),
    }
}

pub open spec fn enc_opt_octets(o: Option<Seq<u8>>) -> Seq<u8> {
    match o {
        None => seq![0u8],
        Some(d) => seq![1u8] + enc_octets(d),
    }
}

pub open spec fn enc_liste(l: Seq<Seq<char>>) -> Seq<u8>
    decreases l.len(),
{
    if l.len() == 0 {
        Seq::empty()
    } else {
        enc_liste(l.drop_last()) + enc_chaine(l.last())
    }
}

pub open spec fn enc_meta(m: MetaVue) -> Seq<u8> {
    match m {
        MetaVue::Fichier(nom, taille) => seq![0u8] + enc_opt_chaine(nom) + octets_u64(taille),
        MetaVue::Utilisateurs(l) => seq![1u8] + octets_u32(l.len() as u32) + enc_liste(l),
        MetaVue::Reponse(id) => seq![2u8] + octets_u128(id),
    }
}

pub open spec fn enc_opt_meta(o: Option<MetaVue>) -> Seq<u8> {
    match o {
        None => seq![0u8],
        Some(m) => seq![1u8] + enc_meta(m),
    }
}

/// The payload bytes of an envelope.
pub open spec fn enc_message(m: MessageVue) -> Seq<u8> {
    seq![code_type(m.type_message)] + octets_u128(m.id) + octets_u64(m.timestamp)
        + enc_opt_chaine(m.utilisateur) + enc_opt_chaine(m.contenu) + enc_opt_octets(
        m.donnees_binaires,
    ) + enc_opt_meta(m.metadonnees)
}

pub open spec fn chaine_encodable(s: Seq<char>) -> bool {
    encode_utf8(s).len() <= u32::MAX
}

pub open spec fn opt_chaine_encodable(o: Option<Seq<char>>) -> bool {
    match o {
        None => true,
        Some(s) => chaine_encodable(s),
    }
}

pub open spec fn meta_encodable(o: Option<MetaVue>) -> bool {
    match o {
        None => true,
        Some(MetaVue::Fichier(nom, _)) => opt_chaine_encodable(nom),
        Some(MetaVue::Utilisateurs(l)) => l.len() <= u32::MAX && forall|i: int|
            0 <= i < l.len() ==> chaine_encodable(#[trigger] l[i]),
        Some(MetaVue::Reponse(_)) => true,
    }
}

/// Every length in the envelope fits the four bytes that carry it.
pub open spec fn encodable(m: MessageVue) -> bool {
    &&& opt_chaine_encodable(m.utilisateur)
    &&& opt_chaine_encodable(m.contenu)
    &&& match m.donnees_binaires {
        None => true,
        Some(d) => d.len() <= u32::MAX,
    }
    &&& meta_encodable(m.metadonnees)
}

// Readers: each takes the buffer and a position and gives the value read
// and the position after it, or nothing when the bytes do not fit.

pub open spec fn lire_u8(b: Seq<u8>, p: int) -> Option<(u8, int)> {
    if 0 <= p < b.len() {
        Some((b[p], p + 1))
    } else {
        None
    }
}

pub open spec fn u32_a(b: Seq<u8>, p: int) -> u32 {
    u32_de(b[p], b[p + 1], b[p + 2], b[p + 3])
}

pub open spec fn u64_a(b: Seq<u8>, p: int) -> u64 {
    u64_de(u32_a(b, p), u32_a(b, p + 4))
}

pub open spec fn u128_a(b: Seq<u8>, p: int) -> u128 {
    u128_de(u64_a(b, p), u64_a(b, p + 8))
}

pub open spec fn lire_u32(b: Seq<u8>, p: int) -> Option<(u32, int)> {
    if 0 <= p && p + 4 <= b.len() {
        Some((u32_a(b, p), p + 4))
    } else {
        None
    }
}

pub open spec fn lire_u64(b: Seq<u8>, p: int) -> Option<(u64, int)> {
    if 0 <= p && p + 8 <= b.len() {
        Some((u64_a(b, p), p + 8))
    } else {
        None
    }
}

pub open spec fn lire_u128(b: Seq<u8>, p: int) -> Option<(u128, int)> {
    if 0 <= p && p + 16 <= b.len() {
        Some((u128_a(b, p), p + 16))
    } else {
        None
    }
}

pub open spec fn lire_octets(b: Seq<u8>, p: int) -> Option<(Seq<u8>, int)> {
    match lire_u32(b, p) {
        Some((n, q)) => if q + n <= b.len() {
            Some((b.subrange(q, q + n), q + n))
        } else {
            None
        },
        None => None,
    }
}

pub open spec fn lire_chaine(b: Seq<u8>, p: int) -> Option<(Seq<char>, int)> {
    match lire_octets(b, p) {
        Some((o, q)) => if valid_utf8(o) {
            Some((decode_utf8(o), q))
        } else {
            None
        },
        None => None,
    }
}

pub open spec fn lire_opt_chaine(b: Seq<u8>, p: int) -> Option<(Option<Seq<char>>, int)> {
    match lire_u8(b, p) {
        Some((0u8, q)) => Some((None, q)),
        Some((1u8, q)) => match lire_chaine(b, q) {
            Some((s, r)) => Some((Some(s), r)),
            None => None,
        },
        _ => None,
    }
}

pub open spec fn lire_opt_octets(b: Seq<u8>, p: int) -> Option<(Option<Seq<u8>>, int)> {
    match lire_u8(b, p) {
        Some((0u8, q)) => Some((None, q)),
        Some((1u8, q)) => match lire_octets(b, q) {
            Some((s, r)) => Some((Some(s), r)),
            None => None,
        },
        _ => None,
    }
}

pub open spec fn lire_liste(b: Seq<u8>, p: int, n: nat) -> Option<(Seq<Seq<char>>, int)>
    decreases n,
{
    if n == 0 {
        Some((Seq::empty(), p))
    } else {
        match lire_liste(b, p, (n - 1) as nat) {
            Some((l, q)) => match lire_chaine(b, q) {
                Some((s, r)) => Some((l.push(s), r)),
                None => None,
            },
            None => None,
        }
    }
}

pub open spec fn lire_meta(b: Seq<u8>, p: int) -> Option<(MetaVue, int)> {
    match lire_u8(b, p) {
        Some((0u8, q)) => match lire_opt_chaine(b, q) {
            Some((nom, r)) => match lire_u64(b, r) {
                Some((t, s)) => Some((MetaVue::Fichier(nom, t), s)),
                None => None,
            },
            None => None,
        },
        Some((1u8, q)) => match lire_u32(b, q) {
            Some((n, r)) => match lire_liste(b, r, n as nat) {
                Some((l, s)) => Some((MetaVue::Utilisateurs(l), s)),
                None => None,
            },
            None => None,
        },
        Some((2u8, q)) => match lire_u128(b, q) {
            Some((id, r)) => Some((MetaVue::Reponse(id), r)),
            None => None,
        },
        _ => None,
    }
}

pub open spec fn lire_opt_meta(b: Seq<u8>, p: int) -> Option<(Option<MetaVue>, int)> {
    match lire_u8(b, p) {
        Some((0u8, q)) => Some((None, q)),
        Some((1u8, q)) => match lire_meta(b, q) {
            Some((m, r)) => Some((Some(m), r)),
            None => None,
        },
        _ => None,
    }
}

/// Fixed-size head of an envelope: kind, identifier and time.
pub open spec fn lire_entete(b: Seq<u8>) -> Option<(TypeMessageWs, u128, u64)> {
    if b.len() >= 25 && type_de_code(b[0]) is Some {
        Some((type_de_code(b[0])->0, u128_a(b, 1), u64_a(b, 17)))
    } else {
        None
    }
}

/// The envelope that a payload holds, if it holds exactly one.
pub open spec fn lire_message(b: Seq<u8>) -> Option<MessageVue> {
    match lire_entete(b) {
        None => None,
        Some((t, id, ts)) => match lire_opt_chaine(b, 25) {
            None => None,
            Some((u, pos_u)) => match lire_opt_chaine(b, pos_u) {
                None => None,
                Some((c, pos_c)) => match lire_opt_octets(b, pos_c) {
                    None => None,
                    Some((d, pos_d)) => match lire_opt_meta(b, pos_d) {
                        None => None,
                        Some((m, pos_m)) => if pos_m == b.len() {
                            Some(
                                MessageVue {
                                    id,
                                    type_message: t,
                                    utilisateur: u,
                                    contenu: c,
                                    donnees_binaires: d,
                                    metadonnees: m,
                                    timestamp: ts,
                                },
                            )
                        } else {
                            None
                        },
                    },
                },
            },
        },
    }
}

/// `e` stands in `b` from position `p` on.
pub open spec fn present(b: Seq<u8>, p: int, e: Seq<u8>) -> bool {
    0 <= p && p + e.len() <= b.len() && b.subrange(p, p + e.len()) == e
}

proof fn lemme_present_concat(b: Seq<u8>, p: int, e1: Seq<u8>, e2: Seq<u8>)
    requires
        present(b, p, e1 + e2),
    ensures
        present(b, p, e1),
        present(b, p + e1.len(), e2),
{
    assert(b.subrange(p, p + e1.len()) =~= (e1 + e2).subrange(0, e1.len() as int));
    assert((e1 + e2).subrange(0, e1.len() as int) =~= e1);
    assert(b.subrange(p + e1.len(), p + e1.len() + e2.len()) =~= (e1 + e2).subrange(
        e1.len() as int,
        (e1.len() + e2.len()) as int,
    ));
    assert((e1 + e2).subrange(e1.len() as int, (e1.len() + e2.len()) as int) =~= e2);
}

proof fn lemme_present_element(b: Seq<u8>, p: int, e: Seq<u8>, k: int)
    requires
        present(b, p, e),
        0 <= k < e.len(),
    ensures
        b[p + k] == e[k],
{
    assert(b.subrange(p, p + e.len())[k] == b[p + k]);
}

pub proof fn lemme_u32(x: u32)
    ensures
        u32_de(octets_u32(x)[0], octets_u32(x)[1], octets_u32(x)[2], octets_u32(x)[3]) == x,
{
    assert(((((x >> 24u32) as u8) as u32) << 24u32) | ((((x >> 16u32) as u8) as u32) << 16u32)
        | ((((x >> 8u32) as u8) as u32) << 8u32) | ((x as u8) as u32) == x) by (bit_vector);
}

proof fn lemme_lire_u32(b: Seq<u8>, p: int, x: u32)
    requires
        present(b, p, octets_u32(x)),
    ensures
        lire_u32(b, p) == Some((x, p + 4)),
{
    let e = octets_u32(x);
    lemme_present_element(b, p, e, 0);
    lemme_present_element(b, p, e, 1);
    lemme_present_element(b, p, e, 2);
    lemme_present_element(b, p, e, 3);
    lemme_u32(x);
}

proof fn lemme_lire_u64(b: Seq<u8>, p: int, x: u64)
    requires
        present(b, p, octets_u64(x)),
    ensures
        lire_u64(b, p) == Some((x, p + 8)),
{
    lemme_present_concat(b, p, octets_u32((x >> 32u64) as u32), octets_u32(x as u32));
    lemme_lire_u32(b, p, (x >> 32u64) as u32);
    lemme_lire_u32(b, p + 4, x as u32);
    assert(((((x >> 32u64) as u32) as u64) << 32u64) | (((x as u32) as u64)) == x) by (bit_vector);
}

proof fn lemme_lire_u128(b: Seq<u8>, p: int, x: u128)
    requires
        present(b, p, octets_u128(x)),
    ensures
        lire_u128(b, p) == Some((x, p + 16)),
{
    lemme_present_concat(b, p, octets_u64((x >> 64u128) as u64), octets_u64(x as u64));
    lemme_lire_u64(b, p, (x >> 64u128) as u64);
    lemme_lire_u64(b, p + 8, x as u64);
    assert(((((x >> 64u128) as u64) as u128) << 64u128) | (((x as u64) as u128)) == x)
        by (bit_vector);
}

proof fn lemme_lire_octets(b: Seq<u8>, p: int, o: Seq<u8>)
    requires
        o.len() <= u32::MAX,
        present(b, p, enc_octets(o)),
    ensures
        lire_octets(b, p) == Some((o, p + enc_octets(o).len())),
{
    lemme_present_concat(b, p, octets_u32(o.len() as u32), o);
    lemme_lire_u32(b, p, o.len() as u32);
}

proof fn lemme_lire_chaine(b: Seq<u8>, p: int, s: Seq<char>)
    requires
        chaine_encodable(s),
        present(b, p, enc_chaine(s)),
    ensures
        lire_chaine(b, p) == Some((s, p + enc_chaine(s).len())),
{
    lemme_lire_octets(b, p, encode_utf8(s));
    vstd::utf8::encode_utf8_valid_utf8(s);
    vstd::utf8::encode_utf8_decode_utf8(s);
}

proof fn lemme_lire_opt_chaine(b: Seq<u8>, p: int, o: Option<Seq<char>>)
    requires
        opt_chaine_encodable(o),
        present(b, p, enc_opt_chaine(o)),
    ensures
        lire_opt_chaine(b, p) == Some((o, p + enc_opt_chaine(o).len())),
{
    match o {
        None => {
            lemme_present_element(b, p, seq![0u8], 0);
        },
        Some(s) => {
            lemme_present_concat(b, p, seq![1u8], enc_chaine(s));
            lemme_present_element(b, p, seq![1u8], 0);
            lemme_lire_chaine(b, p + 1, s);
        },
    }
}

proof fn lemme_lire_opt_octets(b: Seq<u8>, p: int, o: Option<Seq<u8>>)
    requires
        match o {
            None => true,
            Some(d) => d.len() <= u32::MAX,
        },
        present(b, p, enc_opt_octets(o)),
    ensures
        lire_opt_octets(b, p) == Some((o, p + enc_opt_octets(o).len())),
{
    match o {
        None => {
            lemme_present_element(b, p, seq![0u8], 0);
        },
        Some(d) => {
            lemme_present_concat(b, p, seq![1u8], enc_octets(d));
            lemme_present_element(b, p, seq![1u8], 0);
            lemme_lire_octets(b, p + 1, d);
        },
    }
}

proof fn lemme_lire_liste(b: Seq<u8>, p: int, l: Seq<Seq<char>>)
    requires
        forall|i: int| 0 <= i < l.len() ==> chaine_encodable(#[trigger] l[i]),
        present(b, p, enc_liste(l)),
    ensures
        lire_liste(b, p, l.len()) == Some((l, p + enc_liste(l).len())),
    decreases l.len(),
{
    if l.len() > 0 {
        let init = l.drop_last();
        lemme_present_concat(b, p, enc_liste(init), enc_chaine(l.last()));
        assert forall|i: int| 0 <= i < init.len() implies chaine_encodable(#[trigger] init[i]) by {
            assert(init[i] == l[i]);
        }
        lemme_lire_liste(b, p, init);
        assert(chaine_encodable(l[l.len() - 1]));
        lemme_lire_chaine(b, p + enc_liste(init).len(), l.last());
        assert(init.push(l.last()) =~= l);
    }
}

proof fn lemme_lire_opt_meta(b: Seq<u8>, p: int, o: Option<MetaVue>)
    requires
        meta_encodable(o),
        present(b, p, enc_opt_meta(o)),
    ensures
        lire_opt_meta(b, p) == Some((o, p + enc_opt_meta(o).len())),
{
    match o {
        None => {
            lemme_present_element(b, p, seq![0u8], 0);
        },
        Some(m) => {
            lemme_present_concat(b, p, seq![1u8], enc_meta(m));
            lemme_present_element(b, p, seq![1u8], 0);
            let q = p + 1;
            match m {
                MetaVue::Fichier(nom, taille) => {
                    lemme_present_concat(b, q, seq![0u8] + enc_opt_chaine(nom), octets_u64(taille));
                    lemme_present_concat(b, q, seq![0u8], enc_opt_chaine(nom));
                    lemme_present_element(b, q, seq![0u8], 0);
                    lemme_lire_opt_chaine(b, q + 1, nom);
                    lemme_lire_u64(b, q + 1 + enc_opt_chaine(nom).len(), taille);
                },
                MetaVue::Utilisateurs(l) => {
                    lemme_present_concat(b, q, seq![1u8] + octets_u32(l.len() as u32), enc_liste(l));
                    lemme_present_concat(b, q, seq![1u8], octets_u32(l.len() as u32));
                    lemme_present_element(b, q, seq![1u8], 0);
                    lemme_lire_u32(b, q + 1, l.len() as u32);
                    lemme_lire_liste(b, q + 5, l);
                },
                MetaVue::Reponse(id) => {
                    lemme_present_concat(b, q, seq![2u8], octets_u128(id));
                    lemme_present_element(b, q, seq![2u8], 0);
                    lemme_lire_u128(b, q + 1, id);
                },
            }
        },
    }
}

proof fn lemme_decoupe_message(m: MessageVue)
    ensures
        ({
            let b = enc_message(m);
            let e3 = enc_opt_chaine(m.utilisateur);
            let e4 = enc_opt_chaine(m.contenu);
            let e5 = enc_opt_octets(m.donnees_binaires);
            let e6 = enc_opt_meta(m.metadonnees);
            &&& b.len() == 25 + e3.len() + e4.len() + e5.len() + e6.len()
            &&& b[0] == code_type(m.type_message)
            &&& present(b, 1, octets_u128(m.id))
            &&& present(b, 17, octets_u64(m.timestamp))
            &&& present(b, 25, e3)
            &&& present(b, 25 + e3.len() as int, e4)
            &&& present(b, 25 + e3.len() as int + e4.len() as int, e5)
            &&& present(b, 25 + e3.len() as int + e4.len() as int + e5.len() as int, e6)
        }),
{
    let b = enc_message(m);
    let e0 = seq![code_type(m.type_message)];
    let e1 = octets_u128(m.id);
    let e2 = octets_u64(m.timestamp);
    let e3 = enc_opt_chaine(m.utilisateur);
    let e4 = enc_opt_chaine(m.contenu);
    let e5 = enc_opt_octets(m.donnees_binaires);
    let e6 = enc_opt_meta(m.metadonnees);
    assert(b.subrange(0, b.len() as int) =~= b);
    lemme_present_concat(b, 0, e0 + e1 + e2 + e3 + e4 + e5, e6);
    lemme_present_concat(b, 0, e0 + e1 + e2 + e3 + e4, e5);
    lemme_present_concat(b, 0, e0 + e1 + e2 + e3, e4);
    lemme_present_concat(b, 0, e0 + e1 + e2, e3);
    lemme_present_concat(b, 0, e0 + e1, e2);
    lemme_present_concat(b, 0, e0, e1);
    lemme_present_element(b, 0, e0, 0);
}

/// Decoding the payload of an envelope gives back that envelope, for every
/// kind, with or without text, bytes (empty or not) and metadata.
pub proof fn lemme_aller_retour_message(m: MessageVue)
    requires
        encodable(m),
    ensures
        lire_message(enc_message(m)) == Some(m),
{
    let b = enc_message(m);
    let e3 = enc_opt_chaine(m.utilisateur);
    let e4 = enc_opt_chaine(m.contenu);
    let e5 = enc_opt_octets(m.donnees_binaires);
    let e6 = enc_opt_meta(m.metadonnees);
    lemme_decoupe_message(m);
    lemme_lire_u128(b, 1, m.id);
    lemme_lire_u64(b, 17, m.timestamp);
    assert(type_de_code(code_type(m.type_message)) == Some(m.type_message));
    assert(lire_entete(b) == Some((m.type_message, m.id, m.timestamp)));
    lemme_lire_opt_chaine(b, 25, m.utilisateur);
    let pos_u: int = 25 + e3.len() as int;
    lemme_lire_opt_chaine(b, pos_u, m.contenu);
    let pos_c: int = pos_u + e4.len() as int;
    lemme_lire_opt_octets(b, pos_c, m.donnees_binaires);
    let pos_d: int = pos_c + e5.len() as int;
    lemme_lire_opt_meta(b, pos_d, m.metadonnees);
    assert(pos_d + e6.len() == b.len());
}

} // verus!

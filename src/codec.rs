use vstd::prelude::*;
use crate::externe::chaine_depuis_utf8;
use crate::format::{
    lemme_aller_retour_message, lemme_u32,
    chaine_encodable, code_type, enc_chaine, enc_liste, enc_message, enc_meta, enc_octets,
    enc_opt_chaine, encodable, meta_encodable, octets_u128, octets_u32, octets_u64,
    opt_chaine_encodable, lire_chaine, lire_liste, lire_message, lire_meta, lire_octets,
    lire_opt_chaine, lire_opt_meta, lire_opt_octets, lire_u128, lire_u32, lire_u64, lire_u8,
    lire_entete, type_de_code, u32_a,
};
use crate::message::{
    vue_chaines, vue_option_chaine, vue_option_octets, Metadonnees, MessageVue, MessageWebSocket,
    MetaVue,
    TypeMessageWs,
};

verus! {

broadcast use vstd::seq::group_seq_axioms;

fn ecrire_u32(out: &mut Vec<u8>, x: u32)
    ensures
        final(out)@ == old(out)@ + octets_u32(x),
{
    out.push((x >> 24u32) as u8);
    out.push((x >> 16u32) as u8);
    out.push((x >> 8u32) as u8);
    out.push(x as u8);
    assert(out@ =~= old(out)@ + octets_u32(x));
}

fn ecrire_u64(out: &mut Vec<u8>, x: u64)
    ensures
        final(out)@ == old(out)@ + octets_u64(x),
{
    ecrire_u32(out, (x >> 32u64) as u32);
    ecrire_u32(out, x as u32);
    assert(out@ =~= old(out)@ + octets_u64(x));
}

fn ecrire_u128(out: &mut Vec<u8>, x: u128)
    ensures
        final(out)@ == old(out)@ + octets_u128(x),
{
    ecrire_u64(out, (x >> 64u128) as u64);
    ecrire_u64(out, x as u64);
    assert(out@ =~= old(out)@ + octets_u128(x));
}

fn ecrire_octets(out: &mut Vec<u8>, o: &[u8])
    requires
        o@.len() <= u32::MAX,
    ensures
        final(out)@ == old(out)@ + enc_octets(o@),
{
    ecrire_u32(out, o.len() as u32);
    let ghost debut = out@;
    for i in 0..o.len()
        invariant
            out@ == debut + o@.subrange(0, i as int),
    {
        out.push(o[i]);
        assert(out@ =~= debut + o@.subrange(0, i + 1));
    }
    assert(o@.subrange(0, o@.len() as int) =~= o@);
    assert(out@ =~= old(out)@ + enc_octets(o@));
}

fn ecrire_chaine(out: &mut Vec<u8>, s: &str)
    requires
        chaine_encodable(s@),
    ensures
        final(out)@ == old(out)@ + enc_chaine(s@),
{
    let o = s.as_bytes();
    ecrire_octets(out, o);
}

fn ecrire_opt_chaine(out: &mut Vec<u8>, o: &Option<String>)
    requires
        opt_chaine_encodable(vue_option_chaine(*o)),
    ensures
        final(out)@ == old(out)@ + enc_opt_chaine(vue_option_chaine(*o)),
{
    match o {
        None => {
            out.push(0u8);
            assert(out@ =~= old(out)@ + enc_opt_chaine(vue_option_chaine(*o)));
        },
        Some(s) => {
            out.push(1u8);
            ecrire_chaine(out, s.as_str());
            assert(out@ =~= old(out)@ + enc_opt_chaine(vue_option_chaine(*o)));
        },
    }
}

fn ecrire_liste(out: &mut Vec<u8>, l: &Vec<String>)
    requires
        forall|i: int| 0 <= i < l@.len() ==> chaine_encodable(#[trigger] l@[i]@),
    ensures
        final(out)@ == old(out)@ + enc_liste(vue_chaines(l@)),
{
    let ghost debut = out@;
    let ghost v = vue_chaines(l@);
    assert(enc_liste(v.subrange(0, 0)) =~= Seq::<u8>::empty());
    assert(out@ =~= debut + enc_liste(v.subrange(0, 0)));
    for i in 0..l.len()
        invariant
            v == vue_chaines(l@),
            forall|k: int| 0 <= k < l@.len() ==> chaine_encodable(#[trigger] l@[k]@),
            out@ == debut + enc_liste(v.subrange(0, i as int)),
    {
        ecrire_chaine(out, l[i].as_str());
        assert(v.subrange(0, i + 1).drop_last() =~= v.subrange(0, i as int));
        assert(v.subrange(0, i + 1).last() == l@[i as int]@);
        assert(out@ =~= debut + enc_liste(v.subrange(0, i + 1)));
    }
    assert(v.subrange(0, v.len() as int) =~= v);
}

fn ecrire_meta(out: &mut Vec<u8>, m: &Metadonnees)
    requires
        meta_encodable(Some(m@)),
    ensures
        final(out)@ == old(out)@ + enc_meta(m@),
{
    match m {
        Metadonnees::Fichier { nom_fichier, taille } => {
            out.push(0u8);
            ecrire_opt_chaine(out, nom_fichier);
            ecrire_u64(out, *taille);
        },
        Metadonnees::Utilisateurs(l) => {
            out.push(1u8);
            ecrire_u32(out, l.len() as u32);
            assert forall|i: int| 0 <= i < l@.len() implies chaine_encodable(#[trigger] l@[i]@) by {
                assert(vue_chaines(l@)[i] == l@[i]@);
            }
            ecrire_liste(out, l);
        },
        Metadonnees::Reponse(id) => {
            out.push(2u8);
            ecrire_u128(out, *id);
        },
    }
    assert(out@ =~= old(out)@ + enc_meta(m@));
}

/// The payload bytes of `m`.
pub fn encoder_message(m: &MessageWebSocket) -> (r: Vec<u8>)
    requires
        encodable(m@),
    ensures
        r@ == enc_message(m@),
{
    let mut out: Vec<u8> = Vec::new();
    out.push(code_type_exec(m.type_message));
    ecrire_u128(&mut out, m.id);
    ecrire_u64(&mut out, m.timestamp);
    ecrire_opt_chaine(&mut out, &m.utilisateur);
    ecrire_opt_chaine(&mut out, &m.contenu);
    match &m.donnees_binaires {
        None => {
            out.push(0u8);
        },
        Some(d) => {
            out.push(1u8);
            ecrire_octets(&mut out, d.as_slice());
        },
    }
    match &m.metadonnees {
        None => {
            out.push(0u8);
        },
        Some(meta) => {
            out.push(1u8);
            ecrire_meta(&mut out, meta);
        },
    }
    assert(out@ =~= enc_message(m@));
    out
}

fn code_type_exec(t: TypeMessageWs) -> (r: u8)
    ensures
        r == code_type(t),
{
    match t {
        TypeMessageWs::Chat => 0,
        TypeMessageWs::Binaire => 1,
        TypeMessageWs::Connexion => 2,
        TypeMessageWs::Deconnexion => 3,
        TypeMessageWs::Notification => 4,
        TypeMessageWs::DemandeUtilisateurs => 5,
        TypeMessageWs::ListeUtilisateurs => 6,
        TypeMessageWs::Ping => 7,
        TypeMessageWs::Pong => 8,
    }
}

fn chaine_encodable_exec(s: &String) -> (r: bool)
    ensures
        r == chaine_encodable(s@),
{
    s.as_str().as_bytes().len() as u64 <= u32::MAX as u64
}

fn opt_chaine_encodable_exec(o: &Option<String>) -> (r: bool)
    ensures
        r == opt_chaine_encodable(vue_option_chaine(*o)),
{
    match o {
        None => true,
        Some(s) => chaine_encodable_exec(s),
    }
}

/// Whether every length in `m` fits the four bytes that carry it.
#[verifier::loop_isolation(false)]
pub fn est_encodable(m: &MessageWebSocket) -> (r: bool)
    ensures
        r == encodable(m@),
{
    if !opt_chaine_encodable_exec(&m.utilisateur) || !opt_chaine_encodable_exec(&m.contenu) {
        return false;
    }
    match &m.donnees_binaires {
        Some(d) => {
            if d.len() as u64 > u32::MAX as u64 {
                return false;
            }
        },
        None => {},
    }
    match &m.metadonnees {
        None => true,
        Some(Metadonnees::Fichier { nom_fichier, .. }) => opt_chaine_encodable_exec(nom_fichier),
        Some(Metadonnees::Reponse(_)) => true,
        Some(Metadonnees::Utilisateurs(l)) => {
            if l.len() as u64 > u32::MAX as u64 {
                return false;
            }
            let ghost v = vue_chaines(l@);
            for i in 0..l.len()
                invariant
                    v == vue_chaines(l@),
                    forall|k: int| 0 <= k < i ==> chaine_encodable(#[trigger] v[k]),
            {
                if !chaine_encodable_exec(&l[i]) {
                    assert(v[i as int] == l@[i as int]@);
                    return false;
                }
            }
            true
        },
    }
}

fn dec_u8(b: &[u8], p: usize) -> (r: Option<(u8, usize)>)
    ensures
        match r {
            Some((v, q)) => lire_u8(b@, p as int) == Some((v, q as int)),
            None => lire_u8(b@, p as int) is None,
        },
{
    if p < b.len() {
        Some((b[p], p + 1))
    } else {
        None
    }
}

fn dec_u32(b: &[u8], p: usize) -> (r: Option<(u32, usize)>)
    ensures
        match r {
            Some((v, q)) => lire_u32(b@, p as int) == Some((v, q as int)),
            None => lire_u32(b@, p as int) is None,
        },
{
    if p <= b.len() && 4 <= b.len() - p {
        let v = ((b[p] as u32) << 24u32) | ((b[p + 1] as u32) << 16u32) | ((b[p + 2] as u32)
            << 8u32) | (b[p + 3] as u32);
        assert(v == u32_a(b@, p as int));
        Some((v, p + 4))
    } else {
        None
    }
}

fn dec_u64(b: &[u8], p: usize) -> (r: Option<(u64, usize)>)
    ensures
        match r {
            Some((v, q)) => lire_u64(b@, p as int) == Some((v, q as int)),
            None => lire_u64(b@, p as int) is None,
        },
{
    if p <= b.len() && 8 <= b.len() - p {
        let (h, _) = dec_u32(b, p).unwrap();
        let (l, _) = dec_u32(b, p + 4).unwrap();
        let v = ((h as u64) << 32u64) | (l as u64);
        Some((v, p + 8))
    } else {
        None
    }
}

fn dec_u128(b: &[u8], p: usize) -> (r: Option<(u128, usize)>)
    ensures
        match r {
            Some((v, q)) => lire_u128(b@, p as int) == Some((v, q as int)),
            None => lire_u128(b@, p as int) is None,
        },
{
    if p <= b.len() && 16 <= b.len() - p {
        let (h, _) = dec_u64(b, p).unwrap();
        let (l, _) = dec_u64(b, p + 8).unwrap();
        let v = ((h as u128) << 64u128) | (l as u128);
        Some((v, p + 16))
    } else {
        None
    }
}

fn dec_octets(b: &[u8], p: usize) -> (r: Option<(Vec<u8>, usize)>)
    ensures
        match r {
            Some((v, q)) => lire_octets(b@, p as int) == Some((v@, q as int)),
            None => lire_octets(b@, p as int) is None,
        },
{
    match dec_u32(b, p) {
        None => None,
        Some((n, q)) => {
            if n as u64 > (b.len() - q) as u64 {
                return None;
            }
            let fin = q + n as usize;
            let mut v: Vec<u8> = Vec::with_capacity(n as usize);
            for i in q..fin
                invariant
                    q <= fin <= b.len(),
                    v@ == b@.subrange(q as int, i as int),
            {
                v.push(b[i]);
                assert(v@ =~= b@.subrange(q as int, i + 1));
            }
            Some((v, fin))
        },
    }
}

fn dec_chaine(b: &[u8], p: usize) -> (r: Option<(String, usize)>)
    ensures
        match r {
            Some((s, q)) => lire_chaine(b@, p as int) == Some((s@, q as int)),
            None => lire_chaine(b@, p as int) is None,
        },
{
    match dec_octets(b, p) {
        None => None,
        Some((v, q)) => match chaine_depuis_utf8(v) {
            Some(s) => Some((s, q)),
            None => None,
        },
    }
}

fn dec_opt_chaine(b: &[u8], p: usize) -> (r: Option<(Option<String>, usize)>)
    ensures
        match r {
            Some((o, q)) => lire_opt_chaine(b@, p as int) == Some((vue_option_chaine(o), q as int)),
            None => lire_opt_chaine(b@, p as int) is None,
        },
{
    let (tag, q) = match dec_u8(b, p) {
        Some(x) => x,
        None => {
            return None;
        },
    };
    assert(lire_u8(b@, p as int) == Some((tag, q as int)));
    if tag == 0 {
        Some((None, q))
    } else if tag == 1 {
        match dec_chaine(b, q) {
            Some((s, r)) => Some((Some(s), r)),
            None => None,
        }
    } else {
        None
    }
}

fn dec_opt_octets(b: &[u8], p: usize) -> (r: Option<(Option<Vec<u8>>, usize)>)
    ensures
        match r {
            Some((o, q)) => lire_opt_octets(b@, p as int) == Some((vue_option_octets(o), q as int)),
            None => lire_opt_octets(b@, p as int) is None,
        },
{
    let (tag, q) = match dec_u8(b, p) {
        Some(x) => x,
        None => {
            return None;
        },
    };
    assert(lire_u8(b@, p as int) == Some((tag, q as int)));
    if tag == 0 {
        Some((None, q))
    } else if tag == 1 {
        match dec_octets(b, q) {
            Some((s, r)) => Some((Some(s), r)),
            None => None,
        }
    } else {
        None
    }
}

proof fn lemme_liste_echec(b: Seq<u8>, p: int, k: nat, n: nat)
    requires
        k <= n,
        lire_liste(b, p, k) is None,
    ensures
        lire_liste(b, p, n) is None,
    decreases n - k,
{
    if k < n {
        lemme_liste_echec(b, p, k + 1, n);
    }
}

fn dec_liste(b: &[u8], p: usize, n: u32) -> (r: Option<(Vec<String>, usize)>)
    ensures
        match r {
            Some((l, q)) => lire_liste(b@, p as int, n as nat) == Some((vue_chaines(l@), q as int)),
            None => lire_liste(b@, p as int, n as nat) is None,
        },
{
    let mut l: Vec<String> = Vec::new();
    let mut pos = p;
    let mut i: u32 = 0;
    assert(vue_chaines(l@) =~= Seq::<Seq<char>>::empty());
    while i < n
        invariant
            i <= n,
            lire_liste(b@, p as int, i as nat) == Some((vue_chaines(l@), pos as int)),
        decreases n - i,
    {
        match dec_chaine(b, pos) {
            None => {
                assert(lire_liste(b@, p as int, (i + 1) as nat) is None);
                proof {
                    lemme_liste_echec(b@, p as int, (i + 1) as nat, n as nat);
                }
                return None;
            },
            Some((s, q)) => {
                let ghost avant = l@;
                l.push(s);
                assert(vue_chaines(l@) =~= vue_chaines(avant).push(s@));
                pos = q;
                i = i + 1;
            },
        }
    }
    Some((l, pos))
}

fn dec_meta(b: &[u8], p: usize) -> (r: Option<(Metadonnees, usize)>)
    ensures
        match r {
            Some((m, q)) => lire_meta(b@, p as int) == Some((m@, q as int)),
            None => lire_meta(b@, p as int) is None,
        },
{
    let (tag, q) = match dec_u8(b, p) {
        Some(x) => x,
        None => {
            return None;
        },
    };
    assert(lire_u8(b@, p as int) == Some((tag, q as int)));
    if tag == 0 {
        match dec_opt_chaine(b, q) {
            Some((nom, r)) => match dec_u64(b, r) {
                Some((t, s)) => Some((Metadonnees::Fichier { nom_fichier: nom, taille: t }, s)),
                None => None,
            },
            None => None,
        }
    } else if tag == 1 {
        match dec_u32(b, q) {
            Some((n, r)) => match dec_liste(b, r, n) {
                Some((l, s)) => Some((Metadonnees::Utilisateurs(l), s)),
                None => None,
            },
            None => None,
        }
    } else if tag == 2 {
        match dec_u128(b, q) {
            Some((id, r)) => Some((Metadonnees::Reponse(id), r)),
            None => None,
        }
    } else {
        None
    }
}

fn dec_opt_meta(b: &[u8], p: usize) -> (r: Option<(Option<Metadonnees>, usize)>)
    ensures
        match r {
            Some((Some(m), q)) => lire_opt_meta(b@, p as int) == Some((Some(m@), q as int)),
            Some((None, q)) => lire_opt_meta(b@, p as int) == Some((None::<MetaVue>, q as int)),
            None => lire_opt_meta(b@, p as int) is None,
        },
{
    let (tag, q) = match dec_u8(b, p) {
        Some(x) => x,
        None => {
            return None;
        },
    };
    assert(lire_u8(b@, p as int) == Some((tag, q as int)));
    if tag == 0 {
        Some((None, q))
    } else if tag == 1 {
        match dec_meta(b, q) {
            Some((m, r)) => Some((Some(m), r)),
            None => None,
        }
    } else {
        None
    }
}

fn type_de_code_exec(c: u8) -> (r: Option<TypeMessageWs>)
    ensures
        r == type_de_code(c),
{
    match c {
        0 => Some(TypeMessageWs::Chat),
        1 => Some(TypeMessageWs::Binaire),
        2 => Some(TypeMessageWs::Connexion),
        3 => Some(TypeMessageWs::Deconnexion),
        4 => Some(TypeMessageWs::Notification),
        5 => Some(TypeMessageWs::DemandeUtilisateurs),
        6 => Some(TypeMessageWs::ListeUtilisateurs),
        7 => Some(TypeMessageWs::Ping),
        8 => Some(TypeMessageWs::Pong),
        _ => None,
    }
}

/// The envelope that the payload `b` holds, if it holds exactly one.
pub fn decoder_message(b: &[u8]) -> (r: Option<MessageWebSocket>)
    ensures
        match r {
            Some(m) => lire_message(b@) == Some(m@),
            None => lire_message(b@) is None,
        },
{
    if b.len() < 25 {
        return None;
    }
    let t = match type_de_code_exec(b[0]) {
        Some(t) => t,
        None => {
            return None;
        },
    };
    let (id, _) = dec_u128(b, 1).unwrap();
    let (ts, _) = dec_u64(b, 17).unwrap();
    assert(lire_entete(b@) == Some((t, id, ts)));
    let (utilisateur, pos_u) = match dec_opt_chaine(b, 25) {
        Some(x) => x,
        None => {
            return None;
        },
    };
    let (contenu, pos_c) = match dec_opt_chaine(b, pos_u) {
        Some(x) => x,
        None => {
            return None;
        },
    };
    let (donnees_binaires, pos_d) = match dec_opt_octets(b, pos_c) {
        Some(x) => x,
        None => {
            return None;
        },
    };
    let (metadonnees, pos_m) = match dec_opt_meta(b, pos_d) {
        Some(x) => x,
        None => {
            return None;
        },
    };
    if pos_m != b.len() {
        return None;
    }
    let m = MessageWebSocket {
        id,
        type_message: t,
        utilisateur,
        contenu,
        donnees_binaires,
        metadonnees,
        timestamp: ts,
    };
    Some(m)
}

/// Outcome of reading one frame from the front of a byte buffer.
#[derive(Debug)]
pub enum EtatTrame {
    /// No complete frame yet: more bytes are needed.
    Incomplet,
    /// A complete frame whose payload is no envelope; its `consommes`
    /// bytes can be skipped.
    Invalide { consommes: usize },
    /// A complete frame, `consommes` bytes long, holding `message`.
    Complet { message: MessageWebSocket, consommes: usize },
}

pub enum EtatTrameVue {
    Incomplet,
    Invalide(nat),
    Complet(MessageVue, nat),
}

impl View for EtatTrame {
    type V = EtatTrameVue;

    open spec fn view(&self) -> EtatTrameVue {
        match self {
            EtatTrame::Incomplet => EtatTrameVue::Incomplet,
            EtatTrame::Invalide { consommes } => EtatTrameVue::Invalide(*consommes as nat),
            EtatTrame::Complet { message, consommes } => EtatTrameVue::Complet(
                message@,
                *consommes as nat,
            ),
        }
    }
}

/// A frame: the payload length on four big-endian bytes, then the payload.
pub open spec fn trame_de(m: MessageVue) -> Seq<u8> {
    octets_u32(enc_message(m).len() as u32) + enc_message(m)
}

/// The frame of `m` can be written: every length fits its four bytes.
pub open spec fn trame_possible(m: MessageVue) -> bool {
    encodable(m) && enc_message(m).len() <= u32::MAX
}

/// What the front of the buffer `b` holds.
pub open spec fn etat_trame(b: Seq<u8>) -> EtatTrameVue {
    if b.len() < 4 {
        EtatTrameVue::Incomplet
    } else {
        let n = u32_a(b, 0) as int;
        if b.len() < 4 + n {
            EtatTrameVue::Incomplet
        } else {
            match lire_message(b.subrange(4, 4 + n)) {
                Some(m) => EtatTrameVue::Complet(m, (4 + n) as nat),
                None => EtatTrameVue::Invalide((4 + n) as nat),
            }
        }
    }
}

impl MessageWebSocket {
    /// For a message-oriented transport, one envelope per transport
    /// message: the payload alone, or nothing when a length does not fit
    /// its four bytes.
    pub fn vers_message_websocket(&self) -> (r: Option<Vec<u8>>)
        ensures
            r is Some <==> encodable(self@),
            r is Some ==> r->Some_0@ == enc_message(self@),
    {
        if est_encodable(self) {
            Some(encoder_message(self))
        } else {
            None
        }
    }

    /// The envelope that one transport message holds, if it holds exactly
    /// one.
    pub fn depuis_message_websocket(message: &[u8]) -> (r: Option<Self>)
        ensures
            match r {
                Some(m) => lire_message(message@) == Some(m@),
                None => lire_message(message@) is None,
            },
    {
        decoder_message(message)
    }

    /// The frame of this envelope, or nothing when a length does not fit
    /// its four bytes.
    pub fn vers_bytes(&self) -> (r: Option<Vec<u8>>)
        ensures
            r is Some <==> trame_possible(self@),
            r is Some ==> r->Some_0@ == trame_de(self@),
    {
        if !est_encodable(self) {
            return None;
        }
        let charge = encoder_message(self);
        if charge.len() as u64 > u32::MAX as u64 {
            return None;
        }
        let mut out: Vec<u8> = Vec::new();
        ecrire_u32(&mut out, charge.len() as u32);
        ecrire_octets_bruts(&mut out, charge.as_slice());
        Some(out)
    }

    /// Reads the frame at the front of `tampon`: whether more bytes are
    /// needed, or how many bytes the frame takes and what it holds.
    pub fn depuis_bytes(tampon: &[u8]) -> (r: EtatTrame)
        ensures
            r@ == etat_trame(tampon@),
    {
        let (n, _) = match dec_u32(tampon, 0) {
            Some(x) => x,
            None => {
                return EtatTrame::Incomplet;
            },
        };
        if n as u64 > (tampon.len() - 4) as u64 {
            return EtatTrame::Incomplet;
        }
        let fin = 4 + n as usize;
        let (trame, _) = tampon.split_at(fin);
        let (_, charge) = trame.split_at(4);
        assert(charge@ =~= tampon@.subrange(4, fin as int));
        match decoder_message(charge) {
            Some(message) => EtatTrame::Complet { message, consommes: fin },
            None => EtatTrame::Invalide { consommes: fin },
        }
    }
}

fn ecrire_octets_bruts(out: &mut Vec<u8>, o: &[u8])
    ensures
        final(out)@ == old(out)@ + o@,
{
    let ghost debut = out@;
    for i in 0..o.len()
        invariant
            out@ == debut + o@.subrange(0, i as int),
    {
        out.push(o[i]);
        assert(out@ =~= debut + o@.subrange(0, i + 1));
    }
    assert(o@.subrange(0, o@.len() as int) =~= o@);
}

/// A frame followed by any bytes reads back as the envelope it was made
/// from, and takes exactly its own length.
pub proof fn lemme_aller_retour_trame(m: MessageVue, suite: Seq<u8>)
    requires
        trame_possible(m),
    ensures
        etat_trame(trame_de(m) + suite) == EtatTrameVue::Complet(m, trame_de(m).len()),
{
    let p = enc_message(m);
    let b = trame_de(m) + suite;
    let n = p.len() as u32;
    lemme_u32(n);
    assert(b[0] == octets_u32(n)[0] && b[1] == octets_u32(n)[1] && b[2] == octets_u32(n)[2]
        && b[3] == octets_u32(n)[3]);
    assert(u32_a(b, 0) == n);
    assert(b.subrange(4, 4 + p.len() as int) =~= p);
    lemme_aller_retour_message(m);
}

/// Every strict prefix of a frame asks for more bytes: a reader that gets
/// a frame in pieces never mistakes a piece for an error.
pub proof fn lemme_trame_partielle(m: MessageVue, k: int)
    requires
        trame_possible(m),
        0 <= k < trame_de(m).len(),
    ensures
        etat_trame(trame_de(m).subrange(0, k)) == EtatTrameVue::Incomplet,
{
    let p = enc_message(m);
    let t = trame_de(m);
    let b = t.subrange(0, k);
    let n = p.len() as u32;
    if k >= 4 {
        lemme_u32(n);
        assert(b[0] == t[0] && b[1] == t[1] && b[2] == t[2] && b[3] == t[3]);
        assert(u32_a(b, 0) == n);
    }
}

} // verus!

use vstd::prelude::*;
use crate::commandes::caracteres;
use crate::message::{forme, Metadonnees, MessageVue, MessageWebSocket, MetaVue, TypeMessageWs};
use crate::nom::{erreur_nom_attendue, nom_valide, valider_nom_utilisateur, ErreurNom};
use vstd::utf8::encode_utf8;

verus! {

/// A chat client before and after it joins the server.
#[derive(Debug)]
pub struct ClientWebSocket {
    nom_utilisateur: String,
    url_serveur: String,
    connecte: bool,
}

impl ClientWebSocket {
    pub closed spec fn nom(&self) -> Seq<char> {
        self.nom_utilisateur@
    }

    pub closed spec fn url(&self) -> Seq<char> {
        self.url_serveur@
    }

    pub closed spec fn connecte_spec(&self) -> bool {
        self.connecte
    }

    /// A client for `nom_utilisateur`, not yet connected; the name must
    /// follow the naming rules.
    pub fn new(nom_utilisateur: String, url_serveur: String) -> (r: Result<Self, ErreurNom>)
        ensures
            r is Ok <==> nom_valide(nom_utilisateur@),
            match r {
                Ok(c) => c.nom() == nom_utilisateur@ && c.url() == url_serveur@ && !c.connecte_spec(),
                Err(e) => erreur_nom_attendue(nom_utilisateur@) == Some(e),
            },
    {
        match valider_nom_utilisateur(nom_utilisateur.as_str()) {
            Err(e) => Err(e),
            Ok(()) => Ok(ClientWebSocket { nom_utilisateur, url_serveur, connecte: false }),
        }
    }

    pub fn nom_utilisateur(&self) -> (r: &str)
        ensures
            r@ == self.nom(),
    {
        self.nom_utilisateur.as_str()
    }

    pub fn url_serveur(&self) -> (r: &str)
        ensures
            r@ == self.url(),
    {
        self.url_serveur.as_str()
    }

    pub fn est_connecte(&self) -> (r: bool)
        ensures
            r == self.connecte_spec(),
    {
        self.connecte
    }

    /// Records whether the server confirmed the connection.
    pub fn marquer_connecte(&mut self, connecte: bool)
        ensures
            final(self).connecte_spec() == connecte,
            final(self).nom() == old(self).nom(),
            final(self).url() == old(self).url(),
    {
        self.connecte = connecte;
    }
}

/// What follows the last dot of a file name (the whole name without dot).
pub open spec fn extension(nom: Seq<char>) -> Seq<char>
    decreases nom.len(),
{
    if nom.len() == 0 {
        nom
    } else if nom.last() == '.' {
        Seq::empty()
    } else {
        extension(nom.drop_last()).push(nom.last())
    }
}

pub open spec fn texte_simule() -> Seq<char> {
    "Ceci est le contenu d'un fichier texte simulé."@
}

pub open spec fn image_simulee() -> Seq<char> {
    "Données d'image simulées..."@
}

pub open spec fn prefixe_binaire() -> Seq<char> {
    "Fichier binaire simulé: "@
}

/// Stand-in content for a file the client pretends to send: a text for
/// `.txt`, an image header then padding for `.jpg` and `.png`, otherwise a
/// label, the name and filler bytes.
pub open spec fn contenu_simule(nom: Seq<char>) -> Seq<u8> {
    let ext = extension(nom);
    if ext == seq!['t', 'x', 't'] {
        encode_utf8(texte_simule())
    } else if ext == seq!['j', 'p', 'g'] || ext == seq!['p', 'n', 'g'] {
        seq![0xFFu8, 0xD8u8, 0xFFu8, 0xE0u8] + encode_utf8(image_simulee()) + Seq::new(
            100,
            |i: int| 0u8,
        )
    } else {
        encode_utf8(prefixe_binaire()) + encode_utf8(nom) + Seq::new(50, |i: int| 42u8)
    }
}

fn ajouter_octets(out: &mut Vec<u8>, o: &[u8])
    ensures
        final(out)@ == old(out)@ + o@,
{
    let ghost debut = out@;
    for i in 0..o.len()
        invariant
            out@ == debut + o@.subrange(0, i as int),
    {
        out.push(o[i]);
        assert(out@ =~= debut + o@.subrange(0, i + 1));
    }
    assert(o@.subrange(0, o@.len() as int) =~= o@);
}

fn repeter(out: &mut Vec<u8>, octet: u8, n: usize)
    ensures
        final(out)@ == old(out)@ + Seq::new(n as nat, |i: int| octet),
{
    let ghost debut = out@;
    for i in 0..n
        invariant
            out@ == debut + Seq::new(i as nat, |k: int| octet),
    {
        out.push(octet);
        assert(out@ =~= debut + Seq::new((i + 1) as nat, |k: int| octet));
    }
}

fn extension_exec(nom: &str) -> (r: Vec<char>)
    ensures
        r@ == extension(nom@),
{
    let cs = caracteres(nom);
    let mut k: usize = cs.len();
    assert(cs@.subrange(0, cs@.len() as int) =~= cs@);
    assert(cs@.subrange(cs@.len() as int, cs@.len() as int) =~= Seq::<char>::empty());
    assert(extension(cs@) + Seq::<char>::empty() =~= extension(cs@));
    while k > 0 && cs[k - 1] != '.'
        invariant
            k <= cs@.len(),
            extension(cs@) == extension(cs@.subrange(0, k as int)) + cs@.subrange(k as int, cs@.len() as int),
        decreases k,
    {
        let ghost p = cs@.subrange(0, k as int);
        assert(p.drop_last() =~= cs@.subrange(0, k - 1));
        assert(cs@.subrange(k - 1, cs@.len() as int) =~= seq![p.last()] + cs@.subrange(k as int, cs@.len() as int));
        assert(extension(p) == extension(p.drop_last()).push(p.last()));
        k = k - 1;
    }
    let mut r: Vec<char> = Vec::new();
    let mut i: usize = k;
    while i < cs.len()
        invariant
            k <= i <= cs@.len(),
            r@ == cs@.subrange(k as int, i as int),
        decreases cs@.len() - i,
    {
        r.push(cs[i]);
        assert(r@ =~= cs@.subrange(k as int, i + 1));
        i = i + 1;
    }
    proof {
        assert(cs@.subrange(0, cs@.len() as int) =~= cs@);
        if k > 0 {
            let p = cs@.subrange(0, k as int);
            assert(p.last() == '.');
            assert(extension(p) =~= Seq::<char>::empty());
        } else {
            assert(extension(cs@.subrange(0, 0)) =~= Seq::<char>::empty());
        }
        assert(extension(cs@) =~= r@);
    }
    r
}

fn egal(a: &Vec<char>, b: &[char]) -> (r: bool)
    ensures
        r == (a@ == b@),
{
    if a.len() != b.len() {
        return false;
    }
    let mut i: usize = 0;
    while i < a.len()
        invariant
            a@.len() == b@.len(),
            i <= a@.len(),
            forall|k: int| 0 <= k < i ==> a@[k] == b@[k],
        decreases a@.len() - i,
    {
        if a[i] != b[i] {
            return false;
        }
        i = i + 1;
    }
    assert(a@ =~= b@);
    true
}

/// Stand-in content of a simulated file named `nom_fichier`.
pub fn donnees_fichier_simule(nom_fichier: &str) -> (r: Vec<u8>)
    ensures
        r@ == contenu_simule(nom_fichier@),
{
    let ext = extension_exec(nom_fichier);
    let txt: [char; 3] = ['t', 'x', 't'];
    let jpg: [char; 3] = ['j', 'p', 'g'];
    let png: [char; 3] = ['p', 'n', 'g'];
    assert(txt@ =~= seq!['t', 'x', 't']);
    assert(jpg@ =~= seq!['j', 'p', 'g']);
    assert(png@ =~= seq!['p', 'n', 'g']);
    let mut out: Vec<u8> = Vec::new();
    if egal(&ext, &txt) {
        ajouter_octets(&mut out, "Ceci est le contenu d'un fichier texte simulé.".as_bytes());
    } else if egal(&ext, &jpg) || egal(&ext, &png) {
        out.push(0xFF);
        out.push(0xD8);
        out.push(0xFF);
        out.push(0xE0);
        ajouter_octets(&mut out, "Données d'image simulées...".as_bytes());
        repeter(&mut out, 0, 100);
    } else {
        ajouter_octets(&mut out, "Fichier binaire simulé: ".as_bytes());
        ajouter_octets(&mut out, nom_fichier.as_bytes());
        repeter(&mut out, 42, 50);
    }
    assert(out@ =~= contenu_simule(nom_fichier@));
    out
}

impl ClientWebSocket {
    /// The binary envelope of a simulated file named `nom_fichier`, sent in
    /// this client's name.
    pub fn fichier_simule(&self, nom_fichier: &str) -> (r: MessageWebSocket)
        ensures
            forme(
                r@,
                TypeMessageWs::Binaire,
                Some(self.nom()),
                None,
                Some(contenu_simule(nom_fichier@)),
                Some(MetaVue::Fichier(Some(nom_fichier@), contenu_simule(nom_fichier@).len() as u64)),
            ),
    {
        let donnees = donnees_fichier_simule(nom_fichier);
        MessageWebSocket::nouveau_binaire(
            self.nom_utilisateur.clone(),
            donnees,
            Some(nom_fichier.to_owned()),
        )
    }
}

/// Whether the client named `nom` shows a received envelope: not its own
/// chat or file, not a chat file without sender, not a bare user-list
/// request, nor a user list without names.
pub open spec fn a_afficher(m: MessageVue, nom: Seq<char>) -> bool {
    match m.type_message {
        TypeMessageWs::Chat => m.utilisateur != Some(nom),
        TypeMessageWs::Binaire => m.utilisateur is Some && m.utilisateur != Some(nom),
        TypeMessageWs::DemandeUtilisateurs => false,
        TypeMessageWs::ListeUtilisateurs => m.metadonnees matches Some(MetaVue::Utilisateurs(_)),
        _ => true,
    }
}

impl ClientWebSocket {
    /// Whether this client shows `message`.
    pub fn doit_afficher(&self, message: &MessageWebSocket) -> (r: bool)
        ensures
            r == a_afficher(message@, self.nom()),
    {
        let de_moi = match &message.utilisateur {
            Some(u) => u.eq(&self.nom_utilisateur),
            None => false,
        };
        match message.type_message {
            TypeMessageWs::Chat => !de_moi,
            TypeMessageWs::Binaire => message.utilisateur.is_some() && !de_moi,
            TypeMessageWs::DemandeUtilisateurs => false,
            TypeMessageWs::ListeUtilisateurs => match &message.metadonnees {
                Some(Metadonnees::Utilisateurs(_)) => true,
                _ => false,
            },
            _ => true,
        }
    }
}

} // verus!

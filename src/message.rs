use vstd::prelude::*;
use crate::externe::{horodatage_ms, nouvel_identifiant};

verus! {

/// Kinds of envelope exchanged between clients and the server.
#[derive(Debug, Clone, Copy, PartialEq, Eq, Structural)]
pub enum TypeMessageWs {
    /// Chat text.
    Chat,
    /// Binary payload (a file, for instance).
    Binaire,
    /// Handshake carrying the candidate user name.
    Connexion,
    /// Explicit departure of a client.
    Deconnexion,
    /// Server-originated system message.
    Notification,
    /// Request for the list of connected users.
    DemandeUtilisateurs,
    /// Answer carrying the list of connected users.
    ListeUtilisateurs,
    /// Liveness probe.
    Ping,
    /// Answer to a probe, correlated by the probe's identifier.
    Pong,
}

/// Kind-specific extra data of an envelope.
#[derive(Debug, Clone, PartialEq, Eq)]
pub enum Metadonnees {
    /// File name (if any) and size of a binary payload.
    Fichier { nom_fichier: Option<String>, taille: u64 },
    /// Names of the connected users.
    Utilisateurs(Vec<String>),
    /// Identifier of the probe a `Pong` answers.
    Reponse(u128),
}

/// Mathematical model of `Metadonnees`.
pub enum MetaVue {
    Fichier(Option<Seq<char>>, u64),
    Utilisateurs(Seq<Seq<char>>),
    Reponse(u128),
}

pub open spec fn vue_option_chaine(o: Option<String>) -> Option<Seq<char>> {
    match o {
        Some(s) => Some(s@),
        None => None,
    }
}

pub open spec fn vue_option_octets(o: Option<Vec<u8>>) -> Option<Seq<u8>> {
    match o {
        Some(v) => Some(v@),
        None => None,
    }
}

pub open spec fn vue_chaines(v: Seq<String>) -> Seq<Seq<char>> {
    v.map_values(|s: String| s@)
}

impl View for Metadonnees {
    type V = MetaVue;

    open spec fn view(&self) -> MetaVue {
        match self {
            Metadonnees::Fichier { nom_fichier, taille } => MetaVue::Fichier(
                vue_option_chaine(*nom_fichier),
                *taille,
            ),
            Metadonnees::Utilisateurs(v) => MetaVue::Utilisateurs(vue_chaines(v@)),
            Metadonnees::Reponse(id) => MetaVue::Reponse(*id),
        }
    }
}

pub open spec fn vue_option_meta(o: Option<Metadonnees>) -> Option<MetaVue> {
    match o {
        Some(m) => Some(m@),
        None => None,
    }
}

/// The unit of communication: a tagged envelope.
#[derive(Debug, Clone, PartialEq, Eq)]
pub struct MessageWebSocket {
    /// Identifier, generated per envelope.
    pub id: u128,
    pub type_message: TypeMessageWs,
    /// Display name of the sender; absent for server notifications.
    pub utilisateur: Option<String>,
    /// Human-readable text.
    pub contenu: Option<String>,
    /// Opaque bytes of a binary envelope.
    pub donnees_binaires: Option<Vec<u8>>,
    pub metadonnees: Option<Metadonnees>,
    /// Creation time, in milliseconds since the Unix epoch.
    pub timestamp: u64,
}

/// Mathematical model of an envelope.
pub struct MessageVue {
    pub id: u128,
    pub type_message: TypeMessageWs,
    pub utilisateur: Option<Seq<char>>,
    pub contenu: Option<Seq<char>>,
    pub donnees_binaires: Option<Seq<u8>>,
    pub metadonnees: Option<MetaVue>,
    pub timestamp: u64,
}

impl View for MessageWebSocket {
    type V = MessageVue;

    open spec fn view(&self) -> MessageVue {
        MessageVue {
            id: self.id,
            type_message: self.type_message,
            utilisateur: vue_option_chaine(self.utilisateur),
            contenu: vue_option_chaine(self.contenu),
            donnees_binaires: vue_option_octets(self.donnees_binaires),
            metadonnees: vue_option_meta(self.metadonnees),
            timestamp: self.timestamp,
        }
    }
}

/// An envelope travels in binary form when it is of the binary kind or
/// carries bytes.
pub open spec fn est_binaire_spec(m: MessageVue) -> bool {
    m.type_message == TypeMessageWs::Binaire || m.donnees_binaires is Some
}

/// Self-echo rule: a connection named `nom` is not sent back its own chat
/// or binary envelopes; everything else, notifications included, goes out.
pub open spec fn livrable(m: MessageVue, nom: Seq<char>) -> bool {
    !(m.utilisateur == Some(nom) && (m.type_message == TypeMessageWs::Chat
        || m.type_message == TypeMessageWs::Binaire))
}

/// Fields of an envelope built from its kind and payload, whatever the
/// identifier and time it received.
pub open spec fn forme(
    m: MessageVue,
    t: TypeMessageWs,
    utilisateur: Option<Seq<char>>,
    contenu: Option<Seq<char>>,
    donnees: Option<Seq<u8>>,
    meta: Option<MetaVue>,
) -> bool {
    &&& m.type_message == t
    &&& m.utilisateur == utilisateur
    &&& m.contenu == contenu
    &&& m.donnees_binaires == donnees
    &&& m.metadonnees == meta
}

pub fn copier_octets(v: &Vec<u8>) -> (r: Vec<u8>)
    ensures
        r@ == v@,
{
    let mut r: Vec<u8> = Vec::with_capacity(v.len());
    for i in 0..v.len()
        invariant
            r@ == v@.subrange(0, i as int),
    {
        r.push(v[i]);
    }
    assert(r@ == v@);
    r
}

pub fn copier_chaines(v: &Vec<String>) -> (r: Vec<String>)
    ensures
        vue_chaines(r@) == vue_chaines(v@),
        r@.len() == v@.len(),
{
    let mut r: Vec<String> = Vec::with_capacity(v.len());
    for i in 0..v.len()
        invariant
            r@.len() == i,
            forall|k: int| 0 <= k < i ==> r@[k]@ == v@[k]@,
    {
        r.push(v[i].clone());
    }
    assert(vue_chaines(r@) =~= vue_chaines(v@));
    r
}

fn copier_option_chaine(o: &Option<String>) -> (r: Option<String>)
    ensures
        vue_option_chaine(r) == vue_option_chaine(*o),
{
    match o {
        Some(s) => Some(s.clone()),
        None => None,
    }
}

impl Metadonnees {
    /// A copy with the same model.
    pub fn copier(&self) -> (r: Metadonnees)
        ensures
            r@ == self@,
    {
        match self {
            Metadonnees::Fichier { nom_fichier, taille } => Metadonnees::Fichier {
                nom_fichier: copier_option_chaine(nom_fichier),
                taille: *taille,
            },
            Metadonnees::Utilisateurs(v) => Metadonnees::Utilisateurs(copier_chaines(v)),
            Metadonnees::Reponse(id) => Metadonnees::Reponse(*id),
        }
    }
}

impl MessageWebSocket {
    /// A copy with the same model.
    pub fn copier(&self) -> (r: MessageWebSocket)
        ensures
            r@ == self@,
    {
        MessageWebSocket {
            id: self.id,
            type_message: self.type_message,
            utilisateur: copier_option_chaine(&self.utilisateur),
            contenu: copier_option_chaine(&self.contenu),
            donnees_binaires: match &self.donnees_binaires {
                Some(d) => Some(copier_octets(d)),
                None => None,
            },
            metadonnees: match &self.metadonnees {
                Some(m) => Some(m.copier()),
                None => None,
            },
            timestamp: self.timestamp,
        }
    }

    fn assembler(
        type_message: TypeMessageWs,
        utilisateur: Option<String>,
        contenu: Option<String>,
        donnees_binaires: Option<Vec<u8>>,
        metadonnees: Option<Metadonnees>,
    ) -> (r: Self)
        ensures
            r.type_message == type_message,
            r.utilisateur == utilisateur,
            r.contenu == contenu,
            r.donnees_binaires == donnees_binaires,
            r.metadonnees == metadonnees,
    {
        MessageWebSocket {
            id: nouvel_identifiant(),
            type_message,
            utilisateur,
            contenu,
            donnees_binaires,
            metadonnees,
            timestamp: horodatage_ms(),
        }
    }

    /// A chat envelope from `utilisateur`.
    pub fn nouveau_chat(utilisateur: String, contenu: String) -> (r: Self)
        ensures
            forme(r@, TypeMessageWs::Chat, Some(utilisateur@), Some(contenu@), None, None),
    {
        Self::assembler(TypeMessageWs::Chat, Some(utilisateur), Some(contenu), None, None)
    }

    /// A binary envelope; its metadata gives the file name, if any, and the
    /// number of bytes.
    pub fn nouveau_binaire(utilisateur: String, donnees: Vec<u8>, nom_fichier: Option<String>) -> (r: Self)
        ensures
            forme(
                r@,
                TypeMessageWs::Binaire,
                Some(utilisateur@),
                None,
                Some(donnees@),
                Some(MetaVue::Fichier(vue_option_chaine(nom_fichier), donnees@.len() as u64)),
            ),
    {
        let taille = donnees.len() as u64;
        let meta = Metadonnees::Fichier { nom_fichier, taille };
        Self::assembler(TypeMessageWs::Binaire, Some(utilisateur), None, Some(donnees), Some(meta))
    }

    /// The handshake envelope carrying a candidate name.
    pub fn nouvelle_connexion(utilisateur: String) -> (r: Self)
        ensures
            forme(r@, TypeMessageWs::Connexion, Some(utilisateur@), None, None, None),
    {
        Self::assembler(TypeMessageWs::Connexion, Some(utilisateur), None, None, None)
    }

    /// An explicit departure of `utilisateur`.
    pub fn nouvelle_deconnexion(utilisateur: String) -> (r: Self)
        ensures
            forme(r@, TypeMessageWs::Deconnexion, Some(utilisateur@), None, None, None),
    {
        Self::assembler(TypeMessageWs::Deconnexion, Some(utilisateur), None, None, None)
    }

    /// A server notification: no sender.
    pub fn nouvelle_notification(contenu: String) -> (r: Self)
        ensures
            forme(r@, TypeMessageWs::Notification, None, Some(contenu@), None, None),
    {
        Self::assembler(TypeMessageWs::Notification, None, Some(contenu), None, None)
    }

    /// A request for the list of connected users.
    pub fn nouvelle_demande_utilisateurs() -> (r: Self)
        ensures
            forme(r@, TypeMessageWs::DemandeUtilisateurs, None, None, None, None),
    {
        Self::assembler(TypeMessageWs::DemandeUtilisateurs, None, None, None, None)
    }

    /// The list of connected users, carried in the metadata.
    pub fn nouvelle_liste_utilisateurs(utilisateurs: Vec<String>) -> (r: Self)
        ensures
            forme(
                r@,
                TypeMessageWs::ListeUtilisateurs,
                None,
                None,
                None,
                Some(MetaVue::Utilisateurs(vue_chaines(utilisateurs@))),
            ),
    {
        Self::assembler(
            TypeMessageWs::ListeUtilisateurs,
            None,
            None,
            None,
            Some(Metadonnees::Utilisateurs(utilisateurs)),
        )
    }

    /// A liveness probe.
    pub fn nouveau_ping() -> (r: Self)
        ensures
            forme(r@, TypeMessageWs::Ping, None, None, None, None),
    {
        Self::assembler(TypeMessageWs::Ping, None, None, None, None)
    }

    /// The answer to the probe whose identifier is `ping_id`.
    pub fn nouveau_pong(ping_id: u128) -> (r: Self)
        ensures
            forme(r@, TypeMessageWs::Pong, None, None, None, Some(MetaVue::Reponse(ping_id))),
    {
        Self::assembler(TypeMessageWs::Pong, None, None, None, Some(Metadonnees::Reponse(ping_id)))
    }

    /// Whether the envelope travels in binary form.
    pub fn est_binaire(&self) -> (r: bool)
        ensures
            r == est_binaire_spec(self@),
    {
        self.type_message == TypeMessageWs::Binaire || self.donnees_binaires.is_some()
    }
}

/// Whether the writer of the connection named `destinataire` sends
/// `message` (no self-echo of chat or binary envelopes).
pub fn doit_livrer(message: &MessageWebSocket, destinataire: &str) -> (r: bool)
    ensures
        r == livrable(message@, destinataire@),
{
    let propre = match &message.utilisateur {
        Some(expediteur) => expediteur.eq(&destinataire.to_owned()),
        None => false,
    };
    !(propre && (message.type_message == TypeMessageWs::Chat || message.type_message
        == TypeMessageWs::Binaire))
}

} // verus!

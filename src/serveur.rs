use vstd::prelude::*;
use crate::commandes::{analyser_commande, commande_de, commence_par_barre, est_commande, Commande, CommandeVue};
use crate::diffuseur::{
    apres_desabonnement, publication, position_abonne, AbonneVue, Diffuseur, Reception,
};
use crate::externe::{ajouter, decimal, decimal_de};
use crate::message::{
    forme, vue_chaines, MessageVue, MessageWebSocket, MetaVue, Metadonnees, TypeMessageWs,
};
use crate::nom::ErreurNom;
use crate::registre::{
    issue_inscription, noms_apres_depart, ErreurInscription, Registre,
    Statistiques,
};

verus! {

/// Default bound on the envelopes waiting for one connection.
pub const CAPACITE_FILE: usize = 1000;

pub open spec fn est_notification(m: MessageVue, texte: Seq<char>) -> bool {
    forme(m, TypeMessageWs::Notification, None, Some(texte), None, None)
}

pub open spec fn aide() -> Seq<char> {
    "Commandes disponibles:\n/help - Affiche cette aide\n/users - Liste des utilisateurs connectés\n/stats - Statistiques du serveur\n/ping - Teste la connexion\n/quit - Se déconnecter"@
}

/// One line per name, each after a line break and a bullet.
pub open spec fn lignes(noms: Seq<Seq<char>>) -> Seq<char>
    decreases noms.len(),
{
    if noms.len() == 0 {
        Seq::empty()
    } else {
        lignes(noms.drop_last()) + "\n• "@ + noms.last()
    }
}

pub open spec fn texte_utilisateurs(noms: Seq<Seq<char>>) -> Seq<char> {
    "Utilisateurs connectés ("@ + decimal_de(noms.len()) + "):"@ + lignes(noms)
}

pub open spec fn texte_statistiques(actifs: nat, total: nat, noms: Seq<Seq<char>>) -> Seq<char> {
    "Statistiques du serveur:\nutilisateurs_connectes: "@ + decimal_de(actifs)
        + "\ntotal_connexions: "@ + decimal_de(total) + "\nutilisateurs:"@ + lignes(noms)
}

pub open spec fn texte_inconnue(mot: Seq<char>) -> Seq<char> {
    "Commande inconnue: "@ + mot + ". Tapez /help pour l'aide."@
}

pub open spec fn texte_arrivee(nom: Seq<char>, n: nat) -> Seq<char> {
    nom + " a rejoint le chat ("@ + decimal_de(n) + " utilisateurs connectés)"@
}

pub open spec fn texte_depart(nom: Seq<char>) -> Seq<char> {
    nom + " a quitté le chat"@
}

pub open spec fn texte_bienvenue(nom: Seq<char>) -> Seq<char> {
    "Bienvenue "@ + nom + " ! Vous êtes connecté au chat."@
}

pub open spec fn texte_refus(e: ErreurInscription, nom: Seq<char>) -> Seq<char> {
    "Erreur de connexion: "@ + match e {
        ErreurInscription::NomInvalide(ErreurNom::Vide) => "Le nom d'utilisateur ne peut pas être vide"@,
        ErreurInscription::NomInvalide(ErreurNom::TropLong) => "Le nom d'utilisateur ne peut pas dépasser 50 octets"@,
        ErreurInscription::NomInvalide(ErreurNom::ContientEspace) => "Le nom d'utilisateur ne peut pas contenir d'espaces"@,
        ErreurInscription::NomPris => "L'utilisateur '"@ + nom + "' est déjà connecté"@,
    }
}

pub open spec fn texte_sans_connexion() -> Seq<char> {
    "Connexion requise avant l'envoi de messages"@
}

pub open spec fn texte_sans_nom() -> Seq<char> {
    "Nom d'utilisateur requis pour la connexion"@
}

pub open spec fn texte_complet() -> Seq<char> {
    "Serveur complet"@
}

/// What handling one envelope or command asks of the connection: envelopes
/// for this client only, at most one envelope published to everyone, and
/// whether to close.
#[derive(Debug)]
pub struct Reaction {
    pub reponses: Vec<MessageWebSocket>,
    pub diffusion: Option<MessageWebSocket>,
    pub fermer: bool,
}

/// A single notification for this client, nothing published, no closing.
pub open spec fn repond(r: Reaction, texte: Seq<char>) -> bool {
    &&& r.reponses@.len() == 1
    &&& est_notification(r.reponses@[0]@, texte)
    &&& r.diffusion is None
    &&& !r.fermer
}

/// What a slash command `c` asks, given the active names and the counter.
pub open spec fn reaction_commande(
    r: Reaction,
    c: Seq<char>,
    noms: Seq<Seq<char>>,
    compteur: nat,
) -> bool {
    match commande_de(c) {
        CommandeVue::Aide => repond(r, aide()),
        CommandeVue::Utilisateurs => repond(r, texte_utilisateurs(noms)),
        CommandeVue::Statistiques => repond(r, texte_statistiques(noms.len(), compteur, noms)),
        CommandeVue::Ping => publie(
            r,
            |d: MessageVue| forme(d, TypeMessageWs::Ping, None, None, None, None),
        ),
        CommandeVue::Quitter => r.reponses@.len() == 0 && r.diffusion is None && r.fermer,
        CommandeVue::Inconnue(mot) => repond(r, texte_inconnue(mot)),
    }
}

/// Nothing to answer, publish or close.
pub open spec fn sans_effet(r: Reaction) -> bool {
    r.reponses@.len() == 0 && r.diffusion is None && !r.fermer
}

/// One envelope published to everyone, nothing else.
pub open spec fn publie(r: Reaction, m: spec_fn(MessageVue) -> bool) -> bool {
    &&& r.reponses@.len() == 0
    &&& r.diffusion matches Some(d) && m(d@)
    &&& !r.fermer
}

/// Outcome of the handshake.
#[derive(Debug)]
pub enum Authentification {
    /// The session is registered and subscribed; `bienvenue` goes to the
    /// client, `annonce` was published to everyone.
    Acceptee {
        nom: String,
        id_session: String,
        abonnement: u64,
        bienvenue: MessageWebSocket,
        annonce: MessageWebSocket,
    },
    /// Refused; the notification goes to the client, then the connection
    /// closes.
    Refusee(MessageWebSocket),
}

/// The state that all connections share: the session registry and the
/// broadcaster.
pub struct EtatServeur {
    registre: Registre,
    diffuseur: Diffuseur,
}

impl EtatServeur {
    pub closed spec fn noms(&self) -> Seq<Seq<char>> {
        self.registre.noms()
    }

    pub closed spec fn compteur(&self) -> nat {
        self.registre.compteur()
    }

    pub closed spec fn abonnes(&self) -> Seq<AbonneVue> {
        self.diffuseur.abonnes()
    }

    pub closed spec fn capacite(&self) -> nat {
        self.diffuseur.capacite()
    }

    /// Some identifier is still free for a new subscription.
    pub closed spec fn ids_disponibles(&self) -> bool {
        self.diffuseur.ids_disponibles()
    }

    pub closed spec fn bien_forme(&self) -> bool {
        &&& self.registre.bien_forme()
        &&& self.diffuseur.bien_forme()
        &&& self.diffuseur.interne()
    }

    /// No session, no subscription; queues hold at most `capacite`
    /// envelopes.
    pub fn new(capacite: usize) -> (r: Self)
        ensures
            r.bien_forme(),
            r.noms() == Seq::<Seq<char>>::empty(),
            r.compteur() == 0,
            r.abonnes() == Seq::<AbonneVue>::empty(),
            r.capacite() == capacite,
    {
        EtatServeur { registre: Registre::new(), diffuseur: Diffuseur::new(capacite) }
    }

    /// Names of the active sessions.
    pub fn liste_noms(&self) -> (r: Vec<String>)
        ensures
            vue_chaines(r@) == self.noms(),
    {
        self.registre.obtenir_liste_utilisateurs()
    }

    /// Registry counters; the total is never below the active count.
    pub fn statistiques(&self) -> (r: Statistiques)
        requires
            self.bien_forme(),
        ensures
            r.utilisateurs_connectes == self.noms().len(),
            r.total_connexions == self.compteur(),
            vue_chaines(r.utilisateurs@) == self.noms(),
            r.total_connexions >= r.utilisateurs_connectes,
    {
        self.registre.obtenir_statistiques()
    }

    /// A new subscription with an empty queue (see `Diffuseur::abonner`).
    pub fn abonner(&mut self) -> (r: Option<u64>)
        requires
            old(self).bien_forme(),
        ensures
            final(self).bien_forme(),
            final(self).noms() == old(self).noms(),
            final(self).compteur() == old(self).compteur(),
            final(self).capacite() == old(self).capacite(),
            r is Some <==> old(self).ids_disponibles(),
            match r {
                Some(id) => {
                    &&& position_abonne(old(self).abonnes(), id) is None
                    &&& final(self).abonnes() == old(self).abonnes().push(
                        AbonneVue { id, file: Seq::empty(), deborde: false },
                    )
                },
                None => final(self).abonnes() == old(self).abonnes(),
            },
    {
        self.diffuseur.abonner()
    }

    /// Publishes `m` to every subscription (see `Diffuseur::publier`).
    pub fn diffuser_message(&mut self, m: &MessageWebSocket)
        requires
            old(self).bien_forme(),
        ensures
            final(self).bien_forme(),
            final(self).noms() == old(self).noms(),
            final(self).compteur() == old(self).compteur(),
            final(self).capacite() == old(self).capacite(),
            final(self).abonnes() == publication(old(self).abonnes(), old(self).capacite(), m@),
    {
        self.diffuseur.publier(m)
    }

    /// Takes the oldest envelope waiting for subscription `abonnement`
    /// (see `Diffuseur::recevoir`).
    pub fn recevoir(&mut self, abonnement: u64) -> (r: Reception)
        requires
            old(self).bien_forme(),
        ensures
            final(self).bien_forme(),
            final(self).noms() == old(self).noms(),
            final(self).compteur() == old(self).compteur(),
            final(self).capacite() == old(self).capacite(),
            match position_abonne(old(self).abonnes(), abonnement) {
                None => r is Inconnu && final(self).abonnes() == old(self).abonnes(),
                Some(i) => {
                    let a = old(self).abonnes()[i];
                    if a.deborde {
                        r is Deborde && final(self).abonnes() == old(self).abonnes()
                    } else if a.file.len() == 0 {
                        r is Vide && final(self).abonnes() == old(self).abonnes()
                    } else {
                        &&& r matches Reception::Message(m) && m@ == a.file[0]
                        &&& final(self).abonnes() == old(self).abonnes().update(
                            i,
                            AbonneVue { id: abonnement, file: a.file.drop_first(), deborde: false },
                        )
                    }
                },
            },
    {
        self.diffuseur.recevoir(abonnement)
    }
}

fn ecrire_lignes(s: &mut String, noms: &Vec<String>)
    ensures
        final(s)@ == old(s)@ + lignes(vue_chaines(noms@)),
{
    let ghost v = vue_chaines(noms@);
    assert(v.subrange(0, 0) =~= Seq::<Seq<char>>::empty());
    assert(s@ =~= old(s)@ + lignes(v.subrange(0, 0)));
    for i in 0..noms.len()
        invariant
            v == vue_chaines(noms@),
            s@ == old(s)@ + lignes(v.subrange(0, i as int)),
    {
        ajouter(s, "\n• ");
        ajouter(s, noms[i].as_str());
        assert(v.subrange(0, i + 1).drop_last() =~= v.subrange(0, i as int));
        assert(v.subrange(0, i + 1).last() == noms@[i as int]@);
        assert(s@ =~= old(s)@ + lignes(v.subrange(0, i + 1)));
    }
    assert(v.subrange(0, v.len() as int) =~= v);
}

fn notification(texte: String) -> (r: Vec<MessageWebSocket>)
    ensures
        r@.len() == 1,
        est_notification(r@[0]@, texte@),
{
    let mut v: Vec<MessageWebSocket> = Vec::new();
    v.push(MessageWebSocket::nouvelle_notification(texte));
    v
}

impl EtatServeur {
    /// Carries out a slash command for the issuing client: help, the user
    /// list and the counters are answered to that client only, an unknown
    /// command is named back to it, `/ping` publishes a probe to everyone,
    /// `/quit` closes the connection.
    pub fn traiter_commande(&mut self, commande: &str) -> (r: Reaction)
        requires
            old(self).bien_forme(),
        ensures
            final(self).bien_forme(),
            final(self).noms() == old(self).noms(),
            final(self).compteur() == old(self).compteur(),
            final(self).capacite() == old(self).capacite(),
            match r.diffusion {
                Some(d) => final(self).abonnes() == publication(
                    old(self).abonnes(),
                    old(self).capacite(),
                    d@,
                ),
                None => final(self).abonnes() == old(self).abonnes(),
            },
            reaction_commande(r, commande@, old(self).noms(), old(self).compteur()),
    {
        match analyser_commande(commande) {
            Commande::Aide => {
                let t = "Commandes disponibles:\n/help - Affiche cette aide\n/users - Liste des utilisateurs connectés\n/stats - Statistiques du serveur\n/ping - Teste la connexion\n/quit - Se déconnecter";
                Reaction { reponses: notification(t.to_owned()), diffusion: None, fermer: false }
            },
            Commande::Utilisateurs => {
                let noms = self.registre.obtenir_liste_utilisateurs();
                let mut t = "Utilisateurs connectés (".to_owned();
                ajouter(&mut t, decimal(noms.len() as u64).as_str());
                ajouter(&mut t, "):");
                ecrire_lignes(&mut t, &noms);
                Reaction { reponses: notification(t), diffusion: None, fermer: false }
            },
            Commande::Statistiques => {
                let stats = self.registre.obtenir_statistiques();
                let mut t = "Statistiques du serveur:\nutilisateurs_connectes: ".to_owned();
                ajouter(&mut t, decimal(stats.utilisateurs_connectes).as_str());
                ajouter(&mut t, "\ntotal_connexions: ");
                ajouter(&mut t, decimal(stats.total_connexions).as_str());
                ajouter(&mut t, "\nutilisateurs:");
                ecrire_lignes(&mut t, &stats.utilisateurs);
                Reaction { reponses: notification(t), diffusion: None, fermer: false }
            },
            Commande::Ping => {
                let ping = MessageWebSocket::nouveau_ping();
                self.diffuseur.publier(&ping);
                Reaction { reponses: Vec::new(), diffusion: Some(ping), fermer: false }
            },
            Commande::Quitter => Reaction { reponses: Vec::new(), diffusion: None, fermer: true },
            Commande::Inconnue(mot) => {
                let mut t = "Commande inconnue: ".to_owned();
                ajouter(&mut t, mot.as_str());
                ajouter(&mut t, ". Tapez /help pour l'aide.");
                Reaction { reponses: notification(t), diffusion: None, fermer: false }
            },
        }
    }
}

/// File name that the metadata of a binary envelope gives, if any.
pub open spec fn fichier_de(meta: Option<MetaVue>) -> Option<Seq<char>> {
    match meta {
        Some(MetaVue::Fichier(nom, _)) => nom,
        _ => None,
    }
}

fn fichier_exec(meta: Option<Metadonnees>) -> (r: Option<String>)
    ensures
        crate::message::vue_option_chaine(r) == fichier_de(crate::message::vue_option_meta(meta)),
{
    match meta {
        Some(Metadonnees::Fichier { nom_fichier, .. }) => nom_fichier,
        _ => None,
    }
}

impl EtatServeur {
    /// Routes one envelope of the authenticated client `nom`: commands to
    /// the command processor, chat text and bytes published to everyone in
    /// the client's name, a user-list request and a probe answered to this
    /// client only (the answer to a probe names the probe's identifier), a
    /// departure closes the connection; anything else is ignored.
    pub fn traiter_message_client(&mut self, nom: &str, message: MessageWebSocket) -> (r: Reaction)
        requires
            old(self).bien_forme(),
        ensures
            final(self).bien_forme(),
            final(self).noms() == old(self).noms(),
            final(self).compteur() == old(self).compteur(),
            final(self).capacite() == old(self).capacite(),
            match r.diffusion {
                Some(d) => final(self).abonnes() == publication(
                    old(self).abonnes(),
                    old(self).capacite(),
                    d@,
                ),
                None => final(self).abonnes() == old(self).abonnes(),
            },
            match message@.type_message {
                TypeMessageWs::Chat => match message@.contenu {
                    Some(c) => if est_commande(c) {
                        reaction_commande(r, c, old(self).noms(), old(self).compteur())
                    } else {
                        publie(
                            r,
                            |d: MessageVue|
                                forme(d, TypeMessageWs::Chat, Some(nom@), Some(c), None, None),
                        )
                    },
                    None => sans_effet(r),
                },
                TypeMessageWs::Binaire => match message@.donnees_binaires {
                    Some(o) => publie(
                        r,
                        |d: MessageVue|
                            forme(
                                d,
                                TypeMessageWs::Binaire,
                                Some(nom@),
                                None,
                                Some(o),
                                Some(MetaVue::Fichier(fichier_de(message@.metadonnees), o.len() as u64)),
                            ),
                    ),
                    None => sans_effet(r),
                },
                TypeMessageWs::DemandeUtilisateurs => {
                    &&& r.reponses@.len() == 1
                    &&& forme(
                        r.reponses@[0]@,
                        TypeMessageWs::ListeUtilisateurs,
                        None,
                        None,
                        None,
                        Some(MetaVue::Utilisateurs(old(self).noms())),
                    )
                    &&& r.diffusion is None
                    &&& !r.fermer
                },
                TypeMessageWs::Ping => {
                    &&& r.reponses@.len() == 1
                    &&& forme(
                        r.reponses@[0]@,
                        TypeMessageWs::Pong,
                        None,
                        None,
                        None,
                        Some(MetaVue::Reponse(message@.id)),
                    )
                    &&& r.diffusion is None
                    &&& !r.fermer
                },
                TypeMessageWs::Deconnexion => r.reponses@.len() == 0 && r.diffusion is None
                    && r.fermer,
                _ => sans_effet(r),
            },
    {
        let rien = Reaction { reponses: Vec::new(), diffusion: None, fermer: false };
        match message.type_message {
            TypeMessageWs::Chat => match message.contenu {
                Some(contenu) => {
                    if commence_par_barre(contenu.as_str()) {
                        self.traiter_commande(contenu.as_str())
                    } else {
                        let chat = MessageWebSocket::nouveau_chat(nom.to_owned(), contenu);
                        self.diffuseur.publier(&chat);
                        Reaction { reponses: Vec::new(), diffusion: Some(chat), fermer: false }
                    }
                },
                None => rien,
            },
            TypeMessageWs::Binaire => match message.donnees_binaires {
                Some(donnees) => {
                    let nom_fichier = fichier_exec(message.metadonnees);
                    let binaire = MessageWebSocket::nouveau_binaire(nom.to_owned(), donnees, nom_fichier);
                    self.diffuseur.publier(&binaire);
                    Reaction { reponses: Vec::new(), diffusion: Some(binaire), fermer: false }
                },
                None => rien,
            },
            TypeMessageWs::DemandeUtilisateurs => {
                let liste = self.registre.obtenir_liste_utilisateurs();
                let mut reponses: Vec<MessageWebSocket> = Vec::new();
                reponses.push(MessageWebSocket::nouvelle_liste_utilisateurs(liste));
                Reaction { reponses, diffusion: None, fermer: false }
            },
            TypeMessageWs::Ping => {
                let mut reponses: Vec<MessageWebSocket> = Vec::new();
                reponses.push(MessageWebSocket::nouveau_pong(message.id));
                Reaction { reponses, diffusion: None, fermer: false }
            },
            TypeMessageWs::Deconnexion => Reaction { reponses: Vec::new(), diffusion: None, fermer: true },
            _ => rien,
        }
    }
}

/// The refusal text that the first envelope of a connection meets, given
/// the active names; none when only the subscription remains to be made.
pub open spec fn refus_attendu(premier: MessageVue, noms: Seq<Seq<char>>) -> Option<Seq<char>> {
    if premier.type_message != TypeMessageWs::Connexion {
        Some(texte_sans_connexion())
    } else {
        match premier.utilisateur {
            None => Some(texte_sans_nom()),
            Some(n) => match issue_inscription(noms, n) {
                Some(e) => Some(texte_refus(e, n)),
                None => None,
            },
        }
    }
}

fn texte_refus_exec(e: ErreurInscription, nom: &str) -> (r: String)
    ensures
        r@ == texte_refus(e, nom@),
{
    let mut t = "Erreur de connexion: ".to_owned();
    match e {
        ErreurInscription::NomInvalide(ErreurNom::Vide) => {
            ajouter(&mut t, "Le nom d'utilisateur ne peut pas être vide");
        },
        ErreurInscription::NomInvalide(ErreurNom::TropLong) => {
            ajouter(&mut t, "Le nom d'utilisateur ne peut pas dépasser 50 octets");
        },
        ErreurInscription::NomInvalide(ErreurNom::ContientEspace) => {
            ajouter(&mut t, "Le nom d'utilisateur ne peut pas contenir d'espaces");
        },
        ErreurInscription::NomPris => {
            ajouter(&mut t, "L'utilisateur '");
            ajouter(&mut t, nom);
            ajouter(&mut t, "' est déjà connecté");
            assert(t@ =~= texte_refus(e, nom@));
        },
    }
    t
}

impl EtatServeur {
    /// Handshake: the first envelope of a connection must be a `Connexion`
    /// carrying a valid, free name. The session is then registered and
    /// subscribed, and the arrival is announced to everyone, the newcomer
    /// included. Otherwise the connection gets a notification saying why,
    /// and nothing changes.
    pub fn authentifier(&mut self, premier: MessageWebSocket, adresse: String) -> (r: Authentification)
        requires
            old(self).bien_forme(),
        ensures
            final(self).bien_forme(),
            final(self).capacite() == old(self).capacite(),
            match refus_attendu(premier@, old(self).noms()) {
                Some(t) => r matches Authentification::Refusee(m) && est_notification(m@, t),
                None => old(self).ids_disponibles() ==> r is Acceptee,
            },
            match r {
                Authentification::Acceptee { nom, abonnement, bienvenue, annonce, .. } => {
                    &&& refus_attendu(premier@, old(self).noms()) is None
                    &&& premier@.utilisateur == Some(nom@)
                    &&& final(self).noms() == old(self).noms().push(nom@)
                    &&& final(self).compteur() >= old(self).compteur()
                    &&& position_abonne(old(self).abonnes(), abonnement) is None
                    &&& est_notification(bienvenue@, texte_bienvenue(nom@))
                    &&& est_notification(annonce@, texte_arrivee(nom@, final(self).noms().len()))
                    &&& final(self).abonnes() == publication(
                        old(self).abonnes().push(
                            AbonneVue { id: abonnement, file: Seq::empty(), deborde: false },
                        ),
                        old(self).capacite(),
                        annonce@,
                    )
                },
                Authentification::Refusee(m) => {
                    &&& final(self).noms() == old(self).noms()
                    &&& final(self).abonnes() == old(self).abonnes()
                    &&& final(self).compteur() >= old(self).compteur()
                    &&& refus_attendu(premier@, old(self).noms()) is Some ==> final(self).compteur()
                        == old(self).compteur()
                    &&& refus_attendu(premier@, old(self).noms()) is None ==> est_notification(
                        m@,
                        texte_complet(),
                    )
                },
            },
    {
        if premier.type_message != TypeMessageWs::Connexion {
            let t = "Connexion requise avant l'envoi de messages".to_owned();
            return Authentification::Refusee(MessageWebSocket::nouvelle_notification(t));
        }
        let nom = match premier.utilisateur {
            Some(nom) => nom,
            None => {
                let t = "Nom d'utilisateur requis pour la connexion".to_owned();
                return Authentification::Refusee(MessageWebSocket::nouvelle_notification(t));
            },
        };
        let id_session = match self.registre.ajouter_utilisateur(nom.clone(), adresse) {
            Ok(id) => id,
            Err(e) => {
                let t = texte_refus_exec(e, nom.as_str());
                return Authentification::Refusee(MessageWebSocket::nouvelle_notification(t));
            },
        };
        let abonnement = match self.diffuseur.abonner() {
            Some(id) => id,
            None => {
                let _ = self.registre.supprimer_utilisateur(nom.as_str());
                proof {
                    assert(old(self).noms().push(nom@).filter(crate::registre::autre_que(nom@))
                        == old(self).noms()) by {
                        lemme_retrait_dernier(old(self).noms(), nom@);
                    }
                }
                let t = "Serveur complet".to_owned();
                return Authentification::Refusee(MessageWebSocket::nouvelle_notification(t));
            },
        };
        let n = self.registre.nombre_utilisateurs();
        let mut texte = nom.clone();
        ajouter(&mut texte, " a rejoint le chat (");
        ajouter(&mut texte, decimal(n as u64).as_str());
        ajouter(&mut texte, " utilisateurs connectés)");
        let annonce = MessageWebSocket::nouvelle_notification(texte);
        self.diffuseur.publier(&annonce);
        let mut salut = "Bienvenue ".to_owned();
        ajouter(&mut salut, nom.as_str());
        ajouter(&mut salut, " ! Vous êtes connecté au chat.");
        let bienvenue = MessageWebSocket::nouvelle_notification(salut);
        Authentification::Acceptee { nom, id_session, abonnement, bienvenue, annonce }
    }

    /// Closing: the session named `nom` leaves the registry and the
    /// subscription `abonnement` ends; when the name was registered, its
    /// departure is announced to every remaining subscription. Closing
    /// again does nothing.
    pub fn deconnecter(&mut self, nom: &str, abonnement: u64) -> (r: Option<MessageWebSocket>)
        requires
            old(self).bien_forme(),
        ensures
            final(self).bien_forme(),
            final(self).capacite() == old(self).capacite(),
            final(self).compteur() == old(self).compteur(),
            final(self).noms() == noms_apres_depart(old(self).noms(), nom@),
            match r {
                Some(m) => {
                    &&& old(self).noms().contains(nom@)
                    &&& est_notification(m@, texte_depart(nom@))
                    &&& final(self).abonnes() == publication(
                        apres_desabonnement(old(self).abonnes(), abonnement),
                        old(self).capacite(),
                        m@,
                    )
                },
                None => {
                    &&& !old(self).noms().contains(nom@)
                    &&& final(self).abonnes() == apres_desabonnement(old(self).abonnes(), abonnement)
                },
            },
    {
        let present = self.registre.supprimer_utilisateur(nom);
        self.diffuseur.desabonner(abonnement);
        if present {
            let mut texte = nom.to_owned();
            ajouter(&mut texte, " a quitté le chat");
            let annonce = MessageWebSocket::nouvelle_notification(texte);
            self.diffuseur.publier(&annonce);
            Some(annonce)
        } else {
            None
        }
    }
}

proof fn lemme_retrait_dernier(noms: Seq<Seq<char>>, nom: Seq<char>)
    requires
        !noms.contains(nom),
    ensures
        noms.push(nom).filter(crate::registre::autre_que(nom)) == noms,
{
    reveal_with_fuel(Seq::filter, 1);
    assert(noms.push(nom).drop_last() =~= noms);
    crate::registre::lemme_filtre_absent(noms, nom);
}

/// After a client named `nom` disconnects, its name is gone from the
/// active names, the other names stay, and every remaining live
/// subscription with room queues the departure notification last.
pub proof fn lemme_depart(
    noms: Seq<Seq<char>>,
    nom: Seq<char>,
    s: Seq<AbonneVue>,
    capacite: nat,
    abonnement: u64,
    annonce: MessageVue,
)
    requires
        noms.contains(nom),
        est_notification(annonce, texte_depart(nom)),
    ensures
        !noms_apres_depart(noms, nom).contains(nom),
        forall|n: Seq<char>|
            n != nom ==> (noms_apres_depart(noms, nom).contains(n) <==> noms.contains(n)),
        ({
            let reste = apres_desabonnement(s, abonnement);
            let apres = publication(reste, capacite, annonce);
            &&& apres.len() == reste.len()
            &&& forall|i: int|
                0 <= i < reste.len() && !reste[i].deborde && reste[i].file.len() < capacite
                    ==> (#[trigger] apres[i]).file.last() == annonce
        }),
{
    let f = crate::registre::autre_que(nom);
    let d = noms.filter(f);
    assert forall|n: Seq<char>| #[trigger] d.contains(n) <==> (noms.contains(n) && f(n)) by {
        if d.contains(n) {
            noms.lemma_filter_contains_rev(f, n);
            let k = choose|k: int| 0 <= k < d.len() && d[k] == n;
            noms.filter_lemma(f);
            assert(f(d[k]));
        }
        if noms.contains(n) && f(n) {
            let k = choose|k: int| 0 <= k < noms.len() && noms[k] == n;
            noms.lemma_filter_contains(f, k);
        }
    }
}

} // verus!

use vstd::prelude::*;
use crate::diffuseur::{position_abonne, Reception};
use crate::message::{doit_livrer, livrable, MessageWebSocket, TypeMessageWs, forme};
use crate::registre::noms_apres_depart;
use crate::serveur::{refus_attendu, Authentification, EtatServeur, Reaction};

verus! {

/// Where a connection stands once its transport is up.
#[derive(Debug)]
pub enum Phase {
    /// Waiting for the `Connexion` envelope.
    Authentification,
    /// Registered as `nom`, reading through subscription `abonnement`.
    Active { nom: String, abonnement: u64 },
    /// Finished: the registry and the broadcaster no longer know it.
    Fermee,
}

pub enum PhaseVue {
    Authentification,
    Active(Seq<char>, u64),
    Fermee,
}

impl View for Phase {
    type V = PhaseVue;

    open spec fn view(&self) -> PhaseVue {
        match self {
            Phase::Authentification => PhaseVue::Authentification,
            Phase::Active { nom, abonnement } => PhaseVue::Active(nom@, *abonnement),
            Phase::Fermee => PhaseVue::Fermee,
        }
    }
}

/// What the transport reports to the reader of a connection.
#[derive(Debug)]
pub enum Evenement {
    /// A frame holding an envelope.
    Trame(MessageWebSocket),
    /// A frame whose payload is no envelope.
    TrameInvalide,
    /// Nothing arrived in time: during the handshake this ends the
    /// connection, later it calls for a probe.
    Delai,
    /// The peer closed, or reading or writing failed.
    Coupure,
}

/// One connection's side of the protocol.
#[derive(Debug)]
pub struct Connexion {
    pub phase: Phase,
    /// Peer address, for information only.
    pub adresse: String,
}

/// Whether the writer of a connection named `nom` sends the next envelope
/// of its subscription, waits, or closes because the subscription fell too
/// far behind.
#[derive(Debug)]
pub enum Ecriture {
    /// Send this envelope to the client.
    Envoyer(MessageWebSocket),
    /// The next envelope was the client's own chat or bytes: dropped.
    Ignorer,
    /// Nothing is waiting.
    Attendre,
    /// Close the connection.
    Fermer,
}

impl Connexion {
    /// A connection whose transport handshake succeeded.
    pub fn new(adresse: String) -> (r: Self)
        ensures
            r.phase@ == PhaseVue::Authentification,
            r.adresse@ == adresse@,
    {
        Connexion { phase: Phase::Authentification, adresse }
    }

    pub fn est_fermee(&self) -> (r: bool)
        ensures
            r == (self.phase@ == PhaseVue::Fermee),
    {
        match self.phase {
            Phase::Fermee => true,
            _ => false,
        }
    }

    fn fermer(&mut self, etat: &mut EtatServeur)
        requires
            old(etat).bien_forme(),
        ensures
            final(etat).bien_forme(),
            final(self).phase@ == PhaseVue::Fermee,
            final(self).adresse == old(self).adresse,
            match old(self).phase@ {
                PhaseVue::Active(nom, _) => final(etat).noms() == noms_apres_depart(
                    old(etat).noms(),
                    nom,
                ),
                _ => final(etat).noms() == old(etat).noms(),
            },
    {
        let mut phase = Phase::Fermee;
        std::mem::swap(&mut self.phase, &mut phase);
        match phase {
            Phase::Active { nom, abonnement } => {
                let _ = etat.deconnecter(nom.as_str(), abonnement);
            },
            _ => {},
        }
    }

    /// Handles one reader event and returns the envelopes to send to this
    /// client, in order.
    /// - Handshake: an envelope goes through `EtatServeur::authentifier`;
    ///   acceptance makes the connection active and sends the welcome,
    ///   refusal sends the reason and closes. Anything else closes.
    /// - Active: an envelope goes through `traiter_message_client` and its
    ///   answers are sent; a departure or `/quit` closes. A malformed frame
    ///   is skipped. A silent period sends a probe. A cut closes.
    /// - Closing unregisters the name and ends the subscription; a closed
    ///   connection ignores every event.
    pub fn evenement(&mut self, etat: &mut EtatServeur, evt: Evenement) -> (r: Vec<
        MessageWebSocket,
    >)
        requires
            old(etat).bien_forme(),
        ensures
            final(etat).bien_forme(),
            final(self).adresse == old(self).adresse,
            match (old(self).phase@, evt) {
                (PhaseVue::Fermee, _) => {
                    &&& final(self).phase@ == PhaseVue::Fermee
                    &&& r@.len() == 0
                    &&& final(etat).noms() == old(etat).noms()
                    &&& final(etat).abonnes() == old(etat).abonnes()
                },
                (PhaseVue::Authentification, Evenement::Trame(m)) => {
                    &&& refus_attendu(m@, old(etat).noms()) is Some ==> final(self).phase@
                        == PhaseVue::Fermee
                    &&& (refus_attendu(m@, old(etat).noms()) is None && old(etat).ids_disponibles())
                        ==> final(self).phase@ is Active
                    &&& match final(self).phase@ {
                        PhaseVue::Active(nom, _) => {
                            &&& m@.utilisateur == Some(nom)
                            &&& final(etat).noms() == old(etat).noms().push(nom)
                            &&& r@.len() == 1
                        },
                        PhaseVue::Fermee => final(etat).noms() == old(etat).noms() && r@.len() == 1,
                        PhaseVue::Authentification => false,
                    }
                },
                (PhaseVue::Authentification, _) => {
                    &&& final(self).phase@ == PhaseVue::Fermee
                    &&& r@.len() == 0
                    &&& final(etat).noms() == old(etat).noms()
                },
                (PhaseVue::Active(nom, ab), Evenement::Trame(m)) => {
                    &&& final(self).phase@ == PhaseVue::Fermee || final(self).phase@
                        == PhaseVue::Active(nom, ab)
                    &&& final(self).phase@ == PhaseVue::Fermee ==> final(etat).noms()
                        == noms_apres_depart(old(etat).noms(), nom)
                    &&& final(self).phase@ != PhaseVue::Fermee ==> final(etat).noms()
                        == old(etat).noms()
                    &&& m@.type_message == TypeMessageWs::Deconnexion ==> final(self).phase@
                        == PhaseVue::Fermee
                    &&& m@.type_message == TypeMessageWs::Ping ==> {
                        &&& final(self).phase@ == PhaseVue::Active(nom, ab)
                        &&& r@.len() == 1
                        &&& r@[0].type_message == TypeMessageWs::Pong
                        &&& final(etat).abonnes() == old(etat).abonnes()
                    }
                },
                (PhaseVue::Active(nom, ab), Evenement::TrameInvalide) => {
                    &&& final(self).phase@ == PhaseVue::Active(nom, ab)
                    &&& r@.len() == 0
                    &&& final(etat).noms() == old(etat).noms()
                    &&& final(etat).abonnes() == old(etat).abonnes()
                },
                (PhaseVue::Active(nom, ab), Evenement::Delai) => {
                    &&& final(self).phase@ == PhaseVue::Active(nom, ab)
                    &&& r@.len() == 1
                    &&& forme(r@[0]@, TypeMessageWs::Ping, None, None, None, None)
                    &&& final(etat).noms() == old(etat).noms()
                    &&& final(etat).abonnes() == old(etat).abonnes()
                },
                (PhaseVue::Active(nom, _), Evenement::Coupure) => {
                    &&& final(self).phase@ == PhaseVue::Fermee
                    &&& r@.len() == 0
                    &&& final(etat).noms() == noms_apres_depart(old(etat).noms(), nom)
                },
            },
    {
        let mut envois: Vec<MessageWebSocket> = Vec::new();
        match self.phase {
            Phase::Fermee => {},
            Phase::Authentification => match evt {
                Evenement::Trame(m) => {
                    let adresse = self.adresse.clone();
                    match etat.authentifier(m, adresse) {
                        Authentification::Acceptee { nom, abonnement, bienvenue, .. } => {
                            envois.push(bienvenue);
                            self.phase = Phase::Active { nom, abonnement };
                        },
                        Authentification::Refusee(raison) => {
                            envois.push(raison);
                            self.phase = Phase::Fermee;
                        },
                    }
                },
                _ => {
                    self.phase = Phase::Fermee;
                },
            },
            Phase::Active { .. } => match evt {
                Evenement::Trame(m) => {
                    let nom = match &self.phase {
                        Phase::Active { nom, .. } => nom.clone(),
                        _ => String::new(),
                    };
                    let reaction: Reaction = etat.traiter_message_client(nom.as_str(), m);
                    envois = reaction.reponses;
                    if reaction.fermer {
                        self.fermer(etat);
                    }
                },
                Evenement::TrameInvalide => {},
                Evenement::Delai => {
                    envois.push(MessageWebSocket::nouveau_ping());
                },
                Evenement::Coupure => {
                    self.fermer(etat);
                },
            },
        }
        envois
    }

    /// The writer's decision for the next envelope of this connection's
    /// subscription: own chat and binary envelopes are dropped, a cut-off
    /// subscription closes the connection.
    pub fn ecriture(&self, etat: &mut EtatServeur) -> (r: Ecriture)
        requires
            old(etat).bien_forme(),
        ensures
            final(etat).bien_forme(),
            final(etat).noms() == old(etat).noms(),
            match self.phase@ {
                PhaseVue::Active(nom, ab) => match position_abonne(old(etat).abonnes(), ab) {
                    None => r is Fermer,
                    Some(i) => {
                        let a = old(etat).abonnes()[i];
                        if a.deborde {
                            r is Fermer
                        } else if a.file.len() == 0 {
                            r is Attendre
                        } else {
                            &&& final(etat).abonnes()[i].file == a.file.drop_first()
                            &&& match r {
                                Ecriture::Envoyer(m) => m@ == a.file[0] && livrable(m@, nom),
                                Ecriture::Ignorer => !livrable(a.file[0], nom),
                                _ => false,
                            }
                        }
                    },
                },
                _ => r is Fermer && final(etat).abonnes() == old(etat).abonnes(),
            },
    {
        match &self.phase {
            Phase::Active { nom, abonnement } => {
                match etat.recevoir(*abonnement) {
                    Reception::Message(m) => {
                        if doit_livrer(&m, nom.as_str()) {
                            Ecriture::Envoyer(m)
                        } else {
                            Ecriture::Ignorer
                        }
                    },
                    Reception::Vide => Ecriture::Attendre,
                    Reception::Deborde => Ecriture::Fermer,
                    Reception::Inconnu => Ecriture::Fermer,
                }
            },
            _ => Ecriture::Fermer,
        }
    }
}

} // verus!

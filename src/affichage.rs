use vstd::prelude::*;
use crate::externe::{ajouter, decimal, decimal_de};
use crate::message::{MessageVue, MessageWebSocket, MetaVue, Metadonnees, TypeMessageWs};

verus! {

/// `n` on two digits at least.
pub open spec fn deux_chiffres(n: nat) -> Seq<char> {
    if n < 10 {
        seq!['0'] + decimal_de(n)
    } else {
        decimal_de(n)
    }
}

/// Time of day `HH:MM:SS` (UTC) of a time in milliseconds since the epoch.
pub open spec fn heure(ms: u64) -> Seq<char> {
    let s = ms / 1000;
    deux_chiffres(((s / 3600) % 24) as nat) + seq![':'] + deux_chiffres(((s / 60) % 60) as nat)
        + seq![':'] + deux_chiffres((s % 60) as nat)
}

pub open spec fn ou(o: Option<Seq<char>>, defaut: Seq<char>) -> Seq<char> {
    match o {
        Some(s) => s,
        None => defaut,
    }
}

pub open spec fn nom_fichier_de(m: Option<MetaVue>) -> Seq<char> {
    match m {
        Some(MetaVue::Fichier(Some(n), _)) => n,
        _ => "fichier"@,
    }
}

pub open spec fn nom_type(t: TypeMessageWs) -> Seq<char> {
    match t {
        TypeMessageWs::Chat => "Chat"@,
        TypeMessageWs::Binaire => "Binaire"@,
        TypeMessageWs::Connexion => "Connexion"@,
        TypeMessageWs::Deconnexion => "Deconnexion"@,
        TypeMessageWs::Notification => "Notification"@,
        TypeMessageWs::DemandeUtilisateurs => "DemandeUtilisateurs"@,
        TypeMessageWs::ListeUtilisateurs => "ListeUtilisateurs"@,
        TypeMessageWs::Ping => "Ping"@,
        TypeMessageWs::Pong => "Pong"@,
    }
}

/// One line of text for an envelope: its time, then what it says.
pub open spec fn texte_message(m: MessageVue) -> Seq<char> {
    "["@ + heure(m.timestamp) + "] "@ + match m.type_message {
        TypeMessageWs::Chat => ou(m.utilisateur, "Anonyme"@) + ": "@ + ou(m.contenu, Seq::empty()),
        TypeMessageWs::Binaire => ou(m.utilisateur, "Anonyme"@) + " a envoyé un fichier: "@
            + nom_fichier_de(m.metadonnees) + " ("@ + decimal_de(
            match m.donnees_binaires {
                Some(d) => d.len(),
                None => 0,
            },
        ) + " bytes)"@,
        TypeMessageWs::Connexion => ou(m.utilisateur, "Inconnu"@) + " s'est connecté"@,
        TypeMessageWs::Deconnexion => ou(m.contenu, "Un utilisateur s'est déconnecté"@),
        TypeMessageWs::Notification => "SYSTÈME: "@ + ou(m.contenu, "Notification"@),
        TypeMessageWs::ListeUtilisateurs => "Utilisateurs connectés"@,
        _ => nom_type(m.type_message),
    }
}

fn ecrire_deux_chiffres(t: &mut String, n: u64)
    requires
        n < 100,
    ensures
        final(t)@ == old(t)@ + deux_chiffres(n as nat),
{
    if n < 10 {
        ajouter(t, "0");
        proof {
            reveal_strlit("0");
        }
    }
    ajouter(t, decimal(n).as_str());
}

fn ecrire_option(t: &mut String, o: &Option<String>, defaut: &str)
    ensures
        final(t)@ == old(t)@ + ou(crate::message::vue_option_chaine(*o), defaut@),
{
    match o {
        Some(s) => ajouter(t, s.as_str()),
        None => ajouter(t, defaut),
    }
}

impl MessageWebSocket {
    /// The line a client shows for this envelope.
    pub fn vers_texte(&self) -> (r: String)
        ensures
            r@ == texte_message(self@),
    {
        proof {
            reveal_strlit(":");
        }
        let s = self.timestamp / 1000;
        let mut t = "[".to_owned();
        ecrire_deux_chiffres(&mut t, (s / 3600) % 24);
        ajouter(&mut t, ":");
        ecrire_deux_chiffres(&mut t, (s / 60) % 60);
        ajouter(&mut t, ":");
        ecrire_deux_chiffres(&mut t, s % 60);
        ajouter(&mut t, "] ");
        match self.type_message {
            TypeMessageWs::Chat => {
                ecrire_option(&mut t, &self.utilisateur, "Anonyme");
                ajouter(&mut t, ": ");
                ecrire_option(&mut t, &self.contenu, "");
                proof {
                    reveal_strlit("");
                }
            },
            TypeMessageWs::Binaire => {
                ecrire_option(&mut t, &self.utilisateur, "Anonyme");
                ajouter(&mut t, " a envoyé un fichier: ");
                match &self.metadonnees {
                    Some(Metadonnees::Fichier { nom_fichier: Some(n), .. }) => ajouter(&mut t, n.as_str()),
                    _ => ajouter(&mut t, "fichier"),
                }
                ajouter(&mut t, " (");
                let taille: u64 = match &self.donnees_binaires {
                    Some(d) => d.len() as u64,
                    None => 0,
                };
                ajouter(&mut t, decimal(taille).as_str());
                ajouter(&mut t, " bytes)");
            },
            TypeMessageWs::Connexion => {
                ecrire_option(&mut t, &self.utilisateur, "Inconnu");
                ajouter(&mut t, " s'est connecté");
            },
            TypeMessageWs::Deconnexion => {
                ecrire_option(&mut t, &self.contenu, "Un utilisateur s'est déconnecté");
            },
            TypeMessageWs::Notification => {
                ajouter(&mut t, "SYSTÈME: ");
                ecrire_option(&mut t, &self.contenu, "Notification");
            },
            TypeMessageWs::ListeUtilisateurs => {
                ajouter(&mut t, "Utilisateurs connectés");
            },
            TypeMessageWs::DemandeUtilisateurs => {
                ajouter(&mut t, "DemandeUtilisateurs");
            },
            TypeMessageWs::Ping => {
                ajouter(&mut t, "Ping");
            },
            TypeMessageWs::Pong => {
                ajouter(&mut t, "Pong");
            },
        }
        assert(t@ =~= texte_message(self@));
        t
    }
}

} // verus!

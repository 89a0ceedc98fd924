use vstd::prelude::*;
use crate::externe::generer_id_session;
use crate::message::vue_chaines;
use crate::nom::{erreur_nom_attendue, nom_valide, valider_nom_utilisateur, ErreurNom};

verus! {

/// Why a registration was refused.
#[derive(Debug, Clone, Copy, PartialEq, Eq, Structural)]
pub enum ErreurInscription {
    /// The name breaks the naming rules.
    NomInvalide(ErreurNom),
    /// An active session already holds the name.
    NomPris,
}

/// The refusal, if any, that registering `nom` meets when the active
/// sessions hold `noms`: naming rules first, then uniqueness.
pub open spec fn issue_inscription(noms: Seq<Seq<char>>, nom: Seq<char>) -> Option<
    ErreurInscription,
> {
    match erreur_nom_attendue(nom) {
        Some(e) => Some(ErreurInscription::NomInvalide(e)),
        None => if noms.contains(nom) {
            Some(ErreurInscription::NomPris)
        } else {
            None
        },
    }
}

/// The active names after an attempt to register `nom`.
pub open spec fn noms_apres_inscription(noms: Seq<Seq<char>>, nom: Seq<char>) -> Seq<Seq<char>> {
    if issue_inscription(noms, nom) is None {
        noms.push(nom)
    } else {
        noms
    }
}

/// The active names after `nom` leaves.
pub open spec fn noms_apres_depart(noms: Seq<Seq<char>>, nom: Seq<char>) -> Seq<Seq<char>> {
    noms.filter(autre_que(nom))
}

pub open spec fn autre_que(nom: Seq<char>) -> spec_fn(Seq<char>) -> bool {
    |n: Seq<char>| n != nom
}

/// One authenticated connection.
#[derive(Debug)]
pub struct Session {
    pub nom: String,
    /// Peer address, for information only.
    pub adresse: String,
    /// Diagnostic identifier, never used for authorization.
    pub id_session: String,
}

/// Counters of the registry.
#[derive(Debug)]
pub struct Statistiques {
    pub utilisateurs_connectes: u64,
    pub total_connexions: u64,
    pub utilisateurs: Vec<String>,
}

/// The active sessions, keyed by unique name, and the number of
/// registrations ever made.
pub struct Registre {
    sessions: Vec<Session>,
    compteur_connexions: u64,
}

impl Registre {
    /// Names of the active sessions, oldest first.
    pub closed spec fn noms(&self) -> Seq<Seq<char>> {
        self.sessions@.map_values(|s: Session| s.nom@)
    }

    /// Number of successful registrations since creation.
    pub closed spec fn compteur(&self) -> nat {
        self.compteur_connexions as nat
    }

    /// Names are valid and distinct, and the counter covers every active
    /// session.
    pub open spec fn bien_forme(&self) -> bool {
        &&& self.noms().no_duplicates()
        &&& forall|i: int| 0 <= i < self.noms().len() ==> nom_valide(#[trigger] self.noms()[i])
        &&& self.compteur() >= self.noms().len()
    }

    /// An empty registry.
    pub fn new() -> (r: Self)
        ensures
            r.noms() == Seq::<Seq<char>>::empty(),
            r.compteur() == 0,
            r.bien_forme(),
    {
        let r = Registre { sessions: Vec::new(), compteur_connexions: 0 };
        assert(r.noms() =~= Seq::<Seq<char>>::empty());
        r
    }

    fn position(&self, nom: &String) -> (r: Option<usize>)
        ensures
            match r {
                Some(i) => i < self.noms().len() && self.noms()[i as int] == nom@,
                None => !self.noms().contains(nom@),
            },
    {
        let mut i: usize = 0;
        while i < self.sessions.len()
            invariant
                i <= self.sessions@.len(),
                forall|k: int| 0 <= k < i ==> self.noms()[k] != nom@,
            decreases self.sessions@.len() - i,
        {
            if self.sessions[i].nom.eq(nom) {
                return Some(i);
            }
            i = i + 1;
        }
        None
    }

    /// Registers `nom`, reached from `adresse`, and returns its session
    /// identifier. A name that breaks the rules, or that an active session
    /// holds, is refused and nothing changes.
    pub fn ajouter_utilisateur(&mut self, nom: String, adresse: String) -> (r: Result<
        String,
        ErreurInscription,
    >)
        requires
            old(self).bien_forme(),
        ensures
            final(self).bien_forme(),
            match r {
                Ok(_) => issue_inscription(old(self).noms(), nom@) is None,
                Err(e) => issue_inscription(old(self).noms(), nom@) == Some(e),
            },
            final(self).noms() == noms_apres_inscription(old(self).noms(), nom@),
            final(self).compteur() == if r is Ok {
                if old(self).compteur() < u64::MAX {
                    old(self).compteur() + 1
                } else {
                    old(self).compteur()
                }
            } else {
                old(self).compteur()
            },
    {
        match valider_nom_utilisateur(nom.as_str()) {
            Err(e) => {
                return Err(ErreurInscription::NomInvalide(e));
            },
            Ok(()) => {},
        }
        if self.position(&nom).is_some() {
            return Err(ErreurInscription::NomPris);
        }
        let id_session = generer_id_session();
        let ghost avant = self.noms();
        let ghost n = nom@;
        self.sessions.push(Session { nom, adresse, id_session: id_session.clone() });
        if self.compteur_connexions < u64::MAX {
            self.compteur_connexions = self.compteur_connexions + 1;
        }
        let _ = self.sessions.len();
        proof {
            assert(self.noms() =~= avant.push(n));
            assert forall|i: int, j: int|
                0 <= i < self.noms().len() && 0 <= j < self.noms().len() && i != j implies self.noms()[i]
                != self.noms()[j] by {
                if i < avant.len() && j < avant.len() {
                } else if i == avant.len() {
                    assert(avant[j] == self.noms()[j]);
                } else {
                    assert(avant[i] == self.noms()[i]);
                }
            }
            assert forall|i: int| 0 <= i < self.noms().len() implies nom_valide(
                #[trigger] self.noms()[i],
            ) by {
                if i < avant.len() {
                    assert(self.noms()[i] == avant[i]);
                }
            }
        }
        Ok(id_session)
    }

    /// Ends the session named `nom`; returns whether there was one.
    pub fn supprimer_utilisateur(&mut self, nom: &str) -> (r: bool)
        requires
            old(self).bien_forme(),
        ensures
            final(self).bien_forme(),
            r == old(self).noms().contains(nom@),
            final(self).noms() == noms_apres_depart(old(self).noms(), nom@),
            final(self).compteur() == old(self).compteur(),
    {
        let cle = nom.to_owned();
        match self.position(&cle) {
            None => {
                proof {
                    lemme_filtre_absent(self.noms(), nom@);
                }
                false
            },
            Some(i) => {
                let ghost avant = self.noms();
                let _ = self.sessions.remove(i);
                proof {
                    assert(self.noms() =~= avant.remove(i as int));
                    lemme_filtre_retrait(avant, nom@, i as int);
                    assert forall|a: int, b: int|
                        0 <= a < self.noms().len() && 0 <= b < self.noms().len() && a != b implies self.noms()[a]
                        != self.noms()[b] by {
                        let a2 = if a < i { a } else { a + 1 };
                        let b2 = if b < i { b } else { b + 1 };
                        assert(self.noms()[a] == avant[a2]);
                        assert(self.noms()[b] == avant[b2]);
                    }
                    assert forall|k: int| 0 <= k < self.noms().len() implies nom_valide(
                        #[trigger] self.noms()[k],
                    ) by {
                        let k2 = if k < i { k } else { k + 1 };
                        assert(self.noms()[k] == avant[k2]);
                    }
                }
                true
            },
        }
    }

    /// The names of the active sessions.
    pub fn obtenir_liste_utilisateurs(&self) -> (r: Vec<String>)
        ensures
            vue_chaines(r@) == self.noms(),
    {
        let mut r: Vec<String> = Vec::new();
        for i in 0..self.sessions.len()
            invariant
                vue_chaines(r@) == self.noms().subrange(0, i as int),
        {
            let ghost avant = r@;
            r.push(self.sessions[i].nom.clone());
            assert(vue_chaines(r@) =~= vue_chaines(avant).push(self.noms()[i as int]));
            assert(self.noms().subrange(0, i + 1) =~= self.noms().subrange(0, i as int).push(
                self.noms()[i as int],
            ));
        }
        assert(self.noms().subrange(0, self.noms().len() as int) =~= self.noms());
        r
    }

    /// Number of active sessions.
    pub fn nombre_utilisateurs(&self) -> (r: usize)
        ensures
            r == self.noms().len(),
    {
        self.sessions.len()
    }

    /// Active count, registrations ever made, and active names; the total
    /// is never below the active count.
    pub fn obtenir_statistiques(&self) -> (r: Statistiques)
        requires
            self.bien_forme(),
        ensures
            r.utilisateurs_connectes == self.noms().len(),
            r.total_connexions == self.compteur(),
            vue_chaines(r.utilisateurs@) == self.noms(),
            r.total_connexions >= r.utilisateurs_connectes,
    {
        Statistiques {
            utilisateurs_connectes: self.sessions.len() as u64,
            total_connexions: self.compteur_connexions,
            utilisateurs: self.obtenir_liste_utilisateurs(),
        }
    }
}

pub proof fn lemme_filtre_absent(s: Seq<Seq<char>>, nom: Seq<char>)
    requires
        !s.contains(nom),
    ensures
        s.filter(autre_que(nom)) == s,
    decreases s.len(),
{
    reveal_with_fuel(Seq::filter, 1);
    if s.len() > 0 {
        let init = s.drop_last();
        assert(!init.contains(nom)) by {
            if init.contains(nom) {
                let k = choose|k: int| 0 <= k < init.len() && init[k] == nom;
                assert(s[k] == nom);
            }
        }
        lemme_filtre_absent(init, nom);
        assert(s.last() != nom) by {
            assert(s[s.len() - 1] == s.last());
        }
        assert(init.push(s.last()) =~= s);
    }
}

proof fn lemme_filtre_retrait(s: Seq<Seq<char>>, nom: Seq<char>, i: int)
    requires
        s.no_duplicates(),
        0 <= i < s.len(),
        s[i] == nom,
    ensures
        s.filter(autre_que(nom)) == s.remove(i),
    decreases s.len(),
{
    reveal_with_fuel(Seq::filter, 1);
    let init = s.drop_last();
    if i == s.len() - 1 {
        assert(!init.contains(nom)) by {
            if init.contains(nom) {
                let k = choose|k: int| 0 <= k < init.len() && init[k] == nom;
                assert(s[k] == s[i]);
            }
        }
        lemme_filtre_absent(init, nom);
        assert(s.remove(i) =~= init);
    } else {
        assert(init.no_duplicates()) by {
            assert forall|a: int, b: int| 0 <= a < init.len() && 0 <= b < init.len() && a != b implies init[a] != init[b] by {
                assert(init[a] == s[a] && init[b] == s[b]);
            }
        }
        assert(init[i] == nom);
        lemme_filtre_retrait(init, nom, i);
        assert(s.last() != nom) by {
            assert(s[s.len() - 1] == s.last());
        }
        assert(init.remove(i).push(s.last()) =~= s.remove(i));
    }
}

/// Registration is decided one request at a time: two distinct valid free
/// names both succeed, in either order; the same name twice succeeds once
/// and is then refused as taken.
pub proof fn lemme_inscriptions_concurrentes(noms: Seq<Seq<char>>, n1: Seq<char>, n2: Seq<char>)
    requires
        nom_valide(n1),
        nom_valide(n2),
        n1 != n2,
        !noms.contains(n1),
        !noms.contains(n2),
    ensures
        issue_inscription(noms, n1) is None,
        issue_inscription(noms_apres_inscription(noms, n1), n2) is None,
        issue_inscription(noms, n2) is None,
        issue_inscription(noms_apres_inscription(noms, n2), n1) is None,
        issue_inscription(noms_apres_inscription(noms, n1), n1) == Some(ErreurInscription::NomPris),
{
    let a = noms.push(n1);
    let b = noms.push(n2);
    assert(a[noms.len() as int] == n1);
    assert(!a.contains(n2)) by {
        if a.contains(n2) {
            let k = choose|k: int| 0 <= k < a.len() && a[k] == n2;
            if k < noms.len() {
                assert(noms[k] == n2);
            }
        }
    }
    assert(!b.contains(n1)) by {
        if b.contains(n1) {
            let k = choose|k: int| 0 <= k < b.len() && b[k] == n1;
            if k < noms.len() {
                assert(noms[k] == n1);
            }
        }
    }
}

} // verus!

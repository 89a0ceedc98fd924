use vstd::prelude::*;
use crate::commandes::{est_blanc, est_blanc_exec};

verus! {

/// Longest accepted user name, in bytes.
pub const LONGUEUR_NOM_MAX: usize = 50;

/// Whether `nom` holds a white-space character.
pub open spec fn contient_blanc(nom: Seq<char>) -> bool {
    exists|i: int| 0 <= i < nom.len() && est_blanc(#[trigger] nom[i])
}

/// A user name is accepted when it is non-empty, at most
/// `LONGUEUR_NOM_MAX` bytes long in UTF-8 and holds no white space.
pub open spec fn nom_valide(nom: Seq<char>) -> bool {
    &&& nom.len() > 0
    &&& vstd::utf8::encode_utf8(nom).len() <= LONGUEUR_NOM_MAX
    &&& !contient_blanc(nom)
}

/// Why a user name was refused.
#[derive(Debug, Clone, Copy, PartialEq, Eq, Structural)]
pub enum ErreurNom {
    Vide,
    TropLong,
    /// The name holds white space.
    ContientEspace,
}

pub open spec fn erreur_nom_attendue(nom: Seq<char>) -> Option<ErreurNom> {
    if nom.len() == 0 {
        Some(ErreurNom::Vide)
    } else if vstd::utf8::encode_utf8(nom).len() > LONGUEUR_NOM_MAX {
        Some(ErreurNom::TropLong)
    } else if contient_blanc(nom) {
        Some(ErreurNom::ContientEspace)
    } else {
        None
    }
}

/// Checks a candidate user name: empty first, then too long, then white
/// space.
pub fn valider_nom_utilisateur(nom: &str) -> (r: Result<(), ErreurNom>)
    ensures
        r is Ok <==> nom_valide(nom@),
        r is Err ==> Some(r->Err_0) == erreur_nom_attendue(nom@),
        r is Ok ==> erreur_nom_attendue(nom@) is None,
{
    if nom.is_empty() {
        return Err(ErreurNom::Vide);
    }
    if nom.as_bytes().len() > LONGUEUR_NOM_MAX {
        return Err(ErreurNom::TropLong);
    }
    let mut vu_espace = false;
    for c in it: nom.chars()
        invariant
            it.seq() == nom@,
            vu_espace <==> exists|k: int| 0 <= k < it.index() && est_blanc(#[trigger] nom@[k]),
    {
        if est_blanc_exec(c) {
            vu_espace = true;
        }
    }
    if vu_espace {
        return Err(ErreurNom::ContientEspace);
    }
    Ok(())
}

} // verus!

use vstd::prelude::*;
use crate::externe::ajouter;

verus! {

/// A file manager working inside one base directory.
#[derive(Debug)]
pub struct GestionnaireFichiers {
    pub chemin_base: String,
}

impl GestionnaireFichiers {
    pub fn nouveau(chemin_base: String) -> (r: Self)
        ensures
            r.chemin_base@ == chemin_base@,
    {
        Self { chemin_base }
    }

    /// Path of `nom_fichier` inside the base directory: the two joined by a
    /// slash.
    pub fn chemin_complet(&self, nom_fichier: &str) -> (r: String)
        ensures
            r@ == self.chemin_base@ + "/"@ + nom_fichier@,
    {
        let mut r = self.chemin_base.clone();
        ajouter(&mut r, "/");
        ajouter(&mut r, nom_fichier);
        r
    }
}

} // verus!

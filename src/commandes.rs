use vstd::prelude::*;
use crate::externe::chaine_de_caracteres;

verus! {

/// Unicode white space, as `char::is_whitespace` defines it.
pub open spec fn est_blanc(c: char) -> bool {
    let u = c as u32;
    ||| 0x09 <= u <= 0x0D
    ||| u == 0x20
    ||| u == 0x85
    ||| u == 0xA0
    ||| u == 0x1680
    ||| 0x2000 <= u <= 0x200A
    ||| u == 0x2028
    ||| u == 0x2029
    ||| u == 0x202F
    ||| u == 0x205F
    ||| u == 0x3000
}

pub fn est_blanc_exec(c: char) -> (r: bool)
    ensures
        r == est_blanc(c),
{
    let u = c as u32;
    (0x09 <= u && u <= 0x0D) || u == 0x20 || u == 0x85 || u == 0xA0 || u == 0x1680 || (0x2000
        <= u && u <= 0x200A) || u == 0x2028 || u == 0x2029 || u == 0x202F || u == 0x205F || u
        == 0x3000
}

/// First position at or after `i` that holds no white space.
pub open spec fn saute_blancs(s: Seq<char>, i: int) -> int
    decreases s.len() - i,
{
    if i < 0 || i >= s.len() || !est_blanc(s[i]) {
        i
    } else {
        saute_blancs(s, i + 1)
    }
}

/// First position at or after `i` that holds white space, or the end.
pub open spec fn fin_mot(s: Seq<char>, i: int) -> int
    decreases s.len() - i,
{
    if i < 0 || i >= s.len() || est_blanc(s[i]) {
        i
    } else {
        fin_mot(s, i + 1)
    }
}

/// The first white-space separated word of `s` (empty when there is none).
pub open spec fn premier_mot(s: Seq<char>) -> Seq<char> {
    let d = saute_blancs(s, 0);
    s.subrange(d, fin_mot(s, d))
}

/// A slash command.
#[derive(Debug, PartialEq, Eq)]
pub enum Commande {
    /// `/help`
    Aide,
    /// `/users`
    Utilisateurs,
    /// `/stats`
    Statistiques,
    /// `/ping`
    Ping,
    /// `/quit`
    Quitter,
    /// Any other word, kept to name it in the answer.
    Inconnue(String),
}

pub enum CommandeVue {
    Aide,
    Utilisateurs,
    Statistiques,
    Ping,
    Quitter,
    Inconnue(Seq<char>),
}

impl View for Commande {
    type V = CommandeVue;

    open spec fn view(&self) -> CommandeVue {
        match self {
            Commande::Aide => CommandeVue::Aide,
            Commande::Utilisateurs => CommandeVue::Utilisateurs,
            Commande::Statistiques => CommandeVue::Statistiques,
            Commande::Ping => CommandeVue::Ping,
            Commande::Quitter => CommandeVue::Quitter,
            Commande::Inconnue(w) => CommandeVue::Inconnue(w@),
        }
    }
}

/// The command that the first word of `texte` names.
pub open spec fn commande_de(texte: Seq<char>) -> CommandeVue {
    let w = premier_mot(texte);
    if w == seq!['/', 'h', 'e', 'l', 'p'] {
        CommandeVue::Aide
    } else if w == seq!['/', 'u', 's', 'e', 'r', 's'] {
        CommandeVue::Utilisateurs
    } else if w == seq!['/', 's', 't', 'a', 't', 's'] {
        CommandeVue::Statistiques
    } else if w == seq!['/', 'p', 'i', 'n', 'g'] {
        CommandeVue::Ping
    } else if w == seq!['/', 'q', 'u', 'i', 't'] {
        CommandeVue::Quitter
    } else {
        CommandeVue::Inconnue(w)
    }
}

pub fn caracteres(texte: &str) -> (r: Vec<char>)
    ensures
        r@ == texte@,
{
    let mut r: Vec<char> = Vec::new();
    for c in it: texte.chars()
        invariant
            it.seq() == texte@,
            r@ == texte@.subrange(0, it.index() as int),
    {
        r.push(c);
        assert(r@ =~= texte@.subrange(0, it.index() + 1));
    }
    assert(r@ =~= texte@);
    r
}

fn egal_a(cs: &Vec<char>, d: usize, f: usize, mot: &[char]) -> (r: bool)
    requires
        d <= f <= cs@.len(),
    ensures
        r == (cs@.subrange(d as int, f as int) == mot@),
{
    if f - d != mot.len() {
        return false;
    }
    let mut i: usize = 0;
    while i < mot.len()
        invariant
            d <= f <= cs@.len(),
            f - d == mot@.len(),
            i <= mot@.len(),
            forall|k: int| 0 <= k < i ==> cs@[d + k] == mot@[k],
        decreases mot@.len() - i,
    {
        if cs[d + i] != mot[i] {
            assert(cs@.subrange(d as int, f as int)[i as int] != mot@[i as int]);
            return false;
        }
        i = i + 1;
    }
    assert(cs@.subrange(d as int, f as int) =~= mot@);
    true
}

/// Reads the command that the first word of `texte` names.
pub fn analyser_commande(texte: &str) -> (r: Commande)
    ensures
        r@ == commande_de(texte@),
{
    let cs = caracteres(texte);
    let ghost s = cs@;
    let mut d: usize = 0;
    while d < cs.len() && est_blanc_exec(cs[d])
        invariant
            d <= cs@.len(),
            saute_blancs(s, d as int) == saute_blancs(s, 0),
            s == cs@,
        decreases cs@.len() - d,
    {
        d = d + 1;
    }
    let mut f: usize = d;
    while f < cs.len() && !est_blanc_exec(cs[f])
        invariant
            d <= f <= cs@.len(),
            d == saute_blancs(s, 0),
            fin_mot(s, f as int) == fin_mot(s, d as int),
            s == cs@,
        decreases cs@.len() - f,
    {
        f = f + 1;
    }
    assert(s.subrange(d as int, f as int) == premier_mot(s));
    let aide: [char; 5] = ['/', 'h', 'e', 'l', 'p'];
    let utilisateurs: [char; 6] = ['/', 'u', 's', 'e', 'r', 's'];
    let stats: [char; 6] = ['/', 's', 't', 'a', 't', 's'];
    let ping: [char; 5] = ['/', 'p', 'i', 'n', 'g'];
    let quitter: [char; 5] = ['/', 'q', 'u', 'i', 't'];
    assert(aide@ =~= seq!['/', 'h', 'e', 'l', 'p']);
    assert(utilisateurs@ =~= seq!['/', 'u', 's', 'e', 'r', 's']);
    assert(stats@ =~= seq!['/', 's', 't', 'a', 't', 's']);
    assert(ping@ =~= seq!['/', 'p', 'i', 'n', 'g']);
    assert(quitter@ =~= seq!['/', 'q', 'u', 'i', 't']);
    if egal_a(&cs, d, f, &aide) {
        Commande::Aide
    } else if egal_a(&cs, d, f, &utilisateurs) {
        Commande::Utilisateurs
    } else if egal_a(&cs, d, f, &stats) {
        Commande::Statistiques
    } else if egal_a(&cs, d, f, &ping) {
        Commande::Ping
    } else if egal_a(&cs, d, f, &quitter) {
        Commande::Quitter
    } else {
        let (debut, _) = cs.as_slice().split_at(f);
        let (_, mot) = debut.split_at(d);
        assert(mot@ =~= s.subrange(d as int, f as int));
        Commande::Inconnue(chaine_de_caracteres(mot))
    }
}

/// Whether chat text is a command: it starts with a slash.
pub open spec fn est_commande(texte: Seq<char>) -> bool {
    texte.len() > 0 && texte[0] == '/'
}

pub fn commence_par_barre(texte: &str) -> (r: bool)
    ensures
        r == est_commande(texte@),
{
    let mut it = texte.chars();
    match it.next() {
        Some(c) => c == '/',
        None => false,
    }
}

} // verus!

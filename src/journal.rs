use vstd::prelude::*;
use crate::commandes::{caracteres, est_blanc, est_blanc_exec, saute_blancs};
use crate::externe::{ajouter, chaine_de_caracteres, decimal, decimal_de, horodatage_ms};

verus! {

broadcast use vstd::array::group_array_axioms;

/// First position at or after `i` where `motif` starts in `s`.
pub open spec fn trouver(s: Seq<char>, motif: Seq<char>, i: int) -> Option<int>
    decreases s.len() + 1 - i,
{
    if i < 0 || i + motif.len() > s.len() {
        None
    } else if s.subrange(i, i + motif.len() as int) == motif {
        Some(i)
    } else {
        trouver(s, motif, i + 1)
    }
}

/// End of `s[..j]` once trailing white space is dropped.
pub open spec fn fin_sans_blancs(s: Seq<char>, j: int) -> int
    decreases j,
{
    if j <= 0 || j > s.len() || !est_blanc(s[j - 1]) {
        j
    } else {
        fin_sans_blancs(s, j - 1)
    }
}

/// `s` without leading and trailing white space.
pub open spec fn rogner(s: Seq<char>) -> Seq<char> {
    let d = saute_blancs(s, 0);
    let f = fin_sans_blancs(s, s.len() as int);
    if d < f {
        s.subrange(d, f)
    } else {
        Seq::empty()
    }
}

/// A parsed log line.
#[derive(Debug, Clone, PartialEq, Eq)]
pub struct EntreeLog {
    pub timestamp: String,
    pub niveau: String,
    pub message: String,
    pub donnees: Option<String>,
}

pub struct EntreeVue {
    pub timestamp: Seq<char>,
    pub niveau: Seq<char>,
    pub message: Seq<char>,
    pub donnees: Option<Seq<char>>,
}

impl View for EntreeLog {
    type V = EntreeVue;

    open spec fn view(&self) -> EntreeVue {
        EntreeVue {
            timestamp: self.timestamp@,
            niveau: self.niveau@,
            message: self.message@,
            donnees: match self.donnees {
                Some(d) => Some(d@),
                None => None,
            },
        }
    }
}

pub open spec fn tiret() -> Seq<char> {
    seq![' ', '-', ' ']
}

pub open spec fn marque_donnees() -> Seq<char> {
    seq![' ', '|', ' ', 'D', 'a', 't', 'a', ':', ' ']
}

/// The entry that a line `[horodatage] NIVEAU - message | Data: données`
/// holds: the time stamp is what stands between the opening bracket and
/// the first closing one; the rest, trimmed, splits at the first " - "
/// into level and message; the message splits at the first " | Data: ",
/// and the data keep the space that follows the colon.
pub open spec fn analyser_ligne(l: Seq<char>) -> Option<EntreeVue> {
    match trouver(l, seq![']'], 0) {
        None => None,
        Some(k) => if l.len() == 0 || l[0] != '[' {
            None
        } else {
            let reste = rogner(l.subrange(k + 1, l.len() as int));
            match trouver(reste, tiret(), 0) {
                None => None,
                Some(p) => {
                    let me = reste.subrange(p + 3, reste.len() as int);
                    match trouver(me, marque_donnees(), 0) {
                        Some(d) => Some(
                            EntreeVue {
                                timestamp: l.subrange(1, k),
                                niveau: reste.subrange(0, p),
                                message: me.subrange(0, d),
                                donnees: Some(me.subrange(d + 8, me.len() as int)),
                            },
                        ),
                        None => Some(
                            EntreeVue {
                                timestamp: l.subrange(1, k),
                                niveau: reste.subrange(0, p),
                                message: me,
                                donnees: None,
                            },
                        ),
                    }
                },
            }
        },
    }
}

proof fn lemme_trouver(s: Seq<char>, motif: Seq<char>, i: int)
    ensures
        match trouver(s, motif, i) {
            Some(k) => i <= k && k + motif.len() <= s.len() && s.subrange(k, k + motif.len() as int)
                == motif,
            None => true,
        },
    decreases s.len() + 1 - i,
{
    if !(i < 0 || i + motif.len() > s.len()) && s.subrange(i, i + motif.len() as int) != motif {
        lemme_trouver(s, motif, i + 1);
    }
}

fn trouver_exec(s: &[char], motif: &[char]) -> (r: Option<usize>)
    ensures
        match r {
            Some(k) => {
                &&& trouver(s@, motif@, 0) == Some(k as int)
                &&& k + motif@.len() <= s@.len()
                &&& s@.subrange(k as int, k + motif@.len()) == motif@
            },
            None => trouver(s@, motif@, 0) is None,
        },
{
    proof {
        lemme_trouver(s@, motif@, 0);
    }
    let mut i: usize = 0;
    let n = s.len();
    if motif.len() > n {
        return None;
    }
    while i <= s.len() - motif.len()
        invariant
            motif@.len() <= s@.len(),
            i <= s@.len() - motif@.len() + 1,
            trouver(s@, motif@, 0) == trouver(s@, motif@, i as int),
        decreases s@.len() - i,
    {
        let mut j: usize = 0;
        let mut egal = true;
        while j < motif.len()
            invariant
                motif@.len() <= s@.len(),
                s@.len() <= usize::MAX,
                i + motif@.len() <= s@.len(),
                j <= motif@.len(),
                egal <==> forall|k: int| 0 <= k < j ==> s@[i + k] == motif@[k],
            decreases motif@.len() - j,
        {
            if s[i + j] != motif[j] {
                egal = false;
            }
            j = j + 1;
        }
        if egal {
            assert(s@.subrange(i as int, i + motif@.len()) =~= motif@);
            return Some(i);
        }
        assert(s@.subrange(i as int, i + motif@.len()) != motif@) by {
            let k = choose|k: int| 0 <= k < motif@.len() && s@[i + k] != motif@[k];
            assert(s@.subrange(i as int, i + motif@.len())[k] == s@[i + k]);
        }
        i = i + 1;
    }
    None
}

fn rogner_exec(s: &[char]) -> (r: (usize, usize))
    ensures
        r.0 <= r.1 <= s@.len(),
        s@.subrange(r.0 as int, r.1 as int) == rogner(s@),
{
    let mut d: usize = 0;
    while d < s.len() && est_blanc_exec(s[d])
        invariant
            d <= s@.len(),
            saute_blancs(s@, d as int) == saute_blancs(s@, 0),
        decreases s@.len() - d,
    {
        d = d + 1;
    }
    let mut f: usize = s.len();
    while f > 0 && est_blanc_exec(s[f - 1])
        invariant
            f <= s@.len(),
            fin_sans_blancs(s@, f as int) == fin_sans_blancs(s@, s@.len() as int),
        decreases f,
    {
        f = f - 1;
    }
    if d < f {
        (d, f)
    } else {
        assert(s@.subrange(d as int, d as int) =~= Seq::<char>::empty());
        (d, d)
    }
}

fn morceau(s: &[char], d: usize, f: usize) -> (r: String)
    requires
        d <= f <= s@.len(),
    ensures
        r@ == s@.subrange(d as int, f as int),
{
    let (tete, _) = s.split_at(f);
    let (_, m) = tete.split_at(d);
    assert(m@ =~= s@.subrange(d as int, f as int));
    chaine_de_caracteres(m)
}

impl EntreeLog {
    /// Parses a line `[horodatage] NIVEAU - message | Data: données`; the
    /// data part is optional. Any other line gives nothing.
    pub fn parse_ligne_log(ligne: &str) -> (r: Option<Self>)
        ensures
            match analyser_ligne(ligne@) {
                Some(v) => r matches Some(e) && e@ == v,
                None => r is None,
            },
    {
        let l = caracteres(ligne);
        let mut crochet: Vec<char> = Vec::new();
        crochet.push(']');
        assert(crochet@ =~= seq![']']);
        let k = match trouver_exec(l.as_slice(), crochet.as_slice()) {
            Some(k) => k,
            None => {
                return None;
            },
        };
        if l.len() == 0 || l[0] != '[' {
            return None;
        }
        assert(l@.subrange(k as int, k + 1)[0] == l@[k as int]);
        let (_, apres) = l.as_slice().split_at(k + 1);
        let (rd, rf) = rogner_exec(apres);
        let (tete, _) = apres.split_at(rf);
        let (_, reste) = tete.split_at(rd);
        let ghost vr = reste@;
        assert(vr =~= rogner(l@.subrange(k + 1, l@.len() as int)));
        let mut tiret_exec: Vec<char> = Vec::new();
        tiret_exec.push(' ');
        tiret_exec.push('-');
        tiret_exec.push(' ');
        assert(tiret_exec@ =~= tiret());
        let p = match trouver_exec(reste, tiret_exec.as_slice()) {
            Some(p) => p,
            None => {
                return None;
            },
        };
        let (_, me) = reste.split_at(p + 3);
        assert(me@ =~= vr.subrange(p + 3, vr.len() as int));
        let mut marque: Vec<char> = Vec::new();
        marque.push(' ');
        marque.push('|');
        marque.push(' ');
        marque.push('D');
        marque.push('a');
        marque.push('t');
        marque.push('a');
        marque.push(':');
        marque.push(' ');
        assert(marque@ =~= marque_donnees());
        let timestamp = morceau(l.as_slice(), 1, k);
        let niveau = morceau(reste, 0, p);
        match trouver_exec(me, marque.as_slice()) {
            Some(d) => Some(EntreeLog {
                timestamp,
                niveau,
                message: morceau(me, 0, d),
                donnees: Some(morceau(me, d + 8, me.len())),
            }),
            None => {
                let message = morceau(me, 0, me.len());
                assert(message@ =~= me@);
                Some(EntreeLog { timestamp, niveau, message, donnees: None })
            },
        }
    }
}

/// The entries of `s` at level `niveau`, in order.
pub open spec fn selection(s: Seq<EntreeLog>, niveau: Seq<char>) -> Seq<EntreeLog>
    decreases s.len(),
{
    if s.len() == 0 {
        Seq::empty()
    } else if s.last().niveau@ == niveau {
        selection(s.drop_last(), niveau).push(s.last())
    } else {
        selection(s.drop_last(), niveau)
    }
}

/// The entries at level `niveau_recherche`, in their order.
pub fn filtrer_par_niveau<'a>(entrees: &'a [EntreeLog], niveau_recherche: &str) -> (r: Vec<&'a EntreeLog>)
    ensures
        r@.map_values(|e: &EntreeLog| *e) == selection(entrees@, niveau_recherche@),
{
    let cible = niveau_recherche.to_owned();
    let mut r: Vec<&'a EntreeLog> = Vec::new();
    for i in 0..entrees.len()
        invariant
            cible@ == niveau_recherche@,
            r@.map_values(|e: &EntreeLog| *e) == selection(entrees@.subrange(0, i as int), niveau_recherche@),
    {
        assert(entrees@.subrange(0, i + 1).drop_last() =~= entrees@.subrange(0, i as int));
        assert(entrees@.subrange(0, i + 1).last() == entrees@[i as int]);
        if entrees[i].niveau.eq(&cible) {
            let ghost avant = r@;
            r.push(&entrees[i]);
            assert(r@.map_values(|e: &EntreeLog| *e) =~= avant.map_values(|e: &EntreeLog| *e).push(
                entrees@[i as int],
            ));
        }
    }
    assert(entrees@.subrange(0, entrees@.len() as int) =~= entrees@);
    r
}

/// Readable date of a time stamp, as the report files print it.
pub open spec fn texte_date(t: u64) -> Seq<char> {
    "2025-07-21 "@ + decimal_de((18 + t % 6) as nat) + ":"@ + decimal_de((t % 60) as nat) + ":"@
        + decimal_de((t % 60) as nat)
}

pub fn format_timestamp(timestamp: u64) -> (r: String)
    ensures
        r@ == texte_date(timestamp),
{
    let mut t = "2025-07-21 ".to_owned();
    ajouter(&mut t, decimal(18 + timestamp % 6).as_str());
    ajouter(&mut t, ":");
    ajouter(&mut t, decimal(timestamp % 60).as_str());
    ajouter(&mut t, ":");
    ajouter(&mut t, decimal(timestamp % 60).as_str());
    t
}

/// An entry to write, stamped in seconds since the Unix epoch.
#[derive(Debug, Clone, PartialEq, Eq)]
pub struct EntreeDonnee {
    pub timestamp: u64,
    pub niveau: String,
    pub message: String,
    pub donnees: Option<String>,
}

pub open spec fn ligne_log(e: EntreeDonnee) -> Seq<char> {
    "["@ + decimal_de(e.timestamp as nat) + "] "@ + e.niveau@ + " - "@ + e.message@ + match e.donnees {
        Some(d) => " | Data: "@ + d@ + "\n"@,
        None => "\n"@,
    }
}

pub open spec fn ligne_txt(e: EntreeDonnee) -> Seq<char> {
    texte_date(e.timestamp) + " ["@ + e.niveau@ + "] "@ + e.message@ + match e.donnees {
        Some(d) => " - Données: "@ + d@ + "\n"@,
        None => "\n"@,
    }
}

impl EntreeDonnee {
    /// An entry stamped with the current time.
    pub fn nouvelle(niveau: &str, message: &str, donnees: Option<&str>) -> (r: Self)
        ensures
            r.niveau@ == niveau@,
            r.message@ == message@,
            match donnees {
                Some(d) => r.donnees matches Some(x) && x@ == d@,
                None => r.donnees is None,
            },
    {
        let timestamp = horodatage_ms() / 1000;
        EntreeDonnee {
            timestamp,
            niveau: niveau.to_owned(),
            message: message.to_owned(),
            donnees: match donnees {
                Some(d) => Some(d.to_owned()),
                None => None,
            },
        }
    }

    /// Technical line: `[stamp] LEVEL - message | Data: data`.
    pub fn vers_format_log(&self) -> (r: String)
        ensures
            r@ == ligne_log(*self),
    {
        let mut t = "[".to_owned();
        ajouter(&mut t, decimal(self.timestamp).as_str());
        ajouter(&mut t, "] ");
        ajouter(&mut t, self.niveau.as_str());
        ajouter(&mut t, " - ");
        ajouter(&mut t, self.message.as_str());
        match &self.donnees {
            Some(d) => {
                ajouter(&mut t, " | Data: ");
                ajouter(&mut t, d.as_str());
                ajouter(&mut t, "\n");
            },
            None => {
                ajouter(&mut t, "\n");
            },
        }
        t
    }

    /// Readable line: `date [LEVEL] message - Données: data`.
    pub fn vers_format_txt(&self) -> (r: String)
        ensures
            r@ == ligne_txt(*self),
    {
        let mut t = format_timestamp(self.timestamp);
        ajouter(&mut t, " [");
        ajouter(&mut t, self.niveau.as_str());
        ajouter(&mut t, "] ");
        ajouter(&mut t, self.message.as_str());
        match &self.donnees {
            Some(d) => {
                ajouter(&mut t, " - Données: ");
                ajouter(&mut t, d.as_str());
                ajouter(&mut t, "\n");
            },
            None => {
                ajouter(&mut t, "\n");
            },
        }
        t
    }
}

/// Number of entries of `s` at level `niveau`.
pub open spec fn compte(s: Seq<EntreeLog>, niveau: Seq<char>) -> nat
    decreases s.len(),
{
    if s.len() == 0 {
        0
    } else {
        compte(s.drop_last(), niveau) + if s.last().niveau@ == niveau {
            1nat
        } else {
            0nat
        }
    }
}

/// Number of entries of `s` that carry data.
pub open spec fn compte_donnees(s: Seq<EntreeLog>) -> nat
    decreases s.len(),
{
    if s.len() == 0 {
        0
    } else {
        compte_donnees(s.drop_last()) + if s.last().donnees is Some {
            1nat
        } else {
            0nat
        }
    }
}

/// Counters of a parsed log.
#[derive(Debug, Clone, PartialEq, Eq)]
pub struct StatistiquesLog {
    pub total: usize,
    pub avec_donnees: usize,
    /// Each level once, in order of first appearance, with its count.
    pub par_niveau: Vec<(String, usize)>,
}

proof fn lemme_compte_suivant(s: Seq<EntreeLog>, i: int, n: Seq<char>)
    requires
        0 <= i < s.len(),
    ensures
        compte(s.subrange(0, i + 1), n) == compte(s.subrange(0, i), n) + if s[i].niveau@ == n {
            1nat
        } else {
            0nat
        },
        compte_donnees(s.subrange(0, i + 1)) == compte_donnees(s.subrange(0, i)) + if s[i].donnees is Some {
            1nat
        } else {
            0nat
        },
{
    assert(s.subrange(0, i + 1).drop_last() =~= s.subrange(0, i));
}

fn position_niveau(par: &Vec<(String, usize)>, n: &String) -> (r: Option<usize>)
    ensures
        match r {
            Some(j) => j < par@.len() && par@[j as int].0@ == n@,
            None => forall|k: int| 0 <= k < par@.len() ==> (#[trigger] par@[k]).0@ != n@,
        },
{
    let mut j: usize = 0;
    while j < par.len()
        invariant
            j <= par@.len(),
            forall|k: int| 0 <= k < j ==> (#[trigger] par@[k]).0@ != n@,
        decreases par@.len() - j,
    {
        if par[j].0.eq(n) {
            return Some(j);
        }
        j = j + 1;
    }
    None
}

/// The levels of `s`, each once, in order of first appearance.
pub open spec fn niveaux(s: Seq<EntreeLog>) -> Seq<Seq<char>>
    decreases s.len(),
{
    if s.len() == 0 {
        Seq::empty()
    } else if niveaux(s.drop_last()).contains(s.last().niveau@) {
        niveaux(s.drop_last())
    } else {
        niveaux(s.drop_last()).push(s.last().niveau@)
    }
}

pub open spec fn noms_niveaux(par: Seq<(String, usize)>) -> Seq<Seq<char>> {
    par.map_values(|x: (String, usize)| x.0@)
}

/// Counts the entries, those with data, and the entries of each level:
/// the levels come once each, in order of first appearance.
pub fn statistiques_log(entrees: &[EntreeLog]) -> (r: StatistiquesLog)
    ensures
        r.total == entrees@.len(),
        r.avec_donnees == compte_donnees(entrees@),
        noms_niveaux(r.par_niveau@) == niveaux(entrees@),
        forall|j: int|
            0 <= j < r.par_niveau@.len() ==> (#[trigger] r.par_niveau@[j]).1 == compte(
                entrees@,
                r.par_niveau@[j].0@,
            ),
{
    let mut par_niveau: Vec<(String, usize)> = Vec::new();
    let mut avec_donnees: usize = 0;
    assert(noms_niveaux(par_niveau@) =~= Seq::<Seq<char>>::empty());
    for i in 0..entrees.len()
        invariant
            avec_donnees == compte_donnees(entrees@.subrange(0, i as int)),
            avec_donnees <= i,
            noms_niveaux(par_niveau@) == niveaux(entrees@.subrange(0, i as int)),
            forall|j: int|
                0 <= j < par_niveau@.len() ==> (#[trigger] par_niveau@[j]).1 == compte(
                    entrees@.subrange(0, i as int),
                    par_niveau@[j].0@,
                ) && par_niveau@[j].1 <= i,
    {
        let ghost avant = entrees@.subrange(0, i as int);
        let ghost apres = entrees@.subrange(0, i + 1);
        proof {
            lemme_compte_suivant(entrees@, i as int, entrees@[i as int].niveau@);
            assert(apres.drop_last() =~= avant);
            assert(apres.last() == entrees@[i as int]);
        }
        let e = &entrees[i];
        if e.donnees.is_some() {
            avec_donnees = avec_donnees + 1;
        }
        let ghost ancien = par_niveau@;
        match position_niveau(&par_niveau, &e.niveau) {
            Some(j) => {
                let c = par_niveau[j].1;
                par_niveau[j].1 = c + 1;
                proof {
                    lemme_niveaux_distincts(avant);
                    assert(noms_niveaux(ancien)[j as int] == e.niveau@);
                    assert(noms_niveaux(par_niveau@) =~= noms_niveaux(ancien));
                    assert forall|k: int| 0 <= k < par_niveau@.len() implies (#[trigger] par_niveau@[k]).1
                        == compte(apres, par_niveau@[k].0@) && par_niveau@[k].1 <= i + 1 by {
                        lemme_compte_suivant(entrees@, i as int, par_niveau@[k].0@);
                        assert(par_niveau@[k].0 == ancien[k].0);
                        if k != j {
                            assert(noms_niveaux(ancien)[k] != noms_niveaux(ancien)[j as int]);
                        }
                    }
                }
            },
            None => {
                par_niveau.push((e.niveau.clone(), 1));
                proof {
                    assert(!noms_niveaux(ancien).contains(e.niveau@)) by {
                        if noms_niveaux(ancien).contains(e.niveau@) {
                            let q = choose|q: int| 0 <= q < noms_niveaux(ancien).len() && noms_niveaux(ancien)[q] == e.niveau@;
                            assert(ancien[q].0@ == e.niveau@);
                        }
                    }
                    assert(noms_niveaux(par_niveau@) =~= noms_niveaux(ancien).push(e.niveau@));
                    lemme_compte_absent(avant, e.niveau@);
                    assert forall|k: int| 0 <= k < par_niveau@.len() implies (#[trigger] par_niveau@[k]).1
                        == compte(apres, par_niveau@[k].0@) && par_niveau@[k].1 <= i + 1 by {
                        lemme_compte_suivant(entrees@, i as int, par_niveau@[k].0@);
                        if k < ancien.len() {
                            assert(par_niveau@[k] == ancien[k]);
                        }
                    }
                }
            },
        }
    }
    assert(entrees@.subrange(0, entrees@.len() as int) =~= entrees@);
    StatistiquesLog { total: entrees.len(), avec_donnees, par_niveau }
}

proof fn lemme_compte_absent(s: Seq<EntreeLog>, n: Seq<char>)
    requires
        !niveaux(s).contains(n),
    ensures
        compte(s, n) == 0,
    decreases s.len(),
{
    if s.len() > 0 {
        let p = niveaux(s.drop_last());
        if p.contains(s.last().niveau@) {
        } else {
            assert(p.push(s.last().niveau@)[p.len() as int] == s.last().niveau@);
            assert(!p.contains(n)) by {
                if p.contains(n) {
                    let q = choose|q: int| 0 <= q < p.len() && p[q] == n;
                    assert(p.push(s.last().niveau@)[q] == n);
                }
            }
        }
        lemme_compte_absent(s.drop_last(), n);
    }
}

proof fn lemme_niveaux_distincts(s: Seq<EntreeLog>)
    ensures
        niveaux(s).no_duplicates(),
    decreases s.len(),
{
    if s.len() > 0 {
        lemme_niveaux_distincts(s.drop_last());
        let p = niveaux(s.drop_last());
        if !p.contains(s.last().niveau@) {
            let q = p.push(s.last().niveau@);
            assert forall|a: int, b: int| 0 <= a < q.len() && 0 <= b < q.len() && a != b implies q[a]
                != q[b] by {
                if a < p.len() && b < p.len() {
                    assert(q[a] == p[a] && q[b] == p[b]);
                } else if a == p.len() {
                    assert(q[b] == p[b]);
                } else {
                    assert(q[a] == p[a]);
                }
            }
        }
    }
}

} // verus!

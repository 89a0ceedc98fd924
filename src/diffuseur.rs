use vstd::prelude::*;
use crate::message::{livrable, MessageVue, MessageWebSocket, TypeMessageWs};

verus! {

/// Model of one subscription: its identifier, the envelopes waiting in its
/// queue, and whether it was cut off for falling too far behind.
pub struct AbonneVue {
    pub id: u64,
    pub file: Seq<MessageVue>,
    pub deborde: bool,
}

/// What publishing `m` does to one subscription whose queue holds at most
/// `capacite` envelopes: a live subscription with room receives `m`; a live
/// one whose queue is full is cut off and its queue released; one already
/// cut off stays as it is.
pub open spec fn apres_publication(a: AbonneVue, capacite: nat, m: MessageVue) -> AbonneVue {
    if a.deborde {
        a
    } else if a.file.len() < capacite {
        AbonneVue { id: a.id, file: a.file.push(m), deborde: false }
    } else {
        AbonneVue { id: a.id, file: Seq::empty(), deborde: true }
    }
}

/// Publishing `m` to every subscription.
pub open spec fn publication(s: Seq<AbonneVue>, capacite: nat, m: MessageVue) -> Seq<AbonneVue> {
    Seq::new(s.len(), |i: int| apres_publication(s[i], capacite, m))
}

pub open spec fn position_abonne(s: Seq<AbonneVue>, id: u64) -> Option<int> {
    if exists|i: int| 0 <= i < s.len() && s[i].id == id {
        Some(choose|i: int| 0 <= i < s.len() && s[i].id == id)
    } else {
        None
    }
}

/// The subscriptions once `id` has ended.
pub open spec fn apres_desabonnement(s: Seq<AbonneVue>, id: u64) -> Seq<AbonneVue> {
    match position_abonne(s, id) {
        Some(i) => s.remove(i),
        None => s,
    }
}

/// Outcome of taking the next envelope of a subscription.
#[derive(Debug)]
pub enum Reception {
    /// The oldest waiting envelope.
    Message(MessageWebSocket),
    /// Nothing is waiting.
    Vide,
    /// The subscription was cut off: it fell too far behind.
    Deborde,
    /// No such subscription.
    Inconnu,
}

struct Abonne {
    id: u64,
    file: Vec<MessageWebSocket>,
    deborde: bool,
}

impl Abonne {
    spec fn vue(&self) -> AbonneVue {
        AbonneVue {
            id: self.id,
            file: self.file@.map_values(|m: MessageWebSocket| m@),
            deborde: self.deborde,
        }
    }
}

/// Publish/subscribe fan-out with a bounded queue per subscription.
pub struct Diffuseur {
    abonnes: Vec<Abonne>,
    capacite: usize,
    prochain_id: u64,
}

impl Diffuseur {
    /// The subscriptions, in the order they were made.
    pub closed spec fn abonnes(&self) -> Seq<AbonneVue> {
        self.abonnes@.map_values(|a: Abonne| a.vue())
    }

    /// Most envelopes a subscription may have waiting.
    pub closed spec fn capacite(&self) -> nat {
        self.capacite as nat
    }

    /// Identifiers are distinct; a cut-off subscription holds nothing; no
    /// queue is longer than the bound.
    pub open spec fn bien_forme(&self) -> bool {
        &&& forall|i: int, j: int|
            0 <= i < j < self.abonnes().len() ==> self.abonnes()[i].id != self.abonnes()[j].id
        &&& forall|i: int|
            0 <= i < self.abonnes().len() ==> (#[trigger] self.abonnes()[i]).file.len()
                <= self.capacite()
        &&& forall|i: int|
            0 <= i < self.abonnes().len() ==> (#[trigger] self.abonnes()[i]).deborde
                ==> self.abonnes()[i].file.len() == 0
    }

    closed spec fn ids_sous_prochain(&self) -> bool {
        forall|i: int| 0 <= i < self.abonnes@.len() ==> self.abonnes@[i].id < self.prochain_id
    }

    /// Some identifier is still free for a new subscription.
    pub closed spec fn ids_disponibles(&self) -> bool {
        self.prochain_id < u64::MAX
    }

    pub closed spec fn interne(&self) -> bool {
        self.ids_sous_prochain()
    }

    /// A broadcaster without subscriptions whose queues hold at most
    /// `capacite` envelopes.
    pub fn new(capacite: usize) -> (r: Self)
        ensures
            r.abonnes() == Seq::<AbonneVue>::empty(),
            r.capacite() == capacite,
            r.bien_forme(),
            r.interne(),
    {
        let r = Diffuseur { abonnes: Vec::new(), capacite, prochain_id: 0 };
        assert(r.abonnes() =~= Seq::<AbonneVue>::empty());
        r
    }

    /// A new subscription with an empty queue: it receives what is
    /// published from now on, nothing from before. `None` once every
    /// identifier has been used.
    pub fn abonner(&mut self) -> (r: Option<u64>)
        requires
            old(self).bien_forme(),
            old(self).interne(),
        ensures
            final(self).bien_forme(),
            final(self).interne(),
            final(self).capacite() == old(self).capacite(),
            r is Some <==> old(self).ids_disponibles(),
            match r {
                Some(id) => {
                    &&& forall|i: int|
                        0 <= i < old(self).abonnes().len() ==> old(self).abonnes()[i].id != id
                    &&& final(self).abonnes() == old(self).abonnes().push(
                        AbonneVue { id, file: Seq::empty(), deborde: false },
                    )
                },
                None => final(self).abonnes() == old(self).abonnes(),
            },
    {
        if self.prochain_id == u64::MAX {
            return None;
        }
        let id = self.prochain_id;
        let ghost avant = self.abonnes@;
        let nouvel = Abonne { id, file: Vec::new(), deborde: false };
        assert(nouvel.vue().file =~= Seq::<MessageVue>::empty());
        self.abonnes.push(nouvel);
        self.prochain_id = id + 1;
        proof {
            assert(self.abonnes() =~= old(self).abonnes().push(
                AbonneVue { id, file: Seq::empty(), deborde: false },
            ));
        }
        Some(id)
    }

    fn position(&self, id: u64) -> (r: Option<usize>)
        ensures
            match r {
                Some(i) => i < self.abonnes@.len() && self.abonnes@[i as int].id == id,
                None => forall|i: int| 0 <= i < self.abonnes@.len() ==> self.abonnes@[i].id != id,
            },
    {
        let mut i: usize = 0;
        while i < self.abonnes.len()
            invariant
                i <= self.abonnes@.len(),
                forall|k: int| 0 <= k < i ==> self.abonnes@[k].id != id,
            decreases self.abonnes@.len() - i,
        {
            if self.abonnes[i].id == id {
                return Some(i);
            }
            i = i + 1;
        }
        None
    }

    /// Ends the subscription `id` and releases its queue; nothing happens
    /// when there is no such subscription.
    pub fn desabonner(&mut self, id: u64)
        requires
            old(self).bien_forme(),
            old(self).interne(),
        ensures
            final(self).bien_forme(),
            final(self).interne(),
            final(self).capacite() == old(self).capacite(),
            final(self).abonnes() == apres_desabonnement(old(self).abonnes(), id),
    {
        match self.position(id) {
            None => {
                assert(position_abonne(old(self).abonnes(), id) is None) by {
                    if exists|i: int| 0 <= i < old(self).abonnes().len() && old(self).abonnes()[i].id == id {
                        let i = choose|i: int| 0 <= i < old(self).abonnes().len() && old(self).abonnes()[i].id == id;
                        assert(old(self).abonnes@[i].id == id);
                    }
                }
            },
            Some(i) => {
                let _ = self.abonnes.remove(i);
                proof {
                    let s = old(self).abonnes();
                    assert(s[i as int].id == id);
                    let j = choose|j: int| 0 <= j < s.len() && s[j].id == id;
                    assert(j == i);
                    assert(self.abonnes() =~= s.remove(i as int));
                }
            },
        }
    }

    /// Delivers a copy of `m` to every live subscription; a subscription
    /// whose queue is full is cut off instead, and no one waits for it.
    pub fn publier(&mut self, m: &MessageWebSocket)
        requires
            old(self).bien_forme(),
            old(self).interne(),
        ensures
            final(self).bien_forme(),
            final(self).interne(),
            final(self).capacite() == old(self).capacite(),
            final(self).abonnes() == publication(old(self).abonnes(), old(self).capacite(), m@),
    {
        let n = self.abonnes.len();
        let ghost s = old(self).abonnes();
        for i in 0..n
            invariant
                n == self.abonnes@.len(),
                self.capacite == old(self).capacite,
                self.prochain_id == old(self).prochain_id,
                s == old(self).abonnes(),
                s.len() == n,
                forall|k: int|
                    0 <= k < i ==> (#[trigger] self.abonnes@[k]).vue() == apres_publication(
                        s[k],
                        self.capacite as nat,
                        m@,
                    ),
                forall|k: int| i <= k < n ==> (#[trigger] self.abonnes@[k]).vue() == s[k],
                forall|k: int| 0 <= k < n ==> (#[trigger] self.abonnes@[k]).id == s[k].id,
        {
            assert(self.abonnes@[i as int].vue() == s[i as int]);
            if !self.abonnes[i].deborde {
                if self.abonnes[i].file.len() < self.capacite {
                    let copie = m.copier();
                    let ghost file_avant = self.abonnes@[i as int].file@;
                    self.abonnes[i].file.push(copie);
                    assert(self.abonnes@[i as int].vue().file =~= s[i as int].file.push(m@));
                } else {
                    self.abonnes[i].file = Vec::new();
                    self.abonnes[i].deborde = true;
                    assert(self.abonnes@[i as int].vue().file =~= Seq::<MessageVue>::empty());
                }
            }
        }
        assert(self.abonnes() =~= publication(s, self.capacite as nat, m@));
    }

    /// Takes the oldest envelope waiting for subscription `id`.
    pub fn recevoir(&mut self, id: u64) -> (r: Reception)
        requires
            old(self).bien_forme(),
            old(self).interne(),
        ensures
            final(self).bien_forme(),
            final(self).interne(),
            final(self).capacite() == old(self).capacite(),
            match position_abonne(old(self).abonnes(), id) {
                None => r is Inconnu && final(self).abonnes() == old(self).abonnes(),
                Some(i) => {
                    let a = old(self).abonnes()[i];
                    if a.deborde {
                        r is Deborde && final(self).abonnes() == old(self).abonnes()
                    } else if a.file.len() == 0 {
                        r is Vide && final(self).abonnes() == old(self).abonnes()
                    } else {
                        &&& r matches Reception::Message(m) && m@ == a.file[0]
                        &&& final(self).abonnes() == old(self).abonnes().update(
                            i,
                            AbonneVue { id, file: a.file.drop_first(), deborde: false },
                        )
                    }
                },
            },
    {
        let ghost s = old(self).abonnes();
        match self.position(id) {
            None => {
                assert(position_abonne(s, id) is None) by {
                    if exists|i: int| 0 <= i < s.len() && s[i].id == id {
                        let i = choose|i: int| 0 <= i < s.len() && s[i].id == id;
                        assert(old(self).abonnes@[i].id == id);
                    }
                }
                Reception::Inconnu
            },
            Some(i) => {
                proof {
                    assert(s[i as int].id == id);
                    let j = choose|j: int| 0 <= j < s.len() && s[j].id == id;
                    assert(j == i);
                }
                if self.abonnes[i].deborde {
                    Reception::Deborde
                } else if self.abonnes[i].file.len() == 0 {
                    Reception::Vide
                } else {
                    let m = self.abonnes[i].file.remove(0);
                    proof {
                        assert(self.abonnes@[i as int].vue().file =~= s[i as int].file.drop_first());
                        assert(self.abonnes() =~= s.update(
                            i as int,
                            AbonneVue { id, file: s[i as int].file.drop_first(), deborde: false },
                        ));
                    }
                    Reception::Message(m)
                }
            },
        }
    }
}

/// A chat or binary envelope published while subscriptions are active
/// reaches exactly the subscriptions live at that moment (each queues it
/// last, unless its full queue gets it cut off), and a subscription made
/// afterwards starts empty, so it never sees it. Of the receivers, only the
/// sender's own connection does not send it out.
pub proof fn lemme_diffusion(
    s: Seq<AbonneVue>,
    capacite: nat,
    m: MessageVue,
    noms: Seq<Seq<char>>,
    id_tardif: u64,
)
    requires
        m.type_message == TypeMessageWs::Chat || m.type_message == TypeMessageWs::Binaire,
        m.utilisateur is Some,
        noms.len() == s.len(),
    ensures
        publication(s, capacite, m).len() == s.len(),
        forall|i: int|
            0 <= i < s.len() && !s[i].deborde && s[i].file.len() < capacite ==> {
                &&& (#[trigger] publication(s, capacite, m)[i]).file == s[i].file.push(m)
                &&& !publication(s, capacite, m)[i].deborde
            },
        forall|i: int|
            0 <= i < s.len() && !s[i].deborde && s[i].file.len() >= capacite
                ==> (#[trigger] publication(s, capacite, m)[i]).deborde,
        forall|i: int|
            0 <= i < s.len() && s[i].deborde ==> #[trigger] publication(s, capacite, m)[i]
                == s[i],
        forall|i: int|
            0 <= i < s.len() ==> (livrable(m, #[trigger] noms[i]) <==> m.utilisateur != Some(
                noms[i],
            )),
        publication(s, capacite, m).push(AbonneVue { id: id_tardif, file: Seq::empty(), deborde: false }).last().file.len()
            == 0,
{
}

/// Envelopes published one after the other reach a live subscription with
/// room for them in the order they were published.
pub proof fn lemme_ordre(s: Seq<AbonneVue>, capacite: nat, m1: MessageVue, m2: MessageVue, i: int)
    requires
        0 <= i < s.len(),
        !s[i].deborde,
        s[i].file.len() + 2 <= capacite,
    ensures
        publication(publication(s, capacite, m1), capacite, m2)[i].file == s[i].file.push(m1).push(
            m2,
        ),
{
}

} // verus!

use vstd::prelude::*;
use crate::externe::{ajouter, decimal, decimal_de, depuis_utf8_lossy, texte_lossy};
use crate::format::{octets_u32, u32_de};

verus! {

broadcast use vstd::seq::group_seq_axioms;

/// Record type of an IPv4 address.
pub const DNS_TYPE_A: u16 = 1;

/// Record type of an IPv6 address.
pub const DNS_TYPE_AAAA: u16 = 28;

/// Record type of a canonical name.
pub const DNS_TYPE_CNAME: u16 = 5;

pub open spec fn octets_u16(x: u16) -> Seq<u8> {
    seq![(x >> 8u16) as u8, x as u8]
}

pub open spec fn u16_de(a: u8, b: u8) -> u16 {
    ((a as u16) << 8u16) | (b as u16)
}

fn ecrire_u16(out: &mut Vec<u8>, x: u16)
    ensures
        final(out)@ == old(out)@ + octets_u16(x),
{
    out.push((x >> 8u16) as u8);
    out.push(x as u8);
    assert(out@ =~= old(out)@ + octets_u16(x));
}

fn ecrire_u32(out: &mut Vec<u8>, x: u32)
    ensures
        final(out)@ == old(out)@ + octets_u32(x),
{
    out.push((x >> 24u32) as u8);
    out.push((x >> 16u32) as u8);
    out.push((x >> 8u32) as u8);
    out.push(x as u8);
    assert(out@ =~= old(out)@ + octets_u32(x));
}

fn ecrire_tout(out: &mut Vec<u8>, o: &[u8])
    ensures
        final(out)@ == old(out)@ + o@,
{
    let ghost debut = out@;
    for i in 0..o.len()
        invariant
            out@ == debut + o@.subrange(0, i as int),
    {
        out.push(o[i]);
        assert(out@ =~= debut + o@.subrange(0, i + 1));
    }
    assert(o@.subrange(0, o@.len() as int) =~= o@);
}

/// Why DNS bytes could not be read.
#[derive(Debug, Clone, Copy, PartialEq, Eq, Structural)]
pub enum ErreurDns {
    /// The bytes end before the item being read.
    DonneesInsuffisantes,
}

/// Message header (RFC 1035, section 4.1.1).
#[derive(Debug, Clone, Copy, PartialEq, Eq, Structural)]
pub struct DnsHeader {
    pub id: u16,
    pub flags: u16,
    pub qdcount: u16,
    pub ancount: u16,
    pub nscount: u16,
    pub arcount: u16,
}

pub open spec fn octets_entete(h: DnsHeader) -> Seq<u8> {
    octets_u16(h.id) + octets_u16(h.flags) + octets_u16(h.qdcount) + octets_u16(h.ancount)
        + octets_u16(h.nscount) + octets_u16(h.arcount)
}

pub open spec fn u16_a(b: Seq<u8>, p: int) -> u16 {
    u16_de(b[p], b[p + 1])
}

pub open spec fn entete_de(b: Seq<u8>) -> DnsHeader {
    DnsHeader {
        id: u16_a(b, 0),
        flags: u16_a(b, 2),
        qdcount: u16_a(b, 4),
        ancount: u16_a(b, 6),
        nscount: u16_a(b, 8),
        arcount: u16_a(b, 10),
    }
}

impl DnsHeader {
    /// A header with recursion desired, marked as a response when
    /// `is_response`, with every count at zero.
    pub fn new(id: u16, is_response: bool) -> (r: Self)
        ensures
            r.id == id,
            r.flags == if is_response { 0x8100u16 } else { 0x0100u16 },
            r.qdcount == 0 && r.ancount == 0 && r.nscount == 0 && r.arcount == 0,
    {
        let base: u16 = if is_response {
            0x8000
        } else {
            0
        };
        let flags = base | 0x0100;
        assert(0x8000u16 | 0x0100u16 == 0x8100u16) by (bit_vector);
        assert(0u16 | 0x0100u16 == 0x0100u16) by (bit_vector);
        DnsHeader { id, flags, qdcount: 0, ancount: 0, nscount: 0, arcount: 0 }
    }

    /// The twelve header bytes, fields in order, big-endian.
    pub fn to_bytes(&self) -> (r: Vec<u8>)
        ensures
            r@ == octets_entete(*self),
    {
        let mut out: Vec<u8> = Vec::new();
        ecrire_u16(&mut out, self.id);
        ecrire_u16(&mut out, self.flags);
        ecrire_u16(&mut out, self.qdcount);
        ecrire_u16(&mut out, self.ancount);
        ecrire_u16(&mut out, self.nscount);
        ecrire_u16(&mut out, self.arcount);
        out
    }

    /// Reads a header from the first twelve bytes of `data`.
    pub fn from_bytes(data: &[u8]) -> (r: Result<Self, ErreurDns>)
        ensures
            match r {
                Ok(h) => data@.len() >= 12 && h == entete_de(data@),
                Err(e) => data@.len() < 12 && e == ErreurDns::DonneesInsuffisantes,
            },
    {
        if data.len() < 12 {
            return Err(ErreurDns::DonneesInsuffisantes);
        }
        Ok(DnsHeader {
            id: lire_u16(data, 0),
            flags: lire_u16(data, 2),
            qdcount: lire_u16(data, 4),
            ancount: lire_u16(data, 6),
            nscount: lire_u16(data, 8),
            arcount: lire_u16(data, 10),
        })
    }
}

fn lire_u16(b: &[u8], p: usize) -> (r: u16)
    requires
        p + 2 <= b@.len(),
    ensures
        r == u16_a(b@, p as int),
{
    ((b[p] as u16) << 8u16) | (b[p + 1] as u16)
}

fn lire_u32(b: &[u8], p: usize) -> (r: u32)
    requires
        p + 4 <= b@.len(),
    ensures
        r == u32_de(b@[p as int], b@[p + 1], b@[p + 2], b@[p + 3]),
{
    ((b[p] as u32) << 24u32) | ((b[p + 1] as u32) << 16u32) | ((b[p + 2] as u32) << 8u32) | (b[p
        + 3] as u32)
}

/// A label's length byte: its byte count, modulo 256.
pub open spec fn etiquette(b: Seq<u8>, d: int, f: int) -> Seq<u8> {
    if f > d {
        seq![((f - d) % 256) as u8] + b.subrange(d, f)
    } else {
        Seq::empty()
    }
}

/// Wire form of the name `b[debut..]`, scanning from `i`: each non-empty
/// dot-separated label as its length then its bytes, then a zero byte.
pub open spec fn encoder_depuis(b: Seq<u8>, debut: int, i: int) -> Seq<u8>
    decreases b.len() - i,
{
    if i < 0 || i >= b.len() {
        etiquette(b, debut, b.len() as int) + seq![0u8]
    } else if b[i] == 0x2Eu8 {
        etiquette(b, debut, i) + encoder_depuis(b, i + 1, i + 1)
    } else {
        encoder_depuis(b, debut, i + 1)
    }
}

/// Wire form of a domain name given by its UTF-8 bytes.
pub open spec fn nom_encode(b: Seq<u8>) -> Seq<u8> {
    encoder_depuis(b, 0, 0)
}

/// The labels of the name starting at `pos`, up to its zero byte, and the
/// position after that byte.
pub open spec fn lire_etiquettes(data: Seq<u8>, pos: int) -> Option<(Seq<Seq<u8>>, int)>
    decreases data.len() - pos,
{
    if pos < 0 || pos >= data.len() {
        None
    } else {
        let l = data[pos] as int;
        if l == 0 {
            Some((Seq::empty(), pos + 1))
        } else if pos + 1 + l > data.len() {
            None
        } else {
            match lire_etiquettes(data, pos + 1 + l) {
                Some((ls, fin)) => Some((seq![data.subrange(pos + 1, pos + 1 + l)] + ls, fin)),
                None => None,
            }
        }
    }
}

/// Labels read as text and joined with dots.
pub open spec fn joindre(ls: Seq<Seq<u8>>) -> Seq<char>
    decreases ls.len(),
{
    if ls.len() == 0 {
        Seq::empty()
    } else if ls.len() == 1 {
        texte_lossy(ls[0])
    } else {
        joindre(ls.drop_last()) + seq!['.'] + texte_lossy(ls.last())
    }
}

/// A question of a message.
#[derive(Debug, Clone, PartialEq, Eq)]
pub struct DnsQuestion {
    pub qname: String,
    pub qtype: u16,
    pub qclass: u16,
}

pub open spec fn octets_question(q: DnsQuestion) -> Seq<u8> {
    nom_encode(vstd::utf8::encode_utf8(q.qname@)) + octets_u16(q.qtype) + octets_u16(q.qclass)
}

impl DnsQuestion {
    /// A question of class IN.
    pub fn new(domain: String, qtype: u16) -> (r: Self)
        ensures
            r.qname@ == domain@,
            r.qtype == qtype,
            r.qclass == 1,
    {
        DnsQuestion { qname: domain, qtype, qclass: 1 }
    }

    pub fn copier(&self) -> (r: Self)
        ensures
            r.qname@ == self.qname@,
            r.qtype == self.qtype,
            r.qclass == self.qclass,
    {
        DnsQuestion { qname: self.qname.clone(), qtype: self.qtype, qclass: self.qclass }
    }

    /// Wire form of `domain`: each non-empty dot-separated label as its
    /// length byte and its bytes, then a zero byte.
    pub fn encode_domain_name(domain: &str) -> (r: Vec<u8>)
        ensures
            r@ == nom_encode(vstd::utf8::encode_utf8(domain@)),
    {
        let b = domain.as_bytes();
        let mut out: Vec<u8> = Vec::new();
        let mut debut: usize = 0;
        let mut i: usize = 0;
        while i < b.len()
            invariant
                debut <= i <= b@.len(),
                out@ + encoder_depuis(b@, debut as int, i as int) == nom_encode(b@),
            decreases b@.len() - i,
        {
            if b[i] == 0x2E {
                if i > debut {
                    out.push(((i - debut) % 256) as u8);
                    let ghost avant = out@;
                    for k in debut..i
                        invariant
                            debut <= i < b@.len(),
                            out@ == avant + b@.subrange(debut as int, k as int),
                    {
                        out.push(b[k]);
                        assert(out@ =~= avant + b@.subrange(debut as int, k + 1));
                    }
                    assert(out@ =~= avant.drop_last() + etiquette(b@, debut as int, i as int));
                }
                assert(out@ + encoder_depuis(b@, (i + 1) as int, (i + 1) as int) =~= nom_encode(b@));
                debut = i + 1;
            }
            i = i + 1;
        }
        let n = b.len();
        if n > debut {
            out.push(((n - debut) % 256) as u8);
            let ghost avant = out@;
            for k in debut..n
                invariant
                    debut < n,
                    n == b@.len(),
                    out@ == avant + b@.subrange(debut as int, k as int),
            {
                out.push(b[k]);
                assert(out@ =~= avant + b@.subrange(debut as int, k + 1));
            }
        }
        out.push(0);
        assert(out@ =~= nom_encode(b@));
        out
    }

    /// Reads the name that starts at `offset`: its labels, read as text and
    /// joined with dots, and the position after its zero byte. Fails when
    /// the bytes end first.
    pub fn decode_domain_name(data: &[u8], offset: usize) -> (r: Result<(String, usize), ErreurDns>)
        ensures
            match lire_etiquettes(data@, offset as int) {
                Some((ls, fin)) => r matches Ok((s, p)) && s@ == joindre(ls) && p == fin,
                None => r == Err::<(String, usize), ErreurDns>(ErreurDns::DonneesInsuffisantes),
            },
    {
        let mut domain = String::new();
        let mut pos = offset;
        let ghost mut lus: Seq<Seq<u8>> = Seq::empty();
        let mut premier = true;
        loop
            invariant
                offset <= pos,
                premier <==> lus.len() == 0,
                domain@ == joindre(lus),
                lire_etiquettes(data@, offset as int) == match lire_etiquettes(data@, pos as int) {
                    Some((ls, fin)) => Some((lus + ls, fin)),
                    None => None::<(Seq<Seq<u8>>, int)>,
                },
            decreases data@.len() - pos,
        {
            if pos >= data.len() {
                return Err(ErreurDns::DonneesInsuffisantes);
            }
            let length = data[pos] as usize;
            pos = pos + 1;
            if length == 0 {
                assert(lus + Seq::<Seq<u8>>::empty() =~= lus);
                return Ok((domain, pos));
            }
            if length > data.len() - pos {
                return Err(ErreurDns::DonneesInsuffisantes);
            }
            let (tete, _) = data.split_at(pos + length);
            let (_, etiq) = tete.split_at(pos);
            let texte = depuis_utf8_lossy(etiq);
            let ghost e = data@.subrange(pos as int, pos + length);
            assert(etiq@ =~= e);
            if !premier {
                ajouter(&mut domain, ".");
                proof {
                    reveal_strlit(".");
                }
            }
            ajouter(&mut domain, texte.as_str());
            proof {
                let suivant = lus.push(e);
                assert(suivant.drop_last() =~= lus);
                if lus.len() == 0 {
                    assert(domain@ =~= joindre(suivant));
                } else {
                    assert(domain@ =~= joindre(suivant));
                }
                match lire_etiquettes(data@, (pos + length) as int) {
                    Some((ls, fin)) => {
                        assert(lus + (seq![e] + ls) =~= suivant + ls);
                    },
                    None => {},
                }
                lus = suivant;
            }
            premier = false;
            pos = pos + length;
        }
    }

    /// Wire form of the question: name, type, class.
    pub fn to_bytes(&self) -> (r: Vec<u8>)
        ensures
            r@ == octets_question(*self),
    {
        let mut out = Self::encode_domain_name(self.qname.as_str());
        ecrire_u16(&mut out, self.qtype);
        ecrire_u16(&mut out, self.qclass);
        out
    }
}

/// A resource record of an answer section.
#[derive(Debug, Clone, PartialEq, Eq)]
pub struct DnsAnswer {
    pub name: String,
    pub rtype: u16,
    pub rclass: u16,
    pub ttl: u32,
    pub rdlength: u16,
    pub rdata: Vec<u8>,
}

pub open spec fn octets_reponse(a: DnsAnswer) -> Seq<u8> {
    nom_encode(vstd::utf8::encode_utf8(a.name@)) + octets_u16(a.rtype) + octets_u16(a.rclass)
        + octets_u32(a.ttl) + octets_u16(a.rdlength) + a.rdata@
}

impl DnsAnswer {
    /// An IPv4 address record of class IN.
    pub fn new_a_record(domain: String, ip: [u8; 4], ttl: u32) -> (r: Self)
        ensures
            r.name@ == domain@,
            r.rtype == DNS_TYPE_A,
            r.rclass == 1,
            r.ttl == ttl,
            r.rdlength == 4,
            r.rdata@ == ip@,
    {
        let mut rdata: Vec<u8> = Vec::new();
        rdata.push(ip[0]);
        rdata.push(ip[1]);
        rdata.push(ip[2]);
        rdata.push(ip[3]);
        assert(rdata@ =~= ip@);
        DnsAnswer { name: domain, rtype: DNS_TYPE_A, rclass: 1, ttl, rdlength: 4, rdata }
    }

    /// Wire form of the record: name, type, class, time to live, data
    /// length, data.
    pub fn to_bytes(&self) -> (r: Vec<u8>)
        ensures
            r@ == octets_reponse(*self),
    {
        let mut out = DnsQuestion::encode_domain_name(self.name.as_str());
        ecrire_u16(&mut out, self.rtype);
        ecrire_u16(&mut out, self.rclass);
        ecrire_u32(&mut out, self.ttl);
        ecrire_u16(&mut out, self.rdlength);
        ecrire_tout(&mut out, self.rdata.as_slice());
        out
    }
}

/// A whole message: header, questions, answers.
#[derive(Debug, Clone)]
pub struct DnsMessage {
    pub header: DnsHeader,
    pub questions: Vec<DnsQuestion>,
    pub answers: Vec<DnsAnswer>,
}

pub open spec fn octets_questions(qs: Seq<DnsQuestion>) -> Seq<u8>
    decreases qs.len(),
{
    if qs.len() == 0 {
        Seq::empty()
    } else {
        octets_questions(qs.drop_last()) + octets_question(qs.last())
    }
}

pub open spec fn octets_reponses(rs: Seq<DnsAnswer>) -> Seq<u8>
    decreases rs.len(),
{
    if rs.len() == 0 {
        Seq::empty()
    } else {
        octets_reponses(rs.drop_last()) + octets_reponse(rs.last())
    }
}

pub open spec fn octets_message(m: DnsMessage) -> Seq<u8> {
    octets_entete(m.header) + octets_questions(m.questions@) + octets_reponses(m.answers@)
}

/// Two question lists with the same names, types and classes.
pub open spec fn memes_questions(a: Seq<DnsQuestion>, b: Seq<DnsQuestion>) -> bool {
    &&& a.len() == b.len()
    &&& forall|i: int|
        0 <= i < a.len() ==> (#[trigger] a[i]).qname@ == b[i].qname@ && a[i].qtype == b[i].qtype
            && a[i].qclass == b[i].qclass
}

impl DnsMessage {
    /// A query with recursion desired and one question.
    pub fn new_query(id: u16, domain: String, qtype: u16) -> (r: Self)
        ensures
            r.header == (DnsHeader { id, flags: 0x0100, qdcount: 1, ancount: 0, nscount: 0, arcount: 0 }),
            r.questions@.len() == 1,
            r.questions@[0].qname@ == domain@,
            r.questions@[0].qtype == qtype,
            r.questions@[0].qclass == 1,
            r.answers@.len() == 0,
    {
        let mut header = DnsHeader::new(id, false);
        header.qdcount = 1;
        let question = DnsQuestion::new(domain, qtype);
        let mut questions: Vec<DnsQuestion> = Vec::new();
        questions.push(question);
        DnsMessage { header, questions, answers: Vec::new() }
    }

    /// The response skeleton of `query`: same identifier and questions,
    /// marked as a response, no answer yet.
    pub fn new_response(query: &DnsMessage) -> (r: Self)
        ensures
            r.header == (DnsHeader {
                id: query.header.id,
                flags: 0x8100,
                qdcount: query.header.qdcount,
                ancount: 0,
                nscount: 0,
                arcount: 0,
            }),
            memes_questions(r.questions@, query.questions@),
            r.answers@.len() == 0,
    {
        let mut header = DnsHeader::new(query.header.id, true);
        header.qdcount = query.header.qdcount;
        let mut questions: Vec<DnsQuestion> = Vec::new();
        for i in 0..query.questions.len()
            invariant
                questions@.len() == i,
                forall|k: int|
                    0 <= k < i ==> (#[trigger] questions@[k]).qname@ == query.questions@[k].qname@
                        && questions@[k].qtype == query.questions@[k].qtype
                        && questions@[k].qclass == query.questions@[k].qclass,
        {
            questions.push(query.questions[i].copier());
        }
        DnsMessage { header, questions, answers: Vec::new() }
    }

    /// Wire form of the message: header, then each question, then each
    /// answer.
    pub fn to_bytes(&self) -> (r: Vec<u8>)
        ensures
            r@ == octets_message(*self),
    {
        let mut out = self.header.to_bytes();
        let ghost debut = out@;
        let ghost qs = self.questions@;
        assert(qs.subrange(0, 0) =~= Seq::<DnsQuestion>::empty());
        assert(out@ =~= debut + octets_questions(qs.subrange(0, 0)));
        for i in 0..self.questions.len()
            invariant
                qs == self.questions@,
                out@ == debut + octets_questions(qs.subrange(0, i as int)),
        {
            let q = self.questions[i].to_bytes();
            ecrire_tout(&mut out, q.as_slice());
            assert(qs.subrange(0, i + 1).drop_last() =~= qs.subrange(0, i as int));
            assert(out@ =~= debut + octets_questions(qs.subrange(0, i + 1)));
        }
        assert(qs.subrange(0, qs.len() as int) =~= qs);
        let ghost milieu = out@;
        let ghost rs = self.answers@;
        assert(rs.subrange(0, 0) =~= Seq::<DnsAnswer>::empty());
        assert(out@ =~= milieu + octets_reponses(rs.subrange(0, 0)));
        for i in 0..self.answers.len()
            invariant
                rs == self.answers@,
                out@ == milieu + octets_reponses(rs.subrange(0, i as int)),
        {
            let a = self.answers[i].to_bytes();
            ecrire_tout(&mut out, a.as_slice());
            assert(rs.subrange(0, i + 1).drop_last() =~= rs.subrange(0, i as int));
            assert(out@ =~= milieu + octets_reponses(rs.subrange(0, i + 1)));
        }
        assert(rs.subrange(0, rs.len() as int) =~= rs);
        assert(out@ =~= octets_message(*self));
        out
    }
}

pub open spec fn vue_question(q: DnsQuestion) -> (Seq<char>, u16, u16) {
    (q.qname@, q.qtype, q.qclass)
}

/// Model of a resource record.
pub struct ReponseVue {
    pub name: Seq<char>,
    pub rtype: u16,
    pub rclass: u16,
    pub ttl: u32,
    pub rdlength: u16,
    pub rdata: Seq<u8>,
}

pub open spec fn vue_reponse(a: DnsAnswer) -> ReponseVue {
    ReponseVue {
        name: a.name@,
        rtype: a.rtype,
        rclass: a.rclass,
        ttl: a.ttl,
        rdlength: a.rdlength,
        rdata: a.rdata@,
    }
}

/// The first `n` questions from position `pos`, and the position after
/// them; nothing when the bytes end inside one.
pub open spec fn lire_questions(data: Seq<u8>, pos: int, n: nat) -> Option<(Seq<(Seq<char>, u16, u16)>, int)>
    decreases n,
{
    if n == 0 {
        Some((Seq::empty(), pos))
    } else {
        match lire_questions(data, pos, (n - 1) as nat) {
            None => None,
            Some((qs, p)) => if p >= data.len() {
                None
            } else {
                match lire_etiquettes(data, p) {
                    None => None,
                    Some((ls, q)) => if q + 4 > data.len() {
                        None
                    } else {
                        Some((qs.push((joindre(ls), u16_a(data, q), u16_a(data, q + 2))), q + 4))
                    },
                }
            },
        }
    }
}

/// Up to `n` records from position `pos`: reading stops quietly at the
/// first record whose fixed fields or data the bytes do not hold (the flag
/// says it stopped), but a name that runs past the end is an error.
pub open spec fn lire_reponses(data: Seq<u8>, pos: int, n: nat) -> Option<(Seq<ReponseVue>, int, bool)>
    decreases n,
{
    if n == 0 {
        Some((Seq::empty(), pos, false))
    } else {
        match lire_reponses(data, pos, (n - 1) as nat) {
            None => None,
            Some((rs, p, true)) => Some((rs, p, true)),
            Some((rs, p, false)) => if p >= data.len() {
                Some((rs, p, true))
            } else {
                match lire_etiquettes(data, p) {
                    None => None,
                    Some((ls, q)) => if q + 10 > data.len() {
                        Some((rs, q, true))
                    } else {
                        let l = u16_a(data, q + 8) as int;
                        if q + 10 + l > data.len() {
                            Some((rs, q + 10, true))
                        } else {
                            Some(
                                (
                                    rs.push(
                                        ReponseVue {
                                            name: joindre(ls),
                                            rtype: u16_a(data, q),
                                            rclass: u16_a(data, q + 2),
                                            ttl: u32_de(data[q + 4], data[q + 5], data[q + 6], data[q + 7]),
                                            rdlength: u16_a(data, q + 8),
                                            rdata: data.subrange(q + 10, q + 10 + l),
                                        },
                                    ),
                                    q + 10 + l,
                                    false,
                                ),
                            )
                        }
                    },
                }
            },
        }
    }
}

/// Header, questions and records that `data` holds.
pub open spec fn lire_message_dns(data: Seq<u8>) -> Option<(DnsHeader, Seq<(Seq<char>, u16, u16)>, Seq<ReponseVue>)> {
    if data.len() < 12 {
        None
    } else {
        let h = entete_de(data);
        match lire_questions(data, 12, h.qdcount as nat) {
            None => None,
            Some((qs, p)) => match lire_reponses(data, p, h.ancount as nat) {
                None => None,
                Some((rs, _, _)) => Some((h, qs, rs)),
            },
        }
    }
}

proof fn lemme_questions_echec(data: Seq<u8>, pos: int, k: nat, n: nat)
    requires
        k <= n,
        lire_questions(data, pos, k) is None,
    ensures
        lire_questions(data, pos, n) is None,
    decreases n - k,
{
    if k < n {
        lemme_questions_echec(data, pos, k + 1, n);
    }
}

proof fn lemme_reponses_echec(data: Seq<u8>, pos: int, k: nat, n: nat)
    requires
        k <= n,
        lire_reponses(data, pos, k) is None,
    ensures
        lire_reponses(data, pos, n) is None,
    decreases n - k,
{
    if k < n {
        lemme_reponses_echec(data, pos, k + 1, n);
    }
}

proof fn lemme_reponses_arret(data: Seq<u8>, pos: int, k: nat, n: nat)
    requires
        k <= n,
        lire_reponses(data, pos, k) matches Some((_, _, true)),
    ensures
        lire_reponses(data, pos, n) == lire_reponses(data, pos, k),
    decreases n - k,
{
    if k < n {
        lemme_reponses_arret(data, pos, k + 1, n);
    }
}

impl DnsMessage {
    /// Reads a whole message. Too short a header, a question that the
    /// bytes do not hold, or a record name that runs past the end is an
    /// error; records whose other fields are cut off are left out.
    pub fn from_bytes(data: &[u8]) -> (r: Result<Self, ErreurDns>)
        ensures
            match lire_message_dns(data@) {
                None => r == Err::<DnsMessage, ErreurDns>(ErreurDns::DonneesInsuffisantes),
                Some((h, qs, rs)) => r matches Ok(m) && m.header == h
                    && m.questions@.map_values(|q: DnsQuestion| vue_question(q)) == qs
                    && m.answers@.map_values(|a: DnsAnswer| vue_reponse(a)) == rs,
            },
    {
        if data.len() < 12 {
            return Err(ErreurDns::DonneesInsuffisantes);
        }
        let header = match DnsHeader::from_bytes(data) {
            Ok(h) => h,
            Err(e) => {
                return Err(e);
            },
        };
        let mut pos: usize = 12;
        let mut questions: Vec<DnsQuestion> = Vec::new();
        let mut i: u16 = 0;
        while i < header.qdcount
            invariant
                header == entete_de(data@),
                i <= header.qdcount,
                lire_questions(data@, 12, i as nat) == Some((
                    questions@.map_values(|q: DnsQuestion| vue_question(q)),
                    pos as int,
                )),
            decreases header.qdcount - i,
        {
            if pos >= data.len() {
                proof {
                    lemme_questions_echec(data@, 12, (i + 1) as nat, header.qdcount as nat);
                }
                return Err(ErreurDns::DonneesInsuffisantes);
            }
            let (domain, new_pos) = match DnsQuestion::decode_domain_name(data, pos) {
                Ok(x) => x,
                Err(e) => {
                    proof {
                        lemme_questions_echec(data@, 12, (i + 1) as nat, header.qdcount as nat);
                    }
                    return Err(e);
                },
            };
            pos = new_pos;
            if pos > data.len() || 4 > data.len() - pos {
                proof {
                    lemme_questions_echec(data@, 12, (i + 1) as nat, header.qdcount as nat);
                }
                return Err(ErreurDns::DonneesInsuffisantes);
            }
            let qtype = lire_u16(data, pos);
            let qclass = lire_u16(data, pos + 2);
            pos = pos + 4;
            let ghost avant = questions@;
            questions.push(DnsQuestion { qname: domain, qtype, qclass });
            assert(questions@.map_values(|q: DnsQuestion| vue_question(q)) =~= avant.map_values(
                |q: DnsQuestion| vue_question(q),
            ).push(vue_question(questions@.last())));
            i = i + 1;
        }
        let mut answers: Vec<DnsAnswer> = Vec::new();
        let ghost debut = pos as int;
        let mut j: u16 = 0;
        let mut arrete = false;
        while j < header.ancount && !arrete
            invariant
                header == entete_de(data@),
                lire_questions(data@, 12, header.qdcount as nat) == Some((
                    questions@.map_values(|q: DnsQuestion| vue_question(q)),
                    debut,
                )),
                j <= header.ancount,
                lire_reponses(data@, debut, j as nat) == Some((
                    answers@.map_values(|a: DnsAnswer| vue_reponse(a)),
                    pos as int,
                    arrete,
                )),
            decreases header.ancount - j,
        {
            if pos >= data.len() {
                arrete = true;
            } else {
                let (domain, new_pos) = match DnsQuestion::decode_domain_name(data, pos) {
                    Ok(x) => x,
                    Err(e) => {
                        proof {
                            lemme_reponses_echec(data@, debut, (j + 1) as nat, header.ancount as nat);
                        }
                        return Err(e);
                    },
                };
                pos = new_pos;
                if pos > data.len() || 10 > data.len() - pos {
                    arrete = true;
                } else {
                    let rtype = lire_u16(data, pos);
                    let rclass = lire_u16(data, pos + 2);
                    let ttl = lire_u32(data, pos + 4);
                    let rdlength = lire_u16(data, pos + 8);
                    pos = pos + 10;
                    if rdlength as usize > data.len() - pos {
                        arrete = true;
                    } else {
                        let (tete, _) = data.split_at(pos + rdlength as usize);
                        let (_, morceau) = tete.split_at(pos);
                        assert(morceau@ =~= data@.subrange(pos as int, pos + rdlength as int));
                        let mut rdata: Vec<u8> = Vec::new();
                        ecrire_tout(&mut rdata, morceau);
                        let ghost avant = answers@;
                        answers.push(DnsAnswer { name: domain, rtype, rclass, ttl, rdlength, rdata });
                        assert(answers@.map_values(|a: DnsAnswer| vue_reponse(a)) =~= avant.map_values(
                            |a: DnsAnswer| vue_reponse(a),
                        ).push(vue_reponse(answers@.last())));
                        pos = pos + rdlength as usize;
                    }
                }
            }
            j = j + 1;
        }
        proof {
            if arrete {
                lemme_reponses_arret(data@, debut, j as nat, header.ancount as nat);
            }
        }
        Ok(DnsMessage { header, questions, answers })
    }
}

/// Address recorded for `nom` in `table`: the first entry with that name.
pub open spec fn chercher(table: Seq<(String, [u8; 4])>, nom: Seq<char>) -> Option<Seq<u8>>
    decreases table.len(),
{
    if table.len() == 0 {
        None
    } else if table[0].0@ == nom {
        Some(table[0].1@)
    } else {
        chercher(table.drop_first(), nom)
    }
}

/// Time to live of the answers, in seconds.
pub const TTL_REPONSE: u32 = 300;

/// Answers and flags after handling the questions `qs`: an IPv4 question
/// for a known name gets an address record; one for an unknown name sets
/// the name error code (3); any other type sets code 4 (not implemented).
pub open spec fn traiter_questions(
    qs: Seq<DnsQuestion>,
    table: Seq<(String, [u8; 4])>,
    flags: u16,
) -> (Seq<ReponseVue>, u16)
    decreases qs.len(),
{
    if qs.len() == 0 {
        (Seq::empty(), flags)
    } else {
        let (rs, f) = traiter_questions(qs.drop_last(), table, flags);
        let q = qs.last();
        if q.qtype == DNS_TYPE_A {
            match chercher(table, q.qname@) {
                Some(ip) => (
                    rs.push(
                        ReponseVue {
                            name: q.qname@,
                            rtype: DNS_TYPE_A,
                            rclass: 1,
                            ttl: TTL_REPONSE,
                            rdlength: 4,
                            rdata: ip,
                        },
                    ),
                    f,
                ),
                None => (rs, f | 0x0003u16),
            }
        } else {
            (rs, f | 0x0004u16)
        }
    }
}

fn chercher_exec(table: &Vec<(String, [u8; 4])>, nom: &String) -> (r: Option<[u8; 4]>)
    ensures
        match chercher(table@, nom@) {
            Some(ip) => r matches Some(a) && a@ == ip,
            None => r is None,
        },
{
    let mut i: usize = 0;
    assert(table@.subrange(0, table@.len() as int) =~= table@);
    while i < table.len()
        invariant
            i <= table@.len(),
            chercher(table@, nom@) == chercher(table@.subrange(i as int, table@.len() as int), nom@),
        decreases table@.len() - i,
    {
        assert(table@.subrange(i as int, table@.len() as int).drop_first() =~= table@.subrange(
            i + 1,
            table@.len() as int,
        ));
        if table[i].0.eq(nom) {
            return Some(table[i].1);
        }
        i = i + 1;
    }
    None
}

/// The response that a server holding `table` gives to `requete`.
pub fn repondre(requete: &DnsMessage, table: &Vec<(String, [u8; 4])>) -> (r: DnsMessage)
    requires
        requete.questions@.len() <= u16::MAX,
    ensures
        ({
            let (rs, f) = traiter_questions(requete.questions@, table@, 0x8100u16);
            &&& r.header == (DnsHeader {
                id: requete.header.id,
                flags: f,
                qdcount: requete.header.qdcount,
                ancount: rs.len() as u16,
                nscount: 0,
                arcount: 0,
            })
            &&& memes_questions(r.questions@, requete.questions@)
            &&& r.answers@.map_values(|a: DnsAnswer| vue_reponse(a)) == rs
        }),
{
    let mut reponse = DnsMessage::new_response(requete);
    let ghost qs = requete.questions@;
    for i in 0..requete.questions.len()
        invariant
            qs == requete.questions@,
            qs.len() <= u16::MAX,
            memes_questions(reponse.questions@, requete.questions@),
            ({
                let (rs, f) = traiter_questions(qs.subrange(0, i as int), table@, 0x8100u16);
                &&& reponse.header == (DnsHeader {
                    id: requete.header.id,
                    flags: f,
                    qdcount: requete.header.qdcount,
                    ancount: rs.len() as u16,
                    nscount: 0,
                    arcount: 0,
                })
                &&& reponse.answers@.map_values(|a: DnsAnswer| vue_reponse(a)) == rs
                &&& rs.len() <= i
            }),
    {
        let question = &requete.questions[i];
        assert(qs.subrange(0, i + 1).drop_last() =~= qs.subrange(0, i as int));
        assert(qs.subrange(0, i + 1).last() == qs[i as int]);
        if question.qtype == DNS_TYPE_A {
            match chercher_exec(table, &question.qname) {
                Some(ip) => {
                    let answer = DnsAnswer::new_a_record(question.qname.clone(), ip, TTL_REPONSE);
                    let ghost avant = reponse.answers@;
                    reponse.answers.push(answer);
                    assert(reponse.answers@.map_values(|a: DnsAnswer| vue_reponse(a)) =~= avant.map_values(
                        |a: DnsAnswer| vue_reponse(a),
                    ).push(vue_reponse(reponse.answers@.last())));
                    reponse.header.ancount = reponse.header.ancount + 1;
                },
                None => {
                    reponse.header.flags = reponse.header.flags | 0x0003;
                },
            }
        } else {
            reponse.header.flags = reponse.header.flags | 0x0004;
        }
    }
    assert(qs.subrange(0, qs.len() as int) =~= qs);
    reponse
}

/// What a client learns from a response to its query.
#[derive(Debug, PartialEq, Eq)]
pub enum Resolution {
    /// The response answers another query.
    IdIncorrect { attendu: u16, recu: u16 },
    /// The first IPv4 record: dotted address and time to live.
    Adresse { ip: String, ttl: u32 },
    /// Success without any record.
    AucuneReponse,
    /// Success, but no record holds an IPv4 address.
    AucuneAdresseIpv4,
    /// Response code 3: the name does not exist.
    DomaineInexistant,
    /// Response code 4: the query type is not implemented.
    NonSupporte,
    /// Any other response code.
    ErreurServeur(u16),
}

/// Dotted decimal form of four address bytes.
pub open spec fn texte_ip(o: Seq<u8>) -> Seq<char> {
    decimal_de(o[0] as nat) + seq!['.'] + decimal_de(o[1] as nat) + seq!['.'] + decimal_de(
        o[2] as nat,
    ) + seq!['.'] + decimal_de(o[3] as nat)
}

pub open spec fn est_ipv4(a: DnsAnswer) -> bool {
    a.rtype == DNS_TYPE_A && a.rdata@.len() == 4
}

/// Index of the first IPv4 record among `rs` from `i` on.
pub open spec fn premiere_ipv4(rs: Seq<DnsAnswer>, i: int) -> Option<int>
    decreases rs.len() - i,
{
    if i < 0 || i >= rs.len() {
        None
    } else if est_ipv4(rs[i]) {
        Some(i)
    } else {
        premiere_ipv4(rs, i + 1)
    }
}

fn texte_ip_exec(o: &Vec<u8>) -> (r: String)
    requires
        o@.len() == 4,
    ensures
        r@ == texte_ip(o@),
{
    proof {
        reveal_strlit(".");
    }
    let mut t = decimal(o[0] as u64);
    ajouter(&mut t, ".");
    ajouter(&mut t, decimal(o[1] as u64).as_str());
    ajouter(&mut t, ".");
    ajouter(&mut t, decimal(o[2] as u64).as_str());
    ajouter(&mut t, ".");
    ajouter(&mut t, decimal(o[3] as u64).as_str());
    t
}

/// Reads the outcome of `reponse` for the query numbered `id_requete`.
#[verifier::loop_isolation(false)]
pub fn interpreter_reponse(reponse: &DnsMessage, id_requete: u16) -> (r: Resolution)
    ensures
        reponse.header.id != id_requete ==> r == (Resolution::IdIncorrect {
            attendu: id_requete,
            recu: reponse.header.id,
        }),
        reponse.header.id == id_requete ==> {
            let code = reponse.header.flags & 0x000Fu16;
            if code == 0 {
                if reponse.answers@.len() == 0 {
                    r is AucuneReponse
                } else {
                    match premiere_ipv4(reponse.answers@, 0) {
                        Some(k) => r matches Resolution::Adresse { ip, ttl } && ip@ == texte_ip(
                            reponse.answers@[k].rdata@,
                        ) && ttl == reponse.answers@[k].ttl,
                        None => r is AucuneAdresseIpv4,
                    }
                }
            } else if code == 3 {
                r is DomaineInexistant
            } else if code == 4 {
                r is NonSupporte
            } else {
                r == Resolution::ErreurServeur(code)
            }
        },
{
    if reponse.header.id != id_requete {
        return Resolution::IdIncorrect { attendu: id_requete, recu: reponse.header.id };
    }
    let code = reponse.header.flags & 0x000F;
    if code == 0 {
        if reponse.answers.len() == 0 {
            return Resolution::AucuneReponse;
        }
        let mut i: usize = 0;
        while i < reponse.answers.len()
            invariant
                i <= reponse.answers@.len(),
                premiere_ipv4(reponse.answers@, 0) == premiere_ipv4(reponse.answers@, i as int),
            decreases reponse.answers@.len() - i,
        {
            let a = &reponse.answers[i];
            if a.rtype == DNS_TYPE_A && a.rdata.len() == 4 {
                return Resolution::Adresse { ip: texte_ip_exec(&a.rdata), ttl: a.ttl };
            }
            i = i + 1;
        }
        Resolution::AucuneAdresseIpv4
    } else if code == 3 {
        Resolution::DomaineInexistant
    } else if code == 4 {
        Resolution::NonSupporte
    } else {
        Resolution::ErreurServeur(code)
    }
}

} // verus!

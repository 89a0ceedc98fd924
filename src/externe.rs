use vstd::prelude::*;

verus! {

/// Decimal digits of `n`, most significant first, without sign or padding.
pub open spec fn decimal_de(n: nat) -> Seq<char>
    decreases n,
{
    if n < 10 {
        seq![chiffre(n)]
    } else {
        decimal_de(n / 10).push(chiffre(n % 10))
    }
}

pub open spec fn chiffre(d: nat) -> char {
    if d < 10 {
        (('0' as u32) + d) as char
    } else {
        '?'
    }
}

/// Relies on uuid::Uuid::new_v4: a fresh random identifier, returned as
/// its 128-bit value. Nothing is promised of the value.
#[verifier::external_body]
pub(crate) fn nouvel_identifiant() -> (r: u128) {
    uuid::Uuid::new_v4().as_u128()
}

/// Relies on uuid::Uuid::new_v4 and its hyphenated `to_string` form: a fresh
/// random session identifier. Nothing is promised of the value.
#[verifier::external_body]
pub fn generer_id_session() -> (r: String) {
    uuid::Uuid::new_v4().to_string()
}

/// Relies on chrono::Utc::now and DateTime::timestamp_millis: the current
/// time in milliseconds since the Unix epoch. Nothing is promised of it.
#[verifier::external_body]
pub(crate) fn horodatage_ms() -> (r: u64) {
    chrono::Utc::now().timestamp_millis() as u64
}

/// Relies on std's `u64::to_string`, which writes the decimal digits.
#[verifier::external_body]
pub(crate) fn decimal(n: u64) -> (r: String)
    ensures
        r@ == decimal_de(n as nat),
{
    n.to_string()
}

/// Relies on std's `String::from_utf8`: it succeeds exactly on valid UTF-8,
/// and the string then holds the characters those bytes encode.
#[verifier::external_body]
pub(crate) fn chaine_depuis_utf8(octets: Vec<u8>) -> (r: Option<String>)
    ensures
        r is Some <==> vstd::utf8::valid_utf8(octets@),
        r is Some ==> r->Some_0@ == vstd::utf8::decode_utf8(octets@),
{
    String::from_utf8(octets).ok()
}

/// Relies on std's `String::push_str`: appends the characters of `suite`.
#[verifier::external_body]
pub(crate) fn ajouter(s: &mut String, suite: &str)
    ensures
        final(s)@ == old(s)@ + suite@,
{
    s.push_str(suite)
}

/// Relies on std's `String::push`: appends one character.
#[verifier::external_body]
pub(crate) fn pousser(s: &mut String, c: char)
    ensures
        final(s)@ == old(s)@.push(c),
{
    s.push(c)
}

/// The string of the characters of `cs`, in order.
pub fn chaine_de_caracteres(cs: &[char]) -> (r: String)
    ensures
        r@ == cs@,
{
    let mut r = String::new();
    for i in 0..cs.len()
        invariant
            r@ == cs@.subrange(0, i as int),
    {
        pousser(&mut r, cs[i]);
        assert(r@ =~= cs@.subrange(0, i + 1));
    }
    assert(cs@.subrange(0, cs@.len() as int) =~= cs@);
    r
}

/// Name for the text that `String::from_utf8_lossy` makes of some bytes.
pub uninterp spec fn texte_lossy(octets: Seq<u8>) -> Seq<char>;

/// Relies on std's `String::from_utf8_lossy`: valid UTF-8 is decoded as it
/// is; each invalid sequence becomes U+FFFD.
#[verifier::external_body]
pub(crate) fn depuis_utf8_lossy(octets: &[u8]) -> (r: String)
    ensures
        r@ == texte_lossy(octets@),
        vstd::utf8::valid_utf8(octets@) ==> r@ == vstd::utf8::decode_utf8(octets@),
{
    String::from_utf8_lossy(octets).into_owned()
}

} // verus!

//! User ids are UUIDs, held as the 128-bit number that `uuid::Uuid::as_u128`
//! gives (the UUID's sixteen bytes read big-endian).
use vstd::prelude::*;

verus! {

/// `16` to the power `e`.
pub open spec fn pow16(e: nat) -> int
    decreases e,
{
    if e == 0 {
        1
    } else {
        16 * pow16((e - 1) as nat)
    }
}

/// The powers of sixteen that the 32 hex digits of an id stand for.
pub proof fn lemma_pow16_values()
    ensures
        pow16(0) == 1int,
        pow16(1) == 16int,
        pow16(2) == 256int,
        pow16(3) == 4096int,
        pow16(4) == 65536int,
        pow16(5) == 1048576int,
        pow16(6) == 16777216int,
        pow16(7) == 268435456int,
        pow16(8) == 4294967296int,
        pow16(9) == 68719476736int,
        pow16(10) == 1099511627776int,
        pow16(11) == 17592186044416int,
        pow16(12) == 281474976710656int,
        pow16(13) == 4503599627370496int,
        pow16(14) == 72057594037927936int,
        pow16(15) == 1152921504606846976int,
        pow16(16) == 18446744073709551616int,
        pow16(17) == 295147905179352825856int,
        pow16(18) == 4722366482869645213696int,
        pow16(19) == 75557863725914323419136int,
        pow16(20) == 1208925819614629174706176int,
        pow16(21) == 19342813113834066795298816int,
        pow16(22) == 309485009821345068724781056int,
        pow16(23) == 4951760157141521099596496896int,
        pow16(24) == 79228162514264337593543950336int,
        pow16(25) == 1267650600228229401496703205376int,
        pow16(26) == 20282409603651670423947251286016int,
        pow16(27) == 324518553658426726783156020576256int,
        pow16(28) == 5192296858534827628530496329220096int,
        pow16(29) == 83076749736557242056487941267521536int,
        pow16(30) == 1329227995784915872903807060280344576int,
        pow16(31) == 21267647932558653966460912964485513216int,
{
    assert(pow16(0) == 1int);
    assert(pow16(1) == 16int);
    assert(pow16(2) == 256int);
    assert(pow16(3) == 4096int);
    assert(pow16(4) == 65536int);
    assert(pow16(5) == 1048576int);
    assert(pow16(6) == 16777216int);
    assert(pow16(7) == 268435456int);
    assert(pow16(8) == 4294967296int);
    assert(pow16(9) == 68719476736int);
    assert(pow16(10) == 1099511627776int);
    assert(pow16(11) == 17592186044416int);
    assert(pow16(12) == 281474976710656int);
    assert(pow16(13) == 4503599627370496int);
    assert(pow16(14) == 72057594037927936int);
    assert(pow16(15) == 1152921504606846976int);
    assert(pow16(16) == 18446744073709551616int);
    assert(pow16(17) == 295147905179352825856int);
    assert(pow16(18) == 4722366482869645213696int);
    assert(pow16(19) == 75557863725914323419136int);
    assert(pow16(20) == 1208925819614629174706176int);
    assert(pow16(21) == 19342813113834066795298816int);
    assert(pow16(22) == 309485009821345068724781056int);
    assert(pow16(23) == 4951760157141521099596496896int);
    assert(pow16(24) == 79228162514264337593543950336int);
    assert(pow16(25) == 1267650600228229401496703205376int);
    assert(pow16(26) == 20282409603651670423947251286016int);
    assert(pow16(27) == 324518553658426726783156020576256int);
    assert(pow16(28) == 5192296858534827628530496329220096int);
    assert(pow16(29) == 83076749736557242056487941267521536int);
    assert(pow16(30) == 1329227995784915872903807060280344576int);
    assert(pow16(31) == 21267647932558653966460912964485513216int);
}

/// The `j`-th hexadecimal digit (`0 <= j < 32`, most significant first) of an id.
pub open spec fn nibble(id: u128, j: int) -> int {
    (id as int / pow16((31 - j) as nat)) % 16
}

/// The lower-case hexadecimal character of a digit `0 <= n < 16`.
pub open spec fn hex_char(n: int) -> char {
    if n < 10 {
        (48 + n) as char
    } else {
        (87 + n) as char
    }
}

/// Position among the 32 hex digits of the character at position `i` of the
/// hyphenated form (the hyphens stand at 8, 13, 18 and 23).
pub open spec fn digit_index(i: int) -> int {
    if i < 8 {
        i
    } else if i < 13 {
        i - 1
    } else if i < 18 {
        i - 2
    } else if i < 23 {
        i - 3
    } else {
        i - 4
    }
}

/// The hyphenated lower-case text of an id, such as
/// `151b219c-7fe6-4622-8bd0-d9ed03031a5f`.
pub open spec fn hyphenated(id: u128) -> Seq<char> {
    Seq::new(
        36,
        |i: int|
            if i == 8 || i == 13 || i == 18 || i == 23 {
                '-'
            } else {
                hex_char(nibble(id, digit_index(i)))
            },
    )
}

/// A random (version 4, RFC 4122 variant) UUID: the version digit is 4 and
/// the two top bits of the variant octet are `10`.
pub open spec fn is_random_v4(id: u128) -> bool {
    &&& (id as int / pow16(19)) % 16 == 4
    &&& (id as int / (4 * pow16(15))) % 4 == 2
}

/// The lengths of the four textual forms of a UUID: simple (32), hyphenated
/// (36), braced (38) and URN (45).
pub open spec fn has_uuid_length(text: Seq<char>) -> bool {
    text.len() == 32 || text.len() == 36 || text.len() == 38 || text.len() == 45
}

/// What `uuid::Uuid::parse_str` makes of a text: the id, or `None` where it
/// refuses the text.
pub uninterp spec fn uuid_parse(text: Seq<char>) -> Option<u128>;

/// Calls `uuid::Uuid::parse_str` and keeps the 128-bit value of what it parsed.
/// Claimed: the result is `uuid_parse` of the text, and the hyphenated
/// lower-case text of an id parses back to that id (the crate's hyphenated
/// parser reads the 32 hex digits big-endian around hyphens at 8, 13, 18, 23).
/// Also claimed: a text is refused unless it is 32, 36, 38 or 45 characters
/// long (the crate dispatches on the byte length to the simple, hyphenated,
/// braced and URN forms and refuses every other length; every accepted byte
/// is ASCII, so characters and bytes agree in number). Which texts of those
/// lengths are accepted (hex digits of either case, hyphens, braces, the
/// `urn:uuid:` prefix) is left to the name.
#[verifier::external_body]
pub(crate) fn parse_uuid(text: &str) -> (parsed: Option<u128>)
    ensures
        parsed == uuid_parse(text@),
        forall|id: u128| text@ == hyphenated(id) ==> parsed == Some(id),
        !has_uuid_length(text@) ==> parsed is None,
{
    match uuid::Uuid::parse_str(text) {
        Ok(u) => Some(u.as_u128()),
        Err(_) => None,
    }
}

/// Calls `uuid::Uuid::new_v4`. Claimed: the result is a version-4 UUID of the
/// RFC 4122 variant (the crate masks in `0x4` as version and `0b10` as
/// variant). The other 122 bits are random and nothing is said of them.
#[verifier::external_body]
pub(crate) fn new_v4() -> (id: u128)
    ensures
        is_random_v4(id),
{
    uuid::Uuid::new_v4().as_u128()
}

/// Calls `uuid::Uuid::from_u128(id).to_string()`. Claimed: the text is the
/// hyphenated lower-case form of the id (`Display` of `Uuid` is its
/// `LowerHex`, which formats the hyphenated form).
#[verifier::external_body]
pub(crate) fn to_text(id: u128) -> (text: String)
    ensures
        text@ == hyphenated(id),
{
    uuid::Uuid::from_u128(id).to_string()
}

/// The text `before`, then the hyphenated form of `id`, then `after`.
pub(crate) fn id_in_text(before: &str, id: u128, after: &str) -> (text: String)
    ensures
        text@ == before@ + hyphenated(id) + after@,
{
    let mut text = before.to_owned();
    let id_text = to_text(id);
    text.append(id_text.as_str());
    text.append(after);
    text
}

} // verus!

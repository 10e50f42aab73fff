//! Invitation links, colours and the message that tells the home automation
//! server about a ping.

use vstd::prelude::*;
use vstd::string::*;
use crate::random::{gen_usize, thread_rng};
use crate::text::{push_char, push_decimal, decimal};
use crate::clock::{Timestamp, chrono_text, naive_text};
use colors_transform::Color;

verus! {

/// The characters of invitation links: digits and letters without the easily
/// confused `I`, `O` and `j`.
pub open spec fn base59() -> Seq<char> {
    seq![
        '0', '1', '2', '3', '4', '5', '6', '7', '8', '9',
        'A', 'B', 'C', 'D', 'E', 'F', 'G', 'H', 'J', 'K', 'L', 'M', 'N', 'P', 'Q', 'R', 'S', 'T',
        'U', 'V', 'W', 'X', 'Y', 'Z',
        'a', 'b', 'c', 'd', 'e', 'f', 'g', 'h', 'i', 'k', 'l', 'm', 'n', 'o', 'p', 'q', 'r', 's',
        't', 'u', 'v', 'w', 'x', 'y', 'z',
    ]
}

/// The link that a sequence of random numbers stands for: each number picks
/// the character at its remainder modulo 59.
pub open spec fn link_for(randoms: Seq<usize>) -> Seq<char> {
    randoms.map_values(|r: usize| base59()[(r % 59) as int])
}

fn base59_alphabet() -> (v: Vec<char>)
    ensures
        v@ == base59(),
{
    let v = vec![
        '0', '1', '2', '3', '4', '5', '6', '7', '8', '9',
        'A', 'B', 'C', 'D', 'E', 'F', 'G', 'H', 'J', 'K', 'L', 'M', 'N', 'P', 'Q', 'R', 'S', 'T',
        'U', 'V', 'W', 'X', 'Y', 'Z',
        'a', 'b', 'c', 'd', 'e', 'f', 'g', 'h', 'i', 'k', 'l', 'm', 'n', 'o', 'p', 'q', 'r', 's',
        't', 'u', 'v', 'w', 'x', 'y', 'z',
    ];
    assert(v@ =~= base59());
    v
}

/// The link built from the given random numbers.
pub fn link_from_randoms(randoms: &Vec<usize>) -> (r: String)
    ensures
        r@ == link_for(randoms@),
{
    let alphabet = base59_alphabet();
    let mut id = String::new();
    let mut i: usize = 0;
    while i < randoms.len()
        invariant
            alphabet@ == base59(),
            i <= randoms.len(),
            id@ == link_for(randoms@.take(i as int)),
        decreases randoms.len() - i,
    {
        let c = alphabet[randoms[i] % 59];
        push_char(&mut id, c);
        assert(randoms@.take(i + 1) =~= randoms@.take(i as int).push(randoms@[i as int]));
        assert(link_for(randoms@.take(i + 1)) =~= link_for(randoms@.take(i as int)).push(c));
        i = i + 1;
    }
    assert(randoms@.take(i as int) =~= randoms@);
    id
}

/// A fresh random invitation link of `size` characters.
pub fn new_link(size: usize) -> (r: String)
    requires
        size <= isize::MAX,
    ensures
        r@.len() == size,
        exists|randoms: Seq<usize>| randoms.len() == size && r@ == link_for(randoms),
        forall|i: int| 0 <= i < size ==> base59().contains(#[trigger] r@[i]),
{
    let mut rng = thread_rng();
    let mut randoms: Vec<usize> = Vec::new();
    while randoms.len() < size
        invariant
            randoms.len() <= size,
        decreases size - randoms.len(),
    {
        randoms.push(gen_usize(&mut rng));
    }
    let id = link_from_randoms(&randoms);
    assert forall|i: int| 0 <= i < size implies base59().contains(#[trigger] id@[i]) by {
        let k = (randoms@[i] % 59) as int;
        assert(id@[i] == base59()[k]);
    }
    id
}


/// The value of a hexadecimal digit of either case, `None` for other characters.
pub open spec fn hex_digit_value(c: char) -> Option<int> {
    if '0' <= c <= '9' {
        Some(c as int - '0' as int)
    } else if 'a' <= c <= 'f' {
        Some(c as int - 'a' as int + 10)
    } else if 'A' <= c <= 'F' {
        Some(c as int - 'A' as int + 10)
    } else {
        None
    }
}

/// Whether every character of `s` is a hexadecimal digit.
pub open spec fn all_hex_digits(s: Seq<char>) -> bool {
    forall|i: int| 0 <= i < s.len() ==> (#[trigger] hex_digit_value(s[i])) is Some
}

/// The number that two hexadecimal digits write.
pub open spec fn hex_byte(hi: char, lo: char) -> int {
    hex_digit_value(hi).unwrap() * 16 + hex_digit_value(lo).unwrap()
}

/// `s` without one leading `#`, if it has one.
pub open spec fn strip_hash(s: Seq<char>) -> Seq<char> {
    if s.len() > 0 && s[0] == '#' { s.drop_first() } else { s }
}

/// Whether a character is not `#`.
pub open spec fn not_hash() -> spec_fn(char) -> bool {
    |c: char| c != '#'
}

/// The number of characters of `s` that are not `#`.
pub open spec fn non_hash_count(s: Seq<char>) -> nat {
    s.filter(not_hash()).len()
}

/// In a text without `#`, every character counts.
pub proof fn lemma_non_hash_count_without_hash(s: Seq<char>)
    requires
        !s.contains('#'),
    ensures
        non_hash_count(s) == s.len(),
    decreases s.len(),
{
    reveal(Seq::filter);
    if s.len() > 0 {
        let rest = s.drop_last();
        assert(!rest.contains('#')) by {
            if rest.contains('#') {
                let i = choose|i: int| 0 <= i < rest.len() && rest[i] == '#';
                assert(s[i] == '#');
            }
        }
        lemma_non_hash_count_without_hash(rest);
        assert(s.last() != '#') by {
            assert(s[s.len() - 1] == s.last());
        }
        assert(s.filter(not_hash()) == rest.filter(not_hash()).push(s.last()));
    }
}

/// Whether every character of `s` is ASCII.
pub open spec fn all_ascii(s: Seq<char>) -> bool {
    forall|i: int| 0 <= i < s.len() ==> (#[trigger] s[i]) as int <= 127
}

/// Whether `s` is six hex digits, with or without a leading `#`.
pub open spec fn six_hex_digits(s: Seq<char>) -> bool {
    strip_hash(s).len() == 6 && all_hex_digits(strip_hash(s))
}

/// Whether `s` is three hex digits, with or without a leading `#`.
pub open spec fn three_hex_digits(s: Seq<char>) -> bool {
    strip_hash(s).len() == 3 && all_hex_digits(strip_hash(s))
}

/// The channels that six hex digits write.
pub open spec fn six_digit_rgb(s: Seq<char>) -> (u8, u8, u8) {
    let d = strip_hash(s);
    (hex_byte(d[0], d[1]) as u8, hex_byte(d[2], d[3]) as u8, hex_byte(d[4], d[5]) as u8)
}

/// The channels that three hex digits write: each digit doubled.
pub open spec fn three_digit_rgb(s: Seq<char>) -> (u8, u8, u8) {
    let d = strip_hash(s);
    (hex_byte(d[0], d[0]) as u8, hex_byte(d[1], d[1]) as u8, hex_byte(d[2], d[2]) as u8)
}

/// Whether `s` is certainly a colour: three or six hex digits, with or without
/// a leading `#`.
pub open spec fn plain_hex_colour(s: Seq<char>) -> bool {
    six_hex_digits(s) || three_hex_digits(s)
}

/// The channels that three or six hex digits write.
pub open spec fn plain_hex_rgb(s: Seq<char>) -> (u8, u8, u8) {
    if six_hex_digits(s) { six_digit_rgb(s) } else { three_digit_rgb(s) }
}

/// Whether `s` is certainly no colour: an ASCII text whose characters other
/// than `#` are neither three nor six.
pub open spec fn wrong_length_ascii(s: Seq<char>) -> bool {
    all_ascii(s) && non_hash_count(s) != 3 && non_hash_count(s) != 6
}

/// Whether the three texts are the channels `c` in decimal.
pub open spec fn decimal_channels(t: (String, String, String), c: (u8, u8, u8)) -> bool {
    &&& t.0@ == decimal(c.0 as nat)
    &&& t.1@ == decimal(c.1 as nat)
    &&& t.2@ == decimal(c.2 as nat)
}

/// An ASCII letter in lower case; other characters as they are.
pub open spec fn ascii_lower(c: char) -> char {
    if 'A' <= c <= 'Z' { ((c as u32) + 32) as char } else { c }
}

/// The text that colors-transform reads a hex colour from, for an ASCII text:
/// every `#` removed, letters in lower case.
pub open spec fn hex_text(s: Seq<char>) -> Seq<char> {
    s.filter(not_hash()).map_values(|c: char| ascii_lower(c))
}

/// Three characters each doubled; other texts as they are.
pub open spec fn expand_short(d: Seq<char>) -> Seq<char> {
    if d.len() == 3 { seq![d[0], d[0], d[1], d[1], d[2], d[2]] } else { d }
}

/// The number that a sequence of hex digits writes.
pub open spec fn hex_value(d: Seq<char>) -> int
    decreases d.len(),
{
    if d.len() == 0 {
        0
    } else {
        hex_value(d.drop_last()) * 16 + hex_digit_value(d.last()).unwrap()
    }
}

/// What `usize::from_str_radix(d, 16)` reads: an optional leading `+`, then at
/// least one hex digit and nothing else.
pub open spec fn radix16(d: Seq<char>) -> Option<int> {
    let digits = if d.len() > 0 && d[0] == '+' { d.drop_first() } else { d };
    if digits.len() > 0 && all_hex_digits(digits) { Some(hex_value(digits)) } else { None }
}

/// The colour that colors-transform's `Rgb::from_hex_str` reads from an ASCII
/// text: the text without `#` in lower case must have three characters (each
/// then doubled) or six, which must read as a number in base 16; its three bytes,
/// from the highest, are red, green and blue.
pub open spec fn ascii_hex_color(s: Seq<char>) -> Option<(u8, u8, u8)> {
    let d = hex_text(s);
    if d.len() != 3 && d.len() != 6 {
        None
    } else {
        match radix16(expand_short(d)) {
            Some(n) => Some(((n / 65536) as u8, ((n / 256) % 256) as u8, (n % 256) as u8)),
            None => None,
        }
    }
}

/// What colors-transform's `Rgb::from_hex_str` reads from a text: the red,
/// green and blue channels, or `None` where it refuses the text.
pub uninterp spec fn hex_color(s: Seq<char>) -> Option<(u8, u8, u8)>;

/// The refusal of colors-transform's parsers.
#[verifier::external_type_specification]
#[verifier::external_body]
pub struct ExParseError(colors_transform::ParseError);

/// Parses a CSS hex colour (colors-transform `Rgb::from_hex_str`, channels read
/// with `get_red`, `get_green`, `get_blue`, which hold whole numbers from 0 to
/// 255 after that parse).
/// Claimed: the result is `hex_color` of the text. As the crate's source shows,
/// for an ASCII text it is `ascii_hex_color`; in particular six hex digits of
/// either case, with or without a leading `#`, give the three bytes they write,
/// three hex digits give each digit doubled, and a text whose characters other
/// than `#` are neither three nor six is refused. What it does with a text that
/// is not ASCII (it lowers such letters by Unicode's rules first) is left to the
/// name.
#[verifier::external_body]
fn rgb_from_hex_str(s: &str) -> (r: Result<(u8, u8, u8), colors_transform::ParseError>)
    ensures
        r is Ok <==> hex_color(s@) is Some,
        r matches Ok(t) ==> hex_color(s@) == Some(t),
        six_hex_digits(s@) ==> r is Ok,
        r matches Ok(t) ==> (six_hex_digits(s@) ==> t == six_digit_rgb(s@)),
        three_hex_digits(s@) ==> r is Ok,
        r matches Ok(t) ==> (three_hex_digits(s@) ==> t == three_digit_rgb(s@)),
        all_ascii(s@) && non_hash_count(s@) != 3 && non_hash_count(s@) != 6 ==> r is Err,
        all_ascii(s@) ==> (r is Ok <==> ascii_hex_color(s@) is Some),
        r matches Ok(t) ==> (all_ascii(s@) ==> ascii_hex_color(s@) == Some(t)),
{
    match colors_transform::Rgb::from_hex_str(s) {
        Ok(rgb) => Ok((rgb.get_red() as u8, rgb.get_green() as u8, rgb.get_blue() as u8)),
        Err(e) => Err(e),
    }
}

/// Whether `hex` is a colour that the lights can show.
pub fn valid_hex(hex: &str) -> (r: bool)
    ensures
        r == hex_color(hex@) is Some,
        all_ascii(hex@) ==> hex_color(hex@) == ascii_hex_color(hex@),
        plain_hex_colour(hex@) ==> r,
        wrong_length_ascii(hex@) ==> !r,
{
    rgb_from_hex_str(hex).is_ok()
}

/// A colour that could not be read, or a home automation server that could not
/// be reached.
#[derive(Clone, Copy, Debug, PartialEq, Eq)]
pub enum HaasError {
    InvalidColor,
    Unreachable,
}

/// The red, green and blue channels of a hex colour, each in decimal.
pub fn hex_to_rgb(hex: &str) -> (r: Result<(String, String, String), HaasError>)
    ensures
        r is Ok <==> hex_color(hex@) is Some,
        all_ascii(hex@) ==> hex_color(hex@) == ascii_hex_color(hex@),
        r is Err ==> r == Err::<(String, String, String), HaasError>(HaasError::InvalidColor),
        r matches Ok(t) ==> decimal_channels(t, hex_color(hex@).unwrap()),
        plain_hex_colour(hex@) ==> (r matches Ok(t) && decimal_channels(t, plain_hex_rgb(hex@))),
        wrong_length_ascii(hex@) ==> r is Err,
{
    match rgb_from_hex_str(hex) {
        Ok(t) => {
            let mut red = String::new();
            push_decimal(&mut red, t.0 as u64);
            let mut green = String::new();
            push_decimal(&mut green, t.1 as u64);
            let mut blue = String::new();
            push_decimal(&mut blue, t.2 as u64);
            assert(red@ =~= decimal(t.0 as nat));
            assert(green@ =~= decimal(t.1 as nat));
            assert(blue@ =~= decimal(t.2 as nat));
            Ok((red, green, blue))
        },
        Err(_) => Err(HaasError::InvalidColor),
    }
}

/// The path of the home automation entity that a ping updates.
pub open spec fn haas_url_for(base: Seq<char>) -> Seq<char> {
    base + "/api/states/sensor.thought_ping"@
}

/// The JSON state that a ping writes to the home automation server.
pub open spec fn haas_body(red: Seq<char>, green: Seq<char>, blue: Seq<char>, origin: Seq<char>, timestamp: Seq<char>) -> Seq<char> {
    "{\"state\":\"ping\", \"attributes\":{\"red\":\""@ + red
        + "\", \"green\":\""@ + green
        + "\", \"blue\":\""@ + blue
        + "\", \"origin\":\""@ + origin
        + "\", \"timestamp\":\""@ + timestamp
        + "\"}}"@
}

/// The body of a ping names the channels in the fixed order red, green, blue,
/// each as given, whatever their values: it starts with the state and the red
/// and green attributes, and ends with the blue, origin and timestamp ones.
pub proof fn law_haas_body_fields_in_place(red: Seq<char>, green: Seq<char>, blue: Seq<char>, origin: Seq<char>, timestamp: Seq<char>)
    ensures
        ("{\"state\":\"ping\", \"attributes\":{\"red\":\""@ + red + "\", \"green\":\""@ + green + "\", \"blue\":\""@)
            .is_prefix_of(haas_body(red, green, blue, origin, timestamp)),
        haas_body(red, green, blue, origin, timestamp) ==
            "{\"state\":\"ping\", \"attributes\":{\"red\":\""@ + red + "\", \"green\":\""@ + green
            + ("\", \"blue\":\""@ + blue + "\", \"origin\":\""@ + origin + "\", \"timestamp\":\""@ + timestamp + "\"}}"@),
{
    let head = "{\"state\":\"ping\", \"attributes\":{\"red\":\""@ + red + "\", \"green\":\""@ + green + "\", \"blue\":\""@;
    let body = haas_body(red, green, blue, origin, timestamp);
    assert(body.subrange(0, head.len() as int) =~= head);
    assert(body =~= "{\"state\":\"ping\", \"attributes\":{\"red\":\""@ + red + "\", \"green\":\""@ + green
            + ("\", \"blue\":\""@ + blue + "\", \"origin\":\""@ + origin + "\", \"timestamp\":\""@ + timestamp + "\"}}"@));
}

/// An HTTP POST to the home automation server, ready to be sent.
pub struct HaasRequest {
    pub url: String,
    pub authorization: String,
    pub content_type: String,
    pub body: String,
}

/// The request that tells the home automation server (at `haas_url`, with the
/// API key `haas_key`) that `origin` sent the colour `color` at `now`; refused
/// when the colour cannot be read.
pub fn haas_request(haas_url: &str, haas_key: &str, color: &str, origin: &str, now: &Timestamp) -> (r: Result<HaasRequest, HaasError>)
    requires
        now.wf(),
    ensures
        r is Ok <==> hex_color(color@) is Some,
        all_ascii(color@) ==> hex_color(color@) == ascii_hex_color(color@),
        r is Err ==> r matches Err(HaasError::InvalidColor),
        r matches Ok(req) ==> {
            let c = hex_color(color@).unwrap();
            &&& req.url@ == haas_url_for(haas_url@)
            &&& req.authorization@ == "Bearer "@ + haas_key@
            &&& req.content_type@ == "application/json"@
            &&& req.body@ == haas_body(decimal(c.0 as nat), decimal(c.1 as nat), decimal(c.2 as nat),
                origin@, chrono_text(now.secs, now.nanos))
        },
        r matches Ok(req) ==> {
            let c = hex_color(color@).unwrap();
            ("{\"state\":\"ping\", \"attributes\":{\"red\":\""@ + decimal(c.0 as nat) + "\", \"green\":\""@
                + decimal(c.1 as nat) + "\", \"blue\":\""@ + decimal(c.2 as nat)).is_prefix_of(req.body@)
        },
        plain_hex_colour(color@) ==> (r matches Ok(req) && {
            let c = plain_hex_rgb(color@);
            req.body@ == haas_body(decimal(c.0 as nat), decimal(c.1 as nat), decimal(c.2 as nat),
                origin@, chrono_text(now.secs, now.nanos))
        }),
        wrong_length_ascii(color@) ==> r is Err,
{
    let mut authorization = String::from_str("Bearer ");
    authorization.append(haas_key);
    let content_type = String::from_str("application/json");
    let rgb = hex_to_rgb(color);
    match rgb {
        Err(e) => Err(e),
        Ok((red, green, blue)) => {
            let mut url = String::from_str(haas_url);
            url.append("/api/states/sensor.thought_ping");
            let timestamp = naive_text(now);
            let mut body = String::from_str("{\"state\":\"ping\", \"attributes\":{\"red\":\"");
            body.append(red.as_str());
            body.append("\", \"green\":\"");
            body.append(green.as_str());
            body.append("\", \"blue\":\"");
            body.append(blue.as_str());
            body.append("\", \"origin\":\"");
            body.append(origin);
            body.append("\", \"timestamp\":\"");
            body.append(timestamp.as_str());
            body.append("\"}}");
            proof {
                let c = hex_color(color@).unwrap();
                let (r0, g0, b0) = (decimal(c.0 as nat), decimal(c.1 as nat), decimal(c.2 as nat));
                law_haas_body_fields_in_place(r0, g0, b0, origin@, chrono_text(now.secs, now.nanos));
                let head = "{\"state\":\"ping\", \"attributes\":{\"red\":\""@ + r0 + "\", \"green\":\""@ + g0 + "\", \"blue\":\""@;
                let body_spec = haas_body(r0, g0, b0, origin@, chrono_text(now.secs, now.nanos));
                assert((head + b0).is_prefix_of(body_spec)) by {
                    assert(body_spec =~= (head + b0) + ("\", \"origin\":\""@ + origin@ + "\", \"timestamp\":\""@
                        + chrono_text(now.secs, now.nanos) + "\"}}"@));
                    assert(body_spec.subrange(0, (head + b0).len() as int) =~= head + b0);
                }
            }
            Ok(HaasRequest { url, authorization, content_type, body })
        },
    }
}

/// What became of a ping sent to the home automation server: any answer counts,
/// only a request that could not be sent is an error.
pub fn haas_result(sent: bool) -> (r: Result<(), HaasError>)
    ensures
        sent ==> r is Ok,
        !sent ==> r matches Err(HaasError::Unreachable),
{
    if sent { Ok(()) } else { Err(HaasError::Unreachable) }
}

} // verus!

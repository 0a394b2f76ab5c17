//! Accent colours: `rrggbb` hex strings (with optional leading `#`), the
//! special value `rainbow`, and solid payloads for the whole strip.

use vstd::prelude::*;
use vstd::string::StringSliceAdditionalSpecFns;
use vstd::string::StrSliceExecFns;

verus! {

/// Why a colour string was refused.
#[derive(Debug, Clone, Copy, PartialEq, Eq, Structural)]
pub enum ColorError {
    /// After the leading `#` characters the string is not six bytes long.
    WrongLength,
    /// One of the three two-character groups is not a hex number.
    BadHexDigit,
}

/// The UTF-8 byte `#`.
pub open spec fn hash_byte() -> u8 {
    0x23u8
}

/// `b` without its leading `#` bytes.
pub open spec fn trim_hashes(b: Seq<u8>) -> Seq<u8>
    decreases b.len(),
{
    if b.len() > 0 && b[0] == hash_byte() {
        trim_hashes(b.drop_first())
    } else {
        b
    }
}

/// A byte that continues a multi-byte UTF-8 character.
pub open spec fn is_continuation(x: u8) -> bool {
    0x80 <= x < 0xC0
}

/// The value of one hex digit (`0-9`, `a-f`, `A-F`).
pub open spec fn spec_hex_digit(x: u8) -> Option<u8> {
    if 0x30 <= x <= 0x39 {
        Some((x - 0x30) as u8)
    } else if 0x61 <= x <= 0x66 {
        Some((x - 0x61 + 10) as u8)
    } else if 0x41 <= x <= 0x46 {
        Some((x - 0x41 + 10) as u8)
    } else {
        None
    }
}

/// A two-byte base-16 number: an optional `+` then one digit, or two digits.
pub open spec fn spec_hex_pair(a: u8, b: u8) -> Option<u8> {
    if a == 0x2Bu8 {
        spec_hex_digit(b)
    } else {
        match (spec_hex_digit(a), spec_hex_digit(b)) {
            (Some(hi), Some(lo)) => Some((hi * 16 + lo) as u8),
            _ => None,
        }
    }
}

/// The colour that the bytes `b` of a colour string denote.
pub open spec fn spec_parse_color(b: Seq<u8>) -> Result<Seq<u8>, ColorError> {
    let t = trim_hashes(b);
    if t.len() != 6 {
        Err(ColorError::WrongLength)
    } else {
        match (spec_hex_pair(t[0], t[1]), spec_hex_pair(t[2], t[3]), spec_hex_pair(t[4], t[5])) {
            (Some(r), Some(g), Some(bl)) => Ok(seq![r, g, bl]),
            _ => Err(ColorError::BadHexDigit),
        }
    }
}

/// The two-character groups of a six-byte colour string fall on character
/// boundaries (a string on which this fails cannot be cut into groups).
pub open spec fn color_groups_on_boundaries(s: &str) -> bool {
    let t = trim_hashes(s.spec_bytes());
    t.len() == 6 ==> !is_continuation(t[2]) && !is_continuation(t[4])
}

fn hex_digit(x: u8) -> (r: Option<u8>)
    ensures
        r == spec_hex_digit(x),
{
    if 0x30 <= x && x <= 0x39 {
        Some(x - 0x30)
    } else if 0x61 <= x && x <= 0x66 {
        Some(x - 0x61 + 10)
    } else if 0x41 <= x && x <= 0x46 {
        Some(x - 0x41 + 10)
    } else {
        None
    }
}

fn hex_pair(a: u8, b: u8) -> (r: Option<u8>)
    ensures
        r == spec_hex_pair(a, b),
{
    if a == 0x2B {
        hex_digit(b)
    } else {
        match (hex_digit(a), hex_digit(b)) {
            (Some(hi), Some(lo)) => Some(hi * 16 + lo),
            _ => None,
        }
    }
}

/// Parses an `rrggbb` colour, ignoring leading `#` characters.
pub fn parse_color(hex: &str) -> (r: Result<[u8; 3], ColorError>)
    requires
        color_groups_on_boundaries(hex),
    ensures
        match (r, spec_parse_color(hex.spec_bytes())) {
            (Ok(c), Ok(s)) => c@ == s,
            (Err(e), Err(f)) => e == f,
            _ => false,
        },
{
    let bytes = hex.as_bytes();
    let ghost b = hex.spec_bytes();
    let len = bytes.len();
    let mut start: usize = 0;
    assert(b.skip(0) =~= b);
    while start < len && bytes[start] == 0x23
        invariant
            bytes@ == b,
            len == b.len(),
            start <= len,
            trim_hashes(b.skip(start as int)) == trim_hashes(b),
        decreases len - start,
    {
        assert(b.skip(start as int).drop_first() =~= b.skip(start + 1));
        start += 1;
    }
    let ghost t = b.skip(start as int);
    assert(trim_hashes(t) == t);
    if len - start != 6 {
        return Err(ColorError::WrongLength);
    }
    let r = hex_pair(bytes[start], bytes[start + 1]);
    let g = hex_pair(bytes[start + 2], bytes[start + 3]);
    let bl = hex_pair(bytes[start + 4], bytes[start + 5]);
    match (r, g, bl) {
        (Some(r), Some(g), Some(bl)) => {
            let c = [r, g, bl];
            assert(c@ =~= seq![r, g, bl]);
            Ok(c)
        },
        _ => Err(ColorError::BadHexDigit),
    }
}

/// Whether `hex` can be cut into its three colour groups (see
/// [`color_groups_on_boundaries`]); [`parse_color`] asks for this.
pub fn color_cut_ok(hex: &str) -> (r: bool)
    ensures
        r == color_groups_on_boundaries(hex),
{
    let bytes = hex.as_bytes();
    let ghost b = hex.spec_bytes();
    let len = bytes.len();
    let mut start: usize = 0;
    assert(b.skip(0) =~= b);
    while start < len && bytes[start] == 0x23
        invariant
            bytes@ == b,
            len == b.len(),
            start <= len,
            trim_hashes(b.skip(start as int)) == trim_hashes(b),
        decreases len - start,
    {
        assert(b.skip(start as int).drop_first() =~= b.skip(start + 1));
        start += 1;
    }
    assert(trim_hashes(b.skip(start as int)) == b.skip(start as int));
    if len - start != 6 {
        return true;
    }
    !(0x80 <= bytes[start + 2] && bytes[start + 2] < 0xC0) && !(0x80 <= bytes[start + 4] && bytes[start + 4] < 0xC0)
}

/// A leading `#` does not change what a colour string denotes.
pub proof fn lemma_hash_prefix_ignored(b: Seq<u8>)
    ensures
        spec_parse_color(seq![hash_byte()] + b) == spec_parse_color(b),
{
    assert((seq![hash_byte()] + b).drop_first() =~= b);
}

/// The characters of `rainbow`.
pub open spec fn rainbow_chars() -> Seq<char> {
    seq!['r', 'a', 'i', 'n', 'b', 'o', 'w']
}

/// ASCII lower-casing of one character; other characters are unchanged.
pub open spec fn ascii_lower(c: char) -> char {
    if 'A' <= c <= 'Z' {
        ((c as u32) + 32) as char
    } else {
        c
    }
}

fn to_ascii_lower(c: char) -> (r: char)
    ensures
        r == ascii_lower(c),
{
    if 'A' <= c && c <= 'Z' {
        ((c as u8) + 32) as char
    } else {
        c
    }
}

/// `s` spells `rainbow`, ignoring ASCII case.
pub open spec fn spec_is_rainbow(s: Seq<char>) -> bool {
    s.len() == 7 && forall|i: int| 0 <= i < 7 ==> #[trigger] ascii_lower(s[i]) == rainbow_chars()[i]
}

/// Whether the accent colour is the animated-hue value `rainbow` (any ASCII
/// case).
pub fn is_rainbow_color(s: &str) -> (r: bool)
    ensures
        r == spec_is_rainbow(s@),
{
    let n = s.unicode_len();
    if n != 7 {
        return false;
    }
    let word = ['r', 'a', 'i', 'n', 'b', 'o', 'w'];
    assert(word@ =~= rainbow_chars());
    let mut i: usize = 0;
    while i < 7
        invariant
            n == s@.len() == 7,
            word@ == rainbow_chars(),
            i <= 7,
            forall|k: int| 0 <= k < i ==> #[trigger] ascii_lower(s@[k]) == rainbow_chars()[k],
        decreases 7 - i,
    {
        let c = s.get_char(i);
        if to_ascii_lower(c) != word[i] {
            return false;
        }
        i += 1;
    }
    true
}

/// The fixed colour an accent string gives every LED: `None` for `rainbow`
/// (each LED then takes its own hue), otherwise the parsed colour, or warm
/// orange `ff3300` when the string does not parse.
pub open spec fn spec_fixed_accent(s: &str) -> Option<Seq<u8>> {
    if spec_is_rainbow(s@) {
        None
    } else {
        match spec_parse_color(s.spec_bytes()) {
            Ok(c) => Some(c),
            Err(_) => Some(seq![255u8, 51u8, 0u8]),
        }
    }
}

/// The fixed colour of an accent string; see [`spec_fixed_accent`].
pub fn fixed_accent_color(accent: &str) -> (r: Option<[u8; 3]>)
    requires
        color_groups_on_boundaries(accent),
    ensures
        match (r, spec_fixed_accent(accent)) {
            (Some(c), Some(s)) => c@ == s,
            (None, None) => true,
            _ => false,
        },
{
    if is_rainbow_color(accent) {
        None
    } else {
        match parse_color(accent) {
            Ok(c) => Some(c),
            Err(_) => {
                let c = [255u8, 51u8, 0u8];
                assert(c@ =~= seq![255u8, 51u8, 0u8]);
                Some(c)
            },
        }
    }
}

/// `n` copies of the colour `rgb`, one per LED.
pub open spec fn spec_repeat_rgb(rgb: Seq<u8>, n: nat) -> Seq<u8> {
    Seq::new(3 * n, |i: int| rgb[i % 3])
}

/// The payload that lights all `n` LEDs with the colour `rgb`.
pub fn repeat_rgb(rgb: [u8; 3], n: usize) -> (v: Vec<u8>)
    requires
        3 * n <= usize::MAX,
    ensures
        v@ == spec_repeat_rgb(rgb@, n as nat),
{
    let mut v: Vec<u8> = Vec::with_capacity(3 * n);
    let mut i: usize = 0;
    while i < n
        invariant
            i <= n,
            3 * n <= usize::MAX,
            v@ =~= Seq::new(3 * i as nat, |k: int| rgb@[k % 3]),
        decreases n - i,
    {
        v.push(rgb[0]);
        v.push(rgb[1]);
        v.push(rgb[2]);
        proof {
            assert forall|k: int| 0 <= k < 3 * (i + 1) implies #[trigger] v@[k] == rgb@[k % 3] by {
                if k >= 3 * i {
                    assert(k % 3 == k - 3 * i) by (nonlinear_arith)
                        requires 3 * i <= k < 3 * i + 3;
                } else {
                }
            }
        }
        i += 1;
    }
    v
}

/// A colour that parses has three channels; a string that is not six
/// bytes long after its leading `#` never parses.
pub proof fn lemma_parse_color_shape(b: Seq<u8>)
    ensures
        spec_parse_color(b) matches Ok(c) ==> c.len() == 3,
        trim_hashes(b).len() != 6 ==> spec_parse_color(b) == Err::<Seq<u8>, ColorError>(ColorError::WrongLength),
{
}

/// Hex digits read the same in either case, and two digits make the
/// number `16 * high + low`.
pub proof fn lemma_hex_digits(x: u8, y: u8)
    ensures
        0x41 <= x <= 0x46 ==> spec_hex_digit(x) == spec_hex_digit((x + 32) as u8),
        0x30 <= x <= 0x39 ==> spec_hex_digit(x) == Some((x - 0x30) as u8),
        0x61 <= x <= 0x66 ==> spec_hex_digit(x) == Some((x - 0x61 + 10) as u8),
        x != 0x2B ==> (spec_hex_digit(x) matches Some(h) ==> (spec_hex_digit(y) matches Some(l) ==> spec_hex_pair(x, y)
            == Some((h * 16 + l) as u8))),
{
}

/// The rainbow name in any mix of upper and lower case letters, and
/// nothing else.
pub proof fn lemma_rainbow_any_case(s: Seq<char>)
    ensures
        spec_is_rainbow(s) <==> (s.len() == 7 && forall|i: int| 0 <= i < 7 ==> (#[trigger] s[i] == "rainbow"@[i] || s[i]
            == "RAINBOW"@[i])),
{
    reveal_strlit("rainbow");
    reveal_strlit("RAINBOW");
    let lower = "rainbow"@;
    let upper = "RAINBOW"@;
    assert(lower =~= rainbow_chars());
    assert(upper =~= seq!['R', 'A', 'I', 'N', 'B', 'O', 'W']);
    if s.len() == 7 {
        if spec_is_rainbow(s) {
            assert forall|i: int| 0 <= i < 7 implies (#[trigger] s[i] == lower[i] || s[i] == upper[i]) by {
                assert(ascii_lower(s[i]) == rainbow_chars()[i]);
                lemma_lower_letter(s[i], lower[i], upper[i]);
            }
        }
        if forall|i: int| 0 <= i < 7 ==> (#[trigger] s[i] == lower[i] || s[i] == upper[i]) {
            assert forall|i: int| 0 <= i < 7 implies #[trigger] ascii_lower(s[i]) == rainbow_chars()[i] by {
                assert(s[i] == lower[i] || s[i] == upper[i]);
                lemma_lower_letter(s[i], lower[i], upper[i]);
            }
        }
    }
}

proof fn lemma_lower_letter(c: char, l: char, u: char)
    requires
        'a' <= l <= 'z',
        u as u32 == l as u32 - 32,
    ensures
        ascii_lower(c) == l <==> (c == l || c == u),
{
    if 'A' <= c <= 'Z' {
        assert(ascii_lower(c) as u32 == c as u32 + 32);
    }
}

/// A repeated colour gives every LED the same three bytes, in order.
pub proof fn lemma_repeat_rgb_leds(rgb: Seq<u8>, n: nat)
    ensures
        spec_repeat_rgb(rgb, n).len() == 3 * n,
        forall|i: int, k: int| 0 <= i < n && 0 <= k < 3 ==> #[trigger] spec_repeat_rgb(rgb, n)[3 * i + k] == rgb[k],
{
    assert forall|i: int, k: int| 0 <= i < n && 0 <= k < 3 implies #[trigger] spec_repeat_rgb(rgb, n)[3 * i + k] == rgb[k] by {
        assert((3 * i + k) % 3 == k) by (nonlinear_arith)
            requires 0 <= k < 3, 0 <= i;
        assert(3 * i + k < 3 * n) by (nonlinear_arith)
            requires 0 <= k < 3, 0 <= i < n;
    }
}

/// A pair starting with `+` is the single digit after it.
pub proof fn lemma_plus_pair(d: u8)
    ensures
        spec_hex_pair(0x2Bu8, d) == spec_hex_digit(d),
{
}

} // verus!

//! Small engine helpers: pixel sizes, file formats, bitrates and filter
//! text escaping.

use vstd::prelude::*;

use crate::error::CluvError;
use crate::strutil::{dec_str, int_str};
use crate::strutil;

verus! {

/// A pixel length made safe for encoders: "-2" for non-positive lengths
/// (derive proportionally), and odd lengths rounded up to even.
pub open spec fn fix_pixel_view(len: int) -> Seq<char> {
    if len <= 0 {
        "-2"@
    } else if len % 2 == 0 {
        int_str(len)
    } else {
        int_str(len + 1)
    }
}

/// Render a pixel length for the engine; see `fix_pixel_view`.
pub fn fix_pixel_len(len: i32) -> (r: String)
    requires
        len < i32::MAX,
    ensures
        r@ == fix_pixel_view(len as int),
{
    if len <= 0 {
        String::from_str("-2")
    } else if len % 2 == 0 {
        strutil::i32_to_string(len)
    } else {
        strutil::i32_to_string(len + 1)
    }
}

/// Round an odd number up to the next even one.
pub fn fix_even_number(n: i32) -> (r: i32)
    requires
        n < i32::MAX,
    ensures
        r as int == (if n % 2 == 0 {
            n as int
        } else {
            n + 1
        }),
{
    if n % 2 == 0 {
        n
    } else {
        n + 1
    }
}

/// The lowercase form of an ASCII character; other characters unchanged.
pub open spec fn lower_char(c: char) -> char {
    if c == 'A' {
        'a'
    } else if c == 'B' {
        'b'
    } else if c == 'C' {
        'c'
    } else if c == 'D' {
        'd'
    } else if c == 'E' {
        'e'
    } else if c == 'F' {
        'f'
    } else if c == 'G' {
        'g'
    } else if c == 'H' {
        'h'
    } else if c == 'I' {
        'i'
    } else if c == 'J' {
        'j'
    } else if c == 'K' {
        'k'
    } else if c == 'L' {
        'l'
    } else if c == 'M' {
        'm'
    } else if c == 'N' {
        'n'
    } else if c == 'O' {
        'o'
    } else if c == 'P' {
        'p'
    } else if c == 'Q' {
        'q'
    } else if c == 'R' {
        'r'
    } else if c == 'S' {
        's'
    } else if c == 'T' {
        't'
    } else if c == 'U' {
        'u'
    } else if c == 'V' {
        'v'
    } else if c == 'W' {
        'w'
    } else if c == 'X' {
        'x'
    } else if c == 'Y' {
        'y'
    } else if c == 'Z' {
        'z'
    } else {
        c
    }
}

/// The ASCII-lowercase form of a character sequence.
pub open spec fn lower_view(s: Seq<char>) -> Seq<char> {
    s.map_values(|c: char| lower_char(c))
}

/// Lowercase the ASCII letters of a string.
pub fn ascii_lower(s: &str) -> (r: String)
    ensures
        r@ == lower_view(s@),
{
    let n = s.unicode_len();
    let mut r = String::new();
    let mut i: usize = 0;
    while i < n
        invariant
            n == s@.len(),
            0 <= i <= n,
            r@ == lower_view(s@.subrange(0, i as int)),
        decreases n - i,
    {
        let c = s.get_char(i);
        let lc = match c {
            'A' => 'a',
            'B' => 'b',
            'C' => 'c',
            'D' => 'd',
            'E' => 'e',
            'F' => 'f',
            'G' => 'g',
            'H' => 'h',
            'I' => 'i',
            'J' => 'j',
            'K' => 'k',
            'L' => 'l',
            'M' => 'm',
            'N' => 'n',
            'O' => 'o',
            'P' => 'p',
            'Q' => 'q',
            'R' => 'r',
            'S' => 's',
            'T' => 't',
            'U' => 'u',
            'V' => 'v',
            'W' => 'w',
            'X' => 'x',
            'Y' => 'y',
            'Z' => 'z',
            other => other,
        };
        strutil::push_char(&mut r, lc);
        assert(r@ =~= lower_view(s@.subrange(0, i + 1))) by {
            assert(s@.subrange(0, i + 1) =~= s@.subrange(0, i as int).push(s@[i as int]));
            assert(lc == lower_char(s@[i as int]));
        }
        i = i + 1;
    }
    assert(s@.subrange(0, n as int) =~= s@);
    r
}

/// The index of the extension dot, scanning down from position `i`: the
/// nearest dot before `i`, unless a path separator comes first.
pub open spec fn ext_dot_index(s: Seq<char>, i: int) -> int
    decreases i,
{
    if i <= 0 {
        -1
    } else if s[i - 1] == '/' {
        -1
    } else if s[i - 1] == '.' {
        i - 1
    } else {
        ext_dot_index(s, i - 1)
    }
}

/// The file extension of a path: the text after the last dot of the last
/// path component, when that component has a dot beyond its first
/// character.
pub open spec fn ext_of(s: Seq<char>) -> Option<Seq<char>> {
    let d = ext_dot_index(s, s.len() as int);
    if d <= 0 {
        None
    } else if s[d - 1] == '/' {
        None
    } else {
        Some(s.subrange(d + 1, s.len() as int))
    }
}

/// A suffix without dots or separators does not move the extension dot.
pub proof fn lemma_ext_dot_skip(s: Seq<char>, i: int, hi: int)
    requires
        0 <= i <= hi <= s.len(),
        forall|j: int| i <= j < hi ==> s[j] != '.' && s[j] != '/',
    ensures
        ext_dot_index(s, hi) == ext_dot_index(s, i),
    decreases hi - i,
{
    if hi > i {
        assert(s[hi - 1] != '.' && s[hi - 1] != '/');
        lemma_ext_dot_skip(s, i, hi - 1);
    }
}

/// Extract the file extension of a path; see `ext_of`.
pub fn path_extension(path: &str) -> (r: Option<String>)
    ensures
        r is Some <==> ext_of(path@) is Some,
        r matches Some(e) ==> ext_of(path@) == Some(e@),
{
    let n = path.unicode_len();
    if n == 0 {
        return None;
    }
    let mut i: usize = n;
    while i > 0
        invariant
            n == path@.len(),
            0 <= i <= n,
            forall|j: int| i <= j < n ==> path@[j] != '.' && path@[j] != '/',
        decreases i,
    {
        let c = path.get_char(i - 1);
        if c == '/' {
            proof {
                lemma_ext_dot_skip(path@, i as int, n as int);
            }
            return None;
        }
        if c == '.' {
            proof {
                lemma_ext_dot_skip(path@, i as int, n as int);
                assert(ext_dot_index(path@, i as int) == i - 1);
            }
            if i == 1 {
                return None;
            }
            if path.get_char(i - 2) == '/' {
                return None;
            }
            let ext = path.substring_char(i, n);
            return Some(String::from_str(ext));
        }
        i = i - 1;
    }
    proof {
        lemma_ext_dot_skip(path@, 0, n as int);
    }
    None
}

/// Whether the path's extension names a supported video container.
pub fn is_supported_video_format(path: &str) -> (r: bool)
    ensures
        r == (match ext_of(path@) {
            Some(e) => {
                let l = lower_view(e);
                l == "mp4"@ || l == "avi"@ || l == "mkv"@ || l == "mov"@ || l == "flv"@ || l
                    == "webm"@ || l == "m4v"@ || l == "3gp"@ || l == "wmv"@
            },
            None => false,
        }),
{
    match path_extension(path) {
        Some(e) => {
            let l = ascii_lower(e.as_str());
            let s = l.as_str();
            strutil::str_eq(s, "mp4") || strutil::str_eq(s, "avi") || strutil::str_eq(s, "mkv")
                || strutil::str_eq(s, "mov") || strutil::str_eq(s, "flv") || strutil::str_eq(
                s,
                "webm",
            ) || strutil::str_eq(s, "m4v") || strutil::str_eq(s, "3gp") || strutil::str_eq(
                s,
                "wmv",
            )
        },
        None => false,
    }
}

/// Whether the path's extension names a supported audio format.
pub fn is_supported_audio_format(path: &str) -> (r: bool)
    ensures
        r == (match ext_of(path@) {
            Some(e) => {
                let l = lower_view(e);
                l == "mp3"@ || l == "aac"@ || l == "wav"@ || l == "flac"@ || l == "ogg"@ || l
                    == "m4a"@ || l == "wma"@ || l == "ac3"@
            },
            None => false,
        }),
{
    match path_extension(path) {
        Some(e) => {
            let l = ascii_lower(e.as_str());
            let s = l.as_str();
            strutil::str_eq(s, "mp3") || strutil::str_eq(s, "aac") || strutil::str_eq(s, "wav")
                || strutil::str_eq(s, "flac") || strutil::str_eq(s, "ogg") || strutil::str_eq(
                s,
                "m4a",
            ) || strutil::str_eq(s, "wma") || strutil::str_eq(s, "ac3")
        },
        None => false,
    }
}

/// Whether the path's extension names a supported image format.
pub fn is_supported_image_format(path: &str) -> (r: bool)
    ensures
        r == (match ext_of(path@) {
            Some(e) => {
                let l = lower_view(e);
                l == "jpg"@ || l == "jpeg"@ || l == "png"@ || l == "gif"@ || l == "bmp"@ || l
                    == "tiff"@ || l == "webp"@
            },
            None => false,
        }),
{
    match path_extension(path) {
        Some(e) => {
            let l = ascii_lower(e.as_str());
            let s = l.as_str();
            strutil::str_eq(s, "jpg") || strutil::str_eq(s, "jpeg") || strutil::str_eq(s, "png")
                || strutil::str_eq(s, "gif") || strutil::str_eq(s, "bmp") || strutil::str_eq(
                s,
                "tiff",
            ) || strutil::str_eq(s, "webp")
        },
        None => false,
    }
}

/// The bits-per-second value a bitrate text denotes after trimming and
/// ASCII lowering: a "k" suffix scales by 1000, an "m" suffix by
/// 1000000, and a plain integer passes through; anything else, or a
/// value beyond the 32-bit range, denotes nothing.
pub open spec fn parsed_bitrate(s: Seq<char>) -> Option<i32> {
    let t = lower_view(strutil::trim_view(s));
    if t.len() == 0 {
        None
    } else if t.last() == 'k' {
        let h = t.drop_last();
        if h.len() > 0 && strutil::all_digits(h) && strutil::dec_val(h) <= 2_147_483 {
            Some((strutil::dec_val(h) * 1000) as i32)
        } else {
            None
        }
    } else if t.last() == 'm' {
        let h = t.drop_last();
        if h.len() > 0 && strutil::all_digits(h) && strutil::dec_val(h) <= 2_147 {
            Some((strutil::dec_val(h) * 1_000_000) as i32)
        } else {
            None
        }
    } else {
        if strutil::all_digits(t) && strutil::dec_val(t) <= 0x7fff_ffff {
            Some(strutil::dec_val(t) as i32)
        } else {
            None
        }
    }
}

/// Parse a bitrate with an optional "k" or "m" suffix into bits per
/// second; plain numbers pass through. Whole-number values only; a
/// fractional bitrate is rejected.
pub fn parse_bitrate(bitrate: &str) -> (r: Result<i32, CluvError>)
    ensures
        r is Ok <==> parsed_bitrate(bitrate@) is Some,
        r matches Ok(v) ==> Some(v) == parsed_bitrate(bitrate@),
        r matches Err(e) ==> e matches CluvError::InvalidParams(m) && m@ == "Invalid bitrate"@,
{
    let trimmed = strutil::trim_ascii(bitrate);
    let lowered = ascii_lower(trimmed.as_str());
    let s = lowered.as_str();
    let n = s.unicode_len();
    if n == 0 {
        return Err(CluvError::invalid_params("Invalid bitrate"));
    }
    let last = s.get_char(n - 1);
    proof {
        assert(s@.subrange(0, n - 1 as int) =~= s@.drop_last());
    }
    if last == 'k' {
        let head = s.substring_char(0, n - 1);
        match strutil::parse_u64(head) {
            Some(v) if v <= 2_147_483 => Ok((v * 1000) as i32),
            _ => Err(CluvError::invalid_params("Invalid bitrate")),
        }
    } else if last == 'm' {
        let head = s.substring_char(0, n - 1);
        match strutil::parse_u64(head) {
            Some(v) if v <= 2_147 => Ok((v * 1_000_000) as i32),
            _ => Err(CluvError::invalid_params("Invalid bitrate")),
        }
    } else {
        match strutil::parse_u64(s) {
            Some(v) if v <= 0x7fff_ffff => Ok(v as i32),
            _ => Err(CluvError::invalid_params("Invalid bitrate")),
        }
    }
}

/// Render a bitrate with one decimal and an "M" or "k" suffix; small
/// values are rendered plainly.
pub fn format_bitrate(bitrate: i32) -> (r: String)
    requires
        bitrate >= 0,
    ensures
        bitrate >= 1_000_000 ==> r@ == strutil::milli_dec_view((bitrate as nat / 100_000) * 100)
            + (if (bitrate as nat / 100_000) % 10 == 0 {
            ".0M"@
        } else {
            "M"@
        }),
        1000 <= bitrate < 1_000_000 ==> r@ == strutil::milli_dec_view(
            (bitrate as nat / 100) * 100,
        ) + (if (bitrate as nat / 100) % 10 == 0 {
            ".0k"@
        } else {
            "k"@
        }),
        0 <= bitrate < 1000 ==> r@ == int_str(bitrate as int),
{
    if bitrate >= 1_000_000 {
        let tenths: u64 = (bitrate as u64) / 100_000;
        let mut r = strutil::milli_to_decimal_string(tenths * 100);
        if tenths % 10 == 0 {
            r.append(".0M");
        } else {
            r.append("M");
        }
        r
    } else if bitrate >= 1000 {
        let tenths: u64 = (bitrate as u64) / 100;
        let mut r = strutil::milli_to_decimal_string(tenths * 100);
        if tenths % 10 == 0 {
            r.append(".0k");
        } else {
            r.append("k");
        }
        r
    } else {
        strutil::i32_to_string(bitrate)
    }
}

/// A character escaped for filter text when it is one of the six special
/// characters, else itself.
pub open spec fn escape_char(c: char) -> Seq<char> {
    if c == '\\' {
        seq!['\\', '\\']
    } else if c == ':' {
        seq!['\\', ':']
    } else if c == '[' {
        seq!['\\', '[']
    } else if c == ']' {
        seq!['\\', ']']
    } else if c == ',' {
        seq!['\\', ',']
    } else if c == ';' {
        seq!['\\', ';']
    } else {
        seq![c]
    }
}

/// A character sequence with every special filter character escaped.
pub open spec fn escape_view(s: Seq<char>) -> Seq<char>
    decreases s.len(),
{
    if s.len() == 0 {
        Seq::empty()
    } else {
        escape_view(s.drop_last()) + escape_char(s.last())
    }
}

/// Escape a string for use inside filter text.
pub fn escape_filter_string(s: &str) -> (r: String)
    ensures
        r@ == escape_view(s@),
{
    let n = s.unicode_len();
    let mut r = String::new();
    let mut i: usize = 0;
    while i < n
        invariant
            n == s@.len(),
            0 <= i <= n,
            r@ == escape_view(s@.subrange(0, i as int)),
        decreases n - i,
    {
        proof {
            let t = s@.subrange(0, i + 1);
            assert(t.drop_last() =~= s@.subrange(0, i as int));
            assert(t.last() == s@[i as int]);
        }
        let c = s.get_char(i);
        if c == '\\' || c == ':' || c == '[' || c == ']' || c == ',' || c == ';' {
            strutil::push_char(&mut r, '\\');
            strutil::push_char(&mut r, c);
        } else {
            strutil::push_char(&mut r, c);
        }
        assert(r@ =~= escape_view(s@.subrange(0, i + 1)));
        i = i + 1;
    }
    assert(s@.subrange(0, n as int) =~= s@);
    r
}

/// The position text of a logo placement: a corner keyword maps to an
/// engine expression, anything else to plain coordinates.
pub open spec fn logo_position_view(dx: int, dy: int, position: Seq<char>) -> Seq<char> {
    if position == "top-left"@ {
        int_str(dx) + ":"@ + int_str(dy)
    } else if position == "top-right"@ {
        "W-w-"@ + int_str(dx) + ":"@ + int_str(dy)
    } else if position == "bottom-left"@ {
        int_str(dx) + ":H-h-"@ + int_str(dy)
    } else if position == "bottom-right"@ {
        "W-w-"@ + int_str(dx) + ":H-h-"@ + int_str(dy)
    } else if position == "center"@ {
        "(W-w)/2+"@ + int_str(dx) + ":(H-h)/2+"@ + int_str(dy)
    } else {
        int_str(dx) + ":"@ + int_str(dy)
    }
}

/// Render the overlay position for a logo placement keyword.
pub fn logo_position(dx: i32, dy: i32, position: &str) -> (r: String)
    ensures
        r@ == logo_position_view(dx as int, dy as int, position@),
{
    let xs = strutil::i32_to_string(dx);
    let ys = strutil::i32_to_string(dy);
    if strutil::str_eq(position, "top-left") {
        let mut r = String::new();
        r.append(xs.as_str());
        r.append(":");
        r.append(ys.as_str());
        assert(r@ =~= logo_position_view(dx as int, dy as int, position@));
        r
    } else if strutil::str_eq(position, "top-right") {
        let mut r = String::from_str("W-w-");
        r.append(xs.as_str());
        r.append(":");
        r.append(ys.as_str());
        assert(r@ =~= logo_position_view(dx as int, dy as int, position@));
        r
    } else if strutil::str_eq(position, "bottom-left") {
        let mut r = String::new();
        r.append(xs.as_str());
        r.append(":H-h-");
        r.append(ys.as_str());
        assert(r@ =~= logo_position_view(dx as int, dy as int, position@));
        r
    } else if strutil::str_eq(position, "bottom-right") {
        let mut r = String::from_str("W-w-");
        r.append(xs.as_str());
        r.append(":H-h-");
        r.append(ys.as_str());
        assert(r@ =~= logo_position_view(dx as int, dy as int, position@));
        r
    } else if strutil::str_eq(position, "center") {
        let mut r = String::from_str("(W-w)/2+");
        r.append(xs.as_str());
        r.append(":(H-h)/2+");
        r.append(ys.as_str());
        assert(r@ =~= logo_position_view(dx as int, dy as int, position@));
        r
    } else {
        let mut r = String::new();
        r.append(xs.as_str());
        r.append(":");
        r.append(ys.as_str());
        assert(r@ =~= logo_position_view(dx as int, dy as int, position@));
        r
    }
}

/// The frame-selection expression for a set of frame numbers: "eq(n,F)"
/// terms joined with "+".
pub open spec fn frame_expr_view(frames: Seq<i32>) -> Seq<char>
    decreases frames.len(),
{
    if frames.len() == 0 {
        Seq::empty()
    } else if frames.len() == 1 {
        "eq(n,"@ + int_str(frames[0] as int) + ")"@
    } else {
        frame_expr_view(frames.drop_last()) + "+eq(n,"@ + int_str(frames.last() as int) + ")"@
    }
}

/// Render the frame-selection expression for the given frame numbers.
pub fn frame_expression(frames: &Vec<i32>) -> (r: String)
    ensures
        r@ == frame_expr_view(frames@),
{
    let n = frames.len();
    let mut r = String::new();
    let mut i: usize = 0;
    while i < n
        invariant
            n == frames@.len(),
            0 <= i <= n,
            r@ == frame_expr_view(frames@.subrange(0, i as int)),
        decreases n - i,
    {
        proof {
            let t = frames@.subrange(0, i + 1);
            assert(t.drop_last() =~= frames@.subrange(0, i as int));
            assert(t.last() == frames@[i as int]);
        }
        if i > 0 {
            r.append("+eq(n,");
        } else {
            r.append("eq(n,");
        }
        let fs = strutil::i32_to_string(frames[i]);
        r.append(fs.as_str());
        r.append(")");
        assert(r@ =~= frame_expr_view(frames@.subrange(0, i + 1)));
        i = i + 1;
    }
    assert(frames@.subrange(0, n as int) =~= frames@);
    r
}

/// Render a fraction as "NUM/DEN".
pub fn fraction(numerator: i32, denominator: i32) -> (r: String)
    ensures
        r@ == int_str(numerator as int) + "/"@ + int_str(denominator as int),
{
    let mut r = strutil::i32_to_string(numerator);
    r.append("/");
    let ds = strutil::i32_to_string(denominator);
    r.append(ds.as_str());
    r
}

/// Reduce a fraction to lowest terms by the gcd of the magnitudes.
pub fn reduce_fraction(numerator: i32, denominator: i32) -> (r: (i32, i32))
    requires
        !(numerator == 0 && denominator == 0),
        numerator > i32::MIN,
        denominator > i32::MIN,
    ensures
        ({
            let g = crate::numeric::gcd_nat((if numerator >= 0 {
                numerator as int
            } else {
                -(numerator as int)
            }) as nat, (if denominator >= 0 {
                denominator as int
            } else {
                -(denominator as int)
            }) as nat) as int;
            r.0 as int * g == numerator as int && r.1 as int * g == denominator as int
        }),
{
    proof {
        crate::numeric::lemma_gcd_magnitude_bound(numerator as int, denominator as int);
    }
    let g = crate::numeric::gcd(numerator, denominator);
    proof {
        crate::numeric::lemma_gcd_divides((if numerator >= 0 {
            numerator as int
        } else {
            -(numerator as int)
        }) as nat, (if denominator >= 0 {
            denominator as int
        } else {
            -(denominator as int)
        }) as nat);
        crate::numeric::lemma_mod_of_magnitude(numerator as int, g as int);
        crate::numeric::lemma_mod_of_magnitude(denominator as int, g as int);
    }
    let rn = crate::numeric::exact_div(numerator, g);
    let rd = crate::numeric::exact_div(denominator, g);
    (rn, rd)
}

} // verus!

verus! {

/// The unit scale of a byte count: 0 for bytes up to 4 for terabytes.
pub open spec fn size_unit_index(size: nat) -> int {
    if size < 1024 {
        0
    } else if size < 1048576 {
        1
    } else if size < 1073741824 {
        2
    } else if size < 1099511627776 {
        3
    } else {
        4
    }
}

/// The unit name of a scale index.
pub open spec fn size_unit_view(k: int) -> Seq<char> {
    if k == 0 {
        "B"@
    } else if k == 1 {
        "KB"@
    } else if k == 2 {
        "MB"@
    } else if k == 3 {
        "GB"@
    } else {
        "TB"@
    }
}

/// The divisor of a scale index.
pub open spec fn size_unit_divisor(k: int) -> int {
    if k == 0 {
        1
    } else if k == 1 {
        1024
    } else if k == 2 {
        1048576
    } else if k == 3 {
        1073741824
    } else {
        1099511627776
    }
}

/// A byte count rendered at its unit scale with two decimals: the value
/// in hundredths, rounded half away from zero, as "INT.DD UNIT".
pub open spec fn file_size_view(size: nat) -> Seq<char> {
    let k = size_unit_index(size);
    let h = crate::numeric::round_div(size * 100 as int, size_unit_divisor(k));
    dec_str((h / 100) as nat) + seq!['.', strutil::dec_digit((h / 10) % 10 as int), strutil::dec_digit(
        h % 10 as int,
    )] + " "@ + size_unit_view(k)
}

/// Render a byte count with two decimals and a unit, from bytes up to
/// terabytes.
pub fn format_file_size(size: u64) -> (r: String)
    ensures
        r@ == file_size_view(size as nat),
{
    let k: usize = if size < 1024 {
        0
    } else if size < 1024 * 1024 {
        1
    } else if size < 1024 * 1024 * 1024 {
        2
    } else if size < 1024 * 1024 * 1024 * 1024 {
        3
    } else {
        4
    };
    let d: u128 = if k == 0 {
        1
    } else if k == 1 {
        1024
    } else if k == 2 {
        1024 * 1024
    } else if k == 3 {
        1024 * 1024 * 1024
    } else {
        1024 * 1024 * 1024 * 1024
    };
    assert(d == size_unit_divisor(k as int));
    let h: u128 = (2 * (size as u128) * 100 + d) / (2 * d);
    proof {
        let dv = size_unit_divisor(k as int);
        assert(h == crate::numeric::round_div(size as int * 100, dv));
        crate::numeric::lemma_round_div_nonneg(size as int * 100, dv);
        assert(size as int * 100 * 1 == size as int * 100) by (nonlinear_arith);
        crate::numeric::lemma_round_div_scale_le(size as int * 100, 1, dv);
        assert(h <= size as int * 100);
        vstd::arithmetic::div_mod::lemma_div_is_ordered(h as int, size as int * 100, 100);
        vstd::arithmetic::div_mod::lemma_div_multiples_vanish(size as int, 100);
        assert((size as int * 100) / 100 == size as int) by {
            assert(size as int * 100 == 100 * size as int) by (nonlinear_arith);
        }
        assert(h / 100 <= size as int);
    }
    let int_part: u64 = (h / 100) as u64;
    let mut r = strutil::u64_to_string(int_part);
    strutil::push_char(&mut r, '.');
    strutil::push_char(&mut r, strutil::digit_char(((h / 10) % 10) as u8));
    strutil::push_char(&mut r, strutil::digit_char((h % 10) as u8));
    r.append(" ");
    let unit: &str = if k == 0 {
        "B"
    } else if k == 1 {
        "KB"
    } else if k == 2 {
        "MB"
    } else if k == 3 {
        "GB"
    } else {
        "TB"
    };
    r.append(unit);
    assert(r@ =~= file_size_view(size as nat));
    r
}

} // verus!

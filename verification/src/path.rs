//! The request path: a user identifier, optionally followed by an image extension.
//!
//! A path is accepted when it is 17 to 19 ASCII digits, alone or followed by a
//! dot and one of `png`, `webp`, `jpeg`, `gif`. Nothing may precede or follow.

use vstd::prelude::*;
use vstd::string::*;
use vstd::utf8::is_ascii_chars;

use crate::decimal::{
    all_digits, is_digit, is_digit_byte, lemma_decimal_value_bound, parsed_u64, pow10,
};
use crate::format::{lemma_format_names, UserAvatarFormats};
use crate::text::str_eq;

verus! {

/// The byte of the dot that separates the identifier from the extension.
const ASCII_DOT: u8 = 46;

/// A parsed request path.
#[derive(Clone, Debug)]
pub struct PathSpec {
    /// The digits of the user identifier, as they stood in the path.
    pub id: String,
    /// The format that the extension asked for, if the path had one.
    pub format: Option<UserAvatarFormats>,
}

/// The mathematical content of a [`PathSpec`].
pub struct PathModel {
    pub id: Seq<char>,
    pub format: Option<UserAvatarFormats>,
}

impl View for PathSpec {
    type V = PathModel;

    open spec fn view(&self) -> PathModel {
        PathModel { id: self.id@, format: self.format }
    }
}

/// `id` is written as a user identifier is: 17 to 19 digits.
pub open spec fn is_user_id(id: Seq<char>) -> bool {
    17 <= id.len() <= 19 && all_digits(id)
}

/// The extension by which a path asks for a format. A path spells the JPEG
/// format `jpeg`; the other three go by their canonical names.
pub open spec fn extension(format: UserAvatarFormats) -> Seq<char> {
    match format {
        UserAvatarFormats::Png => "png"@,
        UserAvatarFormats::Jpg => "jpeg"@,
        UserAvatarFormats::Webp => "webp"@,
        UserAvatarFormats::Gif => "gif"@,
    }
}

/// The path that asks for the avatar of `id`, in `format` if one is given.
pub open spec fn path_text(id: Seq<char>, format: Option<UserAvatarFormats>) -> Seq<char> {
    match format {
        None => id,
        Some(f) => id + seq!['.'] + extension(f),
    }
}

/// `path` is the text of `p`, and `p` holds a well-formed identifier.
pub open spec fn denotes(path: Seq<char>, p: PathModel) -> bool {
    is_user_id(p.id) && path == path_text(p.id, p.format)
}

/// `path` is an acceptable request path.
pub open spec fn path_matches(path: Seq<char>) -> bool {
    exists|p: PathModel| denotes(path, p)
}

/// What a request path parses to: the identifier and format it is the text of,
/// or nothing when it is the text of none.
pub open spec fn parsed_path(path: Seq<char>) -> Option<PathModel> {
    if path_matches(path) {
        Some(choose|p: PathModel| denotes(path, p))
    } else {
        None
    }
}

/// An extension holds lower-case ASCII letters only: no digit and no dot.
proof fn lemma_extension_chars(format: UserAvatarFormats)
    ensures
        3 <= extension(format).len() <= 4,
        forall|i: int|
            0 <= i < extension(format).len() ==> 'a' <= #[trigger] extension(format)[i] <= 'z',
{
    lemma_format_names();
}

/// Two formats with the same extension are the same format.
proof fn lemma_extension_is_injective(f: UserAvatarFormats, g: UserAvatarFormats)
    requires
        extension(f) == extension(g),
    ensures
        f == g,
{
    lemma_format_names();
    assert(seq!['p', 'n', 'g'][0] == 'p');
    assert(seq!['g', 'i', 'f'][0] == 'g');
    assert(seq!['j', 'p', 'e', 'g'].len() == 4);
    assert(seq!['j', 'p', 'e', 'g'][0] == 'j');
    assert(seq!['w', 'e', 'b', 'p'][0] == 'w');
}

/// Where the digits of a path end, the identifier of any reading of it ends.
///
/// If the first `k` characters of `path` are digits and the next one, if
/// there is one, is not, then whatever `path` denotes has those `k` digits
/// as its identifier.
proof fn lemma_id_is_digit_run(path: Seq<char>, p: PathModel, k: int)
    requires
        denotes(path, p),
        0 <= k <= path.len(),
        all_digits(path.take(k)),
        k == path.len() || !is_digit(path[k]),
    ensures
        p.id.len() == k,
        p.id == path.take(k),
        p.format is None <==> k == path.len(),
        p.format matches Some(f) ==> path[k] == '.' && path.skip(k + 1) == extension(f),
{
    let n = p.id.len() as int;
    match p.format {
        None => {
            assert(path == p.id);
            if k < n {
                assert(is_digit(p.id[k]));
            }
        },
        Some(f) => {
            lemma_extension_chars(f);
            let text = p.id + seq!['.'] + extension(f);
            assert(path == text);
            assert(text[n] == '.');
            if k < n {
                assert(text[k] == p.id[k]);
                assert(is_digit(p.id[k]));
            }
            if k > n {
                assert(path.take(k)[n] == path[n]);
                assert(is_digit(path.take(k)[n]));
            }
            assert(path.skip(k + 1) =~= extension(f));
        },
    }
    assert(path.take(k) =~= p.id);
}

/// A path denotes at most one identifier and format.
pub proof fn law_path_reading_is_unique(path: Seq<char>, p: PathModel, q: PathModel)
    requires
        denotes(path, p),
        denotes(path, q),
    ensures
        p == q,
{
    let k = p.id.len() as int;
    assert(all_digits(path.take(k)) && (k == path.len() || !is_digit(path[k]))) by {
        match p.format {
            None => {
                assert(path.take(k) =~= p.id);
            },
            Some(f) => {
                lemma_extension_chars(f);
                let text = p.id + seq!['.'] + extension(f);
                assert(text.take(k) =~= p.id);
                assert(text[k] == '.');
            },
        }
    }
    lemma_id_is_digit_run(path, p, k);
    lemma_id_is_digit_run(path, q, k);
    match (p.format, q.format) {
        (Some(f), Some(g)) => {
            lemma_extension_is_injective(f, g);
        },
        _ => {},
    }
}

/// Every identifier of 17 to 19 digits, alone or followed by a dot and one of
/// the four extensions, is an acceptable path, and parses to that identifier
/// and the format of that extension.
pub proof fn law_path_round_trip(id: Seq<char>, format: Option<UserAvatarFormats>)
    requires
        is_user_id(id),
    ensures
        parsed_path(path_text(id, format)) == Some(PathModel { id, format }),
{
    let path = path_text(id, format);
    let p = PathModel { id, format };
    assert(denotes(path, p));
    let q = choose|q: PathModel| denotes(path, q);
    law_path_reading_is_unique(path, p, q);
}

/// A path that parses is the text of what it parses to; a path that does not
/// parse is the text of no identifier and format.
pub proof fn law_parsed_path_shape(path: Seq<char>)
    ensures
        parsed_path(path) matches Some(p) ==> is_user_id(p.id) && path == path_text(p.id, p.format),
        parsed_path(path) is None ==> forall|id: Seq<char>, format: Option<UserAvatarFormats>|
            is_user_id(id) ==> path != #[trigger] path_text(id, format),
{
    if parsed_path(path) is None {
        assert forall|id: Seq<char>, format: Option<UserAvatarFormats>| is_user_id(id) implies path
            != #[trigger] path_text(id, format) by {
            if path == path_text(id, format) {
                assert(denotes(path, PathModel { id, format }));
            }
        }
    }
}

/// The identifier of a path that parses is a number that fits in 64 bits.
pub proof fn law_parsed_id_is_a_number(path: Seq<char>)
    ensures
        parsed_path(path) matches Some(p) ==> p.id.len() > 0 && parsed_u64(p.id) is Some,
{
    if let Some(p) = parsed_path(path) {
        lemma_user_id_fits(p.id);
    }
}

/// A run of at most 19 digits denotes a number that fits in 64 bits.
pub proof fn lemma_user_id_fits(id: Seq<char>)
    requires
        is_user_id(id),
    ensures
        parsed_u64(id) is Some,
{
    lemma_decimal_value_bound(id);
    lemma_pow10_monotonic(id.len(), 19);
    assert(pow10(19) == 10_000_000_000_000_000_000) by {
        reveal_with_fuel(pow10, 20);
    }
}

/// Ten to a smaller power is at most ten to a larger one.
proof fn lemma_pow10_monotonic(a: nat, b: nat)
    requires
        a <= b,
    ensures
        pow10(a) <= pow10(b),
    decreases b,
{
    if a < b {
        lemma_pow10_monotonic(a, (b - 1) as nat);
    }
}

/// Every character of a path that parses is ASCII.
proof fn lemma_matching_path_is_ascii(path: Seq<char>, p: PathModel)
    requires
        denotes(path, p),
    ensures
        is_ascii_chars(path),
{
    assert forall|i: int| 0 <= i < path.len() implies '\0' <= #[trigger] path[i] <= '\u{7f}' by {
        let n = p.id.len() as int;
        if i < n {
            assert(is_digit(p.id[i]));
        } else {
            let f = p.format->Some_0;
            lemma_extension_chars(f);
            if i > n {
                assert(path[i] == extension(f)[i - n - 1]);
            }
        }
    }
}

/// Parses a request path.
///
/// Gives the identifier and the format when the whole path is 17 to 19 digits,
/// alone or followed by `.png`, `.webp`, `.jpeg` or `.gif`, and `None` for
/// every other path.
pub fn parse_path(full_path: &str) -> (r: Option<PathSpec>)
    ensures
        match r {
            Some(p) => parsed_path(full_path@) == Some(p@),
            None => parsed_path(full_path@) is None,
        },
{
    let ghost path = full_path@;
    let n = full_path.as_bytes().len();
    if n < 17 || n > 24 || !full_path.is_ascii() {
        proof {
            if path_matches(path) {
                let p = choose|p: PathModel| denotes(path, p);
                lemma_matching_path_is_ascii(path, p);
                is_ascii_spec_bytes(full_path);
                if p.format is Some {
                    lemma_extension_chars(p.format->Some_0);
                }
            }
        }
        return None;
    }
    proof {
        is_ascii_spec_bytes(full_path);
    }
    let mut k: usize = 0;
    while k < n && is_digit_byte(full_path.get_ascii(k))
        invariant
            0 <= k <= n,
            n == full_path@.len(),
            full_path.is_ascii(),
            all_digits(full_path@.take(k as int)),
        decreases n - k,
    {
        proof {
            let next = full_path@.take(k as int + 1);
            assert forall|j: int| 0 <= j < next.len() implies is_digit(#[trigger] next[j]) by {
                if j < k {
                    assert(next[j] == full_path@.take(k as int)[j]);
                }
            }
        }
        k = k + 1;
    }
    if k < 17 || k > 19 {
        proof {
            if path_matches(path) {
                lemma_id_is_digit_run(path, choose|p: PathModel| denotes(path, p), k as int);
            }
        }
        return None;
    }
    let id = String::from_str(full_path.substring_ascii(0, k));
    if k == n {
        proof {
            assert(path.take(k as int) =~= path);
            law_path_round_trip(path, None);
        }
        return Some(PathSpec { id, format: None });
    }
    if full_path.get_ascii(k) != ASCII_DOT || n - k < 2 {
        proof {
            if path_matches(path) {
                let p = choose|p: PathModel| denotes(path, p);
                lemma_id_is_digit_run(path, p, k as int);
                lemma_extension_chars(p.format->Some_0);
            }
        }
        return None;
    }
    let ext = full_path.substring_ascii(k + 1, n);
    let known = str_eq(ext, "png") || str_eq(ext, "webp") || str_eq(ext, "jpeg") || str_eq(
        ext,
        "gif",
    );
    if !known {
        proof {
            if path_matches(path) {
                let p = choose|p: PathModel| denotes(path, p);
                lemma_id_is_digit_run(path, p, k as int);
                assert(path.skip(k as int + 1) =~= ext@);
            }
        }
        return None;
    }
    proof {
        lemma_format_names();
    }
    match UserAvatarFormats::from_str(ext) {
        Ok(format) => {
            proof {
                assert(ext@ == extension(format));
                assert(path =~= path.take(k as int) + seq!['.'] + ext@);
                law_path_round_trip(path.take(k as int), Some(format));
            }
            Some(PathSpec { id, format: Some(format) })
        },
        Err(_) => unreached(),
    }
}


} // verus!

//! From a user's metadata to the CDN URL of the user's avatar.

use vstd::prelude::*;
use vstd::string::*;

use crate::decimal::{
    decimal, is_digit, lemma_decimal_is_digits, push_decimal, push_signed_decimal, signed_decimal,
};
use crate::format::{lemma_format_names, UserAvatarFormats};
use crate::text::{has_prefix, starts_with_pair};
use crate::user::{UserModel, UserRecord};

verus! {

/// The image sizes, in pixels, that a request may ask for.
pub const ALLOWED_SIZES: [i16; 9] = [16, 32, 64, 128, 256, 512, 1024, 2048, 4096];

/// `size` is one of the allowed image sizes.
pub open spec fn allowed_size(size: int) -> bool {
    exists|i: int| 0 <= i < ALLOWED_SIZES@.len() && #[trigger] ALLOWED_SIZES@[i] == size
}

/// Whether `size` is one of the allowed image sizes.
pub fn is_allowed_size(size: i16) -> (allowed: bool)
    ensures
        allowed == allowed_size(size as int),
{
    let mut i: usize = 0;
    while i < 9
        invariant
            0 <= i <= 9,
            ALLOWED_SIZES@.len() == 9,
            forall|j: int| 0 <= j < i ==> #[trigger] ALLOWED_SIZES@[j] != size,
        decreases 9 - i,
    {
        if ALLOWED_SIZES[i] == size {
            return true;
        }
        i = i + 1;
    }
    false
}

/// The allowed sizes are the powers of two from 16 to 4096, and no others.
pub proof fn law_allowed_sizes(size: int)
    ensures
        allowed_size(size) <==> (size == 16 || size == 32 || size == 64 || size == 128 || size
            == 256 || size == 512 || size == 1024 || size == 2048 || size == 4096),
{
    let a = ALLOWED_SIZES@;
    assert(a.len() == 9);
    assert(a[0] == 16 && a[1] == 32 && a[2] == 64 && a[3] == 128 && a[4] == 256 && a[5] == 512
        && a[6] == 1024 && a[7] == 2048 && a[8] == 4096);
}

/// The number of the default avatar that stands in for a user without a custom one.
///
/// An account on the unique-username system (discriminator `0`) takes it from
/// the time-derived high bits of its identifier, modulo six; a legacy account
/// from its discriminator, modulo five.
pub open spec fn default_avatar_index(id: u64, discriminator: u16) -> nat {
    if discriminator == 0 {
        ((id >> 22) % 6) as nat
    } else {
        (discriminator % 5) as nat
    }
}

/// The URL of the default avatar with the given number.
pub open spec fn default_avatar_url(index: nat) -> Seq<char> {
    "https://cdn.discordapp.com/embed/avatars/"@ + decimal(index) + ".png"@
}

/// An avatar hash that begins with `a_` names an animated image.
pub open spec fn is_animated(hash: Seq<char>) -> bool {
    has_prefix(hash, seq!['a', '_'])
}

/// The format an avatar is served in: the requested one if there is one,
/// otherwise `gif` for an animated avatar and `png` for a static one.
pub open spec fn served_format(hash: Seq<char>, format: Option<UserAvatarFormats>) -> UserAvatarFormats {
    match format {
        Some(f) => f,
        None => if is_animated(hash) {
            UserAvatarFormats::Gif
        } else {
            UserAvatarFormats::Png
        },
    }
}

/// The URL of a custom avatar.
pub open spec fn custom_avatar_url(
    id: u64,
    hash: Seq<char>,
    format: UserAvatarFormats,
    size: int,
) -> Seq<char> {
    "https://cdn.discordapp.com/avatars/"@ + decimal(id as nat) + "/"@ + hash + "."@
        + format.name() + "?size="@ + signed_decimal(size)
}

/// The URL a user's avatar is found at.
pub open spec fn avatar_url(user: UserModel, format: Option<UserAvatarFormats>, size: int) -> Seq<
    char,
> {
    match user.avatar {
        None => default_avatar_url(default_avatar_index(user.id, user.discriminator)),
        Some(hash) => custom_avatar_url(user.id, hash, served_format(hash, format), size),
    }
}

/// A character that a URL may hold as it stands, wherever it stands: a letter,
/// a digit, or one of `-`, `.`, `_`, `~`.
pub open spec fn is_plain_char(c: char) -> bool {
    ('a' <= c && c <= 'z') || ('A' <= c && c <= 'Z') || is_digit(c) || c == '-' || c == '.' || c
        == '_' || c == '~'
}

/// Every character of `s` satisfies `holds`.
pub open spec fn all_chars(s: Seq<char>, holds: spec_fn(char) -> bool) -> bool {
    forall|i: int| 0 <= i < s.len() ==> holds(#[trigger] s[i])
}

/// `url` is an absolute URL on the CDN: the scheme `https`, the host
/// `cdn.discordapp.com`, a path of plain characters and slashes, and then
/// either nothing or a query of plain characters and equals signs.
pub open spec fn is_cdn_url(url: Seq<char>) -> bool {
    exists|path: Seq<char>, query: Seq<char>|
        {
            &&& url == "https://cdn.discordapp.com/"@ + #[trigger] cdn_tail(path, query)
            &&& path.len() > 0
            &&& all_chars(path, |c: char| is_plain_char(c) || c == '/')
            &&& all_chars(query, |c: char| is_plain_char(c) || c == '=')
        }
}

/// What follows the host in a CDN URL: the path, and the query behind a
/// question mark if there is a query.
pub open spec fn cdn_tail(path: Seq<char>, query: Seq<char>) -> Seq<char> {
    if query.len() == 0 {
        path
    } else {
        path + seq!['?'] + query
    }
}

/// A text made of two texts whose characters all satisfy `holds` is such a text.
proof fn lemma_all_chars_concat(a: Seq<char>, b: Seq<char>, holds: spec_fn(char) -> bool)
    requires
        all_chars(a, holds),
        all_chars(b, holds),
    ensures
        all_chars(a + b, holds),
{
    assert forall|i: int| 0 <= i < (a + b).len() implies holds(#[trigger] (a + b)[i]) by {
        if i < a.len() {
            assert((a + b)[i] == a[i]);
        } else {
            assert((a + b)[i] == b[i - a.len()]);
        }
    }
}

/// Decimal text, with or without a sign, is made of plain characters.
proof fn lemma_decimal_is_plain(n: int, holds: spec_fn(char) -> bool)
    requires
        forall|c: char| is_plain_char(c) ==> #[trigger] holds(c),
    ensures
        all_chars(signed_decimal(n), holds),
        n >= 0 ==> all_chars(decimal(n as nat), holds),
{
    if n < 0 {
        lemma_decimal_is_digits((-n) as nat);
        let d = decimal((-n) as nat);
        assert(all_chars(d, holds)) by {
            assert forall|i: int| 0 <= i < d.len() implies holds(#[trigger] d[i]) by {
                assert(is_digit(d[i]));
            }
        }
        assert(all_chars(seq!['-'], holds)) by {
            assert(is_plain_char('-'));
        }
        lemma_all_chars_concat(seq!['-'], d, holds);
    } else {
        lemma_decimal_is_digits(n as nat);
        let d = decimal(n as nat);
        assert forall|i: int| 0 <= i < d.len() implies holds(#[trigger] d[i]) by {
            assert(is_digit(d[i]));
        }
    }
}

/// Every resolved URL is an absolute URL on the CDN, provided that the avatar
/// hash, where the user has one, is made of letters, digits and the
/// characters `-`, `.`, `_`, `~`, as every hash of the platform is.
pub proof fn law_url_is_well_formed(
    user: UserModel,
    format: Option<UserAvatarFormats>,
    size: int,
)
    requires
        user.avatar matches Some(hash) ==> all_chars(hash, |c: char| is_plain_char(c)),
    ensures
        is_cdn_url(avatar_url(user, format, size)),
{
    let in_path = |c: char| is_plain_char(c) || c == '/';
    let in_query = |c: char| is_plain_char(c) || c == '=';
    reveal_strlit("https://cdn.discordapp.com/");
    match user.avatar {
        None => {
            reveal_strlit("https://cdn.discordapp.com/embed/avatars/");
            reveal_strlit("embed/avatars/");
            reveal_strlit(".png");
            let index = default_avatar_index(user.id, user.discriminator);
            lemma_decimal_is_plain(index as int, in_path);
            assert(all_chars("embed/avatars/"@, in_path));
            assert(all_chars(".png"@, in_path));
            lemma_all_chars_concat("embed/avatars/"@, decimal(index), in_path);
            lemma_all_chars_concat("embed/avatars/"@ + decimal(index), ".png"@, in_path);
            let path = "embed/avatars/"@ + decimal(index) + ".png"@;
            let query = Seq::<char>::empty();
            assert(avatar_url(user, format, size) =~= "https://cdn.discordapp.com/"@ + cdn_tail(
                path,
                query,
            ));
        },
        Some(hash) => {
            reveal_strlit("https://cdn.discordapp.com/avatars/");
            reveal_strlit("avatars/");
            reveal_strlit("/");
            reveal_strlit(".");
            reveal_strlit("?size=");
            reveal_strlit("size=");
            lemma_format_names();
            let name = served_format(hash, format).name();
            lemma_decimal_is_plain(user.id as int, in_path);
            lemma_decimal_is_plain(size, in_query);
            assert(all_chars("avatars/"@, in_path));
            assert(all_chars("/"@, in_path));
            assert(all_chars("."@, in_path));
            assert(all_chars(name, in_path));
            assert(all_chars(hash, in_path)) by {
                assert forall|i: int| 0 <= i < hash.len() implies in_path(#[trigger] hash[i]) by {
                    assert((|c: char| is_plain_char(c))(hash[i]));
                }
            }
            assert(all_chars("size="@, in_query));
            let stem = "avatars/"@ + decimal(user.id as nat);
            lemma_all_chars_concat("avatars/"@, decimal(user.id as nat), in_path);
            lemma_all_chars_concat(stem, "/"@, in_path);
            lemma_all_chars_concat(stem + "/"@, hash, in_path);
            lemma_all_chars_concat(stem + "/"@ + hash, "."@, in_path);
            lemma_all_chars_concat(stem + "/"@ + hash + "."@, name, in_path);
            lemma_all_chars_concat("size="@, signed_decimal(size), in_query);
            let path = stem + "/"@ + hash + "."@ + name;
            let query = "size="@ + signed_decimal(size);
            assert(avatar_url(user, format, size) =~= "https://cdn.discordapp.com/"@ + cdn_tail(
                path,
                query,
            ));
        },
    }
}

/// The default avatar of an account on the unique-username system depends on
/// the timestamp in its identifier alone: the 22 low bits, which number the
/// worker, the process and the sequence, are dropped before the remainder is taken.
pub proof fn law_index_reads_the_timestamp(id: u64)
    ensures
        default_avatar_index(id, 0) == (id / 0x40_0000) % 6,
{
    assert(id >> 22 == id / 0x40_0000) by (bit_vector);
}

/// A default avatar number is below six, and below five for a legacy account.
pub proof fn law_default_avatar_index_range(id: u64, discriminator: u16)
    ensures
        default_avatar_index(id, discriminator) < 6,
        discriminator != 0 ==> default_avatar_index(id, discriminator) < 5,
{
}

/// A user without a custom avatar gets the default avatar URL, whatever format
/// and size were asked for.
pub proof fn law_default_url_ignores_format_and_size(
    user: UserModel,
    format: Option<UserAvatarFormats>,
    size: int,
)
    requires
        user.avatar is None,
    ensures
        avatar_url(user, format, size) == default_avatar_url(
            default_avatar_index(user.id, user.discriminator),
        ),
        avatar_url(user, format, size) == avatar_url(user, None, 512),
{
}

/// Calculates the default avatar index for a user.
pub fn calculate_default_avatar_index(user: &UserRecord) -> (index: u8)
    ensures
        index == default_avatar_index(user.id, user.discriminator),
{
    if user.discriminator == 0 {
        ((user.id >> 22) % 6) as u8
    } else {
        (user.discriminator % 5) as u8
    }
}

/// Resolves a user's default avatar URL.
pub fn resolve_default_avatar(user: &UserRecord) -> (url: String)
    ensures
        url@ == default_avatar_url(default_avatar_index(user.id, user.discriminator)),
{
    let index = calculate_default_avatar_index(user);
    let mut url = String::from_str("https://cdn.discordapp.com/embed/avatars/");
    push_decimal(&mut url, index as u64);
    url.append(".png");
    url
}

/// Resolves a user's avatar URL.
///
/// `format` overrides the format the avatar is served in; `size` is the image
/// size asked for, which a default avatar ignores.
pub fn resolve_avatar(user: &UserRecord, format: Option<UserAvatarFormats>, size: i16) -> (url:
    String)
    ensures
        url@ == avatar_url(user@, format, size as int),
{
    let hash = match &user.avatar {
        Some(hash) => hash,
        None => {
            return resolve_default_avatar(user);
        },
    };
    let animated = starts_with_pair(hash.as_str(), 'a', '_');
    let format = match format {
        Some(f) => f,
        None => if animated {
            UserAvatarFormats::Gif
        } else {
            UserAvatarFormats::Png
        },
    };
    let mut url = String::from_str("https://cdn.discordapp.com/avatars/");
    push_decimal(&mut url, user.id);
    url.append("/");
    url.append(hash.as_str());
    url.append(".");
    url.append(format.as_str());
    url.append("?size=");
    push_signed_decimal(&mut url, size);
    url
}

} // verus!

//! The image formats an avatar can be served in.

use vstd::prelude::*;
use vstd::string::*;

use crate::text::str_eq;

verus! {

/// The formats that a user's avatar can be returned in.
#[derive(Clone, Copy, Debug, PartialEq, Eq, Structural)]
pub enum UserAvatarFormats {
    Png,
    Jpg,
    Webp,
    Gif,
}

impl UserAvatarFormats {
    /// The canonical lower-case name of the format, as it appears in a CDN URL.
    pub open spec fn name(self) -> Seq<char> {
        match self {
            UserAvatarFormats::Png => "png"@,
            UserAvatarFormats::Jpg => "jpg"@,
            UserAvatarFormats::Webp => "webp"@,
            UserAvatarFormats::Gif => "gif"@,
        }
    }

    /// The format that a name stands for: each canonical name, and `jpeg` for `jpg`.
    pub open spec fn named(s: Seq<char>) -> Option<UserAvatarFormats> {
        if s == "png"@ {
            Some(UserAvatarFormats::Png)
        } else if s == "jpg"@ || s == "jpeg"@ {
            Some(UserAvatarFormats::Jpg)
        } else if s == "webp"@ {
            Some(UserAvatarFormats::Webp)
        } else if s == "gif"@ {
            Some(UserAvatarFormats::Gif)
        } else {
            None
        }
    }

    /// Parses the name of a format. Accepts `png`, `jpg`, `jpeg`, `webp` and `gif`,
    /// in lower case, and nothing else.
    pub fn from_str(s: &str) -> (r: Result<UserAvatarFormats, ()>)
        ensures
            match r {
                Ok(format) => Self::named(s@) == Some(format),
                Err(_) => Self::named(s@) is None,
            },
    {
        if str_eq(s, "png") {
            Ok(UserAvatarFormats::Png)
        } else if str_eq(s, "jpg") || str_eq(s, "jpeg") {
            Ok(UserAvatarFormats::Jpg)
        } else if str_eq(s, "webp") {
            Ok(UserAvatarFormats::Webp)
        } else if str_eq(s, "gif") {
            Ok(UserAvatarFormats::Gif)
        } else {
            Err(())
        }
    }

    /// Returns the canonical name of the format.
    pub fn as_str(&self) -> (s: &'static str)
        ensures
            s@ == self.name(),
    {
        match self {
            UserAvatarFormats::Png => "png",
            UserAvatarFormats::Jpg => "jpg",
            UserAvatarFormats::Webp => "webp",
            UserAvatarFormats::Gif => "gif",
        }
    }

    /// Returns the canonical name of the format as an owned string.
    pub fn to_string(&self) -> (s: String)
        ensures
            s@ == self.name(),
    {
        String::from_str(self.as_str())
    }
}

/// The names of the four formats, spelled out character by character.
pub proof fn lemma_format_names()
    ensures
        "png"@ == seq!['p', 'n', 'g'],
        "jpg"@ == seq!['j', 'p', 'g'],
        "jpeg"@ == seq!['j', 'p', 'e', 'g'],
        "webp"@ == seq!['w', 'e', 'b', 'p'],
        "gif"@ == seq!['g', 'i', 'f'],
{
    reveal_strlit("png");
    reveal_strlit("jpg");
    reveal_strlit("jpeg");
    reveal_strlit("webp");
    reveal_strlit("gif");
    assert("png"@ =~= seq!['p', 'n', 'g']);
    assert("jpg"@ =~= seq!['j', 'p', 'g']);
    assert("jpeg"@ =~= seq!['j', 'p', 'e', 'g']);
    assert("webp"@ =~= seq!['w', 'e', 'b', 'p']);
    assert("gif"@ =~= seq!['g', 'i', 'f']);
}

/// Parsing the canonical name of a format gives that format back.
pub proof fn law_format_name_parses_back(format: UserAvatarFormats)
    ensures
        UserAvatarFormats::named(format.name()) == Some(format),
{
    lemma_format_names();
    assert(seq!['j', 'p', 'g'][0] != seq!['p', 'n', 'g'][0]);
    assert(seq!['w', 'e', 'b', 'p'].len() != seq!['p', 'n', 'g'].len());
    assert(seq!['w', 'e', 'b', 'p'].len() != seq!['j', 'p', 'g'].len());
    assert(seq!['w', 'e', 'b', 'p'][0] != seq!['j', 'p', 'e', 'g'][0]);
    assert(seq!['g', 'i', 'f'][0] != seq!['p', 'n', 'g'][0]);
    assert(seq!['g', 'i', 'f'][0] != seq!['j', 'p', 'g'][0]);
    assert(seq!['g', 'i', 'f'].len() != seq!['j', 'p', 'e', 'g'].len());
    assert(seq!['g', 'i', 'f'].len() != seq!['w', 'e', 'b', 'p'].len());
}

/// Both spellings of the JPEG format stand for the one format, whose canonical
/// name is `jpg`.
pub proof fn law_jpeg_is_jpg()
    ensures
        UserAvatarFormats::named("jpeg"@) == Some(UserAvatarFormats::Jpg),
        UserAvatarFormats::named("jpg"@) == Some(UserAvatarFormats::Jpg),
        UserAvatarFormats::Jpg.name() == "jpg"@,
{
    lemma_format_names();
    assert(seq!['j', 'p', 'g'][0] != seq!['p', 'n', 'g'][0]);
    assert(seq!['j', 'p', 'e', 'g'].len() != seq!['p', 'n', 'g'].len());
}

} // verus!

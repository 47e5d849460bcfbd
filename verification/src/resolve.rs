//! The format resolver: a pure string operation that extracts the file
//! extension from a path (after the last separator and last dot), lower-cases
//! it, and looks it up in the supported-format table.

use vstd::prelude::*;
use crate::error::ImageError;
use crate::format::{ImageFormat, format_of_extension};

verus! {

/// ASCII lower-casing of one character; anything but `A`..`Z` is unchanged.
pub open spec fn lower_char(c: char) -> char {
    if 65 <= c as u32 && c as u32 <= 90 {
        ((c as u32 + 32) as u8) as char
    } else {
        c
    }
}

/// ASCII lower-casing of a character sequence.
pub open spec fn lower_seq(s: Seq<char>) -> Seq<char> {
    s.map_values(|c: char| lower_char(c))
}

/// The index of the last occurrence of `c` in `s`, or -1 if there is none.
pub open spec fn last_pos(s: Seq<char>, c: char) -> int
    decreases s.len(),
{
    if s.len() == 0 {
        -1
    } else if s[s.len() - 1] == c {
        s.len() - 1
    } else {
        last_pos(s.drop_last(), c)
    }
}

/// How `last_pos` over a prefix grows by one character.
pub proof fn lemma_last_pos_step(s: Seq<char>, i: int, c: char)
    requires
        0 <= i < s.len(),
    ensures
        last_pos(s.take(i + 1), c) == if s[i] == c { i } else { last_pos(s.take(i), c) },
{
    let t = s.take(i + 1);
    assert(t[i] == s[i]);
    assert(t.drop_last() =~= s.take(i));
}

/// Lower-cases one character, ASCII only.
pub fn lower_char_exec(c: char) -> (r: char)
    ensures
        r == lower_char(c),
{
    let u: u32 = c as u32;
    if 65 <= u && u <= 90 {
        ((u + 32) as u8) as char
    } else {
        c
    }
}

/// Whether the ASCII lower-casing of `s` is exactly `t`.
pub fn eq_lower(s: &str, t: &str) -> (r: bool)
    ensures
        r == (lower_seq(s@) == t@),
{
    let n = s.unicode_len();
    if n != t.unicode_len() {
        assert(lower_seq(s@).len() == s@.len());
        return false;
    }
    let mut i: usize = 0;
    while i < n
        invariant
            s@.len() == n,
            t@.len() == n,
            i <= n,
            forall|j: int| 0 <= j < i ==> lower_char(s@[j]) == t@[j],
        decreases n - i,
    {
        let sc = lower_char_exec(s.get_char(i));
        let tc = t.get_char(i);
        if sc != tc {
            assert(lower_seq(s@)[i as int] != t@[i as int]);
            return false;
        }
        i += 1;
    }
    assert(lower_seq(s@) =~= t@);
    true
}

/// The position of the last path separator in `path`, -1 if there is none.
pub open spec fn slash_pos(path: Seq<char>) -> int {
    last_pos(path, '/')
}

/// The position of the last dot in `path`, -1 if there is none.
pub open spec fn dot_pos(path: Seq<char>) -> int {
    last_pos(path, '.')
}

/// Whether the path carries a non-empty extension: a dot strictly inside
/// the final path component (so neither a dot-file's leading dot nor a dot
/// in a directory name counts), with at least one character after it.
pub open spec fn has_extension(path: Seq<char>) -> bool {
    dot_pos(path) > slash_pos(path) + 1 && dot_pos(path) + 1 < path.len()
}

/// The extension as spelled in the path: everything after the final dot.
pub open spec fn raw_extension(path: Seq<char>) -> Seq<char> {
    path.subrange(dot_pos(path) + 1, path.len() as int)
}

/// The extension of the path, lower-cased.
pub open spec fn extension_of(path: Seq<char>) -> Seq<char> {
    lower_seq(raw_extension(path))
}

/// Whether resolution succeeds on `path`: the path has an extension and the
/// extension is in the supported-format table.
pub open spec fn resolve_ok(path: Seq<char>) -> bool {
    has_extension(path) && format_of_extension(extension_of(path)) is Some
}

/// The resolver's result: the lower-cased extension and the canonical
/// format that the extension table maps it to.
#[derive(Clone, Debug)]
pub struct ResolvedFormat {
    pub extension: String,
    pub format: ImageFormat,
}

impl ResolvedFormat {
    /// Well-formedness: the extension maps to exactly this format in the
    /// extension table. Resolution only ever constructs such values.
    pub open spec fn wf(&self) -> bool {
        format_of_extension(self.extension@) == Some(self.format)
    }
}

/// `Some(k)` as the integer `k`, `None` as -1.
pub open spec fn opt_pos(o: Option<usize>) -> int {
    match o {
        None => -1,
        Some(k) => k as int,
    }
}

/// Determines the expected format of an input from its path extension.
///
/// Fails with `MissingExtension` when the path has no non-empty extension,
/// and with `UnsupportedFormat` when the extension is outside the table;
/// otherwise returns the lower-cased extension and its canonical format.
pub fn resolve(path: &str) -> (r: Result<ResolvedFormat, ImageError>)
    ensures
        r is Ok <==> resolve_ok(path@),
        r matches Ok(f) ==> f.extension@ == extension_of(path@) && Some(f.format)
            == format_of_extension(extension_of(path@)) && f.wf(),
        !has_extension(path@) ==> r == Err::<ResolvedFormat, ImageError>(
            ImageError::MissingExtension,
        ),
        has_extension(path@) && format_of_extension(extension_of(path@)) is None ==> r
            == Err::<ResolvedFormat, ImageError>(ImageError::UnsupportedFormat),
{
    let n = path.unicode_len();
    let mut i: usize = 0;
    let mut last_slash: Option<usize> = None;
    let mut last_dot: Option<usize> = None;
    while i < n
        invariant
            path@.len() == n,
            i <= n,
            opt_pos(last_slash) == last_pos(path@.take(i as int), '/'),
            opt_pos(last_dot) == last_pos(path@.take(i as int), '.'),
            last_slash matches Some(k) ==> k < i,
            last_dot matches Some(k) ==> k < i,
        decreases n - i,
    {
        let c = path.get_char(i);
        proof {
            lemma_last_pos_step(path@, i as int, '/');
            lemma_last_pos_step(path@, i as int, '.');
        }
        if c == '/' {
            last_slash = Some(i);
        }
        if c == '.' {
            last_dot = Some(i);
        }
        i += 1;
    }
    proof {
        assert(path@.take(n as int) =~= path@);
    }
    let ns: usize = match last_slash {
        None => 0,
        Some(k) => k + 1,
    };
    match last_dot {
        None => Err(ImageError::MissingExtension),
        Some(d) => {
            if d <= ns || d + 1 >= n {
                Err(ImageError::MissingExtension)
            } else {
                let ext = path.substring_char(d + 1, n);
                assert(ext@ == raw_extension(path@));
                if eq_lower(ext, "jpg") {
                    Ok(ResolvedFormat { extension: "jpg".to_owned(), format: ImageFormat::Jpeg })
                } else if eq_lower(ext, "jpeg") {
                    Ok(ResolvedFormat { extension: "jpeg".to_owned(), format: ImageFormat::Jpeg })
                } else if eq_lower(ext, "png") {
                    Ok(ResolvedFormat { extension: "png".to_owned(), format: ImageFormat::Png })
                } else if eq_lower(ext, "gif") {
                    Ok(ResolvedFormat { extension: "gif".to_owned(), format: ImageFormat::Gif })
                } else if eq_lower(ext, "bmp") {
                    Ok(ResolvedFormat { extension: "bmp".to_owned(), format: ImageFormat::Bmp })
                } else if eq_lower(ext, "webp") {
                    Ok(ResolvedFormat { extension: "webp".to_owned(), format: ImageFormat::WebP })
                } else {
                    Err(ImageError::UnsupportedFormat)
                }
            }
        },
    }
}

} // verus!

use vstd::prelude::*;
use crate::error::ResizeError;

verus! {

/// The final component of a listed path, as far as it could be read.
pub enum EntryName {
    /// The path has no final component.
    Missing,
    /// The final component is not valid text.
    Undecodable,
    /// The final component.
    Text(String),
}

/// The container formats that the pipeline writes.
#[derive(Clone, Copy, Debug, PartialEq, Eq, Structural)]
pub enum Format {
    Jpeg,
    Png,
}

/// Index of the last '.' in `s`, or -1 where `s` has none.
pub open spec fn last_dot(s: Seq<char>) -> int
    decreases s.len(),
{
    if s.len() == 0 {
        -1
    } else if s.last() == '.' {
        s.len() - 1
    } else {
        last_dot(s.drop_last())
    }
}

/// The extension of a file name: what follows its last '.', where that dot is
/// not the name's first character. The name ".." has none.
pub open spec fn extension(name: Seq<char>) -> Option<Seq<char>> {
    if name == seq!['.', '.'] || last_dot(name) <= 0 {
        None
    } else {
        Some(name.subrange(last_dot(name) + 1, name.len() as int))
    }
}

/// The format that an extension names: "jpg" and "png", compared exactly.
pub open spec fn format_for(ext: Seq<char>) -> Option<Format> {
    if ext == seq!['j', 'p', 'g'] {
        Some(Format::Jpeg)
    } else if ext == seq!['p', 'n', 'g'] {
        Some(Format::Png)
    } else {
        None
    }
}

/// What the pipeline makes of one listed name: skip it (`Ok(None)`), write it
/// in a format (`Ok(Some(f))`), or stop with an error.
pub open spec fn name_step(name: EntryName) -> Result<Option<Format>, ResizeError> {
    match name {
        EntryName::Missing => Ok(None),
        EntryName::Undecodable => Err(ResizeError::InvalidStr),
        EntryName::Text(s) => match extension(s@) {
            None => Err(ResizeError::InvalidFormat),
            Some(ext) => match format_for(ext) {
                Some(f) => Ok(Some(f)),
                None => Err(ResizeError::InvalidFormat),
            },
        },
    }
}

/// Finds the last '.' of `s`.
fn find_last_dot(s: &str) -> (r: Option<usize>)
    ensures
        match r {
            None => last_dot(s@) == -1,
            Some(i) => i == last_dot(s@) && i < s@.len() && s@[i as int] == '.',
        },
{
    let n = s.unicode_len();
    let mut k: usize = n;
    assert(s@.subrange(0, n as int) =~= s@);
    while k > 0
        invariant
            k <= n,
            n == s@.len(),
            last_dot(s@) == last_dot(s@.subrange(0, k as int)),
        decreases k,
    {
        let c = s.get_char(k - 1);
        let ghost pre = s@.subrange(0, k as int);
        assert(pre.last() == s@[k - 1]);
        if c == '.' {
            return Some(k - 1);
        }
        assert(pre.drop_last() =~= s@.subrange(0, k - 1));
        k = k - 1;
    }
    None
}

/// Whether the text of `s` from index `start` on is `x`, `y`, `z`.
fn suffix_is(s: &str, start: usize, x: char, y: char, z: char) -> (r: bool)
    requires
        start <= s@.len(),
    ensures
        r == (s@.subrange(start as int, s@.len() as int) == seq![x, y, z]),
{
    let n = s.unicode_len();
    if n - start != 3 {
        assert(s@.subrange(start as int, s@.len() as int).len() != seq![x, y, z].len());
        return false;
    }
    let a = s.get_char(start);
    let b = s.get_char(start + 1);
    let c = s.get_char(start + 2);
    let ghost ext = s@.subrange(start as int, s@.len() as int);
    if a == x && b == y && c == z {
        assert(ext =~= seq![x, y, z]);
        true
    } else {
        assert(ext[0] == a && ext[1] == b && ext[2] == c);
        false
    }
}

/// Decides what the pipeline does with one listed name: `Ok(None)` where it
/// has no final component, the format where its extension is "jpg" or "png",
/// `InvalidStr` where the name is not text, and `InvalidFormat` where it has
/// no extension or another one.
pub fn detect_format(name: &EntryName) -> (r: Result<Option<Format>, ResizeError>)
    ensures
        r == name_step(*name),
{
    match name {
        EntryName::Missing => Ok(None),
        EntryName::Undecodable => Err(ResizeError::InvalidStr),
        EntryName::Text(text) => {
            let s = text.as_str();
            let n = s.unicode_len();
            if n == 2 && s.get_char(0) == '.' && s.get_char(1) == '.' {
                assert(s@ =~= seq!['.', '.']);
                return Err(ResizeError::InvalidFormat);
            }
            assert(s@ != seq!['.', '.']) by {
                if s@ =~= seq!['.', '.'] {
                    assert(s@[0] == '.' && s@[1] == '.');
                }
            }
            match find_last_dot(s) {
                None => Err(ResizeError::InvalidFormat),
                Some(i) => {
                    if i == 0 {
                        Err(ResizeError::InvalidFormat)
                    } else if suffix_is(s, i + 1, 'j', 'p', 'g') {
                        Ok(Some(Format::Jpeg))
                    } else if suffix_is(s, i + 1, 'p', 'n', 'g') {
                        Ok(Some(Format::Png))
                    } else {
                        Err(ResizeError::InvalidFormat)
                    }
                }
            }
        }
    }
}

} // verus!

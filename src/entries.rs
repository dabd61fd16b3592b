//! Classification of directory entries and the records a listing returns.
use vstd::prelude::*;
use crate::text::chars_of;
use crate::times::Timestamp;

verus! {

/// What kind of thing a listed entry is.
#[derive(Clone, Copy, Debug, PartialEq, Eq, Structural)]
pub enum EntryType {
    Directory,
    Image,
    File,
}

impl EntryType {
    /// The name of this kind as it appears in a listing.
    pub fn as_str(&self) -> (r: &'static str)
        ensures
            r@ == entry_type_name(*self),
    {
        proof {
            reveal_strlit("directory");
            reveal_strlit("image");
            reveal_strlit("file");
        }
        match self {
            EntryType::Directory => "directory",
            EntryType::Image => "image",
            EntryType::File => "file",
        }
    }
}

pub open spec fn entry_type_name(t: EntryType) -> Seq<char> {
    match t {
        EntryType::Directory => seq!['d', 'i', 'r', 'e', 'c', 't', 'o', 'r', 'y'],
        EntryType::Image => seq!['i', 'm', 'a', 'g', 'e'],
        EntryType::File => seq!['f', 'i', 'l', 'e'],
    }
}

/// The extension of a file name: what follows its last `.`, where that `.`
/// is not the name's first character.
pub open spec fn extension_of(name: Seq<char>) -> Option<Seq<char>> {
    if exists|k: int| #[trigger] is_last_dot(name, k) && k > 0 {
        let k = choose|k: int| #[trigger] is_last_dot(name, k) && k > 0;
        Some(name.subrange(k + 1, name.len() as int))
    } else {
        None
    }
}

/// `k` is the position of the last `.` in `name`.
pub open spec fn is_last_dot(name: Seq<char>, k: int) -> bool {
    0 <= k < name.len() && name[k] == '.' && forall|j: int| k < j < name.len() ==> name[j] != '.'
}

/// `c` is `w`, or `w` is a lower-case ASCII letter and `c` its upper-case form.
pub open spec fn char_matches_lower(c: char, w: char) -> bool {
    c == w || ('a' <= w <= 'z' && (c as u32) as int + 32 == (w as u32) as int)
}

/// `s` equals the lower-case word `w` once its ASCII letters are lowered.
pub open spec fn matches_lower(s: Seq<char>, w: Seq<char>) -> bool {
    s.len() == w.len() && forall|i: int| 0 <= i < s.len() ==> char_matches_lower(s[i], w[i])
}

/// The extensions served as images.
pub open spec fn image_extensions() -> Seq<Seq<char>> {
    seq![
        seq!['j', 'p', 'g'],
        seq!['j', 'p', 'e', 'g'],
        seq!['p', 'n', 'g'],
        seq!['g', 'i', 'f'],
        seq!['b', 'm', 'p'],
        seq!['i', 'c', 'o'],
        seq!['t', 'i', 'f', 'f'],
        seq!['w', 'e', 'b', 'p'],
        seq!['a', 'v', 'i', 'f'],
    ]
}

/// The extension names an image format, ignoring ASCII case.
pub open spec fn is_image_extension(ext: Seq<char>) -> bool {
    exists|i: int| 0 <= i < image_extensions().len() && matches_lower(ext, #[trigger] image_extensions()[i])
}

/// How an entry is classified: directories as such, files by extension.
pub open spec fn entry_type_of(is_dir: bool, name: Seq<char>) -> EntryType {
    if is_dir {
        EntryType::Directory
    } else {
        match extension_of(name) {
            Some(ext) => if is_image_extension(ext) {
                EntryType::Image
            } else {
                EntryType::File
            },
            None => EntryType::File,
        }
    }
}

/// Whether `s` equals the lower-case word `w` once its ASCII letters are lowered.
fn chars_match_lower(s: &[char], w: &[char]) -> (r: bool)
    ensures
        r == matches_lower(s@, w@),
{
    if s.len() != w.len() {
        return false;
    }
    let mut i: usize = 0;
    while i < s.len()
        invariant
            i <= s.len(),
            s@.len() == w@.len(),
            forall|j: int| 0 <= j < i ==> char_matches_lower(s@[j], w@[j]),
        decreases s.len() - i,
    {
        let c = s[i];
        let d = w[i];
        let ok = c == d || ('a' <= d && d <= 'z' && (c as u32) == (d as u32) - 32);
        if !ok {
            return false;
        }
        i = i + 1;
    }
    true
}

/// The extension of the file name `name`, if it has one.
pub fn extension(name: &Vec<char>) -> (r: Option<Vec<char>>)
    ensures
        match r {
            Some(e) => extension_of(name@) == Some(e@),
            None => extension_of(name@) is None,
        },
{
    let mut k: usize = name.len();
    while k > 0
        invariant
            k <= name.len(),
            forall|j: int| k <= j < name.len() ==> name@[j] != '.',
        decreases k,
    {
        if name[k - 1] == '.' {
            let dot = k - 1;
            assert(is_last_dot(name@, dot as int));
            if dot == 0 {
                assert forall|m: int| #[trigger] is_last_dot(name@, m) implies m == 0 by {
                    if m > 0 {
                        assert(name@[m] == '.');
                    }
                }
                return None;
            }
            assert forall|m: int| #[trigger] is_last_dot(name@, m) implies m == dot by {
                if m < dot {
                    assert(name@[dot as int] == '.');
                } else if m > dot {
                }
            }
            let mut e: Vec<char> = Vec::new();
            let mut i: usize = k;
            while i < name.len()
                invariant
                    k <= i <= name.len(),
                    e@ == name@.subrange(k as int, i as int),
                decreases name.len() - i,
            {
                e.push(name[i]);
                i = i + 1;
                assert(e@ =~= name@.subrange(k as int, i as int));
            }
            return Some(e);
        }
        k = k - 1;
    }
    assert forall|m: int| #[trigger] is_last_dot(name@, m) implies false by {
        assert(name@[m] == '.');
    }
    None
}

/// Whether the extension `ext` names an image format, ignoring ASCII case.
pub fn is_image_ext(ext: &Vec<char>) -> (r: bool)
    ensures
        r == is_image_extension(ext@),
{
    let words: Vec<Vec<char>> = vec![
        vec!['j', 'p', 'g'],
        vec!['j', 'p', 'e', 'g'],
        vec!['p', 'n', 'g'],
        vec!['g', 'i', 'f'],
        vec!['b', 'm', 'p'],
        vec!['i', 'c', 'o'],
        vec!['t', 'i', 'f', 'f'],
        vec!['w', 'e', 'b', 'p'],
        vec!['a', 'v', 'i', 'f'],
    ];
    assert(words@.len() == image_extensions().len());
    assert forall|i: int| 0 <= i < words@.len() implies words@[i]@ == image_extensions()[i] by {
        assert(words@[0]@ =~= image_extensions()[0]);
        assert(words@[1]@ =~= image_extensions()[1]);
        assert(words@[2]@ =~= image_extensions()[2]);
        assert(words@[3]@ =~= image_extensions()[3]);
        assert(words@[4]@ =~= image_extensions()[4]);
        assert(words@[5]@ =~= image_extensions()[5]);
        assert(words@[6]@ =~= image_extensions()[6]);
        assert(words@[7]@ =~= image_extensions()[7]);
        assert(words@[8]@ =~= image_extensions()[8]);
    }
    let mut i: usize = 0;
    while i < words.len()
        invariant
            i <= words@.len(),
            words@.len() == image_extensions().len(),
            forall|j: int| 0 <= j < words@.len() ==> words@[j]@ == image_extensions()[j],
            forall|j: int| 0 <= j < i ==> !matches_lower(ext@, #[trigger] image_extensions()[j]),
        decreases words.len() - i,
    {
        if chars_match_lower(ext.as_slice(), words[i].as_slice()) {
            return true;
        }
        i = i + 1;
    }
    false
}

/// Classifies an entry: `Directory` where it is one, else `Image` where its
/// name's extension is on the image list (ignoring ASCII case), else `File`.
pub fn get_entry_type(is_dir: bool, name: &str) -> (r: EntryType)
    ensures
        r == entry_type_of(is_dir, name@),
{
    if is_dir {
        return EntryType::Directory;
    }
    let chars = chars_of(name);
    match extension(&chars) {
        Some(ext) => if is_image_ext(&ext) {
            EntryType::Image
        } else {
            EntryType::File
        },
        None => EntryType::File,
    }
}

} // verus!

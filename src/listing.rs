//! The records returned by the listing endpoint: one per visible child of a
//! directory, or a single detailed record for a file.
use vstd::prelude::*;
use vstd::string::StringExecFns;
use crate::entries::{EntryType, entry_type_of, get_entry_type};
use crate::times::Timestamp;
use crate::text::chars_of;

verus! {

/// What the filesystem reported about an entry.
#[derive(Clone, Copy, Debug, PartialEq, Eq, Structural)]
pub struct Metadata {
    pub is_dir: bool,
    pub size: u64,
    /// The modification time, where it could be read.
    pub modified: Option<Timestamp>,
}

/// A direct child of a listed directory: its base name, and its metadata
/// where that could be read.
#[derive(Clone, Debug)]
pub struct ChildEntry {
    pub name: String,
    pub metadata: Option<Metadata>,
}

/// One row of a directory listing.
#[derive(Clone, Debug)]
pub struct Entry {
    pub name: String,
    pub entry_type: EntryType,
    pub size: u64,
    pub modified: Timestamp,
}

/// The mathematical content of an [`Entry`].
pub struct EntryModel {
    pub name: Seq<char>,
    pub entry_type: EntryType,
    pub size: u64,
    pub modified: Timestamp,
}

impl View for Entry {
    type V = EntryModel;

    open spec fn view(&self) -> EntryModel {
        EntryModel {
            name: self.name@,
            entry_type: self.entry_type,
            size: self.size,
            modified: self.modified,
        }
    }
}

impl View for ChildEntry {
    type V = (Seq<char>, Option<Metadata>);

    open spec fn view(&self) -> (Seq<char>, Option<Metadata>) {
        (self.name@, self.metadata)
    }
}

/// The detailed record returned for a single file.
#[derive(Clone, Debug)]
pub struct Detail {
    pub name: String,
    pub entry_type: EntryType,
    pub size: u64,
    pub modified: Timestamp,
    /// Pixel width, 0 where the dimensions could not be read.
    pub width: u32,
    /// Pixel height, 0 where the dimensions could not be read.
    pub height: u32,
    pub download_url: String,
}

/// A dotfile: a name that begins with `.`.
pub open spec fn is_hidden_name(name: Seq<char>) -> bool {
    name.len() > 0 && name[0] == '.'
}

pub open spec fn modified_or_now(m: Metadata, now: Timestamp) -> Timestamp {
    match m.modified {
        Some(t) => t,
        None => now,
    }
}

/// The row listed for a child named `name` with metadata `m`.
pub open spec fn entry_for(name: Seq<char>, m: Metadata, now: Timestamp) -> EntryModel {
    EntryModel {
        name,
        entry_type: entry_type_of(m.is_dir, name),
        size: m.size,
        modified: modified_or_now(m, now),
    }
}

/// The rows listed for `children`, in their order: dotfiles and children
/// whose metadata could not be read are left out.
pub open spec fn listed(children: Seq<(Seq<char>, Option<Metadata>)>, now: Timestamp) -> Seq<
    EntryModel,
>
    decreases children.len(),
{
    if children.len() == 0 {
        Seq::empty()
    } else {
        let prev = listed(children.drop_last(), now);
        let (name, meta) = children.last();
        match meta {
            Some(m) => if is_hidden_name(name) {
                prev
            } else {
                prev.push(entry_for(name, m, now))
            },
            None => prev,
        }
    }
}

pub open spec fn entry_views(es: Seq<Entry>) -> Seq<EntryModel> {
    es.map_values(|e: Entry| e@)
}

pub open spec fn child_views(cs: Seq<ChildEntry>) -> Seq<(Seq<char>, Option<Metadata>)> {
    cs.map_values(|c: ChildEntry| c@)
}

/// Whether `name` is a dotfile.
pub fn is_dotfile(name: &str) -> (r: bool)
    ensures
        r == is_hidden_name(name@),
{
    let chars = chars_of(name);
    chars.len() > 0 && chars[0] == '.'
}

/// The listing of a directory whose direct children are `children`, in
/// their order; `now` stands in for modification times that could not be read.
pub fn list_entries(children: &Vec<ChildEntry>, now: Timestamp) -> (r: Vec<Entry>)
    ensures
        entry_views(r@) == listed(child_views(children@), now),
{
    let mut r: Vec<Entry> = Vec::new();
    let mut i: usize = 0;
    while i < children.len()
        invariant
            i <= children@.len(),
            entry_views(r@) == listed(child_views(children@).subrange(0, i as int), now),
        decreases children.len() - i,
    {
        let c = &children[i];
        proof {
            let cs = child_views(children@);
            assert(cs.subrange(0, i + 1).drop_last() =~= cs.subrange(0, i as int));
        }
        match c.metadata {
            Some(m) => {
                if !is_dotfile(c.name.as_str()) {
                    let e = Entry {
                        name: c.name.clone(),
                        entry_type: get_entry_type(m.is_dir, c.name.as_str()),
                        size: m.size,
                        modified: Timestamp::or_now(m.modified, now),
                    };
                    let ghost before = r@;
                    r.push(e);
                    assert(entry_views(r@) =~= entry_views(before).push(e@));
                }
            },
            None => {},
        }
        i = i + 1;
    }
    proof {
        assert(child_views(children@).subrange(0, children@.len() as int) =~= child_views(children@));
    }
    r
}

/// No dotfile is ever listed, and a listing has at most one row per child.
pub proof fn lemma_listing_has_no_dotfiles(
    children: Seq<(Seq<char>, Option<Metadata>)>,
    now: Timestamp,
)
    ensures
        listed(children, now).len() <= children.len(),
        forall|i: int|
            0 <= i < listed(children, now).len() ==> !is_hidden_name(
                #[trigger] listed(children, now)[i].name,
            ),
    decreases children.len(),
{
    if children.len() > 0 {
        lemma_listing_has_no_dotfiles(children.drop_last(), now);
    }
}

/// The prefix of the URL a file is downloaded from.
pub open spec fn download_prefix() -> Seq<char> {
    seq!['/', 'd', 'o', 'w', 'n', 'l', 'o', 'a', 'd', '/']
}

/// The detailed record of the file named `name`, requested as `raw` (the
/// path as the client wrote it), with `dims` the pixel dimensions where they
/// could be read: where they could not, they are reported as 0 by 0.
pub fn detail_entry(
    name: &str,
    raw: &str,
    metadata: Metadata,
    dims: Option<(u32, u32)>,
    now: Timestamp,
) -> (r: Detail)
    ensures
        r.name@ == name@,
        r.entry_type == entry_type_of(metadata.is_dir, name@),
        r.size == metadata.size,
        r.modified == modified_or_now(metadata, now),
        (r.width, r.height) == match dims {
            Some(d) => d,
            None => (0u32, 0u32),
        },
        r.download_url@ == download_prefix() + raw@,
{
    let (width, height) = match dims {
        Some(d) => d,
        None => (0, 0),
    };
    let mut url = String::from_str("/download/");
    proof {
        reveal_strlit("/download/");
        assert("/download/"@ =~= download_prefix());
    }
    url.append(raw);
    Detail {
        name: String::from_str(name),
        entry_type: get_entry_type(metadata.is_dir, name),
        size: metadata.size,
        modified: Timestamp::or_now(metadata.modified, now),
        width,
        height,
        download_url: url,
    }
}

} // verus!

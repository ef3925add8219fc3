//! The picture library: which files are pictures, the random choice of one,
//! the messages to the web client, and the open client connections.

use vstd::prelude::*;
use std::collections::HashMap;
use rand::Rng;
use crate::oko::config::Config;
use crate::oko::media::{Category, Media, MediaView, category_name};
use crate::text::{
    decimal, signed_decimal, occurs_in, eq_ignore_ascii_case, usize_to_string, i32_to_string,
    str_contains, same_ignoring_ascii_case,
};

verus! {

/// The MIME type that `mime_guess` guesses from a file's extension, as its
/// type and subtype names.
pub uninterp spec fn guessed_mime(path: Seq<char>) -> Option<(Seq<char>, Seq<char>)>;

/// `mime_guess::from_path(path).first()`: the first MIME type guessed from the
/// file's extension, as its type and subtype names. The guess depends on the
/// path alone; which type each extension gives is not stated.
#[verifier::external_body]
fn guess_mime(path: &str) -> (r: Option<(String, String)>)
    ensures
        guessed_mime(path@) == match r {
            Some((t, s)) => Some((t@, s@)),
            None => None::<(Seq<char>, Seq<char>)>,
        },
{
    match mime_guess::from_path(path).first() {
        Some(m) => Some((m.type_().as_str().to_owned(), m.subtype().as_str().to_owned())),
        None => None,
    }
}

/// `rand::thread_rng().gen_range(0..n)`: a random index below `n`. Which one
/// is chance.
#[verifier::external_body]
fn random_below(n: usize) -> (r: usize)
    requires
        n > 0,
    ensures
        r < n,
{
    rand::thread_rng().gen_range(0..n)
}

/// The kind of a picture from its MIME type: a GIF image, another image, or
/// no picture at all. Names are compared regardless of ASCII case.
pub open spec fn category_from_mime(mime: Option<(Seq<char>, Seq<char>)>) -> Option<Category> {
    match mime {
        Some((t, s)) => if eq_ignore_ascii_case(t, "image"@) && eq_ignore_ascii_case(s, "gif"@) {
            Some(Category::Gif)
        } else if eq_ignore_ascii_case(t, "image"@) {
            Some(Category::Picture)
        } else {
            None
        },
        None => None,
    }
}

/// The kind of a picture from its MIME type, if it is a picture.
pub fn category_for_mime(mime: &Option<(String, String)>) -> (r: Option<Category>)
    ensures
        r == category_from_mime(match mime {
            Some((t, s)) => Some((t@, s@)),
            None => None::<(Seq<char>, Seq<char>)>,
        }),
{
    match mime {
        Some((t, s)) => {
            if same_ignoring_ascii_case(t.as_str(), "image") && same_ignoring_ascii_case(s.as_str(), "gif") {
                Some(Category::Gif)
            } else if same_ignoring_ascii_case(t.as_str(), "image") {
                Some(Category::Picture)
            } else {
                None
            }
        },
        None => None,
    }
}

/// The kind of the picture in the file at `path`, guessed from its extension.
pub fn category_of(path: &str) -> (r: Option<Category>)
    ensures
        r == category_from_mime(guessed_mime(path@)),
{
    let mime = guess_mime(path);
    category_for_mime(&mime)
}

/// Whether a picture's tag text marks it as liked: it holds a `0`.
pub open spec fn is_liked(m: MediaView) -> bool {
    match m.data {
        Some(d) => occurs_in(d, "0"@),
        None => occurs_in(""@, "0"@),
    }
}

/// The message that tells the web client which picture to show.
pub open spec fn media_message_text(idx: usize, m: MediaView) -> Seq<char> {
    "{ \"media\": { \"idx\": "@ + decimal(idx as nat)
        + ", \"type\": \""@ + category_name(m.category)
        + "\", \"width\": "@ + signed_decimal(match m.width { Some(w) => w as int, None => 0 })
        + ", \"height\": "@ + signed_decimal(match m.height { Some(h) => h as int, None => 0 })
        + ", \"like\": "@ + (if is_liked(m) { "true"@ } else { "false"@ })
        + " } }"@
}

/// The message that tells the web client to show the picture `item` with
/// index `idx`: its kind, size (`0` when unknown) and whether it is liked.
pub fn media_message(idx: usize, item: &Media) -> (r: String)
    ensures
        r@ == media_message_text(idx, item@),
{
    let data = match &item.data {
        Some(d) => d.as_str(),
        None => "",
    };
    let liked = str_contains(data, "0");
    let mut r = String::from_str("{ \"media\": { \"idx\": ");
    r.append(usize_to_string(idx).as_str());
    r.append(", \"type\": \"");
    r.append(item.category.name().as_str());
    r.append("\", \"width\": ");
    r.append(i32_to_string(match item.width { Some(w) => w, None => 0 }).as_str());
    r.append(", \"height\": ");
    r.append(i32_to_string(match item.height { Some(h) => h, None => 0 }).as_str());
    r.append(", \"like\": ");
    if liked {
        r.append("true");
    } else {
        r.append("false");
    }
    r.append(" } }");
    proof {
        assert(r@ =~= media_message_text(idx, item@));
    }
    r
}

/// The picture once liked: a `0` before the text of its tag.
pub fn liked(item: &Media) -> (r: Media)
    ensures
        r@ == (MediaView {
            data: Some("0"@ + match item@.data { Some(d) => d, None => ""@ }),
            ..item@
        }),
{
    let mut data = String::from_str("0");
    match &item.data {
        Some(d) => data.append(d.as_str()),
        None => data.append(""),
    }
    let mut r = item.duplicate();
    r.data = Some(data);
    r
}

/// An entry of the library's folder tree: its path and whether it is a folder.
pub struct Entry {
    pub path: String,
    pub is_dir: bool,
}

/// The pictures among folder entries, in order: every file whose type is a picture.
pub open spec fn pictures(entries: Seq<Entry>) -> Seq<MediaView>
    decreases entries.len(),
{
    if entries.len() == 0 {
        Seq::empty()
    } else {
        let rest = pictures(entries.drop_last());
        let e = entries.last();
        if e.is_dir {
            rest
        } else {
            match category_from_mime(guessed_mime(e.path@)) {
                Some(c) => rest.push(MediaView { path: e.path@, category: c, width: None, height: None, data: None }),
                None => rest,
            }
        }
    }
}

/// The library's state, with open client connections of type `C`.
pub struct State<C> {
    pub media: Vec<Media>,
    pub next_id: u32,
    pub connections: HashMap<u32, C>,
    pub config: Config,
}

pub open spec fn media_view(media: Seq<Media>) -> Seq<MediaView> {
    media.map_values(|m: Media| m@)
}

impl<C> State<C> {
    /// The pictures among the entries of the library's folder tree.
    pub fn new(entries: &Vec<Entry>) -> (r: Vec<Media>)
        ensures
            media_view(r@) == pictures(entries@),
    {
        let mut media: Vec<Media> = Vec::new();
        let mut i: usize = 0;
        while i < entries.len()
            invariant
                i <= entries@.len(),
                media_view(media@) == pictures(entries@.subrange(0, i as int)),
            decreases entries@.len() - i,
        {
            let e = &entries[i];
            proof {
                assert(entries@.subrange(0, i + 1).drop_last() =~= entries@.subrange(0, i as int));
                assert(entries@.subrange(0, i + 1).last() == *e);
            }
            if !e.is_dir {
                match category_of(e.path.as_str()) {
                    Some(c) => {
                        media.push(Media::new(e.path.clone(), c));
                        assert(media_view(media@) =~= pictures(entries@.subrange(0, i + 1)));
                    },
                    None => {},
                }
            }
            i = i + 1;
        }
        assert(entries@.subrange(0, entries@.len() as int) =~= entries@);
        media
    }

    /// A random picture's index.
    pub fn pick_media(&self) -> (r: usize)
        requires
            self.media@.len() > 0,
        ensures
            r < self.media@.len(),
    {
        random_below(self.media.len())
    }

    /// The file of the picture `id`.
    pub fn get_file_path(&self, id: usize) -> (r: String)
        requires
            id < self.media@.len(),
        ensures
            r@ == self.media@[id as int].path@,
    {
        self.media[id].path.clone()
    }

    /// Takes the picture `id` out of the library (its file goes to the trash).
    pub fn move_to_trash(&mut self, id: usize) -> (r: Media)
        requires
            id < old(self).media@.len(),
        ensures
            r@ == old(self).media@[id as int]@,
            final(self).media@ == old(self).media@.remove(id as int),
            final(self).next_id == old(self).next_id,
            final(self).connections@ == old(self).connections@,
    {
        self.media.remove(id)
    }

    /// Registers a client connection under the next number.
    pub fn add_connection(&mut self, connection_tx: C)
        requires
            old(self).next_id < u32::MAX,
        ensures
            final(self).connections@ == old(self).connections@.insert(old(self).next_id, connection_tx),
            final(self).next_id == old(self).next_id + 1,
            final(self).media@ == old(self).media@,
    {
        broadcast use vstd::std_specs::hash::group_hash_axioms;
        self.connections.insert(self.next_id, connection_tx);
        self.next_id = self.next_id + 1;
    }
}



/// What reading a picture file's metadata gave.
#[derive(Debug, Clone)]
pub enum MetaReading {
    /// the metadata could not be read
    Unreadable,
    /// an animated GIF of this size
    Gif { width: i32, height: i32 },
    /// a format without Exif support
    NoExif,
    /// an image with Exif support: the text of its `Exif.Image.ImageID` tag,
    /// if it has one, and its size
    Exif { image_id: Option<String>, width: i32, height: i32 },
}

/// A picture as the library reports it, given what its metadata said: a
/// picture whose tag text is known already is reported as it is.
pub open spec fn spec_read_item(m: MediaView, meta: MetaReading) -> MediaView {
    if m.data is Some {
        m
    } else {
        match meta {
            MetaReading::Gif { width, height } => MediaView { width: Some(width), height: Some(height), ..m },
            MetaReading::Exif { image_id, width, height } => MediaView {
                data: Some(match image_id { Some(t) => t@, None => Seq::empty() }),
                width: Some(width),
                height: Some(height),
                ..m
            },
            _ => m,
        }
    }
}

impl<C> State<C> {
    /// The picture `idx` with what its metadata says.
    pub fn get_media_item(&self, idx: usize, meta: MetaReading) -> (r: Media)
        requires
            idx < self.media@.len(),
        ensures
            r@ == spec_read_item(self.media@[idx as int]@, meta),
    {
        let item = self.media[idx].duplicate();
        if item.data.is_some() {
            return item;
        }
        match meta {
            MetaReading::Gif { width, height } => Media {
                path: item.path,
                category: item.category,
                width: Some(width),
                height: Some(height),
                data: None,
            },
            MetaReading::Exif { image_id, width, height } => {
                let data = match image_id {
                    Some(t) => t,
                    None => String::new(),
                };
                Media { path: item.path, category: item.category, width: Some(width), height: Some(height), data: Some(data) }
            },
            _ => item,
        }
    }

    /// The message for the picture `idx` once liked; the like is recorded
    /// only when the picture's metadata could be opened for writing.
    pub fn set_like_by_id(&self, idx: usize, meta: MetaReading, writable: bool) -> (r: (Media, String))
        requires
            idx < self.media@.len(),
        ensures
            ({
                let read = spec_read_item(self.media@[idx as int]@, meta);
                let item = if writable {
                    MediaView { data: Some("0"@ + match read.data { Some(d) => d, None => ""@ }), ..read }
                } else {
                    read
                };
                r.0@ == item && r.1@ == media_message_text(idx, item)
            }),
    {
        let item = self.get_media_item(idx, meta);
        let item = if writable { liked(&item) } else { item };
        let message = media_message(idx, &item);
        (item, message)
    }
}

/// A liked picture is reported as liked.
pub proof fn lemma_liked_is_liked(m: MediaView)
    ensures
        is_liked(MediaView { data: Some("0"@ + match m.data { Some(d) => d, None => ""@ }), ..m }),
{
    let d = "0"@ + match m.data { Some(d) => d, None => ""@ };
    reveal_strlit("0");
    assert("0"@.len() == 1);
    assert(d.subrange(0, 0 + "0"@.len() as int) =~= "0"@);
}


/// Law: an uncached picture whose metadata has Exif support is reported with
/// its size and with the text of its `ImageID` tag (empty only without a
/// tag), so a tag holding a `0` reports it liked; its file and kind stay.
pub proof fn lemma_exif_tag_is_reported(m: MediaView, image_id: Option<String>, width: i32, height: i32)
    requires
        m.data is None,
    ensures
        spec_read_item(m, MetaReading::Exif { image_id, width, height }).data
            == Some(match image_id { Some(t) => t@, None => Seq::<char>::empty() }),
        spec_read_item(m, MetaReading::Exif { image_id, width, height }).width == Some(width),
        spec_read_item(m, MetaReading::Exif { image_id, width, height }).height == Some(height),
        spec_read_item(m, MetaReading::Exif { image_id, width, height }).path == m.path,
        spec_read_item(m, MetaReading::Exif { image_id, width, height }).category == m.category,
        image_id matches Some(t) && occurs_in(t@, "0"@) ==> is_liked(spec_read_item(m, MetaReading::Exif { image_id, width, height })),
{
}

} // verus!

//! Pictures of the library.

use vstd::prelude::*;

verus! {

/// Kind of a picture.
#[derive(Debug, Clone, Copy, PartialEq, Eq, Structural)]
pub enum Category {
    Animation,
    Gif,
    Picture,
    Static,
    Video,
    Error,
}

pub open spec fn category_name(c: Category) -> Seq<char> {
    match c {
        Category::Gif => "Gif"@,
        Category::Picture => "Picture"@,
        Category::Animation => "Animation"@,
        Category::Static => "Static"@,
        Category::Video => "Video"@,
        Category::Error => "Error"@,
    }
}

impl Category {
    /// Name of the kind, as the web client receives it.
    pub fn name(&self) -> (r: String)
        ensures
            r@ == category_name(*self),
    {
        match self {
            Category::Gif => String::from_str("Gif"),
            Category::Picture => String::from_str("Picture"),
            Category::Animation => String::from_str("Animation"),
            Category::Static => String::from_str("Static"),
            Category::Video => String::from_str("Video"),
            Category::Error => String::from_str("Error"),
        }
    }
}

/// A picture: its file, kind, size once known, and the text of its
/// `Exif.Image.ImageID` tag once read.
#[derive(Debug, Clone)]
pub struct Media {
    pub path: String,
    pub category: Category,
    pub width: Option<i32>,
    pub height: Option<i32>,
    pub data: Option<String>,
}

pub struct MediaView {
    pub path: Seq<char>,
    pub category: Category,
    pub width: Option<i32>,
    pub height: Option<i32>,
    pub data: Option<Seq<char>>,
}

impl View for Media {
    type V = MediaView;

    open spec fn view(&self) -> MediaView {
        MediaView {
            path: self.path@,
            category: self.category,
            width: self.width,
            height: self.height,
            data: match self.data {
                Some(d) => Some(d@),
                None => None,
            },
        }
    }
}

impl Media {
    /// A picture of which nothing is known yet but its file and kind.
    pub fn new(path: String, category: Category) -> (r: Self)
        ensures
            r@ == (MediaView { path: path@, category, width: None, height: None, data: None }),
    {
        Self { path, category, data: None, width: None, height: None }
    }

    /// A copy of the picture.
    pub fn duplicate(&self) -> (r: Self)
        ensures
            r@ == self@,
    {
        Media {
            path: self.path.clone(),
            category: self.category,
            width: self.width,
            height: self.height,
            data: match &self.data {
                Some(d) => Some(d.clone()),
                None => None,
            },
        }
    }
}

} // verus!

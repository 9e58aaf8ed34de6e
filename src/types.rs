use vstd::prelude::*;

verus! {

/// The URLs of an artwork's first page; only the full-size one is read.
#[derive(Clone, Debug)]
pub struct Urls {
    pub original: String,
}

/// The envelope that every metadata endpoint answers with. The `error` flag is
/// carried but not consulted: the HTTP status decides success.
#[derive(Clone, Debug)]
pub struct Response<T> {
    pub error: bool,
    pub body: T,
}

/// Metadata of one artwork.
#[derive(Clone, Debug)]
pub struct Illust {
    pub page_count: u32,
    pub id: String,
    pub urls: Urls,
    /// 0: multi-page still images; 2: animated frame archive; else unsupported.
    pub illust_type: u32,
}

/// An author's index: the ids of the author's artworks. The endpoint maps each
/// id to an optional record that is never read, so only the ids are kept, one
/// entry per id.
#[derive(Clone, Debug)]
pub struct User {
    pub illusts: Vec<String>,
}

/// Metadata of an animated frame archive.
#[derive(Clone, Debug)]
pub struct Ugoira {
    pub src: String,
    pub original_src: String,
    pub frames: Vec<UgoiraFrame>,
}

/// One frame of an animated archive and how long it shows, in milliseconds.
#[derive(Clone, Debug)]
pub struct UgoiraFrame {
    pub file: String,
    pub delay: u32,
}

} // verus!

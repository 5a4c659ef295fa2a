//! Plain models of the source platform's data: what the job logic reads of a
//! named sticker collection. The platform client itself lives outside the
//! library; the driver converts its values into these.

use vstd::prelude::*;

verus! {

/// One sticker: the key it is downloaded under and the flags that decide its
/// conversion.
#[derive(Debug, Clone)]
pub struct StickerItem {
    pub file_id: String,
    pub is_video: bool,
    pub is_animated: bool,
}

/// A named, ordered sticker collection.
#[derive(Debug, Clone)]
pub struct StickerSetInfo {
    pub name: String,
    pub stickers: Vec<StickerItem>,
}

} // verus!

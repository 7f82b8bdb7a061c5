//! The listing of top wallpapers, as the site returns it.

use vstd::prelude::*;

verus! {

/// One wallpaper post: its id and the image's address.
pub struct Wallpaper {
    pub id: String,
    pub url: String,
}

/// An entry of the listing.
pub struct TopDataItem {
    pub data: Wallpaper,
}

/// The entries of the listing.
pub struct TopData {
    pub children: Vec<TopDataItem>,
}

/// The whole reply of the listing request.
pub struct RedditData {
    pub data: TopData,
}

} // verus!

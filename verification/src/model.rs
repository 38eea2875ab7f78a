//! The typed representation of the upstream JSON program document: podcast
//! metadata plus the episode list. Every value is built fresh from one
//! payload per feed request and discarded once the RSS document is out.

use vstd::prelude::*;

verus! {

/// One genre label; the upstream document carries two disjoint groups of
/// them ("genres" and "subgenres") on a program.
#[derive(Clone)]
pub struct Genre {
    pub name: String,
}

/// The program-level podcast metadata. `image` and `weblink` are relative
/// paths that need absolutization against the content host.
#[derive(Clone)]
pub struct PodcastInfo {
    pub title: String,
    pub description: String,
    pub image: String,
    pub editor: String,
    pub weblink: String,
    pub genres: Vec<Genre>,
    pub subgenres: Vec<Genre>,
}

/// Per-episode tracking data: the date string (expected `YYYY-MM-DD`) and the
/// episode's relative page path.
#[derive(Clone)]
pub struct TrackInfo {
    pub date: String,
    pub page_url: String,
}

/// The episode's audio: its URL and a free-form duration passed through
/// verbatim as the podcast-duration tag.
#[derive(Clone)]
pub struct Audio {
    pub url: String,
    pub duration: String,
}

/// One episode entry. `uniquename` serves as the feed item's globally unique,
/// non-permalink identifier; `episode` and `season` are optional, and absence
/// means the corresponding extension field is omitted from the feed.
#[derive(Clone)]
pub struct Card {
    pub uniquename: String,
    pub toptitle: String,
    pub description: String,
    pub audio: Audio,
    pub image: String,
    pub track_info: TrackInfo,
    pub episode: Option<String>,
    pub season: Option<String>,
}

/// The episode list; its order is preserved into the output feed item order.
#[derive(Clone)]
pub struct Block {
    pub cards: Vec<Card>,
}

/// The root of the upstream program document.
#[derive(Clone)]
pub struct RaiPlayProgram {
    pub podcast_info: PodcastInfo,
    pub block: Block,
}

} // verus!

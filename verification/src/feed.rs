//! The feed builder: a pure mapping from the upstream program document onto
//! an RSS channel, with URL absolutization against the content host, optional
//! enclosure rewriting through the public proxy host, and date normalization.

use vstd::prelude::*;

use crate::dates::{format_pub_date, spec_pub_date};
use crate::model::{Card, RaiPlayProgram};
use crate::urls::{make_audio_url, make_url, spec_make_audio_url, spec_make_url, UrlParts};

verus! {

/// An RSS channel document, holding exactly the elements this feed fills in.
/// Fields that RSS makes optional stay independently optional here: an absent
/// source field must come out as an omitted element, never an empty one.
pub struct Channel {
    pub title: String,
    pub link: String,
    pub description: String,
    pub managing_editor: Option<String>,
    pub categories: Vec<String>,
    pub generator: Option<String>,
    pub image: Option<ChannelImage>,
    pub items: Vec<Item>,
}

/// The channel-level artwork element.
pub struct ChannelImage {
    pub url: String,
    pub title: String,
    pub description: Option<String>,
    pub link: String,
}

/// One feed item, one per episode card, in the card order.
pub struct Item {
    pub title: Option<String>,
    pub link: Option<String>,
    pub description: Option<String>,
    pub pub_date: Option<String>,
    pub enclosure: Option<Enclosure>,
    pub guid: Option<Guid>,
    pub itunes_ext: Option<ItunesItemExtension>,
}

/// The enclosure element pointing at the episode's audio file.
pub struct Enclosure {
    pub url: String,
    pub mime_type: String,
    pub length: String,
}

/// The item's globally unique identifier, explicitly not a permalink.
pub struct Guid {
    pub value: String,
    pub permalink: bool,
}

/// The iTunes-extension fields of an item; each is present only when the
/// corresponding source field is.
pub struct ItunesItemExtension {
    pub image: Option<String>,
    pub duration: Option<String>,
    pub episode: Option<String>,
    pub season: Option<String>,
}

/// An optional string's character content.
pub open spec fn opt_view(o: Option<String>) -> Option<Seq<char>> {
    match o {
        Some(s) => Some(s@),
        None => None,
    }
}

/// The (origin, path) of the public base URL, if one is configured.
pub open spec fn spec_public_parts(p: Option<&UrlParts>) -> Option<(Seq<char>, Seq<char>)> {
    match p {
        Some(u) => Some((u.origin@, u.path@)),
        None => None,
    }
}

/// The enclosure URL rule: with a public base configured the audio URL is
/// rewritten through the `/audio` proxy endpoint so playback is routed
/// through the resolver; without one it is passed through unchanged.
pub open spec fn spec_enclosure_url(
    public: Option<(Seq<char>, Seq<char>)>,
    audio_url: Seq<char>,
) -> Seq<char> {
    match public {
        Some((origin, path)) => spec_make_audio_url(origin, path, audio_url),
        None => audio_url,
    }
}

/// How one feed item relates to the card it was built from.
pub open spec fn spec_item_of(
    it: Item,
    card: Card,
    origin: Seq<char>,
    public: Option<(Seq<char>, Seq<char>)>,
) -> bool {
    &&& opt_view(it.title) == Some(card.toptitle@)
    &&& opt_view(it.link) == Some(spec_make_url(origin, card.track_info.page_url@))
    &&& opt_view(it.description) == Some(card.description@)
    &&& opt_view(it.pub_date) == spec_pub_date(card.track_info.date@)
    &&& (it.enclosure matches Some(e) && {
        &&& e.url@ == spec_enclosure_url(public, card.audio.url@)
        &&& e.mime_type@ == "audio/mpeg"@
        &&& e.length@ == Seq::<char>::empty()
    })
    &&& (it.guid matches Some(g) && g.value@ == card.uniquename@ && g.permalink == false)
    &&& (it.itunes_ext matches Some(x) && {
        &&& opt_view(x.image) == Some(spec_make_url(origin, card.image@))
        &&& opt_view(x.duration) == Some(card.audio.duration@)
        &&& opt_view(x.episode) == opt_view(card.episode)
        &&& opt_view(x.season) == opt_view(card.season)
    })
}

/// How the whole channel relates to the program document it was built from:
/// direct metadata mapping, absolutized image and weblink, the categories the
/// genres then the subgenres in order with no de-duplication, and one item
/// per card, in the order the cards came in.
pub open spec fn spec_channel_of(
    p: RaiPlayProgram,
    origin: Seq<char>,
    public: Option<(Seq<char>, Seq<char>)>,
    r: Channel,
) -> bool {
    &&& r.title@ == p.podcast_info.title@
    &&& r.link@ == spec_make_url(origin, p.podcast_info.weblink@)
    &&& r.description@ == p.podcast_info.description@
    &&& opt_view(r.managing_editor) == Some(p.podcast_info.editor@)
    &&& opt_view(r.generator) == Some("sarasara https://github.com/steinuil/sarasara"@)
    &&& r.categories@.len() == p.podcast_info.genres@.len() + p.podcast_info.subgenres@.len()
    &&& (forall|i: int|
        0 <= i < p.podcast_info.genres@.len() ==> #[trigger] r.categories@[i]@
            == p.podcast_info.genres@[i].name@)
    &&& (forall|i: int|
        p.podcast_info.genres@.len() <= i < r.categories@.len() ==> #[trigger] r.categories@[i]@
            == p.podcast_info.subgenres@[i - p.podcast_info.genres@.len()].name@)
    &&& (r.image matches Some(img) && {
        &&& img.url@ == spec_make_url(origin, p.podcast_info.image@)
        &&& img.title@ == p.podcast_info.title@
        &&& opt_view(img.description) == Some(p.podcast_info.description@)
        &&& img.link@ == spec_make_url(origin, p.podcast_info.weblink@)
    })
    &&& r.items@.len() == p.block.cards@.len()
    &&& (forall|i: int|
        0 <= i < p.block.cards@.len() ==> spec_item_of(
            #[trigger] r.items@[i],
            p.block.cards@[i],
            origin,
            public,
        ))
}

/// With no public base URL configured, every enclosure carries the upstream
/// audio URL unchanged, whatever it is.
pub proof fn lemma_enclosure_passthrough(audio_url: Seq<char>)
    ensures
        spec_enclosure_url(None, audio_url) == audio_url,
{
}

fn option_string_clone(o: &Option<String>) -> (r: Option<String>)
    ensures
        opt_view(r) == opt_view(*o),
{
    match o {
        Some(s) => Some(s.clone()),
        None => None,
    }
}

/// Build one feed item from one episode card.
fn make_item(card: &Card, raiplaysound_url: &UrlParts, public_url: Option<&UrlParts>) -> (r: Item)
    ensures
        spec_item_of(r, *card, raiplaysound_url.origin@, spec_public_parts(public_url)),
{
    let enclosure_url: String = match public_url {
        Some(p) => make_audio_url(p, card.audio.url.as_str()),
        None => card.audio.url.clone(),
    };
    Item {
        title: Some(card.toptitle.clone()),
        link: Some(make_url(raiplaysound_url, card.track_info.page_url.as_str())),
        description: Some(card.description.clone()),
        pub_date: format_pub_date(card.track_info.date.as_str()),
        enclosure: Some(
            Enclosure {
                url: enclosure_url,
                mime_type: String::from_str("audio/mpeg"),
                length: String::new(),
            },
        ),
        guid: Some(Guid { value: card.uniquename.clone(), permalink: false }),
        itunes_ext: Some(
            ItunesItemExtension {
                image: Some(make_url(raiplaysound_url, card.image.as_str())),
                duration: Some(card.audio.duration.clone()),
                episode: option_string_clone(&card.episode),
                season: option_string_clone(&card.season),
            },
        ),
    }
}

impl RaiPlayProgram {
    /// Map the program document onto an RSS channel. `raiplaysound_url` is
    /// the upstream content host the relative paths are absolutized against;
    /// `public_url`, when configured, is the public host through which audio
    /// enclosures are proxied.
    pub fn into_rss(self, raiplaysound_url: &UrlParts, public_url: Option<&UrlParts>) -> (r:
        Channel)
        ensures
            spec_channel_of(
                self,
                raiplaysound_url.origin@,
                spec_public_parts(public_url),
                r,
            ),
    {
        let mut categories: Vec<String> = Vec::new();
        let mut i: usize = 0;
        while i < self.podcast_info.genres.len()
            invariant
                i <= self.podcast_info.genres@.len(),
                categories@.len() == i,
                forall|j: int|
                    0 <= j < i ==> #[trigger] categories@[j]@
                        == self.podcast_info.genres@[j].name@,
            decreases self.podcast_info.genres@.len() - i,
        {
            categories.push(self.podcast_info.genres[i].name.clone());
            i = i + 1;
        }
        let genre_count = i;
        let mut i: usize = 0;
        while i < self.podcast_info.subgenres.len()
            invariant
                i <= self.podcast_info.subgenres@.len(),
                genre_count == self.podcast_info.genres@.len(),
                categories@.len() == genre_count + i,
                forall|j: int|
                    0 <= j < genre_count ==> #[trigger] categories@[j]@
                        == self.podcast_info.genres@[j].name@,
                forall|j: int|
                    genre_count <= j < categories@.len() ==> #[trigger] categories@[j]@
                        == self.podcast_info.subgenres@[j - genre_count].name@,
            decreases self.podcast_info.subgenres@.len() - i,
        {
            categories.push(self.podcast_info.subgenres[i].name.clone());
            i = i + 1;
        }
        let mut items: Vec<Item> = Vec::new();
        let mut i: usize = 0;
        while i < self.block.cards.len()
            invariant
                i <= self.block.cards@.len(),
                items@.len() == i,
                forall|j: int|
                    0 <= j < i ==> spec_item_of(
                        #[trigger] items@[j],
                        self.block.cards@[j],
                        raiplaysound_url.origin@,
                        spec_public_parts(public_url),
                    ),
            decreases self.block.cards@.len() - i,
        {
            let it = make_item(&self.block.cards[i], raiplaysound_url, public_url);
            items.push(it);
            i = i + 1;
        }
        Channel {
            title: self.podcast_info.title.clone(),
            link: make_url(raiplaysound_url, self.podcast_info.weblink.as_str()),
            description: self.podcast_info.description.clone(),
            managing_editor: Some(self.podcast_info.editor.clone()),
            categories,
            generator: Some(String::from_str("sarasara https://github.com/steinuil/sarasara")),
            image: Some(
                ChannelImage {
                    url: make_url(raiplaysound_url, self.podcast_info.image.as_str()),
                    title: self.podcast_info.title.clone(),
                    description: Some(self.podcast_info.description.clone()),
                    link: make_url(raiplaysound_url, self.podcast_info.weblink.as_str()),
                },
            ),
            items,
        }
    }
}

} // verus!

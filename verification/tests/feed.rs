use sarasara::model::{Audio, Block, Card, Genre, PodcastInfo, RaiPlayProgram, TrackInfo};
use sarasara::urls::UrlParts;

fn card(uniquename: &str, date: &str, episode: Option<&str>, season: Option<&str>) -> Card {
    Card {
        uniquename: uniquename.to_string(),
        toptitle: format!("title {}", uniquename),
        description: format!("description {}", uniquename),
        audio: Audio {
            url: format!("https://cdn.example/{}.mp3", uniquename),
            duration: "00:30:00".to_string(),
        },
        image: format!("/img/{}.png", uniquename),
        track_info: TrackInfo { date: date.to_string(), page_url: format!("/ep/{}", uniquename) },
        episode: episode.map(|s| s.to_string()),
        season: season.map(|s| s.to_string()),
    }
}

fn fixture() -> RaiPlayProgram {
    RaiPlayProgram {
        podcast_info: PodcastInfo {
            title: "My Show".to_string(),
            description: "A show.".to_string(),
            image: "/img/cover.png".to_string(),
            editor: "The Editor".to_string(),
            weblink: "/programmi/myshow".to_string(),
            genres: vec![
                Genre { name: "News".to_string() },
                Genre { name: "Culture".to_string() },
            ],
            subgenres: vec![Genre { name: "Daily".to_string() }],
        },
        block: Block {
            cards: vec![
                card("ep1", "2021-01-05", Some("1"), Some("2")),
                card("ep2", "not-a-date", Some("2"), Some("2")),
                card("ep3", "2021-01-07", None, None),
            ],
        },
    }
}

fn content_base() -> UrlParts {
    UrlParts { origin: "https://www.raiplaysound.it".to_string(), path: "/".to_string() }
}

fn public_base() -> UrlParts {
    UrlParts { origin: "https://pod.example".to_string(), path: "/".to_string() }
}

#[test]
fn channel_metadata_is_mapped() {
    let channel = fixture().into_rss(&content_base(), Some(&public_base()));
    assert_eq!(channel.title, "My Show");
    assert_eq!(channel.link, "https://www.raiplaysound.it/programmi/myshow");
    assert_eq!(channel.description, "A show.");
    assert_eq!(channel.managing_editor.as_deref(), Some("The Editor"));
    assert_eq!(
        channel.generator.as_deref(),
        Some("sarasara https://github.com/steinuil/sarasara")
    );
    let image = channel.image.as_ref().expect("channel image");
    assert_eq!(image.url, "https://www.raiplaysound.it/img/cover.png");
    assert_eq!(image.title, "My Show");
    assert_eq!(image.description.as_deref(), Some("A show."));
    assert_eq!(image.link, "https://www.raiplaysound.it/programmi/myshow");
}

#[test]
fn categories_concatenate_genres_then_subgenres() {
    let channel = fixture().into_rss(&content_base(), Some(&public_base()));
    assert_eq!(channel.categories, vec!["News", "Culture", "Daily"]);
}

#[test]
fn items_keep_card_order() {
    let channel = fixture().into_rss(&content_base(), Some(&public_base()));
    assert_eq!(channel.items.len(), 3);
    let guids: Vec<&str> = channel
        .items
        .iter()
        .map(|i| i.guid.as_ref().expect("guid").value.as_str())
        .collect();
    assert_eq!(guids, vec!["ep1", "ep2", "ep3"]);
    assert!(channel.items.iter().all(|i| !i.guid.as_ref().unwrap().permalink));
}

#[test]
fn item_fields_are_mapped() {
    let channel = fixture().into_rss(&content_base(), Some(&public_base()));
    let item = &channel.items[0];
    assert_eq!(item.title.as_deref(), Some("title ep1"));
    assert_eq!(item.link.as_deref(), Some("https://www.raiplaysound.it/ep/ep1"));
    assert_eq!(item.description.as_deref(), Some("description ep1"));
    assert_eq!(item.pub_date.as_deref(), Some("Tue, 05 Jan 2021 00:00:00 +0000"));
    let ext = item.itunes_ext.as_ref().expect("itunes extension");
    assert_eq!(ext.image.as_deref(), Some("https://www.raiplaysound.it/img/ep1.png"));
    assert_eq!(ext.duration.as_deref(), Some("00:30:00"));
    assert_eq!(ext.episode.as_deref(), Some("1"));
    assert_eq!(ext.season.as_deref(), Some("2"));
}

#[test]
fn malformed_date_omits_pub_date() {
    let channel = fixture().into_rss(&content_base(), Some(&public_base()));
    assert!(channel.items[0].pub_date.is_some());
    assert!(channel.items[1].pub_date.is_none());
    assert!(channel.items[2].pub_date.is_some());
}

#[test]
fn missing_episode_and_season_are_omitted() {
    let channel = fixture().into_rss(&content_base(), Some(&public_base()));
    let ext = channel.items[2].itunes_ext.as_ref().expect("itunes extension");
    assert!(ext.episode.is_none());
    assert!(ext.season.is_none());
}

#[test]
fn enclosure_rewritten_through_public_base() {
    let channel = fixture().into_rss(&content_base(), Some(&public_base()));
    let enclosure = channel.items[0].enclosure.as_ref().expect("enclosure");
    assert_eq!(
        enclosure.url,
        "https://pod.example/audio?url=https://cdn.example/ep1.mp3"
    );
    assert_eq!(enclosure.mime_type, "audio/mpeg");
    assert_eq!(enclosure.length, "");
}

#[test]
fn enclosure_passthrough_without_public_base() {
    let channel = fixture().into_rss(&content_base(), None);
    let enclosure = channel.items[0].enclosure.as_ref().expect("enclosure");
    assert_eq!(enclosure.url, "https://cdn.example/ep1.mp3");
}

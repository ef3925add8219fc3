use borovylo::oko::app::{reply_to, App, Code, Reply};
use borovylo::oko::config::Config;
use borovylo::oko::media::{Category, Media};
use borovylo::oko::store::{category_for_mime, category_of, liked, media_message, Entry, State};
use borovylo::oko2::model;
use std::collections::HashMap;

fn state() -> State<u8> {
    State {
        media: vec![Media::new("a.gif".to_string(), Category::Gif), Media::new("b.png".to_string(), Category::Picture)],
        next_id: 0,
        connections: HashMap::new(),
        config: Config::fallback(),
    }
}

#[test]
fn kinds_of_files() {
    assert_eq!(category_of("x/anim.gif"), Some(Category::Gif));
    assert_eq!(category_of("x/photo.JPG"), Some(Category::Picture));
    assert_eq!(category_of("x/notes.txt"), None);
    assert_eq!(category_of("x/noext"), None);
    assert_eq!(category_for_mime(&Some(("IMAGE".to_string(), "GIF".to_string()))), Some(Category::Gif));
    assert_eq!(category_for_mime(&Some(("video".to_string(), "gif".to_string()))), None);
    let entries = vec![
        Entry { path: "lib/a.gif".to_string(), is_dir: false },
        Entry { path: "lib/sub".to_string(), is_dir: true },
        Entry { path: "lib/b.txt".to_string(), is_dir: false },
        Entry { path: "lib/c.png".to_string(), is_dir: false },
    ];
    let media = State::<u8>::new(&entries);
    assert_eq!(media.len(), 2);
    assert_eq!(media[0].path, "lib/a.gif");
    assert_eq!(media[1].category, Category::Picture);
}

#[test]
fn messages_to_the_client() {
    let mut m = Media::new("a.gif".to_string(), Category::Gif);
    assert_eq!(
        media_message(3, &m),
        r#"{ "media": { "idx": 3, "type": "Gif", "width": 0, "height": 0, "like": false } }"#
    );
    m.width = Some(640);
    m.height = Some(-1);
    let l = liked(&m);
    assert_eq!(l.data.as_deref(), Some("0"));
    assert_eq!(
        media_message(12, &l),
        r#"{ "media": { "idx": 12, "type": "Gif", "width": 640, "height": -1, "like": true } }"#
    );
    m.data = Some("17".to_string());
    assert_eq!(liked(&m).data.as_deref(), Some("017"));
    assert_eq!(Category::Animation.name(), "Animation");
}

#[test]
fn library_state() {
    let mut s = state();
    let i = s.pick_media();
    assert!(i < 2);
    assert_eq!(s.get_file_path(1), "b.png");
    s.add_connection(9);
    s.add_connection(4);
    assert_eq!(s.next_id, 2);
    assert_eq!(s.connections.get(&1), Some(&4));
    let gone = s.move_to_trash(0);
    assert_eq!(gone.path, "a.gif");
    assert_eq!(s.media.len(), 1);
    assert_eq!(s.config.trash, "~/trash/");
    assert_eq!(Config::fallback().library, "~/Pictures/");
}

#[test]
fn signals_and_tray() {
    assert_eq!(reply_to(Code::GetRandomMedia, None), Reply::Random);
    assert_eq!(reply_to(Code::MoveMediaToTrash, Some(4)), Reply::Trash(4));
    assert_eq!(reply_to(Code::MoveMediaToTrash, None), Reply::Ignore);
    assert_eq!(reply_to(Code::SetLike, Some(1)), Reply::Like(1));
    assert_eq!(reply_to(Code::AppTerminate, Some(1)), Reply::Ignore);
    let app = App::default();
    assert_eq!(app.title(), "Zazyr");
    assert_eq!(app.id(), "zazyr");
    assert_eq!(app.icon_name(), "trayicon");
    let item = model::Item::default();
    assert_eq!((item.id, item.name.as_str(), item.data.is_none()), (0, "", true));
    assert_ne!(model::Code::SetLike, model::Code::AppTerminate);
}

use photogrammetrie::com::{Auftrag, ServerStatus};
use photogrammetrie::console::{Message, MessageBody};
use photogrammetrie::hub::NotificationHub;
use photogrammetrie::model::ImageAppStatus;
use photogrammetrie::parse::parse_i32;
use photogrammetrie::store::{ImageStore, image_name_of};
use photogrammetrie::sync::ImageDownloader;
use photogrammetrie::paths;

#[test]
fn parse_simple_numbers() {
    assert_eq!(parse_i32("20"), Ok(20));
    assert_eq!(parse_i32("5"), Ok(5));
    assert_eq!(parse_i32("+7"), Ok(7));
    assert_eq!(parse_i32("-3"), Ok(-3));
    assert_eq!(parse_i32("0"), Ok(0));
}

#[test]
fn parse_bounds() {
    assert_eq!(parse_i32("2147483647"), Ok(i32::MAX));
    assert_eq!(parse_i32("-2147483648"), Ok(i32::MIN));
    assert!(parse_i32("2147483648").is_err());
    assert!(parse_i32("-2147483649").is_err());
    assert!(parse_i32("99999999999").is_err());
}

#[test]
fn parse_rejects_garbage() {
    assert!(parse_i32("").is_err());
    assert!(parse_i32("-").is_err());
    assert!(parse_i32("+").is_err());
    assert!(parse_i32("x").is_err());
    assert!(parse_i32("1x").is_err());
    assert!(parse_i32(" 1").is_err());
    assert!(parse_i32("1 ").is_err());
}

#[test]
fn form_into_vec_parses_three_rounds() {
    let form = photogrammetrie::model::Auftrag::new(
        "20".to_string(),
        "5".to_string(),
        "1".to_string(),
        "http://device:8080/".to_string(),
    );
    assert_eq!(form.get_url().as_str(), "http://device:8080/");
    assert_eq!(form.into_vec().unwrap(), vec![20, 5, 1]);
}

#[test]
fn form_into_vec_rejects_bad_round() {
    let form = photogrammetrie::model::Auftrag::new(
        "20".to_string(),
        "five".to_string(),
        "1".to_string(),
        "http://device:8080/".to_string(),
    );
    assert!(form.into_vec().is_err());
}

#[test]
fn plan_target_status() {
    let plan = Auftrag::from_vec(vec![20, 5]);
    let target = plan.into_target_status();
    assert_eq!(target.runde, 1);
    assert_eq!(target.aufnahme, 5);
}

#[test]
fn plan_validity() {
    assert!(Auftrag::from_vec(vec![1]).check_valid());
    assert!(Auftrag::from_vec(vec![20, 5, 3]).check_valid());
    assert!(!Auftrag::from_vec(vec![]).check_valid());
    assert!(!Auftrag::from_vec(vec![20, 0]).check_valid());
    assert!(!Auftrag::from_vec(vec![-1]).check_valid());
}

#[test]
fn image_name_is_final_segment() {
    assert_eq!(image_name_of(&"/aufnahme/img1.jpg".to_string()), "img1.jpg");
    assert_eq!(image_name_of(&"plain".to_string()), "plain");
    assert_eq!(image_name_of(&"a/b/c".to_string()), "c");
    assert_eq!(image_name_of(&"trailing/".to_string()), "");
    assert_eq!(image_name_of(&"".to_string()), "");
}

#[test]
fn store_never_duplicates() {
    let mut store = ImageStore::new();
    store.store_image(&"/aufnahme/a".to_string());
    store.store_image(&"/aufnahme/a".to_string());
    store.store_image(&"other/path/a".to_string());
    assert_eq!(store.get_image_list(), vec!["a".to_string()]);
    assert!(store.contains_image(&"a".to_string()));
    assert!(!store.contains_image(&"b".to_string()));
}

#[test]
fn downloader_plans_only_missing_images() {
    // Remote ready set {a, b}, local store {a}: exactly one download, for b.
    let mut d = ImageDownloader::new(
        "http://device:8080/".to_string(),
        ServerStatus::new(1, 5),
    );
    d.store_image(&"/aufnahme/a".to_string());
    let ready = vec!["/aufnahme/a".to_string(), "/aufnahme/b".to_string()];
    let planned = d.get_new_image_paths(&ready);
    assert_eq!(planned, vec!["/aufnahme/b".to_string()]);
}

#[test]
fn downloader_diff_is_idempotent() {
    // Once the planned downloads have completed, a second poll of the same
    // ready set plans nothing.
    let mut d = ImageDownloader::new(
        "http://device:8080/".to_string(),
        ServerStatus::new(1, 5),
    );
    let ready = vec!["/aufnahme/a".to_string(), "/aufnahme/b".to_string()];
    let planned = d.get_new_image_paths(&ready);
    assert_eq!(planned.len(), 2);
    for p in &planned {
        d.store_image(p);
    }
    assert!(d.get_new_image_paths(&ready).is_empty());
}

#[test]
fn downloader_retries_failed_download() {
    // A failed download leaves the name absent, so the identifier is planned
    // again on the next poll; once stored it is never planned again.
    let mut d = ImageDownloader::new(
        "http://device:8080/".to_string(),
        ServerStatus::new(1, 5),
    );
    let ready = vec!["/aufnahme/a".to_string()];
    let first = d.get_new_image_paths(&ready);
    assert_eq!(first, vec!["/aufnahme/a".to_string()]);
    // The download fails: nothing is stored, and the next poll plans it again.
    let second = d.get_new_image_paths(&ready);
    assert_eq!(second, vec!["/aufnahme/a".to_string()]);
    // The download succeeds: from now on the identifier is never planned.
    d.store_image(&"/aufnahme/a".to_string());
    assert!(d.get_new_image_paths(&ready).is_empty());
}

#[test]
fn downloader_status_transitions() {
    let target = ServerStatus::new(1, 5);
    let mut d = ImageDownloader::new("http://device:8080/".to_string(), target);
    assert_eq!(d.get_status(), ImageAppStatus::Start);
    assert!(d.should_continue());

    let early = ServerStatus::new(0, 3);
    assert!(d.observe_status(early));
    assert_eq!(d.get_status(), ImageAppStatus::TakingImages(early));
    // The same observation again is not a change.
    assert!(!d.observe_status(early));

    assert!(d.observe_status(ServerStatus::new(1, 5)));
    assert_eq!(d.get_status(), ImageAppStatus::Finished);
    assert!(!d.should_continue());
}

#[test]
fn downloader_reset_stops_loop() {
    let mut d = ImageDownloader::new(
        "http://device:8080/".to_string(),
        ServerStatus::new(1, 5),
    );
    assert!(d.should_continue());
    d.reset();
    assert!(!d.should_continue());
}

#[test]
fn hub_delivers_to_current_observer_only() {
    // Each notification goes to exactly the handle attached at its issue
    // time; attaching replaces, never stacks.
    let mut hub: NotificationHub<u32> = NotificationHub::new();
    assert!(hub.notify().is_none());
    hub.attach(1);
    assert_eq!(hub.notify(), Some(&1));
    hub.attach(2);
    assert_eq!(hub.notify(), Some(&2));
    assert_ne!(hub.notify(), Some(&1));
}

#[test]
fn message_json_shapes() {
    let line = Message::NewConsoleOutput(MessageBody { body: "hello".to_string() });
    assert_eq!(line.into_json(), "{\"type\":\"NewConsoleOutput\",\"body\":\"hello\"}");
    let err = Message::Error(MessageBody { body: "boom".to_string() });
    assert_eq!(err.into_json(), "{\"type\":\"Error\",\"body\":\"boom\"}");
    assert_eq!(Message::Finished.into_json(), "{\"type\":\"Finished\"}");
}

#[test]
fn message_json_escapes_body() {
    let tricky = Message::NewConsoleOutput(MessageBody {
        body: "a\"b\\c\nd\re\tf\u{1}g".to_string(),
    });
    assert_eq!(
        tricky.into_json(),
        "{\"type\":\"NewConsoleOutput\",\"body\":\"a\\\"b\\\\c\\nd\\re\\tf\\u0001g\"}"
    );
    let high_control = Message::NewConsoleOutput(MessageBody { body: "\u{1f}".to_string() });
    assert_eq!(
        high_control.into_json(),
        "{\"type\":\"NewConsoleOutput\",\"body\":\"\\u001f\"}"
    );
}

#[test]
fn well_known_paths() {
    assert_eq!(paths::parent_folder(), "/ph");
    assert_eq!(paths::image_folder(), "/ph/images");
    assert_eq!(paths::texture_folder(), "/ph/odm_texturing");
    assert_eq!(paths::archive_file(), "/model.zip");
}

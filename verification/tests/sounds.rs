use szmer::errors::Error;
use szmer::platform::Platform;
use szmer::sound::{extract_sound_name, get_available_sounds};

fn names(list: &[&str]) -> Vec<String> {
    list.iter().map(|s| String::from(*s)).collect()
}

#[test]
fn extracts_the_stem_of_a_known_extension() {
    let exts = vec![".aiff"];
    assert_eq!(extract_sound_name("Glass.aiff", &exts), Some(String::from("Glass")));
    assert_eq!(extract_sound_name("Glass.mp3", &exts), None);
    assert_eq!(extract_sound_name("", &exts), None);
}

#[test]
fn extracts_with_the_first_matching_extension() {
    let exts = vec![".oga", ".ogg", ".wav"];
    assert_eq!(extract_sound_name("bell.oga", &exts), Some(String::from("bell")));
    assert_eq!(extract_sound_name("bell.ogg", &exts), Some(String::from("bell")));
    assert_eq!(extract_sound_name("alarm.wav", &exts), Some(String::from("alarm")));
    assert_eq!(extract_sound_name("alarm.txt", &exts), None);
}

#[test]
fn macos_sounds_are_sorted_with_duplicates_kept() {
    let files = names(&["Glass.aiff", "Basso.aiff", "readme.txt", "Basso.aiff"]);
    let sounds = get_available_sounds(Platform::MacOs, &files).unwrap();
    assert_eq!(sounds, names(&["Basso", "Basso", "Glass"]));
}

#[test]
fn macos_without_sounds_is_an_empty_catalogue() {
    let files = names(&["readme.txt"]);
    let sounds = get_available_sounds(Platform::MacOs, &files).unwrap();
    assert!(sounds.is_empty());
}

#[test]
fn linux_sounds_are_sorted_and_deduplicated() {
    let files = names(&["bell.oga", "bell.ogg", "alarm.wav", "notes.txt", "message.oga"]);
    let sounds = get_available_sounds(Platform::Linux, &files).unwrap();
    assert_eq!(sounds, names(&["alarm", "bell", "message"]));
}

#[test]
fn linux_without_sounds_is_an_error() {
    let files = names(&["readme.txt"]);
    assert_eq!(get_available_sounds(Platform::Linux, &files), Err(Error::NoSoundsFound));
    assert_eq!(get_available_sounds(Platform::Linux, &names(&[])), Err(Error::NoSoundsFound));
}

#[test]
fn sound_listing_is_unsupported_elsewhere() {
    let files = names(&["Glass.aiff"]);
    assert_eq!(get_available_sounds(Platform::Unsupported, &files), Err(Error::UnsupportedPlatform));
}

use now_playing::lyrics::{derived_lyric_path, resolve, sample_lyrics, LyricResult};
use std::cell::RefCell;
use std::collections::HashMap;

fn shelf(files: &[(&str, &str)]) -> HashMap<String, String> {
    files.iter().map(|(path, text)| (path.to_string(), text.to_string())).collect()
}

fn read_from(files: &HashMap<String, String>, path: &str) -> Result<String, String> {
    files.get(path).cloned().ok_or_else(|| format!("no file at {}", path))
}

fn text_of(result: LyricResult) -> Option<String> {
    match result {
        LyricResult::Text(text) => Some(text),
        LyricResult::Absent => None,
    }
}

#[test]
fn absent_when_no_lyric_file_exists() {
    let files = shelf(&[("song.mp3", "not lyrics"), ("other.lrc", "[00:01.00]other")]);
    let result = resolve("song.mp3", |path: &str| read_from(&files, path));
    assert!(matches!(result, LyricResult::Absent));
}

#[test]
fn text_is_handed_back_unchanged() {
    let text = "[ti:Song]\n[00:00.00]first line\r\n[00:12.50] second line \n\n[01:03.48]第三行\n";
    let files = shelf(&[("album/song.lrc", text)]);
    let result = resolve("album/song.flac", |path: &str| read_from(&files, path));
    assert_eq!(text_of(result), Some(text.to_string()));
}

#[test]
fn empty_lyric_file_is_not_an_absence() {
    let files = shelf(&[("song.lrc", "")]);
    let result = resolve("song.mp3", |path: &str| read_from(&files, path));
    assert_eq!(text_of(result), Some(String::new()));
}

#[test]
fn every_read_failure_is_an_absence() {
    let denied = resolve("song.mp3", |_path: &str| -> Result<String, u32> { Err(13) });
    assert!(matches!(denied, LyricResult::Absent));
    let missing = resolve("song.mp3", |_path: &str| -> Result<String, ()> { Err(()) });
    assert!(matches!(missing, LyricResult::Absent));
}

#[test]
fn empty_path_is_absent_and_nothing_is_read() {
    let reads = RefCell::new(0);
    let result = resolve("", |_path: &str| -> Result<String, ()> {
        *reads.borrow_mut() += 1;
        Ok("text".to_string())
    });
    assert!(matches!(result, LyricResult::Absent));
    assert_eq!(*reads.borrow(), 0);
}

#[test]
fn the_lyric_path_is_what_is_read() {
    let asked = RefCell::new(Vec::new());
    let result = resolve("/music/song.mp3", |path: &str| -> Result<String, ()> {
        asked.borrow_mut().push(path.to_string());
        Err(())
    });
    assert!(matches!(result, LyricResult::Absent));
    assert_eq!(*asked.borrow(), vec!["/music/song.lrc".to_string()]);
}

#[test]
fn every_lookup_reads_again() {
    let files = RefCell::new(shelf(&[]));
    let first = resolve("song.mp3", |path: &str| read_from(&files.borrow(), path));
    assert!(matches!(first, LyricResult::Absent));
    files.borrow_mut().insert(derived_lyric_path("song.mp3"), "[00:01.00]now".to_string());
    let second = resolve("song.mp3", |path: &str| read_from(&files.borrow(), path));
    assert_eq!(text_of(second), Some("[00:01.00]now".to_string()));
}

#[test]
fn lyric_file_itself_can_be_asked_for() {
    let files = shelf(&[("song.lrc", "[00:01.00]la")]);
    let result = resolve("song.lrc", |path: &str| read_from(&files, path));
    assert_eq!(text_of(result), Some("[00:01.00]la".to_string()));
}

#[test]
fn from_read_keeps_text_and_drops_errors() {
    let found = LyricResult::from_read::<()>(Ok("[00:01.00]la\n".to_string()));
    assert_eq!(text_of(found), Some("[00:01.00]la\n".to_string()));
    let failed = LyricResult::from_read(Err("permission denied"));
    assert!(matches!(failed, LyricResult::Absent));
}

#[test]
fn display_text_is_lyrics_or_notice() {
    let found = LyricResult::Text("[00:01.00]la".to_string());
    assert_eq!(found.into_display_text(), "[00:01.00]la");
    assert_eq!(LyricResult::Text(String::new()).into_display_text(), "");
    assert_eq!(LyricResult::Absent.into_display_text(), "暂无歌词");
}

#[test]
fn sample_lyrics_name_the_song() {
    let text = sample_lyrics("X");
    assert!(text.starts_with("[00:00.00]X - 歌词\n[00:00.00] 作词 : 方文山\n"));
    assert!(text.ends_with("\n[04:15.00]这个世界约好一起逛\n"));
    assert_eq!(text.lines().count(), 60);
    assert_eq!(text.chars().count(), 1235 + 1);
    assert_eq!(text.matches("X").count(), 1);
}

#[test]
fn sample_lyrics_are_one_text_for_every_name() {
    let unnamed = sample_lyrics("");
    assert!(unnamed.starts_with("[00:00.00] - 歌词\n"));
    for name in ["园游会", "a b", "[01:00.00]", "{}"] {
        let text = sample_lyrics(name);
        assert_eq!(text, format!("[00:00.00]{}{}", name, &unnamed["[00:00.00]".len()..]));
    }
}

#[test]
fn sample_lyrics_are_tagged_in_order() {
    let text = sample_lyrics("song");
    let mut latest = 0;
    let mut first = None;
    for line in text.lines() {
        let tag: Vec<char> = line.chars().take(10).collect();
        assert_eq!(tag.len(), 10, "in {:?}", line);
        assert_eq!((tag[0], tag[3], tag[6], tag[9]), ('[', ':', '.', ']'), "in {:?}", line);
        let mut hundredths = 0;
        for (at, weight) in [(1, 60000), (2, 6000), (4, 1000), (5, 100), (7, 10), (8, 1)] {
            hundredths += tag[at].to_digit(10).unwrap() * weight;
        }
        assert!(hundredths >= latest, "in {:?}", line);
        latest = hundredths;
        first = first.or(Some(hundredths));
    }
    assert_eq!(first, Some(0));
    assert_eq!(latest, 4 * 6000 + 15 * 100);
}

//! Lyric lookup: which file holds the lyrics of a track, and what a read of
//! that file amounts to.

use crate::library::is_music_path;
use crate::path::{
    chars_of, has_file_name, is_plain, is_separator, lemma_extension_of_parts, lemma_stem_end,
    lemma_stem_with_extension, locate, name_end, spec_extension, spells, stem_end,
};
use vstd::prelude::*;

verus! {

/// The extension of a lyric file, without the dot.
pub open spec fn lyric_extension() -> Seq<char> {
    seq!['l', 'r', 'c']
}

/// The path of the lyric file that accompanies the track at `track_path`:
/// the path itself where it has no file name or already names a lyric
/// file, else the path up to the stem of its file name, followed by a dot
/// and the lyric extension.
pub open spec fn spec_derived_lyric_path(track_path: Seq<char>) -> Seq<char> {
    if !has_file_name(track_path) || spec_extension(track_path) == Some(lyric_extension()) {
        track_path
    } else {
        track_path.take(stem_end(track_path) as int) + seq!['.'] + lyric_extension()
    }
}

/// The path of the lyric file that accompanies the track at `track_path`.
pub fn derived_lyric_path(track_path: &str) -> (lyric: String)
    ensures
        lyric@ == spec_derived_lyric_path(track_path@),
{
    let chars = chars_of(track_path);
    let span = locate(&chars);
    let word = chars_of("lrc");
    proof {
        reveal_strlit("lrc");
        reveal_strlit(".lrc");
        assert("lrc"@ =~= lyric_extension());
    }
    if !span.named {
        return String::from_str(track_path);
    }
    if span.stem_end < span.end && spells(&chars, span.stem_end + 1, span.end, &word) {
        return String::from_str(track_path);
    }
    let mut lyric = String::from_str(track_path.substring_char(0, span.stem_end));
    lyric.append(".lrc");
    lyric
}

/// What a lookup of lyrics gives: the text of the lyric file, or the
/// answer that there is none. An empty lyric file is a text, not an absence.
#[derive(Debug, Clone, PartialEq, Eq)]
pub enum LyricResult {
    Text(String),
    Absent,
}

/// The notice shown in place of lyrics where there are none.
pub open spec fn absence_notice() -> Seq<char> {
    "暂无歌词"@
}

/// What a read of the lyric file amounts to: its text as it was read, and
/// an absence for every failure, whatever its cause.
pub open spec fn spec_from_read<E>(outcome: Result<String, E>) -> LyricResult {
    match outcome {
        Ok(text) => LyricResult::Text(text),
        Err(_) => LyricResult::Absent,
    }
}

/// Whether `result` answers a lookup for `track_path` through `read_text`:
/// an absence for the empty path, for which nothing is read; else what one
/// read of the lyric path amounts to.
pub open spec fn answers<E, R: FnOnce(&str) -> Result<String, E>>(
    track_path: Seq<char>,
    read_text: R,
    result: LyricResult,
) -> bool {
    if track_path.len() == 0 {
        result == LyricResult::Absent
    } else {
        exists|path: &str, outcome: Result<String, E>|
            path@ == spec_derived_lyric_path(track_path) && call_ensures(read_text, (path,), outcome)
                && result == spec_from_read(outcome)
    }
}

impl LyricResult {
    /// The text that was found, if any.
    pub open spec fn text(self) -> Option<Seq<char>> {
        match self {
            LyricResult::Text(text) => Some(text@),
            LyricResult::Absent => None,
        }
    }

    /// The text to show for this result: the lyrics, or the notice that
    /// there are none.
    pub open spec fn display_text(self) -> Seq<char> {
        match self {
            LyricResult::Text(text) => text@,
            LyricResult::Absent => absence_notice(),
        }
    }

    /// The text to show for this result.
    pub fn into_display_text(self) -> (shown: String)
        ensures
            shown@ == self.display_text(),
    {
        match self {
            LyricResult::Text(text) => text,
            LyricResult::Absent => String::from_str("暂无歌词"),
        }
    }

    /// Turns the outcome of reading a lyric file into a result.
    pub fn from_read<E>(outcome: Result<String, E>) -> (result: LyricResult)
        ensures
            result == spec_from_read(outcome),
    {
        match outcome {
            Ok(text) => LyricResult::Text(text),
            Err(_) => LyricResult::Absent,
        }
    }
}

/// Looks up the lyrics of the track at `track_path`, reading the lyric file
/// through `read_text`. For the empty path nothing is read, so nothing is
/// asked of the reader there.
pub fn resolve<E, R: FnOnce(&str) -> Result<String, E>>(track_path: &str, read_text: R) -> (result:
    LyricResult)
    requires
        track_path@.len() > 0 ==> forall|path: &str|
            path@ == spec_derived_lyric_path(track_path@) ==> call_requires(read_text, (path,)),
    ensures
        answers(track_path@, read_text, result),
{
    if track_path.is_empty() {
        return LyricResult::Absent;
    }
    let lyric = derived_lyric_path(track_path);
    let outcome = read_text(lyric.as_str());
    LyricResult::from_read(outcome)
}

/// What follows the song's name in sample lyrics: the end of the title
/// line, then the lines of the sample song, each behind its time tag.
pub const SAMPLE_LINES: &'static str = " - 歌词\n\
[00:00.00] 作词 : 方文山\n\
[00:01.00] 作曲 : 周杰伦\n\
[00:02.00] 编曲 : 洪敬尧\n\
[00:03.00] 制作人 : 周杰伦\n\
[00:04.00]和声：周杰伦\n\
[00:05.00]和声编写：周杰伦\n\
[00:06.00]录音：Gary(Alfa Studio)\n\
[00:07.00]混音工程：杨大纬(杨大纬录音工作室)\n\
[00:32.35]琥珀色黄昏像糖在很美的远方\n\
[00:36.42]你的脸没有化妆我却疯狂爱上\n\
[00:40.33]思念跟影子在傍晚一起被拉长\n\
[00:44.24]我手中那张入场券陪我数羊\n\
[00:48.05]薄荷色草地芬芳像风没有形状\n\
[00:52.11]我却能够牢记你的气质跟脸庞\n\
[00:55.97]冷空气跟琉璃在清晨很有透明感\n\
[00:59.98]像我的喜欢 被你看穿\n\
[01:03.48]摊位上一朵艳阳\n\
[01:06.48]我悄悄出现你身旁\n\
[01:11.20]你慌乱的模样\n\
[01:13.13]我微笑安静欣赏\n\
[01:18.06]我顶着大太阳\n\
[01:20.14]只想为你撑伞\n\
[01:22.12]你靠在我肩膀\n\
[01:24.00]深呼吸怕遗忘\n\
[01:26.03]因为捞鱼的蠢游戏我们开始交谈\n\
[01:29.94]多希望话题不断园游会永不打烊\n\
[01:33.85]气球在我手上\n\
[01:35.88]我牵着你瞎逛\n\
[01:37.81]有话想对你讲\n\
[01:39.74]你眼睛却装忙\n\
[01:41.73]鸡蛋糕跟你嘴角果酱我都想要尝\n\
[01:45.68]园游会影片在播放\n\
[01:47.92]这个世界约好一起逛\n\
[02:06.88]琥珀色黄昏像糖在很美的远方\n\
[02:10.84]你的脸没有化妆我却疯狂爱上\n\
[02:14.75]思念跟影子在傍晚一起被拉长\n\
[02:18.67]我手中那张入场券陪我数羊\n\
[02:22.58]薄荷色草地芬芳像风没有形状\n\
[02:26.54]我却能够牢记你的气质跟脸庞\n\
[02:30.45]冷空气跟琉璃在清晨很有透明感\n\
[02:34.36]像我的喜欢 被你看穿\n\
[02:37.98]摊位上一朵艳阳\n\
[02:40.98]我悄悄出现你身旁\n\
[02:45.60]你慌乱的模样\n\
[02:47.58]我微笑安静欣赏\n\
[02:52.56]我顶着大太阳\n\
[02:54.54]只想为你撑伞\n\
[02:56.52]你靠在我肩膀\n\
[02:58.45]深呼吸怕遗忘\n\
[03:00.38]因为捞鱼的蠢游戏我们开始交谈\n\
[03:04.34]多希望话题不断园游会永不打烊\n\
[03:08.25]气球在我手上\n\
[03:10.24]我牵着你瞎逛\n\
[03:12.22]有话想对你讲\n\
[03:14.15]你眼睛却装忙\n\
[03:16.18]鸡蛋糕跟你嘴角果酱我都想要尝\n\
[03:20.14]园游会影片在播放\n\
[03:22.33]这个世界约好一起逛\n\
[04:15.00]这个世界约好一起逛\n";

/// The time tag that opens the title line of sample lyrics.
pub open spec fn sample_opening() -> Seq<char> {
    "[00:00.00]"@
}

/// Sample lyrics for the song `song_name`: the opening time tag, the name
/// as it is given, and the fixed lines of the sample song.
pub open spec fn spec_sample_lyrics(song_name: Seq<char>) -> Seq<char> {
    sample_opening() + song_name + SAMPLE_LINES@
}

/// Sample lyrics for the song `song_name`, for use where no lyric file is
/// at hand: a title line that names the song, then the lines of the sample
/// song.
pub fn sample_lyrics(song_name: &str) -> (text: String)
    ensures
        text@ == spec_sample_lyrics(song_name@),
{
    let mut text = String::from_str("[00:00.00]");
    text.append(song_name);
    text.append(SAMPLE_LINES);
    text
}

/// The lyric path of a path with a file name ends in a file name with the
/// lyric extension and the same stem.
pub proof fn lemma_derived_path_names_lyric_file(track_path: Seq<char>)
    requires
        has_file_name(track_path),
    ensures
        has_file_name(spec_derived_lyric_path(track_path)),
        spec_extension(spec_derived_lyric_path(track_path)) == Some(lyric_extension()),
        spec_derived_lyric_path(track_path).take(
            stem_end(spec_derived_lyric_path(track_path)) as int,
        ) == track_path.take(stem_end(track_path) as int),
{
    if spec_extension(track_path) != Some(lyric_extension()) {
        lemma_stem_end(track_path);
        lemma_stem_with_extension(track_path, lyric_extension());
    }
}

/// Deriving the lyric path of a lyric path changes nothing.
pub proof fn lemma_derived_path_idempotent(track_path: Seq<char>)
    ensures
        spec_derived_lyric_path(spec_derived_lyric_path(track_path)) == spec_derived_lyric_path(track_path),
{
    if has_file_name(track_path) {
        lemma_derived_path_names_lyric_file(track_path);
    }
}

/// The lyric path of a track is the track path with its extension replaced
/// by the lyric extension: where the path up to the end of its file name is
/// a stem, a dot and `mp3` or `flac`, the lyric path is that stem, a dot
/// and `lrc`. Deriving again from the result changes nothing.
pub proof fn lemma_derived_path_of_track(track_path: Seq<char>)
    requires
        is_music_path(track_path),
    ensures
        ({
            let stem = track_path.take(stem_end(track_path) as int);
            let extension = spec_extension(track_path).unwrap();
            &&& track_path.take(name_end(track_path) as int) == stem + seq!['.'] + extension
            &&& name_end(track_path) == track_path.len() ==> track_path == stem + seq!['.']
                + extension
            &&& spec_derived_lyric_path(track_path) == stem + seq!['.'] + lyric_extension()
        }),
        spec_derived_lyric_path(spec_derived_lyric_path(track_path)) == spec_derived_lyric_path(
            track_path,
        ),
{
    lemma_stem_end(track_path);
    lemma_derived_path_idempotent(track_path);
}

/// For a path made of a directory part, a stem, a dot and a plain
/// extension, the lyric path keeps the directory part and the stem and
/// ends in the lyric extension.
pub proof fn lemma_derived_path_of_parts(dir: Seq<char>, stem: Seq<char>, extension: Seq<char>)
    requires
        dir.len() == 0 || is_separator(dir.last()),
        stem.len() > 0,
        forall|i: int| 0 <= i < stem.len() ==> !is_separator(#[trigger] stem[i]),
        extension.len() > 0,
        is_plain(extension),
    ensures
        spec_derived_lyric_path(dir + stem + seq!['.'] + extension) == dir + stem + seq!['.']
            + lyric_extension(),
{
    lemma_extension_of_parts(dir, stem, extension);
}

/// Where a path ends in a file name without an extension, the lyric path
/// is the path with a dot and the lyric extension added at its end.
pub proof fn lemma_derived_path_appends(track_path: Seq<char>)
    requires
        has_file_name(track_path),
        spec_extension(track_path) is None,
        name_end(track_path) == track_path.len(),
    ensures
        spec_derived_lyric_path(track_path) == track_path + seq!['.'] + lyric_extension(),
{
    lemma_stem_end(track_path);
}

/// A lookup whose read of the lyric file can only fail gives an absence.
pub proof fn lemma_absent_when_read_fails<E, R: FnOnce(&str) -> Result<String, E>>(
    track_path: Seq<char>,
    read_text: R,
    result: LyricResult,
)
    requires
        answers(track_path, read_text, result),
        forall|path: &str, outcome: Result<String, E>|
            path@ == spec_derived_lyric_path(track_path) && call_ensures(read_text, (path,), outcome)
                ==> outcome is Err,
    ensures
        result == LyricResult::Absent,
{
}

/// A lookup for a track whose lyric file reads as `text` gives that text,
/// unchanged.
pub proof fn lemma_text_when_read_succeeds<E, R: FnOnce(&str) -> Result<String, E>>(
    track_path: Seq<char>,
    read_text: R,
    result: LyricResult,
    text: String,
)
    requires
        track_path.len() > 0,
        answers(track_path, read_text, result),
        forall|path: &str, outcome: Result<String, E>|
            path@ == spec_derived_lyric_path(track_path) && call_ensures(read_text, (path,), outcome)
                ==> outcome == Ok::<String, E>(text),
    ensures
        result == LyricResult::Text(text),
        result.text() == Some(text@),
{
}

} // verus!

//! How `yt-dlp` is asked for the audio of a URL, and what its answer means.
//! Running the tool and looking at the file system is left to the caller.

use crate::std_specs::{join_path, joined_path};
use crate::text::{
    chars_of, contains_text, find, last_index_of, lines_of, rfind_char, slice_text, split_lines,
    trim_range, trimmed,
};
use crate::probe::{first_existing, first_existing_path, probe_views, PathProbe};
use vstd::prelude::*;

verus! {

/// The directory that downloads go to: `SonicMix Downloads` under the user's
/// audio directory; without an audio directory, under `Music/SonicMix` in the
/// home directory; without a home directory, under `./downloads`.
pub open spec fn downloads_dir(audio_dir: Option<Seq<char>>, home_dir: Option<Seq<char>>) -> Seq<
    char,
> {
    let base = match audio_dir {
        Some(dir) => dir,
        None => match home_dir {
            Some(home) => joined_path(joined_path(home, "Music"@), "SonicMix"@),
            None => "./downloads"@,
        },
    };
    joined_path(base, "SonicMix Downloads"@)
}

/// The directory that downloads go to, given the user's audio and home
/// directories as far as the platform knows them.
pub fn get_downloads_dir(audio_dir: Option<&str>, home_dir: Option<&str>) -> (dir: String)
    ensures
        dir@ == downloads_dir(
            match audio_dir {
                Some(dir) => Some(dir@),
                None => None,
            },
            match home_dir {
                Some(home) => Some(home@),
                None => None,
            },
        ),
{
    match audio_dir {
        Some(dir) => join_path(dir, "SonicMix Downloads"),
        None => match home_dir {
            Some(home) => {
                let music = join_path(home, "Music");
                let base = join_path(music.as_str(), "SonicMix");
                join_path(base.as_str(), "SonicMix Downloads")
            },
            None => join_path("./downloads", "SonicMix Downloads"),
        },
    }
}

/// The audio format asked of `yt-dlp` for a requested format: `wav` and `flac`
/// as they are, `mp3` for anything else.
pub open spec fn audio_format(format: Seq<char>) -> Seq<char> {
    if format == "wav"@ {
        "wav"@
    } else if format == "flac"@ {
        "flac"@
    } else {
        "mp3"@
    }
}

/// The audio quality asked of `yt-dlp` for a requested format: the best for
/// the lossless formats, 320 kbit/s for `mp3`.
pub open spec fn audio_quality(format: Seq<char>) -> Seq<char> {
    if format == "wav"@ || format == "flac"@ {
        "0"@
    } else {
        "320K"@
    }
}

/// The arguments that make `yt-dlp` extract the audio of `url` in `format`
/// into a file named by `template`.
pub open spec fn yt_dlp_args(url: Seq<char>, format: Seq<char>, template: Seq<char>) -> Seq<
    Seq<char>,
> {
    seq![
        "-x"@,
        "--audio-format"@,
        audio_format(format),
        "--audio-quality"@,
        audio_quality(format),
        "-o"@,
        template,
        "--no-playlist"@,
        "--embed-metadata"@,
        "--embed-thumbnail"@,
        url,
    ]
}

/// The output template that names a download in `downloads_dir` by its title
/// and extension.
pub fn output_template(downloads_dir: &str) -> (template: String)
    ensures
        template@ == joined_path(downloads_dir@, "%(title)s.%(ext)s"@),
{
    join_path(downloads_dir, "%(title)s.%(ext)s")
}

/// The arguments to run `yt-dlp` with.
pub fn download_args(url: &str, format: &str, template: &str) -> (args: Vec<String>)
    ensures
        args.deep_view() == yt_dlp_args(url@, format@, template@),
{
    let requested = String::from_str(format);
    let lossless = if requested == String::from_str("wav") {
        Some("wav")
    } else if requested == String::from_str("flac") {
        Some("flac")
    } else {
        None
    };
    let (audio, quality) = match lossless {
        Some(audio) => (audio, "0"),
        None => ("mp3", "320K"),
    };
    let mut args: Vec<String> = Vec::new();
    args.push(String::from_str("-x"));
    args.push(String::from_str("--audio-format"));
    args.push(String::from_str(audio));
    args.push(String::from_str("--audio-quality"));
    args.push(String::from_str(quality));
    args.push(String::from_str("-o"));
    args.push(String::from_str(template));
    args.push(String::from_str("--no-playlist"));
    args.push(String::from_str("--embed-metadata"));
    args.push(String::from_str("--embed-thumbnail"));
    args.push(String::from_str(url));
    args
}

/// Whether a line of output may name the file that was written.
pub open spec fn mentions_destination(line: Seq<char>) -> bool {
    contains_text(line, "Destination:"@) || contains_text(line, "[download]"@)
}

/// What follows the last colon of `line`, or the whole line where it has
/// none.
pub open spec fn after_last_colon(line: Seq<char>) -> Seq<char> {
    match last_index_of(line, ':') {
        Some(at) => line.subrange(at + 1, line.len() as int),
        None => line,
    }
}

/// The path that a line of output may name: what follows its last colon,
/// trimmed, where the line mentions a destination and that is not empty.
pub open spec fn destination_in(line: Seq<char>) -> Option<Seq<char>> {
    if mentions_destination(line) && trimmed(after_last_colon(line)).len() > 0 {
        Some(trimmed(after_last_colon(line)))
    } else {
        None
    }
}

/// The paths that the output of `yt-dlp` may name, in the order of its lines.
pub open spec fn destinations_in(stdout: Seq<char>) -> Seq<Seq<char>> {
    lines_of(stdout).filter_map(|line: Seq<char>| destination_in(line))
}

/// The path that the line `line` of output may name.
pub fn destination_of_line(line: &Vec<char>) -> (r: Option<String>)
    ensures
        r.deep_view() == destination_in(line@),
{
    let named = match find(line, &chars_of("Destination:")) {
        Some(_) => true,
        None => match find(line, &chars_of("[download]")) {
            Some(_) => true,
            None => false,
        },
    };
    if !named {
        return None;
    }
    assert(line@.subrange(0, line.len() as int) =~= line@);
    let from: usize = match rfind_char(line, 0, line.len(), ':') {
        Some(at) => at + 1,
        None => 0,
    };
    let (start, end) = trim_range(line, from, line.len());
    if start < end {
        Some(slice_text(line, start, end))
    } else {
        None
    }
}

/// The paths that the output `stdout` of `yt-dlp` may name, in the order of
/// its lines.
pub fn destination_candidates(stdout: &str) -> (candidates: Vec<String>)
    ensures
        candidates.deep_view() == destinations_in(stdout@),
{
    let chars = chars_of(stdout);
    let lines = split_lines(&chars);
    let mut candidates: Vec<String> = Vec::new();
    let mut i: usize = 0;
    while i < lines.len()
        invariant
            i <= lines.len(),
            lines.deep_view() == lines_of(stdout@),
            candidates.deep_view() == lines_of(stdout@).take(i as int).filter_map(
                |line: Seq<char>| destination_in(line),
            ),
        decreases lines.len() - i,
    {
        let found = destination_of_line(&lines[i]);
        proof {
            assert(lines[i as int].deep_view() =~= lines[i as int]@);
            lines_of(stdout@).lemma_filter_map_take_succ(
                |line: Seq<char>| destination_in(line),
                i as int,
            );
        }
        if let Some(path) = found {
            candidates.push(path);
        }
        i += 1;
    }
    assert(lines_of(stdout@).take(i as int) =~= lines_of(stdout@));
    candidates
}

/// What a run of `yt-dlp` amounts to, given whether it succeeded, what it
/// wrote to standard error, and whether each path that its output may name
/// exists, in the order of `destination_candidates`. A failed run is an error
/// that quotes standard error. A successful one gives the first named path
/// that exists, or the downloads directory where none does.
pub fn download(success: bool, stderr: &str, probes: &Vec<PathProbe>, downloads_dir: &str) -> (r:
    Result<String, String>)
    ensures
        !success ==> r is Err && r->Err_0@ == "Download failed: "@ + stderr@,
        success ==> r is Ok && r->Ok_0@ == match first_existing(probe_views(probes@)) {
            Some(path) => path,
            None => downloads_dir@,
        },
{
    if !success {
        return Err(String::from_str("Download failed: ").concat(stderr));
    }
    match first_existing_path(probes) {
        Some(path) => Ok(path),
        None => Ok(String::from_str(downloads_dir)),
    }
}

/// Whether `yt-dlp` is installed, given what looking it up on the search path
/// reported, if the lookup could be run at all, and whether the tool lies
/// where Homebrew puts it.
pub fn check_ytdlp_installed(lookup: Option<bool>, homebrew_copy_exists: bool) -> (r: Result<
    bool,
    String,
>)
    ensures
        r is Ok,
        r->Ok_0 == match lookup {
            Some(found) => found,
            None => homebrew_copy_exists,
        },
{
    match lookup {
        Some(found) => Ok(found),
        None => Ok(homebrew_copy_exists),
    }
}

} // verus!

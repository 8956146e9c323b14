use sonicmix::downloader::{
    check_ytdlp_installed, destination_candidates, destination_of_line, download, download_args,
    get_downloads_dir, output_template,
};
use sonicmix::probe::PathProbe;
use std::path::Path;

fn probe(path: &str, exists: bool) -> PathProbe {
    PathProbe { path: path.to_string(), exists }
}

fn args(audio: &str, quality: &str, template: &str, url: &str) -> Vec<String> {
    [
        "-x",
        "--audio-format",
        audio,
        "--audio-quality",
        quality,
        "-o",
        template,
        "--no-playlist",
        "--embed-metadata",
        "--embed-thumbnail",
        url,
    ]
    .iter()
    .map(|a| a.to_string())
    .collect()
}

#[test]
fn lossless_formats_are_asked_for_at_best_quality() {
    assert_eq!(download_args("https://x/y", "wav", "/d/t"), args("wav", "0", "/d/t", "https://x/y"));
    assert_eq!(
        download_args("https://x/y", "flac", "/d/t"),
        args("flac", "0", "/d/t", "https://x/y")
    );
}

#[test]
fn mp3_is_asked_for_at_320k() {
    assert_eq!(
        download_args("https://x/y", "mp3", "/d/t"),
        args("mp3", "320K", "/d/t", "https://x/y")
    );
}

#[test]
fn unknown_format_falls_back_to_mp3() {
    assert_eq!(
        download_args("https://x/y", "ogg", "/d/t"),
        args("mp3", "320K", "/d/t", "https://x/y")
    );
    assert_eq!(download_args("u", "", "t"), args("mp3", "320K", "t", "u"));
    assert_eq!(download_args("u", "WAV", "t"), args("mp3", "320K", "t", "u"));
}

#[test]
fn downloads_go_under_the_audio_directory() {
    assert_eq!(
        get_downloads_dir(Some("/home/u/Audio"), Some("/home/u")),
        Path::new("/home/u/Audio").join("SonicMix Downloads").to_string_lossy()
    );
    assert_eq!(
        get_downloads_dir(Some("/home/u/Audio"), None),
        Path::new("/home/u/Audio").join("SonicMix Downloads").to_string_lossy()
    );
}

#[test]
fn downloads_fall_back_to_music_under_home() {
    assert_eq!(
        get_downloads_dir(None, Some("/home/u")),
        Path::new("/home/u")
            .join("Music")
            .join("SonicMix")
            .join("SonicMix Downloads")
            .to_string_lossy()
    );
}

#[test]
fn downloads_fall_back_to_the_working_directory() {
    assert_eq!(
        get_downloads_dir(None, None),
        Path::new("./downloads").join("SonicMix Downloads").to_string_lossy()
    );
    assert!(get_downloads_dir(None, None).ends_with("SonicMix Downloads"));
    assert!(get_downloads_dir(None, None).starts_with("./downloads"));
}

#[test]
fn template_names_the_file_by_title_and_extension() {
    assert_eq!(
        output_template("/home/u/Music/SonicMix Downloads"),
        Path::new("/home/u/Music/SonicMix Downloads").join("%(title)s.%(ext)s").to_string_lossy()
    );
    assert!(output_template("/d").ends_with("%(title)s.%(ext)s"));
}

#[test]
fn destinations_are_read_from_the_output() {
    let stdout = "[youtube] Extracting URL: https://www.youtube.com/watch?v=abc\n\
                  [download] Destination: /home/u/Music/SonicMix Downloads/Song.webm\n\
                  [download] 100% of 3.5MiB in 00:01\n\
                  [ExtractAudio] Destination: /home/u/Music/SonicMix Downloads/Song.mp3\n\
                  Deleting original file /home/u/Music/SonicMix Downloads/Song.webm\n";
    assert_eq!(
        destination_candidates(stdout),
        vec![
            "/home/u/Music/SonicMix Downloads/Song.webm",
            "01",
            "/home/u/Music/SonicMix Downloads/Song.mp3",
        ]
    );
}

#[test]
fn line_endings_of_either_kind_are_dropped() {
    assert_eq!(
        destination_candidates("[download] Destination: a.mp3\r\n[download] Destination: b.mp3"),
        vec!["a.mp3", "b.mp3"]
    );
    assert_eq!(destination_candidates("Destination: a.mp3\r"), vec!["a.mp3"]);
    assert_eq!(destination_candidates("\n\nDestination:x\n\n"), vec!["x"]);
}

#[test]
fn output_without_destinations_names_nothing() {
    assert_eq!(destination_candidates(""), Vec::<String>::new());
    assert_eq!(destination_candidates("\n"), Vec::<String>::new());
    assert_eq!(destination_candidates("done: /music/a.mp3\n"), Vec::<String>::new());
    assert_eq!(destination_candidates("[download] saved:\nDestination:   \n"), Vec::<String>::new());
}

#[test]
fn destination_is_what_follows_the_last_colon() {
    let line = |s: &str| s.chars().collect::<Vec<char>>();
    assert_eq!(destination_of_line(&line("Destination: /m/a.mp3")), Some("/m/a.mp3".to_string()));
    assert_eq!(destination_of_line(&line("Destination: C:\\m\\a.mp3")), Some("\\m\\a.mp3".to_string()));
    assert_eq!(destination_of_line(&line("[download] finished")), Some("[download] finished".to_string()));
    assert_eq!(destination_of_line(&line("  [download]  ")), Some("[download]".to_string()));
    assert_eq!(destination_of_line(&line("[download] saved to:")), None);
    assert_eq!(destination_of_line(&line("[Download] Destination /m/a.mp3")), None);
    assert_eq!(destination_of_line(&line("")), None);
}

#[test]
fn failed_run_quotes_standard_error() {
    assert_eq!(
        download(false, "ERROR: unsupported URL", &vec![probe("/d/a.mp3", true)], "/d"),
        Err("Download failed: ERROR: unsupported URL".to_string())
    );
    assert_eq!(download(false, "", &vec![], "/d"), Err("Download failed: ".to_string()));
}

#[test]
fn successful_run_gives_the_first_named_file_that_exists() {
    let probes = vec![probe("/d/Song.webm", false), probe("01", false), probe("/d/Song.mp3", true)];
    assert_eq!(download(true, "", &probes, "/d"), Ok("/d/Song.mp3".to_string()));
    let both = vec![probe("/d/a.mp3", true), probe("/d/b.mp3", true)];
    assert_eq!(download(true, "warning", &both, "/d"), Ok("/d/a.mp3".to_string()));
}

#[test]
fn successful_run_without_a_named_file_gives_the_directory() {
    assert_eq!(download(true, "", &vec![], "/d"), Ok("/d".to_string()));
    assert_eq!(download(true, "", &vec![probe("/d/a.mp3", false)], "/d"), Ok("/d".to_string()));
}

#[test]
fn lookup_decides_whether_the_tool_is_installed() {
    assert_eq!(check_ytdlp_installed(Some(true), false), Ok(true));
    assert_eq!(check_ytdlp_installed(Some(false), true), Ok(false));
    assert_eq!(check_ytdlp_installed(None, true), Ok(true));
    assert_eq!(check_ytdlp_installed(None, false), Ok(false));
}

use preview_playlist::builder::PlaylistBuilder;
use preview_playlist::config::RunConfiguration;
use preview_playlist::probe::{judge_probe, ProbeError, ProbeFailure};
use preview_playlist::reader::extract_path;
use preview_playlist::shuffle::shuffle;

fn configuration(clip_length: u64) -> RunConfiguration {
    RunConfiguration::new("/videos".to_string(), clip_length).unwrap()
}

fn names(paths: &[&str]) -> Vec<String> {
    paths.iter().map(|path| path.to_string()).collect()
}

#[test]
fn one_file_of_forty_seconds() {
    let mut rng = rand::thread_rng();
    for _ in 0..100 {
        let mut builder =
            PlaylistBuilder::start(names(&["a.mp4"]), &configuration(10), &mut rng).unwrap();
        assert_eq!(builder.next_path(), Some("a.mp4"));
        assert!(builder.finish().is_none());
        let start = builder.record_probe(&Ok(40), &mut rng).unwrap();
        assert!(start <= 30);
        assert_eq!(builder.next_path(), None);
        let entries = builder.entries();
        assert_eq!(entries.len(), 1);
        assert_eq!(entries[0].path(), "a.mp4");
        assert_eq!(entries[0].resolved_duration_seconds(), 40);
        assert_eq!(entries[0].clip_start_seconds(), start);
        assert_eq!(entries[0].clip_length_seconds(), 10);
        assert_eq!(
            builder.finish().unwrap(),
            format!("# mpv EDL v0\n%5%a.mp4,{},10\n", start)
        );
    }
}

#[test]
fn failed_probe_falls_back_to_fifteen_seconds() {
    let mut rng = rand::thread_rng();
    let mut builder =
        PlaylistBuilder::start(names(&["b.mkv"]), &configuration(20), &mut rng).unwrap();
    let probe = judge_probe("b.mkv", false, None, "", "Invalid data found");
    assert_eq!(builder.record_probe(&probe, &mut rng), Some(0));
    let entries = builder.entries();
    assert_eq!(entries[0].resolved_duration_seconds(), 15);
    assert_eq!(entries[0].clip_start_seconds(), 0);
    assert_eq!(entries[0].clip_length_seconds(), 20);
    assert_eq!(builder.finish().unwrap(), "# mpv EDL v0\n%5%b.mkv,0,20\n");
}

#[test]
fn failed_probe_with_a_short_clip_stays_in_fallback_bounds() {
    let mut rng = rand::thread_rng();
    for _ in 0..100 {
        let mut builder =
            PlaylistBuilder::start(names(&["b.mkv"]), &configuration(5), &mut rng).unwrap();
        let probe = Err(ProbeError {
            path: "b.mkv".to_string(),
            failure: ProbeFailure::Unparsable,
            diagnostic: "N/A".to_string(),
        });
        let start = builder.record_probe(&probe, &mut rng).unwrap();
        assert!(start <= 10);
    }
}

#[test]
fn no_candidates_no_playlist() {
    let mut rng = rand::thread_rng();
    assert!(PlaylistBuilder::start(Vec::new(), &configuration(10), &mut rng).is_none());
}

#[test]
fn nothing_is_recorded_once_every_file_has_its_clip() {
    let mut rng = rand::thread_rng();
    let mut builder =
        PlaylistBuilder::start(names(&["a.mp4"]), &configuration(10), &mut rng).unwrap();
    assert!(builder.record_probe(&Ok(40), &mut rng).is_some());
    let written = builder.finish().unwrap();
    assert_eq!(builder.record_probe(&Ok(99), &mut rng), None);
    assert_eq!(builder.entries().len(), 1);
    assert_eq!(builder.finish().unwrap(), written);
}

#[test]
fn entries_follow_the_playing_order() {
    let mut rng = rand::thread_rng();
    let given = names(&["a.mp4", "b,1.mkv", "c.avi", "d.mov", "e.mp4"]);
    let mut builder = PlaylistBuilder::start(given.clone(), &configuration(10), &mut rng).unwrap();
    let mut order = Vec::new();
    while let Some(path) = builder.next_path() {
        order.push(path.to_string());
        assert!(builder.record_probe(&Ok(100), &mut rng).is_some());
    }
    assert_eq!(order.len(), given.len());
    let mut sorted = order.clone();
    sorted.sort();
    assert_eq!(sorted, given);
    let text = builder.finish().unwrap();
    let lines: Vec<&str> = text.lines().collect();
    assert_eq!(lines.len(), 6);
    assert_eq!(lines[0], "# mpv EDL v0");
    for (line, path) in lines[1..].iter().zip(order.iter()) {
        assert_eq!(extract_path(line.as_bytes()), Some(path.as_bytes().to_vec()));
        assert!(line.ends_with(",10"));
    }
}

#[test]
fn shuffle_is_a_permutation() {
    let mut rng = rand::thread_rng();
    let given = names(&["a.mp4", "b.mkv", "b.mkv", "c.avi", "d.mov", "e.mp4", "f.mkv"]);
    for _ in 0..100 {
        let mut paths = given.clone();
        shuffle(&mut paths, &mut rng);
        assert_eq!(paths.len(), given.len());
        paths.sort();
        assert_eq!(paths, given);
    }
}

#[test]
fn shuffle_of_one_path_keeps_it() {
    let mut rng = rand::thread_rng();
    let mut paths = names(&["a.mp4"]);
    shuffle(&mut paths, &mut rng);
    assert_eq!(paths, names(&["a.mp4"]));
}

#[test]
fn two_files_come_in_both_orders() {
    let mut rng = rand::thread_rng();
    let given = names(&["a.mp4", "b.mkv"]);
    let mut kept = false;
    let mut turned = false;
    for _ in 0..200 {
        let builder = PlaylistBuilder::start(given.clone(), &configuration(10), &mut rng).unwrap();
        let first = builder.next_path().unwrap().to_string();
        assert!(first == "a.mp4" || first == "b.mkv");
        kept = kept || first == "a.mp4";
        turned = turned || first == "b.mkv";
    }
    assert!(kept);
    assert!(turned);
}

#[test]
fn two_files_shuffled_are_the_same_two_files() {
    let mut rng = rand::thread_rng();
    let given = names(&["a.mp4", "b.mkv"]);
    for _ in 0..200 {
        let mut paths = given.clone();
        shuffle(&mut paths, &mut rng);
        assert!(paths == names(&["a.mp4", "b.mkv"]) || paths == names(&["b.mkv", "a.mp4"]));
    }
}

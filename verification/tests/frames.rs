use frame_moderator::extract::{decoder_arguments, decoder_program, frames_among, ordered_frames, sampling_filter};
use frame_moderator::frame::{
    extract_frame_number, file_name_of, frame_index_of, parse_number, path_has_extension,
    second_part, stem,
};
use frame_moderator::order::{order_frames, Frame};
use std::path::Path;

fn by_std(path: &str) -> Option<u32> {
    let file_stem = Path::new(path).file_stem()?.to_string_lossy();
    let parts: Vec<&str> = file_stem.split('_').collect();
    if parts.len() < 2 {
        return None;
    }
    parts[1].parse().ok()
}

fn frames(paths: &[&str]) -> Vec<Frame> {
    paths.iter().map(|p| Frame::new(p.to_string())).collect()
}

fn paths(frames: &[Frame]) -> Vec<String> {
    frames.iter().map(|f| f.path().to_string()).collect()
}

#[test]
fn numbered_names_give_their_number() {
    assert_eq!(extract_frame_number("frame_001.jpg"), Some(1));
    assert_eq!(extract_frame_number("/tmp/abc/frame_042.jpg"), Some(42));
    assert_eq!(extract_frame_number("frame_0.jpg"), Some(0));
    assert_eq!(extract_frame_number("clip_1234567.png"), Some(1234567));
    assert_eq!(extract_frame_number("_7.jpg"), Some(7));
    assert_eq!(extract_frame_number("a.b_12.jpg"), Some(12));
    assert_eq!(extract_frame_number("frame_5"), Some(5));
    assert_eq!(extract_frame_number("frame_5."), Some(5));
}

#[test]
fn only_the_second_part_counts() {
    assert_eq!(extract_frame_number("frame_12_34.jpg"), Some(12));
    assert_eq!(extract_frame_number("a_b_3.jpg"), None);
    assert_eq!(extract_frame_number("frame__3.jpg"), None);
}

#[test]
fn names_without_a_number_give_none_and_index_zero() {
    for path in ["frame.jpg", "frame_abc.jpg", "frame_.jpg", "frame_1x.jpg", "frame_-1.jpg", "", "/", "..", "dir/..", "frame_x.5_1"] {
        assert_eq!(extract_frame_number(path), None, "{}", path);
        assert_eq!(frame_index_of(path), 0, "{}", path);
    }
    assert_eq!(frame_index_of("frame_017.jpg"), 17);
}

#[test]
fn a_leading_plus_is_read() {
    assert_eq!(extract_frame_number("frame_+7.jpg"), Some(7));
    assert_eq!(parse_number("+"), None);
    assert_eq!(parse_number("++1"), None);
    assert_eq!(parse_number("+0012"), Some(12));
}

#[test]
fn numbers_beyond_32_bits_are_none() {
    assert_eq!(extract_frame_number("frame_4294967295.jpg"), Some(u32::MAX));
    assert_eq!(extract_frame_number("frame_4294967296.jpg"), None);
    assert_eq!(extract_frame_number("frame_99999999999999999999.jpg"), None);
    assert_eq!(frame_index_of("frame_4294967296.jpg"), 0);
    assert_eq!(parse_number("4294967290"), Some(4294967290));
    assert_eq!(parse_number("4294967300"), None);
    assert_eq!(parse_number(""), None);
    assert_eq!(parse_number("٣"), None);
}

#[test]
fn the_file_name_is_the_last_real_component() {
    assert_eq!(file_name_of("a/b/c.txt"), Some("c.txt"));
    assert_eq!(file_name_of("c.txt"), Some("c.txt"));
    assert_eq!(file_name_of("a/b/"), Some("b"));
    assert_eq!(file_name_of("a/b/."), Some("b"));
    assert_eq!(file_name_of("a/b//./"), Some("b"));
    assert_eq!(file_name_of("a/.."), None);
    assert_eq!(file_name_of("."), None);
    assert_eq!(file_name_of("./"), None);
    assert_eq!(file_name_of("/"), None);
    assert_eq!(file_name_of(""), None);
    assert_eq!(file_name_of("..."), Some("..."));
    assert_eq!(file_name_of("/tmp/.hidden"), Some(".hidden"));
}

#[test]
fn stems_and_extensions() {
    assert_eq!(stem("frame_001.jpg"), "frame_001");
    assert_eq!(stem("archive.tar.gz"), "archive.tar");
    assert_eq!(stem(".hidden"), ".hidden");
    assert_eq!(stem("plain"), "plain");
    assert_eq!(stem("trailing."), "trailing");
    assert!(path_has_extension("/x/frame_001.jpg", "jpg"));
    assert!(path_has_extension("a.b.jpg", "jpg"));
    assert!(!path_has_extension("/x/frame_001.jpeg", "jpg"));
    assert!(!path_has_extension("/x/frame_001.JPG", "jpg"));
    assert!(!path_has_extension(".jpg", "jpg"));
    assert!(!path_has_extension("jpg", "jpg"));
    assert!(!path_has_extension("a.jpg/..", "jpg"));
    assert!(path_has_extension("a.jpg/", "jpg"));
    assert!(path_has_extension("x.", ""));
    assert!(!path_has_extension("x", ""));
}

#[test]
fn second_parts() {
    assert_eq!(second_part("frame_001"), Some("001"));
    assert_eq!(second_part("a_b_c"), Some("b"));
    assert_eq!(second_part("a_"), Some(""));
    assert_eq!(second_part("_"), Some(""));
    assert_eq!(second_part("abc"), None);
    assert_eq!(second_part(""), None);
}

#[test]
fn agrees_with_std_paths() {
    let samples = [
        "frame_001.jpg", "/tmp/.tmpAbC/frame_123.jpg", "frame.jpg", "x_y.jpg", "x_1_2.jpg",
        "", "/", ".", "..", "a/..", "a/.", "a_1/.", "a_2/", "a_3//", ".a_4", ".a_5.b", "a_6.b.c",
        "a_+7.jpg", "a_-8.jpg", "a_4294967295.jpg", "a_4294967296.jpg", "_9", "__9", "a_ 1.jpg",
        "dir.d/a_10", "dir_11/a.jpg", "./a_12.jpg", "../a_13.jpg", "a_14.jpg/.", "a_015.jpg",
        "é_16.jpg", "a_１７.jpg", "..a_18", "a_19..", "a_20./",
    ];
    for path in samples {
        assert_eq!(extract_frame_number(path), by_std(path), "{:?}", path);
        let expected = Path::new(path).extension().map(|e| e == "jpg").unwrap_or(false);
        assert_eq!(path_has_extension(path, "jpg"), expected, "{:?}", path);
    }
}

#[test]
fn a_frame_carries_the_index_of_its_path() {
    let frame = Frame::new("/tmp/w/frame_007.jpg".to_string());
    assert_eq!(frame.path(), "/tmp/w/frame_007.jpg");
    assert_eq!(frame.index(), 7);
    let plain = Frame::new("cover.jpg".to_string());
    assert_eq!(plain.index(), 0);
}

#[test]
fn frames_are_ordered_by_index() {
    let ordered = order_frames(frames(&["f_003.jpg", "f_001.jpg", "f_010.jpg", "f_002.jpg"]));
    assert_eq!(paths(&ordered), vec!["f_001.jpg", "f_002.jpg", "f_003.jpg", "f_010.jpg"]);
    let indices: Vec<u32> = ordered.iter().map(|f| f.index()).collect();
    assert_eq!(indices, vec![1, 2, 3, 10]);
}

#[test]
fn frames_of_one_index_keep_their_order() {
    let ordered = order_frames(frames(&["b.jpg", "x_2.jpg", "a.jpg", "y_2.jpg", "z_1.jpg", "c_zzz.jpg", "w_2.jpg"]));
    assert_eq!(
        paths(&ordered),
        vec!["b.jpg", "a.jpg", "c_zzz.jpg", "z_1.jpg", "x_2.jpg", "y_2.jpg", "w_2.jpg"]
    );
}

#[test]
fn ordering_agrees_with_a_stable_sort() {
    let mut names: Vec<String> = Vec::new();
    let mut seed: u32 = 12345;
    for i in 0..200 {
        seed = seed.wrapping_mul(1103515245).wrapping_add(12345);
        let k = (seed >> 16) % 23;
        if k == 0 {
            names.push(format!("odd{}.jpg", i));
        } else {
            names.push(format!("f{}_{:03}.jpg", i, k));
        }
    }
    let ordered = order_frames(names.iter().map(|n| Frame::new(n.clone())).collect());
    let mut expected = names.clone();
    expected.sort_by_key(|n| by_std(n).unwrap_or(0));
    assert_eq!(paths(&ordered), expected);
    for pair in ordered.windows(2) {
        assert!(pair[0].index() <= pair[1].index());
    }
}

#[test]
fn ordering_nothing_gives_nothing() {
    assert!(order_frames(Vec::new()).is_empty());
    let one = order_frames(frames(&["f_9.jpg"]));
    assert_eq!(paths(&one), vec!["f_9.jpg"]);
}

#[test]
fn only_jpg_files_are_frames() {
    let files: Vec<String> = ["/d/frame_002.jpg", "/d/notes.txt", "/d/frame_001.jpg", "/d/frame_003.png", "/d/jpg", "/d/.jpg"]
        .iter()
        .map(|s| s.to_string())
        .collect();
    assert_eq!(paths(&frames_among(&files)), vec!["/d/frame_002.jpg", "/d/frame_001.jpg"]);
    assert_eq!(paths(&ordered_frames(&files)), vec!["/d/frame_001.jpg", "/d/frame_002.jpg"]);
    assert!(ordered_frames(&Vec::new()).is_empty());
}

#[test]
fn the_decoder_is_called_as_agreed() {
    assert_eq!(decoder_program(), "ffmpeg");
    assert_eq!(sampling_filter(), "fps=1,scale=w='if(gt(iw,ih),300,-2)':h='if(gt(iw,ih),-2,300)'");
    assert_eq!(
        decoder_arguments("/tmp/in.bin", "/tmp/out"),
        vec![
            "-y",
            "-nostdin",
            "-i",
            "/tmp/in.bin",
            "-vf",
            "fps=1,scale=w='if(gt(iw,ih),300,-2)':h='if(gt(iw,ih),-2,300)'",
            "/tmp/out/frame_%03d.jpg",
        ]
    );
}

//! Extraction: how the decoder is called, and which of the files that it
//! left are frames.
//!
//! The decoder samples one frame for each second of the video, scales each
//! so that its longer edge is 300 pixels, and writes them as numbered JPEG
//! files into one directory.

use crate::frame::{has_extension, path_has_extension};
use crate::order::{Frame, is_ordering_of, order_frames, paths_of};
use vstd::prelude::*;

verus! {

/// What each of `texts` holds.
pub open spec fn texts_of(texts: Seq<String>) -> Seq<Seq<char>> {
    texts.map_values(|t: String| t@)
}

/// The pattern by which the decoder names the frames that it writes into
/// `directory`.
pub open spec fn output_pattern_of(directory: Seq<char>) -> Seq<char> {
    directory + "/frame_%03d.jpg"@
}

/// The arguments with which the decoder turns the video at `media` into
/// frames in `directory`.
pub open spec fn decoder_arguments_of(media: Seq<char>, directory: Seq<char>) -> Seq<Seq<char>> {
    seq![
        "-y"@,
        "-nostdin"@,
        "-i"@,
        media,
        "-vf"@,
        "fps=1,scale=w='if(gt(iw,ih),300,-2)':h='if(gt(iw,ih),-2,300)'"@,
        output_pattern_of(directory),
    ]
}

/// Those of `files` that are frames: the ones with the extension `jpg`, in
/// the order of `files`.
pub open spec fn frame_files(files: Seq<Seq<char>>) -> Seq<Seq<char>>
    decreases files.len(),
{
    if files.len() == 0 {
        Seq::empty()
    } else if has_extension(files.last(), "jpg"@) {
        frame_files(files.drop_last()).push(files.last())
    } else {
        frame_files(files.drop_last())
    }
}

/// The program that decodes.
pub fn decoder_program() -> (r: &'static str)
    ensures
        r@ == "ffmpeg"@,
{
    "ffmpeg"
}

/// The filter that samples and scales.
pub fn sampling_filter() -> (r: &'static str)
    ensures
        r@ == "fps=1,scale=w='if(gt(iw,ih),300,-2)':h='if(gt(iw,ih),-2,300)'"@,
{
    "fps=1,scale=w='if(gt(iw,ih),300,-2)':h='if(gt(iw,ih),-2,300)'"
}

/// The arguments with which the decoder turns the video at `media` into
/// frames in `directory`.
pub fn decoder_arguments(media: &str, directory: &str) -> (r: Vec<String>)
    ensures
        r@.len() == 7,
        texts_of(r@) == decoder_arguments_of(media@, directory@),
{
    let mut arguments: Vec<String> = Vec::new();
    arguments.push(String::from_str("-y"));
    arguments.push(String::from_str("-nostdin"));
    arguments.push(String::from_str("-i"));
    arguments.push(String::from_str(media));
    arguments.push(String::from_str("-vf"));
    arguments.push(String::from_str(sampling_filter()));
    arguments.push(String::from_str(directory).concat("/frame_%03d.jpg"));
    assert(texts_of(arguments@) =~= decoder_arguments_of(media@, directory@));
    arguments
}

/// The frames among `files`, in the order of `files`: one for each file with
/// the extension `jpg`.
pub fn frames_among(files: &Vec<String>) -> (r: Vec<Frame>)
    ensures
        paths_of(r@) == frame_files(texts_of(files@)),
{
    let ghost all = texts_of(files@);
    let mut found: Vec<Frame> = Vec::new();
    let mut i: usize = 0;
    assert(all.subrange(0, 0) =~= Seq::<Seq<char>>::empty());
    assert(paths_of(found@) =~= Seq::<Seq<char>>::empty());
    while i < files.len()
        invariant
            i <= files@.len(),
            all == texts_of(files@),
            paths_of(found@) == frame_files(all.subrange(0, i as int)),
        decreases files@.len() - i,
    {
        let ghost before = paths_of(found@);
        let ghost taken = all.subrange(0, i as int + 1);
        assert(taken.drop_last() =~= all.subrange(0, i as int));
        assert(taken.last() == files@[i as int]@);
        if path_has_extension(files[i].as_str(), "jpg") {
            found.push(Frame::new(files[i].clone()));
            assert(paths_of(found@) =~= before.push(files@[i as int]@));
        }
        i = i + 1;
    }
    assert(all.subrange(0, i as int) =~= all);
    found
}

/// The frames among `files`, ascending by index; frames of one index stand
/// in the order of `files`.
pub fn ordered_frames(files: &Vec<String>) -> (r: Vec<Frame>)
    ensures
        is_ordering_of(paths_of(r@), frame_files(texts_of(files@))),
        r@.len() == frame_files(texts_of(files@)).len(),
{
    let found: Vec<Frame> = frames_among(files);
    assert(paths_of(found@).len() == found@.len());
    order_frames(found)
}

} // verus!

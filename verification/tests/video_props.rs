use media_compress::error::Error;
use media_compress::video::{animated_args, select_codec, transcode_args, Codec, TranscodeJob};

#[test]
fn successful_run_cleans_up_and_returns_the_bytes() {
    let mut job = TranscodeJob::new();
    assert!(job.has_live_temp_files());
    job.input_written(true);
    job.encoder_ran(true, true);
    job.output_read(Some(vec![9, 8, 7]));
    job.cleaned_up();
    assert!(!job.has_live_temp_files());
    assert_eq!(job.into_outcome().unwrap(), vec![9, 8, 7]);
}

#[test]
fn failed_input_write_cleans_up_and_is_an_io_error() {
    let mut job = TranscodeJob::new();
    job.input_written(false);
    job.cleaned_up();
    assert!(!job.has_live_temp_files());
    assert!(matches!(job.into_outcome(), Err(Error::IoError)));
}

#[test]
fn failed_spawn_cleans_up_and_is_a_subprocess_error() {
    let mut job = TranscodeJob::new();
    job.input_written(true);
    job.encoder_ran(false, false);
    job.cleaned_up();
    assert!(!job.has_live_temp_files());
    assert!(matches!(job.into_outcome(), Err(Error::SubprocessError)));
}

#[test]
fn failed_output_read_cleans_up_and_is_an_io_error() {
    let mut job = TranscodeJob::new();
    job.input_written(true);
    job.encoder_ran(true, true);
    job.output_read(None);
    job.cleaned_up();
    assert!(!job.has_live_temp_files());
    assert!(matches!(job.into_outcome(), Err(Error::IoError)));
}

#[test]
fn empty_output_file_cleans_up_and_is_an_io_error() {
    let mut job = TranscodeJob::new();
    job.input_written(true);
    job.encoder_ran(true, false);
    job.output_read(Some(Vec::new()));
    job.cleaned_up();
    assert!(!job.has_live_temp_files());
    assert!(matches!(job.into_outcome(), Err(Error::IoError)));
}

/// Pins the open design choice: a nonzero encoder exit status alone does not
/// fail a transcode; the output file decides.
#[test]
fn nonzero_exit_status_is_tolerated_when_output_exists() {
    let mut job = TranscodeJob::new();
    job.input_written(true);
    job.encoder_ran(true, false);
    job.output_read(Some(vec![4, 2]));
    job.cleaned_up();
    assert!(!job.has_live_temp_files());
    assert_eq!(job.into_outcome().unwrap(), vec![4, 2]);
}

#[test]
fn codec_choice_follows_the_capability_flag() {
    assert_eq!(select_codec(true).name(), "hevc_nvenc");
    assert_eq!(select_codec(false).name(), "libx265");
}

#[test]
fn transcode_arguments_are_in_the_fixed_order() {
    let args = transcode_args("in.bin", "out.mp4", Codec::Libx265);
    let expected = vec!["-y", "-i", "in.bin", "-c:v", "libx265", "out.mp4"];
    assert_eq!(args, expected);

    let hw = transcode_args("a", "b", select_codec(true));
    assert_eq!(hw[4], "hevc_nvenc");
}

#[test]
fn animated_arguments_carry_the_two_pass_palette_filter() {
    let args = animated_args("clip.mp4", "clip.gif");
    assert_eq!(args.len(), 6);
    assert_eq!(args[0], "-y");
    assert_eq!(args[1], "-i");
    assert_eq!(args[2], "clip.mp4");
    assert_eq!(args[3], "-vf");
    assert_eq!(
        args[4],
        "fps=10,scale=320:-1:flags=lanczos,split[s0][s1];[s0]palettegen[p];[s1][p]paletteuse"
    );
    assert_eq!(args[5], "clip.gif");
}

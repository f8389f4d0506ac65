use vstd::prelude::*;
use vstd::string::*;

use crate::error::Error;

verus! {

/// The video codec handed to the external encoder: the hardware encoder when
/// the capability probe found one, else the software encoder with equivalent
/// output semantics.
pub enum Codec {
    HevcNvenc,
    Libx265,
}

impl Codec {
    /// The identifier under which the external encoder knows this codec.
    pub open spec fn spec_name(self) -> Seq<char> {
        match self {
            Codec::HevcNvenc => "hevc_nvenc"@,
            Codec::Libx265 => "libx265"@,
        }
    }

    pub fn name(&self) -> (r: &'static str)
        ensures
            r@ == self.spec_name(),
    {
        match self {
            Codec::HevcNvenc => "hevc_nvenc",
            Codec::Libx265 => "libx265",
        }
    }
}

/// Picks the codec for a transcode: hardware when available, else software.
pub fn select_codec(hardware_available: bool) -> (c: Codec)
    ensures
        c == if hardware_available {
            Codec::HevcNvenc
        } else {
            Codec::Libx265
        },
{
    if hardware_available {
        Codec::HevcNvenc
    } else {
        Codec::Libx265
    }
}

/// The fixed, deterministic argument order of a transcode: overwrite-output
/// flag, input path, codec selection, output path.
pub fn transcode_args(input_path: &str, output_path: &str, codec: Codec) -> (r: Vec<String>)
    ensures
        r@.len() == 6,
        r@[0]@ == "-y"@,
        r@[1]@ == "-i"@,
        r@[2]@ == input_path@,
        r@[3]@ == "-c:v"@,
        r@[4]@ == codec.spec_name(),
        r@[5]@ == output_path@,
{
    let mut r: Vec<String> = Vec::new();
    r.push(String::from_str("-y"));
    r.push(String::from_str("-i"));
    r.push(String::from_str(input_path));
    r.push(String::from_str("-c:v"));
    r.push(String::from_str(codec.name()));
    r.push(String::from_str(output_path));
    r
}

/// The filter graph of the animated-format conversion: sample at a fixed low
/// frame rate, scale to a fixed width keeping the aspect ratio with a
/// high-quality resampling filter, generate one palette from the whole clip,
/// then re-apply that palette per frame. The two-pass in-filter palette is
/// needed because the target format holds few colors per frame and naive
/// per-frame quantization flickers.
pub open spec fn spec_animated_filter() -> Seq<char> {
    "fps=10,scale=320:-1:flags=lanczos,split[s0][s1];[s0]palettegen[p];[s1][p]paletteuse"@
}

/// The fixed argument order of an animated-format conversion: overwrite flag,
/// input path, filter graph, output path.
pub fn animated_args(input_path: &str, output_path: &str) -> (r: Vec<String>)
    ensures
        r@.len() == 6,
        r@[0]@ == "-y"@,
        r@[1]@ == "-i"@,
        r@[2]@ == input_path@,
        r@[3]@ == "-vf"@,
        r@[4]@ == spec_animated_filter(),
        r@[5]@ == output_path@,
{
    let mut r: Vec<String> = Vec::new();
    r.push(String::from_str("-y"));
    r.push(String::from_str("-i"));
    r.push(String::from_str(input_path));
    r.push(String::from_str("-vf"));
    r.push(String::from_str(
        "fps=10,scale=320:-1:flags=lanczos,split[s0][s1];[s0]palettegen[p];[s1][p]paletteuse",
    ));
    r.push(String::from_str(output_path));
    r
}

/// Where one orchestrated encoder run stands. The two scoped temporary files
/// exist from the moment the job is created until the cleanup step, and in no
/// terminal state.
pub enum JobPhase {
    /// The input bytes still have to be written to the input file.
    NeedInputWrite,
    /// The external encoder still has to be run.
    NeedEncoderRun,
    /// The output file still has to be read back.
    NeedOutputRead,
    /// The outcome is decided; the temporary files still have to be deleted.
    NeedCleanup,
    /// The job is over and its temporary files are gone.
    Finished,
}

/// One orchestrated run of the external encoder over a pair of scoped
/// temporary files. The caller performs the file writes, the process spawn
/// and the file read, and reports each outcome here; this type decides what
/// follows and guarantees that no exit path skips the cleanup of the
/// temporary files.
pub struct TranscodeJob {
    pub phase: JobPhase,
    /// Whether the pair of temporary files of this job currently exists.
    pub temp_files_live: bool,
    /// The decided outcome, present from the cleanup phase on.
    pub outcome: Option<Result<Vec<u8>, Error>>,
}

impl TranscodeJob {
    /// The invariant of every job: temporary files are live in exactly the
    /// non-terminal phases, and an outcome exists exactly from the cleanup
    /// phase on.
    pub open spec fn wf(self) -> bool {
        &&& (self.phase is Finished ==> !self.temp_files_live)
        &&& (!(self.phase is Finished) ==> self.temp_files_live)
        &&& ((self.phase is NeedCleanup || self.phase is Finished) <==> self.outcome is Some)
    }

    /// A fresh job, created once both temporary files exist.
    pub fn new() -> (j: Self)
        ensures
            j.wf(),
            j.phase is NeedInputWrite,
            j.temp_files_live,
            j.outcome is None,
    {
        TranscodeJob { phase: JobPhase::NeedInputWrite, temp_files_live: true, outcome: None }
    }

    /// The caller wrote the input bytes to the input file; `ok` says whether
    /// the write succeeded. A failed write decides the outcome as an I/O
    /// error and sends the job to cleanup.
    pub fn input_written(&mut self, ok: bool)
        requires
            old(self).wf(),
            old(self).phase is NeedInputWrite,
        ensures
            final(self).wf(),
            final(self).temp_files_live,
            ok ==> final(self).phase is NeedEncoderRun && final(self).outcome is None,
            !ok ==> final(self).phase is NeedCleanup && (final(self).outcome matches Some(
                Err(Error::IoError),
            )),
    {
        if ok {
            self.phase = JobPhase::NeedEncoderRun;
        } else {
            self.phase = JobPhase::NeedCleanup;
            self.outcome = Some(Err(Error::IoError));
        }
    }

    /// The caller ran the external encoder; `spawned` says whether the child
    /// process could be started at all, `_encoder_exit_ok` whether it exited
    /// with status zero. The exit status is deliberately ignored: the
    /// orchestrator still reads whatever bytes exist at the output path and
    /// only fails if that read fails, tolerating encoders that exit nonzero
    /// on benign warnings. Only a failure to spawn decides the outcome here.
    pub fn encoder_ran(&mut self, spawned: bool, _encoder_exit_ok: bool)
        requires
            old(self).wf(),
            old(self).phase is NeedEncoderRun,
        ensures
            final(self).wf(),
            final(self).temp_files_live,
            spawned ==> final(self).phase is NeedOutputRead && final(self).outcome is None,
            !spawned ==> final(self).phase is NeedCleanup && (final(self).outcome matches Some(
                Err(Error::SubprocessError),
            )),
    {
        if spawned {
            self.phase = JobPhase::NeedOutputRead;
        } else {
            self.phase = JobPhase::NeedCleanup;
            self.outcome = Some(Err(Error::SubprocessError));
        }
    }

    /// The caller read the output file back: `Some` bytes on a successful
    /// read, `None` when the read failed. A hard encoder failure therefore
    /// surfaces as an empty-or-missing output file, which is decided as an
    /// I/O error; non-empty bytes are the successful outcome, whatever the
    /// encoder's exit status was.
    pub fn output_read(&mut self, bytes: Option<Vec<u8>>)
        requires
            old(self).wf(),
            old(self).phase is NeedOutputRead,
        ensures
            final(self).wf(),
            final(self).temp_files_live,
            final(self).phase is NeedCleanup,
            bytes is Some && (bytes->0)@.len() > 0 ==> final(self).outcome == Some(
                Ok::<Vec<u8>, Error>(bytes->0),
            ),
            bytes is Some && (bytes->0)@.len() == 0 ==> (final(self).outcome matches Some(
                Err(Error::IoError),
            )),
            bytes is None ==> (final(self).outcome matches Some(Err(Error::IoError))),
    {
        self.phase = JobPhase::NeedCleanup;
        match bytes {
            Some(b) => {
                if b.len() > 0 {
                    self.outcome = Some(Ok(b));
                } else {
                    self.outcome = Some(Err(Error::IoError));
                }
            },
            None => {
                self.outcome = Some(Err(Error::IoError));
            },
        }
    }

    /// The caller deleted both temporary files. Every path to a finished job
    /// passes through here, success and failure alike.
    pub fn cleaned_up(&mut self)
        requires
            old(self).wf(),
            old(self).phase is NeedCleanup,
        ensures
            final(self).wf(),
            final(self).phase is Finished,
            !final(self).temp_files_live,
            final(self).outcome == old(self).outcome,
    {
        self.phase = JobPhase::Finished;
        self.temp_files_live = false;
    }

    /// Hands the decided outcome out of a finished job.
    pub fn into_outcome(self) -> (r: Result<Vec<u8>, Error>)
        requires
            self.wf(),
            self.phase is Finished,
        ensures
            self.outcome == Some(r),
    {
        match self.outcome {
            Some(r) => r,
            None => vstd::pervasive::unreached(),
        }
    }

    /// Whether the job's pair of temporary files currently exists, for
    /// callers that want to observe the lifecycle.
    pub fn has_live_temp_files(&self) -> (r: bool)
        ensures
            r == self.temp_files_live,
    {
        self.temp_files_live
    }
}

/// No finished job leaves its temporary files behind, whether its outcome is
/// success or any error kind: the terminal phase is reachable only through
/// the cleanup step.
pub proof fn lemma_finished_job_leaves_no_temp_files(j: TranscodeJob)
    requires
        j.wf(),
        j.phase is Finished,
    ensures
        !j.temp_files_live,
{
}

} // verus!

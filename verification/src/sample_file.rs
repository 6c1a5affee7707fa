use vstd::prelude::*;

verus! {

/// Number of points of the level overview sent to the user interface.
pub const RMS_POINTS: usize = 600;

/// Error of loading a sample.
#[derive(Debug)]
pub enum GranularError {
    /// The named file could not be opened as a WAV file.
    FailedToLoadSampleFile(String),
}

/// The reader of the sample file `file_name`, or the loading error when the file
/// could not be opened (`reader` is `None`).
pub fn sample_file_opened<R>(file_name: String, reader: Option<R>) -> (r: Result<R, GranularError>)
    ensures
        match reader {
            Some(rd) => r == Ok::<R, GranularError>(rd),
            None => r matches Err(GranularError::FailedToLoadSampleFile(f)) && f@ == file_name@,
        },
{
    match reader {
        Some(rd) => Ok(rd),
        None => Err(GranularError::FailedToLoadSampleFile(file_name)),
    }
}

/// The samples of the first channel of `interleaved`, a frame of `channels`
/// samples after another (the last frame may be cut short).
pub open spec fn first_channel_of(interleaved: Seq<i32>, channels: nat) -> Seq<i32> {
    Seq::new(
        ((interleaved.len() + channels - 1) / (channels as int)) as nat,
        |k: int| interleaved[k * channels],
    )
}

proof fn lemma_frame_bounds(n: int, c: int, k: int)
    by (nonlinear_arith)
    requires
        c >= 1,
        n >= 0,
        k == (n + c - 1) / c,
    ensures
        k * c >= n,
        k == 0 || (k - 1) * c < n,
{
}

proof fn lemma_frame_count(n: int, c: int, k: int)
    by (nonlinear_arith)
    requires
        c >= 1,
        k >= 0,
        n >= 0,
        (k - 1) * c < n || k == 0,
        n <= k * c,
    ensures
        k == (n + c - 1) / c,
{
}

/// Keeps the first channel of interleaved samples.
pub fn first_channel(interleaved: &Vec<i32>, channels: usize) -> (out: Vec<i32>)
    requires
        channels >= 1,
    ensures
        out@ == first_channel_of(interleaved@, channels as nat),
        forall|k: int| 0 <= k < out@.len() ==> out@[k] == interleaved@[k * channels],
        out@.len() * channels >= interleaved@.len(),
        out@.len() == 0 || (out@.len() - 1) * channels < interleaved@.len(),
{
    let n = interleaved.len();
    let mut out: Vec<i32> = Vec::new();
    let mut i: usize = 0;
    if n == 0 {
        proof {
            lemma_frame_count(0, channels as int, 0);
            assert(out@ =~= first_channel_of(interleaved@, channels as nat));
            lemma_frame_bounds(0, channels as int, 0);
        }
        return out;
    }
    proof {
        assert(out@.len() * channels == 0) by (nonlinear_arith)
            requires out@.len() == 0;
    }
    loop
        invariant
            n == interleaved@.len(),
            channels >= 1,
            i < n,
            i == out@.len() * channels,
            forall|k: int| 0 <= k < out@.len() ==> out@[k] == interleaved@[k * channels],
        decreases n - i,
    {
        let ghost k = out@.len();
        out.push(interleaved[i]);
        proof {
            assert forall|j: int| 0 <= j < out@.len() implies out@[j] == interleaved@[j * channels] by {
                if j == k {
                    assert(j * channels == i);
                }
            }
        }
        if n - i <= channels {
            proof {
                assert((out@.len() - 1) * channels == i) by (nonlinear_arith)
                    requires i == k * channels, out@.len() == k + 1;
                assert(out@.len() * channels == i + channels) by (nonlinear_arith)
                    requires i == k * channels, out@.len() == k + 1;
                lemma_frame_count(n as int, channels as int, out@.len() as int);
                assert(out@ =~= first_channel_of(interleaved@, channels as nat));
                lemma_frame_bounds(n as int, channels as int, out@.len() as int);
            }
            return out;
        }
        proof {
            assert(out@.len() * channels == i + channels) by (nonlinear_arith)
                requires i == k * channels, out@.len() == k + 1;
        }
        i = i + channels;
    }
}

/// Number of samples per point of the level overview of a sample of
/// `sample_count` samples; `None` when the sample is too short for an overview.
pub fn rms_window(sample_count: usize) -> (w: Option<usize>)
    ensures
        w == if sample_count / RMS_POINTS <= 1 {
            None
        } else {
            Some(sample_count / RMS_POINTS)
        },
{
    let window = sample_count / RMS_POINTS;
    if window <= 1 {
        None
    } else {
        Some(window)
    }
}

} // verus!

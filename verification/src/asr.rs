//! Speech recognition with GigaAM v3 models: choosing the model kind, greedy
//! CTC and RNN-T decoding, the token vocabulary and the feature frame counts.
//! The neural network itself runs outside the library; what it decides on
//! (token indices, frame counts) is handled here.
use vstd::prelude::*;

use crate::text::{append_chars, append_str, chars_of, contains_chars, contains_seq, string_of};

verus! {

/// The two kinds of GigaAM model the recogniser can run.
#[derive(Debug, Clone, Copy, PartialEq, Eq, Structural)]
pub enum EngineKind {
    Ctc,
    Rnnt,
}

impl EngineKind {
    /// The short name of the decoding scheme.
    pub fn engine_name(&self) -> (r: &'static str)
        ensures
            r@ == match *self {
                EngineKind::Ctc => "CTC"@,
                EngineKind::Rnnt => "RNNT"@,
            },
    {
        match self {
            EngineKind::Ctc => "CTC",
            EngineKind::Rnnt => "RNNT",
        }
    }
}

/// Picks the model kind from the files found in the model folder; RNN-T is
/// preferred (more accurate) when both are there.
pub fn choose_engine(model_dir: &str, have_rnnt: bool, have_ctc: bool) -> (r: Result<EngineKind, String>)
    ensures
        have_rnnt ==> r == Ok::<EngineKind, String>(EngineKind::Rnnt),
        !have_rnnt && have_ctc ==> r == Ok::<EngineKind, String>(EngineKind::Ctc),
        !have_rnnt && !have_ctc ==> (r matches Err(e) && e@
            == "Не найдены подходящие файлы onnx (ctc/rnnt) в "@ + model_dir@),
{
    if have_rnnt {
        Ok(EngineKind::Rnnt)
    } else if have_ctc {
        Ok(EngineKind::Ctc)
    } else {
        let mut msg = chars_of("Не найдены подходящие файлы onnx (ctc/rnnt) в ");
        append_str(&mut msg, model_dir);
        Err(string_of(&msg))
    }
}

/// A file of the model folder, named the way the model is distributed:
/// `<model_dir>\<file>`.
pub fn model_file(model_dir: &str, file: &str) -> (r: String)
    ensures
        r@ == model_dir@ + seq!['\\'] + file@,
{
    let mut v = chars_of(model_dir);
    v.push('\\');
    append_str(&mut v, file);
    string_of(&v)
}

/// Whether a file of the model folder matches a search pattern.
pub fn file_name_matches(file_name: &str, pattern: &str) -> (r: bool)
    ensures
        r == contains_seq(file_name@, pattern@),
{
    contains_chars(&chars_of(file_name), &chars_of(pattern))
}

/// The file found for a pattern, or the error that names what is missing.
pub fn find_file(dir: &str, pattern: &str, found: Option<String>) -> (r: Result<String, String>)
    ensures
        match found {
            Some(f) => r matches Ok(p) && p@ == f@,
            None => r matches Err(e) && e@ == "Не найден файл с паттерном "@ + pattern@ + " в "@
                + dir@,
        },
{
    match found {
        Some(f) => Ok(f),
        None => {
            let mut msg = chars_of("Не найден файл с паттерном ");
            append_str(&mut msg, pattern);
            append_str(&mut msg, " в ");
            append_str(&mut msg, dir);
            Err(string_of(&msg))
        },
    }
}

// ---------------------------------------------------------------------------
// Greedy CTC decoding
// ---------------------------------------------------------------------------

/// Greedy CTC collapse of the best token of each frame: a token is emitted
/// when it is not blank and differs from the previous frame's token (the
/// frame before the first counts as blank).
pub open spec fn ctc_collapse_spec(frames: Seq<u32>, blank: u32) -> Seq<u32>
    decreases frames.len(),
{
    if frames.len() == 0 {
        Seq::empty()
    } else {
        let prev = if frames.len() == 1 {
            blank
        } else {
            frames[frames.len() - 2]
        };
        let rest = ctc_collapse_spec(frames.drop_last(), blank);
        let t = frames.last();
        if t != blank && t != prev {
            rest.push(t)
        } else {
            rest
        }
    }
}

proof fn lemma_ctc_collapse(frames: Seq<u32>, blank: u32)
    ensures
        ctc_collapse_spec(frames, blank).len() <= frames.len(),
        forall|i: int|
            0 <= i < ctc_collapse_spec(frames, blank).len() ==> #[trigger] ctc_collapse_spec(
                frames,
                blank,
            )[i] != blank,
    decreases frames.len(),
{
    if frames.len() > 0 {
        lemma_ctc_collapse(frames.drop_last(), blank);
    }
}

/// Decodes the best token of each frame into the token sequence: repeats
/// collapse and blanks disappear. The result never holds the blank token
/// and is never longer than the input.
pub fn ctc_collapse(frames: &Vec<u32>, blank: u32) -> (r: Vec<u32>)
    ensures
        r@ == ctc_collapse_spec(frames@, blank),
        r@.len() <= frames@.len(),
        forall|i: int| 0 <= i < r@.len() ==> r@[i] != blank,
{
    let mut out: Vec<u32> = Vec::new();
    let mut prev = blank;
    let mut i: usize = 0;
    while i < frames.len()
        invariant
            i <= frames.len(),
            out@ == ctc_collapse_spec(frames@.take(i as int), blank),
            prev == if i == 0 {
                blank
            } else {
                frames@[i - 1]
            },
        decreases frames.len() - i,
    {
        let best = frames[i];
        proof {
            assert(frames@.take(i + 1).drop_last() =~= frames@.take(i as int));
        }
        if best != blank && best != prev {
            out.push(best);
        }
        prev = best;
        i += 1;
    }
    proof {
        assert(frames@.take(frames.len() as int) =~= frames@);
        lemma_ctc_collapse(frames@, blank);
    }
    out
}

// ---------------------------------------------------------------------------
// Greedy RNN-T decoding
// ---------------------------------------------------------------------------

/// At most this many tokens are emitted for one encoder frame.
pub open spec fn max_tokens_per_step() -> nat {
    3
}

/// The number of encoder frames to decode for `real_frames` feature frames
/// (the encoder subsamples by four), bounded by what the encoder returned.
pub fn encoder_steps(real_frames: usize, encoder_len: usize) -> (r: usize)
    requires
        real_frames >= 1,
    ensures
        r == if (real_frames - 1) / 4 + 1 <= encoder_len {
            (real_frames - 1) / 4 + 1
        } else {
            encoder_len as int
        },
{
    let t_len = (real_frames - 1) / 4 + 1;
    if t_len <= encoder_len {
        t_len
    } else {
        encoder_len
    }
}

/// State of greedy RNN-T decoding over the frames of one audio chunk.
pub struct RnntGreedy {
    /// The encoder frame being decoded.
    pub t: usize,
    /// The number of encoder frames.
    pub t_len: usize,
    /// Tokens emitted for the current frame.
    pub emitted: usize,
    /// All tokens emitted so far.
    pub tokens: Vec<u32>,
    /// Whether the prediction network must be run on the last token before
    /// the next joint step.
    pub decoder_stale: bool,
}

impl RnntGreedy {
    /// The bookkeeping that holds between steps: the frame index stays within
    /// bounds, fewer than the per-frame maximum of tokens have been emitted for
    /// the current frame, and so no more than that maximum per finished frame
    /// plus those of the current frame in all.
    pub open spec fn wf(&self) -> bool {
        &&& self.t <= self.t_len
        &&& self.emitted < max_tokens_per_step()
        &&& self.tokens@.len() <= max_tokens_per_step() * self.t + self.emitted
    }

    /// Decoding of `t_len` encoder frames, before the first step.
    pub fn new(t_len: usize) -> (r: Self)
        ensures
            r.wf(),
            r.t == 0,
            r.t_len == t_len,
            r.tokens@ == Seq::<u32>::empty(),
            r.emitted == 0,
            r.decoder_stale,
    {
        RnntGreedy { t: 0, t_len, emitted: 0, tokens: Vec::new(), decoder_stale: true }
    }

    /// Whether every frame has been decoded.
    pub fn is_done(&self) -> (r: bool)
        ensures
            r == (self.t >= self.t_len),
    {
        self.t >= self.t_len
    }

    /// The token that the prediction network is run on: the last emitted
    /// token, or blank at the start.
    pub fn decoder_input(&self, blank: u32) -> (r: u32)
        ensures
            r == if self.tokens@.len() == 0 {
                blank
            } else {
                self.tokens@.last()
            },
    {
        if self.tokens.len() == 0 {
            blank
        } else {
            self.tokens[self.tokens.len() - 1]
        }
    }

    /// Records that the prediction network has been run on the last token.
    pub fn decoder_ran(&mut self)
        ensures
            final(self).t == old(self).t,
            final(self).t_len == old(self).t_len,
            final(self).emitted == old(self).emitted,
            final(self).tokens@ == old(self).tokens@,
            !final(self).decoder_stale,
    {
        self.decoder_stale = false;
    }

    /// One joint step: `best` is the most likely output for the current frame.
    /// A non-blank output is emitted (and the prediction network's new state is
    /// to be kept: the result is `true`); after a blank, or after the
    /// per-frame maximum of tokens, decoding moves to the next frame, whose
    /// count of emitted tokens starts again at zero.
    pub fn step(&mut self, best: u32, blank: u32) -> (emitted: bool)
        requires
            old(self).wf(),
            old(self).t < old(self).t_len,
        ensures
            final(self).wf(),
            final(self).t_len == old(self).t_len,
            emitted == (best != blank),
            final(self).tokens@ == if best != blank {
                old(self).tokens@.push(best)
            } else {
                old(self).tokens@
            },
            final(self).decoder_stale == (old(self).decoder_stale || best != blank),
            final(self).t == if best == blank || old(self).emitted + 1 == max_tokens_per_step() {
                old(self).t + 1
            } else {
                old(self).t as int
            },
            final(self).emitted == if final(self).t > old(self).t {
                0
            } else {
                (old(self).emitted + 1) as usize
            },
    {
        let emitted = best != blank;
        let mut count = self.emitted;
        if emitted {
            self.tokens.push(best);
            count = count + 1;
            self.decoder_stale = true;
        }
        if !emitted || count == 3 {
            self.t = self.t + 1;
            self.emitted = 0;
        } else {
            self.emitted = count;
        }
        emitted
    }
}

// ---------------------------------------------------------------------------
// Texts of the chunks
// ---------------------------------------------------------------------------

/// The texts of the chunks of one file joined by single spaces, skipping
/// chunks that gave no text.
pub open spec fn joined_text(texts: Seq<Seq<char>>) -> Seq<char>
    decreases texts.len(),
{
    if texts.len() == 0 {
        Seq::empty()
    } else {
        let rest = joined_text(texts.drop_last());
        let t = texts.last();
        if t.len() == 0 {
            rest
        } else if rest.len() == 0 {
            t
        } else {
            rest + seq![' '] + t
        }
    }
}

/// Joins the texts of the chunks of one file.
pub fn join_chunk_texts(texts: &Vec<String>) -> (r: String)
    ensures
        r@ == joined_text(texts@.map_values(|t: String| t@)),
{
    let ghost views = texts@.map_values(|t: String| t@);
    let mut out: Vec<char> = Vec::new();
    let mut i: usize = 0;
    while i < texts.len()
        invariant
            i <= texts.len(),
            views == texts@.map_values(|t: String| t@),
            out@ == joined_text(views.take(i as int)),
        decreases texts.len() - i,
    {
        let t = chars_of(texts[i].as_str());
        proof {
            assert(views.take(i + 1).drop_last() =~= views.take(i as int));
            assert(views.take(i + 1).last() == t@);
        }
        if t.len() > 0 {
            if out.len() > 0 {
                out.push(' ');
            }
            append_chars(&mut out, &t);
        }
        i += 1;
    }
    proof {
        assert(views.take(texts.len() as int) =~= views);
    }
    string_of(&out)
}

// ---------------------------------------------------------------------------
// Features
// ---------------------------------------------------------------------------

/// Feature extraction parameters for a sample rate: 20 ms windows and FFT,
/// 10 ms hop, 64 mel bands.
pub struct LogMelParams {
    pub n_mels: usize,
    pub n_fft: usize,
    pub win_length: usize,
    pub hop_length: usize,
}

/// The feature extraction parameters for `sample_rate`.
pub fn logmel_params(sample_rate: u32) -> (r: LogMelParams)
    ensures
        r.n_mels == 64,
        r.n_fft == sample_rate / 50,
        r.win_length == sample_rate / 50,
        r.hop_length == sample_rate / 100,
{
    let n_fft = (sample_rate / 50) as usize;
    LogMelParams { n_mels: 64, n_fft, win_length: n_fft, hop_length: (sample_rate / 100) as usize }
}

/// The number of feature frames of a waveform: one per hop while a whole
/// window fits.
pub fn frame_count(len: usize, win_length: usize, hop_length: usize) -> (r: usize)
    requires
        hop_length > 0,
        len < usize::MAX,
    ensures
        r == if len < win_length {
            0
        } else {
            (len - win_length) / (hop_length as int) + 1
        },
        r > 0 ==> (r - 1) * hop_length + win_length <= len,
{
    if len < win_length {
        0
    } else {
        let r = (len - win_length) / hop_length + 1;
        proof {
            let q = (len - win_length) / (hop_length as int);
            assert(q * hop_length <= len - win_length) by (nonlinear_arith)
                requires
                    q == (len - win_length) / (hop_length as int),
                    hop_length > 0,
                    len >= win_length,
            ;
        }
        r
    }
}

/// Whether a model file's bytes can be an ONNX model rather than a saved
/// error page: at least 100 bytes, and not starting with `404`.
pub fn onnx_bytes_look_valid(bytes: &[u8]) -> (r: bool)
    ensures
        r == (bytes@.len() >= 100 && !(bytes@[0] == 52u8 && bytes@[1] == 48u8 && bytes@[2] == 52u8)),
{
    if bytes.len() < 100 {
        return false;
    }
    !(bytes[0] == 52u8 && bytes[1] == 48u8 && bytes[2] == 52u8)
}

} // verus!

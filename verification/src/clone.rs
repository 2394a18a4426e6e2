//! Reference recordings for voice cloning: how long a reference each cloning
//! engine takes, where the trimmed copy is cached, and when it is rebuilt.
use vstd::prelude::*;

use crate::paths::{path_join, spec_path_join};
use crate::voices::listed_voice;
use crate::text::{
    all_ascii, append_str, chars_eq, chars_of, ends_with, is_ascii_alnum, is_ascii_alnum_char, is_ascii_char,
    string_of,
};

verus! {

/// Reference length limits in whole seconds `(min, max)` of the engines that
/// clone a voice from an arbitrary recording at run time. Other engines use
/// built-in or pre-baked voices.
pub open spec fn spec_clone_limits(backend: Seq<char>) -> Option<(u32, u32)> {
    if backend == "cosyvoice3-tts"@ || backend == "cosyvoice3-tts-rl"@ {
        Some((3, 10))
    } else if backend == "f5-tts"@ || backend == "zonos"@ || backend == "voxcpm2-tts"@ || backend
        == "dots-tts"@ || backend == "irodori-tts"@ || backend == "indextts"@ || backend
        == "omnivoice"@ || backend == "moss-tts"@ || backend == "moss-tts-local"@ || backend
        == "confucius4-tts"@ || backend == "pocket-tts"@ || backend == "vibevoice-1.5b"@ {
        Some((3, 15))
    } else if backend == "tada"@ || backend == "tada-1b"@ || backend == "tada-3b-ml"@ {
        Some((5, 15))
    } else {
        None
    }
}

fn is_one_of(b: &Vec<char>, names: &[&str]) -> (r: bool)
    ensures
        r == exists|i: int| 0 <= i < names@.len() && b@ == (#[trigger] names@[i])@,
{
    let mut i: usize = 0;
    while i < names.len()
        invariant
            i <= names@.len(),
            forall|k: int| 0 <= k < i ==> b@ != (#[trigger] names@[k])@,
        decreases names.len() - i,
    {
        if chars_eq(b, &chars_of(names[i])) {
            return true;
        }
        i += 1;
    }
    false
}

/// The reference length limits of an engine in seconds, `(min, max)`, or
/// `None` when the engine does not clone from a recording at run time.
pub fn clone_reference_limits(backend: &str) -> (r: Option<(u32, u32)>)
    ensures
        r == spec_clone_limits(backend@),
{
    let b = chars_of(backend);
    let group10 = ["cosyvoice3-tts", "cosyvoice3-tts-rl"];
    let group15 = [
        "f5-tts",
        "zonos",
        "voxcpm2-tts",
        "dots-tts",
        "irodori-tts",
        "indextts",
        "omnivoice",
        "moss-tts",
        "moss-tts-local",
        "confucius4-tts",
        "pocket-tts",
        "vibevoice-1.5b",
    ];
    let tada = ["tada", "tada-1b", "tada-3b-ml"];
    if is_one_of(&b, &group10) {
        proof {
            let i = choose|i: int| 0 <= i < group10@.len() && b@ == (#[trigger] group10@[i])@;
            assert(i == 0 || i == 1);
        }
        Some((3, 10))
    } else if is_one_of(&b, &group15) {
        proof {
            assert(!(b@ == group10@[0]@) && !(b@ == group10@[1]@));
            let i = choose|i: int| 0 <= i < group15@.len() && b@ == (#[trigger] group15@[i])@;
            assert(0 <= i < 12);
        }
        Some((3, 15))
    } else if is_one_of(&b, &tada) {
        proof {
            assert(!(b@ == group10@[0]@) && !(b@ == group10@[1]@));
            assert(forall|k: int| 0 <= k < 12 ==> !(b@ == (#[trigger] group15@[k])@));
            assert(!(b@ == group15@[0]@) && !(b@ == group15@[1]@) && !(b@ == group15@[2]@) && !(
            b@ == group15@[3]@) && !(b@ == group15@[4]@) && !(b@ == group15@[5]@) && !(b@
                == group15@[6]@) && !(b@ == group15@[7]@) && !(b@ == group15@[8]@) && !(b@
                == group15@[9]@) && !(b@ == group15@[10]@) && !(b@ == group15@[11]@));
            let i = choose|i: int| 0 <= i < tada@.len() && b@ == (#[trigger] tada@[i])@;
            assert(0 <= i < 3);
        }
        Some((5, 15))
    } else {
        proof {
            assert(!(b@ == group10@[0]@) && !(b@ == group10@[1]@));
            assert(!(b@ == group15@[0]@) && !(b@ == group15@[1]@) && !(b@ == group15@[2]@) && !(
            b@ == group15@[3]@) && !(b@ == group15@[4]@) && !(b@ == group15@[5]@) && !(b@
                == group15@[6]@) && !(b@ == group15@[7]@) && !(b@ == group15@[8]@) && !(b@
                == group15@[9]@) && !(b@ == group15@[10]@) && !(b@ == group15@[11]@));
            assert(!(b@ == tada@[0]@) && !(b@ == tada@[1]@) && !(b@ == tada@[2]@));
        }
        None
    }
}

/// A prepared cloning reference.
#[derive(Debug, Clone)]
pub struct CloneRef {
    /// Path of the (possibly trimmed) reference recording, passed to the
    /// engine at start-up.
    pub voice_path: String,
    /// The reference transcript, or empty to let the engine transcribe it.
    pub ref_text: String,
}

/// A lower-case hexadecimal digit.
pub open spec fn hex_digit(d: nat) -> char {
    if d < 10 {
        ((d + 48) as u32) as char
    } else {
        ((d + 87) as u32) as char
    }
}

/// Six lower-case hexadecimal digits of a code point.
pub open spec fn hex6(v: nat) -> Seq<char> {
    seq![
        hex_digit((v / 1048576) % 16),
        hex_digit((v / 65536) % 16),
        hex_digit((v / 4096) % 16),
        hex_digit((v / 256) % 16),
        hex_digit((v / 16) % 16),
        hex_digit(v % 16),
    ]
}

/// How one character of a voice id is written in a cache file name: ASCII
/// letters, digits and `-` as they are, any other character as `_` and its
/// code point in six hexadecimal digits.
pub open spec fn ascii_escape(c: char) -> Seq<char> {
    if is_ascii_alnum(c) || c == '-' {
        seq![c]
    } else {
        seq!['_'] + hex6(c as nat)
    }
}

pub open spec fn ascii_escape_all(s: Seq<char>) -> Seq<char>
    decreases s.len(),
{
    if s.len() == 0 {
        Seq::empty()
    } else {
        ascii_escape_all(s.drop_last()) + ascii_escape(s.last())
    }
}

/// The ASCII name under which a voice's trimmed reference is cached; `voice`
/// for an empty id.
pub open spec fn spec_ascii_voice_name(id: Seq<char>) -> Seq<char> {
    if id.len() == 0 {
        "voice"@
    } else {
        ascii_escape_all(id)
    }
}

proof fn lemma_ascii_escape_all(s: Seq<char>)
    ensures
        all_ascii(ascii_escape_all(s)),
    decreases s.len(),
{
    if s.len() > 0 {
        lemma_ascii_escape_all(s.drop_last());
        let c = s.last();
        let e = ascii_escape(c);
        assert forall|i: int| 0 <= i < e.len() implies is_ascii_char(#[trigger] e[i]) by {
            if !(is_ascii_alnum(c) || c == '-') {
                let v = c as nat;
                assert(0 <= (v / 1048576) % 16 < 16);
                assert(0 <= (v / 65536) % 16 < 16);
                assert(0 <= (v / 4096) % 16 < 16);
                assert(0 <= (v / 256) % 16 < 16);
                assert(0 <= (v / 16) % 16 < 16);
                assert(0 <= v % 16 < 16);
            }
        }
        let r = ascii_escape_all(s.drop_last());
        assert forall|i: int| 0 <= i < (r + e).len() implies is_ascii_char(#[trigger] (r + e)[i]) by {
            if i < r.len() {
                assert((r + e)[i] == r[i]);
            } else {
                assert((r + e)[i] == e[i - r.len()]);
            }
        }
    }
}

/// The cache name of every voice id is pure ASCII, so engines that cannot
/// open non-ASCII paths can read the cached reference.
pub proof fn lemma_ascii_voice_name_is_ascii(id: Seq<char>)
    ensures
        all_ascii(spec_ascii_voice_name(id)),
{
    if id.len() == 0 {
        reveal_strlit("voice");
        assert("voice"@ =~= seq!['v', 'o', 'i', 'c', 'e']);
    } else {
        lemma_ascii_escape_all(id);
    }
}

fn hex_digit_exec(d: u32) -> (r: char)
    requires
        d < 16,
    ensures
        r == hex_digit(d as nat),
{
    if d < 10 {
        ((d as u8) + 48) as char
    } else {
        ((d as u8) + 87) as char
    }
}

fn escape_char(c: char) -> (r: Vec<char>)
    ensures
        r@ == ascii_escape(c),
{
    let mut out: Vec<char> = Vec::new();
    if is_ascii_alnum_char(c) || c == '-' {
        out.push(c);
        assert(out@ =~= seq![c]);
    } else {
        let v = c as u32;
        out.push('_');
        out.push(hex_digit_exec((v / 1048576) % 16));
        out.push(hex_digit_exec((v / 65536) % 16));
        out.push(hex_digit_exec((v / 4096) % 16));
        out.push(hex_digit_exec((v / 256) % 16));
        out.push(hex_digit_exec((v / 16) % 16));
        out.push(hex_digit_exec(v % 16));
        assert(out@ =~= seq!['_'] + hex6(c as nat));
    }
    out
}

/// The ASCII cache name of a voice id.
pub fn ascii_voice_name(id: &str) -> (r: String)
    ensures
        r@ == spec_ascii_voice_name(id@),
        all_ascii(r@),
{
    proof {
        lemma_ascii_voice_name_is_ascii(id@);
    }
    let s = chars_of(id);
    if s.len() == 0 {
        return String::from_str("voice");
    }
    let mut out: Vec<char> = Vec::new();
    let mut i: usize = 0;
    while i < s.len()
        invariant
            i <= s.len(),
            out@ == ascii_escape_all(s@.take(i as int)),
        decreases s.len() - i,
    {
        let c = s[i];
        proof {
            assert(s@.take(i + 1).drop_last() =~= s@.take(i as int));
        }
        let e = escape_char(c);
        crate::text::append_chars(&mut out, &e);
        i += 1;
        proof {
            assert(out@ =~= ascii_escape_all(s@.take(i as int)));
        }
    }
    proof {
        assert(s@.take(s.len() as int) =~= s@);
    }
    string_of(&out)
}

/// The file name of the trimmed reference cached for a voice:
/// `<ascii name>.__clone.wav`, which the voice listing skips.
pub open spec fn clone_cache_name(id: Seq<char>) -> Seq<char> {
    spec_ascii_voice_name(id) + ".__clone.wav"@
}

/// Where the trimmed reference of a voice is cached: `<ascii name>.__clone.wav`
/// beside the voices, in `voices_root`.
pub fn clone_cache_file(voices_root: &str, id: &str) -> (r: String)
    ensures
        r@ == spec_path_join(voices_root@, clone_cache_name(id@)),
{
    let mut name = chars_of(ascii_voice_name(id).as_str());
    append_str(&mut name, ".__clone.wav");
    let file = string_of(&name);
    path_join(voices_root, file.as_str())
}

/// The cached reference is never listed as a voice of its own, whatever the
/// id: its name ends with `.__clone.wav`.
pub proof fn lemma_clone_cache_not_listed(id: Seq<char>, extension: Option<Seq<char>>, stem: Option<Seq<char>>)
    ensures
        listed_voice(clone_cache_name(id), extension, stem) is None,
{
    let n = clone_cache_name(id);
    assert(n.skip(n.len() - ".__clone.wav"@.len()) =~= ".__clone.wav"@);
    assert(ends_with(n, ".__clone.wav"@));
}

/// The error when the recording to clone from does not exist; `src_exists`
/// tells whether it does.
pub fn check_clone_source(src_wav: &str, src_exists: bool) -> (r: Result<(), String>)
    ensures
        src_exists ==> r is Ok,
        !src_exists ==> (r matches Err(e) && e@ == "файл голоса не найден: "@ + src_wav@
            + " (сначала добавьте голос или выберите WAV)"@),
{
    if src_exists {
        Ok(())
    } else {
        let mut msg = chars_of("файл голоса не найден: ");
        append_str(&mut msg, src_wav);
        append_str(&mut msg, " (сначала добавьте голос или выберите WAV)");
        Err(string_of(&msg))
    }
}

/// Whether the cached trimmed reference must be rebuilt: it is missing, or
/// the source is newer, or either modification time is unknown. Times are
/// nanoseconds since the Unix epoch.
pub fn need_rebuild(cache_exists: bool, src_modified: Option<u128>, cache_modified: Option<u128>) -> (r:
    bool)
    ensures
        r == (!cache_exists || match (src_modified, cache_modified) {
            (Some(s), Some(t)) => s > t,
            _ => true,
        }),
{
    if !cache_exists {
        return true;
    }
    match (src_modified, cache_modified) {
        (Some(s), Some(t)) => s > t,
        _ => true,
    }
}

/// The number of samples in `max_seconds` of audio at `rate` samples per
/// second.
pub fn max_reference_samples(max_seconds: u32, rate: u32) -> (r: u64)
    ensures
        r == max_seconds * rate,
{
    proof {
        assert(max_seconds * rate <= u32::MAX * u32::MAX) by (nonlinear_arith);
    }
    (max_seconds as u64) * (rate as u64)
}

/// The first `max` samples, or all of them when there are fewer.
pub fn take_prefix<T: Copy>(samples: &[T], max: u64) -> (r: Vec<T>)
    ensures
        r@ == if samples@.len() > max {
            samples@.take(max as int)
        } else {
            samples@
        },
{
    let n: usize = if (samples.len() as u64) > max {
        max as usize
    } else {
        samples.len()
    };
    let mut out: Vec<T> = Vec::new();
    let mut i: usize = 0;
    while i < n
        invariant
            n <= samples.len(),
            i <= n,
            out@ == samples@.take(i as int),
        decreases n - i,
    {
        out.push(samples[i]);
        i += 1;
        proof {
            assert(out@ =~= samples@.take(i as int));
        }
    }
    proof {
        assert(samples@.take(samples@.len() as int) =~= samples@);
    }
    out
}

/// The prepared reference: the cached trimmed copy when the engine has a
/// length limit, else the source recording itself.
pub fn clone_ref_for(limited: bool, cache_file: &str, src_wav: &str, ref_text: &str) -> (r: CloneRef)
    ensures
        r.voice_path@ == if limited {
            cache_file@
        } else {
            src_wav@
        },
        r.ref_text@ == ref_text@,
{
    CloneRef {
        voice_path: if limited {
            String::from_str(cache_file)
        } else {
            String::from_str(src_wav)
        },
        ref_text: String::from_str(ref_text),
    }
}

/// The engine whose limits apply to a reference preview: the given one, or
/// `cosyvoice3-tts` (10 s) when none is given.
pub fn preview_backend(backend: &str) -> (r: String)
    ensures
        r@ == if backend@.len() == 0 {
            "cosyvoice3-tts"@
        } else {
            backend@
        },
{
    if backend.unicode_len() == 0 {
        String::from_str("cosyvoice3-tts")
    } else {
        String::from_str(backend)
    }
}

/// The transcript file of a saved voice in the flat store:
/// `<voices_root>/<id>.txt`.
pub fn ref_text_file(voices_root: &str, id: &str) -> (r: String)
    ensures
        r@ == spec_path_join(voices_root@, id@ + ".txt"@),
{
    let mut name = chars_of(id);
    append_str(&mut name, ".txt");
    let file = string_of(&name);
    path_join(voices_root, file.as_str())
}

/// The recording of a saved voice in the flat store: `<voices_root>/<id>.wav`.
pub fn voice_wav_file(voices_root: &str, id: &str) -> (r: String)
    ensures
        r@ == spec_path_join(voices_root@, id@ + ".wav"@),
{
    let mut name = chars_of(id);
    append_str(&mut name, ".wav");
    let file = string_of(&name);
    path_join(voices_root, file.as_str())
}

} // verus!

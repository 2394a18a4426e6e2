//! The store of saved voices: `<models_dir>/voices/<id>.wav` with the
//! companion files `<id>.txt`, `<id>.json` and `<id>.avatar.jpg`.
use vstd::prelude::*;

use crate::paths::{dir_or_default, dir_or_default_exec, path_is_absolute, path_join, spec_path_is_absolute, spec_path_join};
use crate::text::{
    append_chars, append_str, contains_char, lemma_decimal_ascii_digits, trim_str, trim_whitespace, trim_ws, ascii_lower, chars_eq, chars_of, decimal, decimal_chars, ends_with,
    ends_with_chars, is_ascii_alnum, is_ascii_alnum_char, is_ascii_digit, is_ascii_lower,
    lemma_trim_end_char_prefix, lemma_trim_start_char_suffix, lower_chars, lower_seq, starts_with,
    starts_with_chars, string_of, to_ascii_lower, trim_char, trim_end_char, trim_matches_char,
    trim_start_char,
};

verus! {

/// A saved voice.
#[derive(Debug, Clone)]
pub struct VoiceInfo {
    /// Unique id (sanitised file name).
    pub id: String,
    /// Display name given by the user.
    pub name: String,
    /// Path of the reference `<id>.wav`.
    pub path: String,
    /// Reference transcript, if any.
    pub ref_text: String,
    /// Whether the voice has an avatar picture.
    pub has_avatar: bool,
    /// Creation time (RFC 3339).
    pub created_at: String,
}

/// The directory of the voice store: `<models_dir>/voices`, where an empty
/// `models_dir` means `default_models_dir`.
pub open spec fn spec_voices_root(models_dir: Seq<char>, default_models_dir: Seq<char>) -> Seq<char> {
    spec_path_join(dir_or_default(models_dir, default_models_dir), "voices"@)
}

/// The directory of the voice store.
pub fn voices_root(models_dir: &str, default_models_dir: &str) -> (r: String)
    ensures
        r@ == spec_voices_root(models_dir@, default_models_dir@),
{
    let base = dir_or_default_exec(models_dir, default_models_dir);
    path_join(base.as_str(), "voices")
}

// ---------------------------------------------------------------------------
// Ids
// ---------------------------------------------------------------------------

/// One left-to-right pass over a name: ASCII letters and digits are kept in
/// lower case, every run of other characters becomes one `_`, and no `_` is
/// written before the first kept character. The flag tells whether the
/// output is empty or ends with `_`.
pub open spec fn sanitize_scan(s: Seq<char>) -> (Seq<char>, bool)
    decreases s.len(),
{
    if s.len() == 0 {
        (Seq::empty(), true)
    } else {
        let (o, last_underscore) = sanitize_scan(s.drop_last());
        let ch = s.last();
        if is_ascii_alnum(ch) {
            (o.push(ascii_lower(ch)), false)
        } else if !last_underscore {
            (o.push('_'), true)
        } else {
            (o, last_underscore)
        }
    }
}

/// The safe id made from a user-given name: the scan with `_` trimmed from
/// both ends, or `voice` when nothing is left.
pub open spec fn sanitized_id(s: Seq<char>) -> Seq<char> {
    let t = trim_char(sanitize_scan(s).0, '_');
    if t.len() == 0 {
        "voice"@
    } else {
        t
    }
}

/// Characters that may stand in an id.
pub open spec fn is_id_char(c: char) -> bool {
    is_ascii_lower(c) || is_ascii_digit(c) || c == '_'
}

/// What makes an id safe as a file name: not empty, only lower-case ASCII
/// letters, digits and `_`, no `_` at either end and never two `_` in a row.
pub open spec fn is_safe_id(s: Seq<char>) -> bool {
    &&& s.len() > 0
    &&& forall|i: int| 0 <= i < s.len() ==> is_id_char(#[trigger] s[i])
    &&& s[0] != '_'
    &&& s.last() != '_'
    &&& forall|i: int| 0 <= i < s.len() - 1 ==> !(#[trigger] s[i] == '_' && s[i + 1] == '_')
}

proof fn lemma_sanitize_scan(s: Seq<char>)
    ensures
        ({
            let (o, last) = sanitize_scan(s);
            &&& forall|i: int| 0 <= i < o.len() ==> is_id_char(#[trigger] o[i])
            &&& forall|i: int| 0 <= i < o.len() - 1 ==> !(#[trigger] o[i] == '_' && o[i + 1] == '_')
            &&& o.len() > 0 ==> o[0] != '_'
            &&& last == (o.len() == 0 || o.last() == '_')
        }),
    decreases s.len(),
{
    if s.len() > 0 {
        lemma_sanitize_scan(s.drop_last());
        let (o, last) = sanitize_scan(s.drop_last());
        let ch = s.last();
        if is_ascii_alnum(ch) {
            let n = o.push(ascii_lower(ch));
            assert(is_id_char(ascii_lower(ch)));
            assert forall|i: int| 0 <= i < n.len() implies is_id_char(#[trigger] n[i]) by {
                if i < o.len() {
                    assert(n[i] == o[i]);
                }
            }
            assert forall|i: int| 0 <= i < n.len() - 1 implies !(#[trigger] n[i] == '_' && n[i
                + 1] == '_') by {
                if i < o.len() - 1 {
                    assert(n[i] == o[i] && n[i + 1] == o[i + 1]);
                }
            }
        } else if !last {
            let n = o.push('_');
            assert forall|i: int| 0 <= i < n.len() implies is_id_char(#[trigger] n[i]) by {
                if i < o.len() {
                    assert(n[i] == o[i]);
                }
            }
            assert forall|i: int| 0 <= i < n.len() - 1 implies !(#[trigger] n[i] == '_' && n[i
                + 1] == '_') by {
                if i < o.len() - 1 {
                    assert(n[i] == o[i] && n[i + 1] == o[i + 1]);
                } else {
                    assert(n[i] == o.last());
                }
            }
        }
    }
}

/// Every id that `sanitize_id` produces is safe as a file name.
pub proof fn lemma_sanitized_id_is_safe(s: Seq<char>)
    ensures
        is_safe_id(sanitized_id(s)),
{
    lemma_sanitize_scan(s);
    let o = sanitize_scan(s).0;
    lemma_trim_start_char_suffix(o, '_');
    let t = trim_start_char(o, '_');
    lemma_trim_end_char_prefix(t, '_');
    let r = trim_end_char(t, '_');
    if r.len() == 0 {
        reveal_strlit("voice");
        assert("voice"@ =~= seq!['v', 'o', 'i', 'c', 'e']);
    } else {
        let a = o.len() - t.len();
        assert(t =~= o.subrange(a, o.len() as int));
        assert(r =~= o.subrange(a, a + r.len()));
        assert forall|i: int| 0 <= i < r.len() implies is_id_char(#[trigger] r[i]) by {
            assert(r[i] == o[a + i]);
        }
        assert forall|i: int| 0 <= i < r.len() - 1 implies !(#[trigger] r[i] == '_' && r[i + 1]
            == '_') by {
            assert(r[i] == o[a + i] && r[i + 1] == o[a + i + 1]);
        }
        assert(r[0] == t[0]);
    }
}

/// Turns a user-given voice name into a safe id for file names: ASCII letters
/// and digits in lower case, every run of other characters as one `_`, no `_`
/// at the ends, and `voice` when nothing is left.
pub fn sanitize_id(name: &str) -> (r: String)
    ensures
        r@ == sanitized_id(name@),
        is_safe_id(r@),
{
    let chars = chars_of(name);
    let mut out: Vec<char> = Vec::new();
    let mut last_underscore = true;
    let mut i: usize = 0;
    while i < chars.len()
        invariant
            i <= chars.len(),
            chars@ == name@,
            (out@, last_underscore) == sanitize_scan(chars@.take(i as int)),
        decreases chars.len() - i,
    {
        let ch = chars[i];
        proof {
            assert(chars@.take(i + 1).drop_last() =~= chars@.take(i as int));
        }
        if is_ascii_alnum_char(ch) {
            out.push(to_ascii_lower(ch));
            last_underscore = false;
        } else if !last_underscore {
            out.push('_');
            last_underscore = true;
        }
        i += 1;
    }
    proof {
        assert(chars@.take(chars.len() as int) =~= chars@);
        lemma_sanitized_id_is_safe(name@);
    }
    let trimmed = trim_matches_char(&out, '_');
    if trimmed.len() == 0 {
        String::from_str("voice")
    } else {
        string_of(&trimmed)
    }
}

/// The id tried for a new voice when `base` is taken: `<base>_<suffix>`.
pub open spec fn spec_voice_id_candidate(base: Seq<char>, suffix: nat) -> Seq<char> {
    base + seq!['_'] + decimal(suffix)
}

/// The id tried for a new voice when `base` is already taken; suffixes are
/// tried from 2 upwards.
pub fn voice_id_candidate(base: &str, suffix: u64) -> (r: String)
    ensures
        r@ == spec_voice_id_candidate(base@, suffix as nat),
{
    let mut v = chars_of(base);
    v.push('_');
    let d = decimal_chars(suffix);
    append_chars(&mut v, &d);
    string_of(&v)
}

/// The ids tried in turn for a new voice: `base`, then `<base>_2`, `<base>_3`, …
pub open spec fn nth_voice_id(base: Seq<char>, n: nat) -> Seq<char> {
    if n == 0 {
        base
    } else {
        spec_voice_id_candidate(base, n + 1)
    }
}

/// `r` is the first of the ids tried in turn that no saved voice holds.
pub open spec fn is_first_free_voice_id(base: Seq<char>, taken: Seq<Seq<char>>, r: Seq<char>) -> bool {
    exists|n: nat|
        #[trigger] nth_voice_id(base, n) == r && !taken.contains(r) && forall|m: nat|
            m < n ==> taken.contains(#[trigger] nth_voice_id(base, m))
}

pub open spec fn texts_view(v: Seq<String>) -> Seq<Seq<char>> {
    v.map_values(|x: String| x@)
}

/// The ids tried in turn are all different.
pub proof fn lemma_nth_voice_id_injective(base: Seq<char>, m: nat, n: nat)
    requires
        nth_voice_id(base, m) == nth_voice_id(base, n),
    ensures
        m == n,
{
    if m > 0 && n > 0 {
        let k: int = base.len() as int + 1;
        assert(nth_voice_id(base, m).skip(k) =~= decimal((m + 1) as nat));
        assert(nth_voice_id(base, n).skip(k) =~= decimal((n + 1) as nat));
        crate::text::lemma_decimal_injective((m + 1) as nat, (n + 1) as nat);
    } else if m > 0 {
        assert(nth_voice_id(base, m).len() > base.len());
    } else if n > 0 {
        assert(nth_voice_id(base, n).len() > base.len());
    }
}

/// When the first `i` ids tried are all taken, there are at least `i` taken
/// ids, so the search for a free one ends within `taken.len() + 1` tries.
proof fn lemma_taken_ids_bound(base: Seq<char>, taken: Seq<Seq<char>>, i: nat)
    requires
        forall|m: nat| m < i ==> taken.contains(#[trigger] nth_voice_id(base, m)),
    ensures
        i <= taken.len(),
{
    let c = Seq::new(i, |m: int| nth_voice_id(base, m as nat));
    assert(c.no_duplicates()) by {
        assert forall|a: int, b: int| 0 <= a < c.len() && 0 <= b < c.len() && a != b implies c[a] != c[b] by {
            if c[a] == c[b] {
                lemma_nth_voice_id_injective(base, a as nat, b as nat);
            }
        }
    }
    c.unique_seq_to_set();
    taken.lemma_cardinality_of_set();
    assert(c.to_set().subset_of(taken.to_set())) by {
        assert forall|x: Seq<char>| c.to_set().contains(x) implies taken.to_set().contains(x) by {
            let a = choose|a: int| 0 <= a < c.len() && c[a] == x;
            assert(taken.contains(nth_voice_id(base, a as nat)));
        }
    }
    vstd::seq_lib::seq_to_set_is_finite(taken);
    vstd::set_lib::lemma_len_subset(c.to_set(), taken.to_set());
}

/// Whether `s` is one of the texts in `v`.
fn contains_text(v: &Vec<String>, s: &str) -> (r: bool)
    ensures
        r == texts_view(v@).contains(s@),
{
    let target = chars_of(s);
    let mut i: usize = 0;
    while i < v.len()
        invariant
            i <= v.len(),
            target@ == s@,
            forall|j: int| 0 <= j < i ==> v@[j]@ != s@,
        decreases v.len() - i,
    {
        if chars_eq(&chars_of(v[i].as_str()), &target) {
            proof {
                assert(texts_view(v@)[i as int] == s@);
            }
            return true;
        }
        i += 1;
    }
    proof {
        if texts_view(v@).contains(s@) {
            let j = choose|j: int| 0 <= j < texts_view(v@).len() && texts_view(v@)[j] == s@;
            assert(v@[j]@ == s@);
        }
    }
    false
}

/// The id for a new voice named like `base` when the ids in `taken` are
/// already in use: `base` itself if it is free, else the first free one of
/// `<base>_2`, `<base>_3`, …, so that no saved voice is overwritten.
pub fn first_free_voice_id(base: &str, taken: &Vec<String>) -> (r: String)
    requires
        taken.len() < usize::MAX,
    ensures
        is_first_free_voice_id(base@, texts_view(taken@), r@),
{
    let ghost tv = texts_view(taken@);
    let mut i: usize = 0;
    loop
        invariant
            tv == texts_view(taken@),
            taken.len() < usize::MAX,
            i <= taken.len(),
            forall|m: nat| m < i ==> tv.contains(#[trigger] nth_voice_id(base@, m)),
        decreases taken.len() - i,
    {
        let cand = if i == 0 {
            String::from_str(base)
        } else {
            voice_id_candidate(base, (i as u64) + 1)
        };
        assert(cand@ == nth_voice_id(base@, i as nat));
        if !contains_text(taken, cand.as_str()) {
            assert(nth_voice_id(base@, i as nat) == cand@);
            return cand;
        }
        proof {
            assert forall|m: nat| m < i + 1 implies tv.contains(#[trigger] nth_voice_id(base@, m)) by {
                if m == i {
                    assert(nth_voice_id(base@, m) == cand@);
                }
            }
            lemma_taken_ids_bound(base@, tv, (i + 1) as nat);
            assert(tv.len() == taken.len());
        }
        i += 1;
    }
}

// ---------------------------------------------------------------------------
// Files of a voice
// ---------------------------------------------------------------------------

/// The files that make up a saved voice.
#[derive(Debug, Clone, Copy, PartialEq, Eq, Structural)]
pub enum VoiceFile {
    /// The reference recording.
    Wav,
    /// The reference transcript.
    Text,
    /// The manifest with name, transcript and creation time.
    Manifest,
    /// The avatar picture.
    Avatar,
}

pub open spec fn voice_file_suffix(kind: VoiceFile) -> Seq<char> {
    match kind {
        VoiceFile::Wav => ".wav"@,
        VoiceFile::Text => ".txt"@,
        VoiceFile::Manifest => ".json"@,
        VoiceFile::Avatar => ".avatar.jpg"@,
    }
}

/// The file name of one part of a voice: `<id>.wav`, `<id>.txt`, `<id>.json`
/// or `<id>.avatar.jpg`.
pub fn voice_file_name(id: &str, kind: VoiceFile) -> (r: String)
    ensures
        r@ == id@ + voice_file_suffix(kind),
{
    let mut v = chars_of(id);
    let suffix = match kind {
        VoiceFile::Wav => ".wav",
        VoiceFile::Text => ".txt",
        VoiceFile::Manifest => ".json",
        VoiceFile::Avatar => ".avatar.jpg",
    };
    append_str(&mut v, suffix);
    string_of(&v)
}

/// The id of the voice that a file of the store holds, if the file is the
/// recording of a saved voice: hidden files (leading `.`) and clone caches
/// (`*.__clone.wav`) are not voices; the extension must be `wav` in any case.
pub open spec fn listed_voice(file_name: Seq<char>, extension: Option<Seq<char>>, stem: Option<
    Seq<char>,
>) -> Option<Seq<char>> {
    if starts_with(file_name, "."@) || ends_with(file_name, ".__clone.wav"@) {
        None
    } else {
        match (extension, stem) {
            (Some(ext), Some(st)) => {
                if lower_seq(ext) == "wav"@ && !ends_with(st, ".__clone"@) {
                    Some(st)
                } else {
                    None
                }
            },
            _ => None,
        }
    }
}

pub open spec fn opt_str_view(o: Option<&str>) -> Option<Seq<char>> {
    match o {
        Some(s) => Some(s@),
        None => None,
    }
}

/// Decides whether a file of the voice store is a saved voice and returns its
/// id. `extension` and `stem` are those of the file's path.
pub fn listed_voice_id(file_name: &str, extension: Option<&str>, stem: Option<&str>) -> (r: Option<
    String,
>)
    ensures
        match r {
            Some(id) => listed_voice(file_name@, opt_str_view(extension), opt_str_view(stem)) == Some(
                id@,
            ),
            None => listed_voice(file_name@, opt_str_view(extension), opt_str_view(stem)) is None,
        },
{
    let name = chars_of(file_name);
    let dot = chars_of(".");
    let clone_wav = chars_of(".__clone.wav");
    if starts_with_chars(&name, &dot) || ends_with_chars(&name, &clone_wav) {
        return None;
    }
    match (extension, stem) {
        (Some(ext), Some(st)) => {
            let e = lower_chars(&chars_of(ext));
            let wav = chars_of("wav");
            let s = chars_of(st);
            let clone = chars_of(".__clone");
            if chars_eq(&e, &wav) && !ends_with_chars(&s, &clone) {
                Some(String::from_str(st))
            } else {
                None
            }
        },
        _ => None,
    }
}

/// The fields of a voice manifest that could be read; a field that is
/// missing or of the wrong type is `None`.
#[derive(Debug, Clone)]
pub struct VoiceManifest {
    pub name: Option<String>,
    pub ref_text: Option<String>,
    pub has_avatar: Option<bool>,
    pub created_at: Option<String>,
}

pub open spec fn opt_text_or(o: Option<String>, d: Seq<char>) -> Seq<char> {
    match o {
        Some(s) => s@,
        None => d,
    }
}

/// `r` describes the voice `id` with recording `wav_path` as its manifest
/// says: with no manifest the name is the id and `avatar_exists` tells whether
/// the avatar file is there; in a manifest, missing fields default to the id,
/// empty texts and no avatar.
pub open spec fn read_from_manifest(
    r: VoiceInfo,
    id: Seq<char>,
    wav_path: Seq<char>,
    manifest: Option<VoiceManifest>,
    avatar_exists: bool,
) -> bool {
    &&& r.id@ == id
    &&& r.path@ == wav_path
    &&& match manifest {
        Some(m) => {
            &&& r.name@ == opt_text_or(m.name, id)
            &&& r.ref_text@ == opt_text_or(m.ref_text, Seq::empty())
            &&& r.has_avatar == (m.has_avatar == Some(true))
            &&& r.created_at@ == opt_text_or(m.created_at, Seq::empty())
        },
        None => {
            &&& r.name@ == id
            &&& r.ref_text@ == Seq::<char>::empty()
            &&& r.has_avatar == avatar_exists
            &&& r.created_at@ == Seq::<char>::empty()
        },
    }
}

/// Describes a saved voice from its manifest. `manifest` is `None` when the
/// voice has no manifest file; then the name is the id and `avatar_exists`
/// tells whether the avatar file is there. With a manifest, missing fields
/// default to the id, empty texts and no avatar.
pub fn voice_info_from_manifest(
    id: &str,
    wav_path: &str,
    manifest: Option<VoiceManifest>,
    avatar_exists: bool,
) -> (r: VoiceInfo)
    ensures
        read_from_manifest(r, id@, wav_path@, manifest, avatar_exists),
{
    match manifest {
        Some(m) => {
            let name = match m.name {
                Some(n) => n,
                None => String::from_str(id),
            };
            let ref_text = match m.ref_text {
                Some(t) => t,
                None => String::new(),
            };
            let has_avatar = match m.has_avatar {
                Some(b) => b,
                None => false,
            };
            let created_at = match m.created_at {
                Some(c) => c,
                None => String::new(),
            };
            VoiceInfo {
                id: String::from_str(id),
                name,
                path: String::from_str(wav_path),
                ref_text,
                has_avatar,
                created_at,
            }
        },
        None => VoiceInfo {
            id: String::from_str(id),
            name: String::from_str(id),
            path: String::from_str(wav_path),
            ref_text: String::new(),
            has_avatar: avatar_exists,
            created_at: String::new(),
        },
    }
}

// ---------------------------------------------------------------------------
// Ordering of the list
// ---------------------------------------------------------------------------

/// Lexicographic order on texts by code point: the order of `String::cmp`,
/// since UTF-8 keeps the code point order byte for byte.
pub open spec fn text_lt(a: Seq<char>, b: Seq<char>) -> bool
    decreases a.len(),
{
    if a.len() == 0 {
        b.len() > 0
    } else if b.len() == 0 {
        false
    } else if a[0] != b[0] {
        a[0] < b[0]
    } else {
        text_lt(a.drop_first(), b.drop_first())
    }
}

pub open spec fn text_le(a: Seq<char>, b: Seq<char>) -> bool {
    !text_lt(b, a)
}

/// No text comes before itself.
pub proof fn lemma_text_lt_irreflexive(a: Seq<char>)
    ensures
        !text_lt(a, a),
    decreases a.len(),
{
    if a.len() > 0 {
        lemma_text_lt_irreflexive(a.drop_first());
    }
}

/// The text order is transitive.
pub proof fn lemma_text_lt_transitive(a: Seq<char>, b: Seq<char>, c: Seq<char>)
    requires
        text_lt(a, b),
        text_lt(b, c),
    ensures
        text_lt(a, c),
    decreases a.len(),
{
    if a.len() > 0 && b.len() > 0 && c.len() > 0 {
        if a[0] == b[0] && b[0] == c[0] {
            lemma_text_lt_transitive(a.drop_first(), b.drop_first(), c.drop_first());
        }
    }
}

/// Of two different texts, one comes before the other.
pub proof fn lemma_text_lt_total(a: Seq<char>, b: Seq<char>)
    ensures
        text_lt(a, b) || text_lt(b, a) || a == b,
    decreases a.len(),
{
    if a.len() > 0 && b.len() > 0 {
        if a[0] == b[0] {
            lemma_text_lt_total(a.drop_first(), b.drop_first());
            if a.drop_first() == b.drop_first() {
                assert(a =~= seq![a[0]] + a.drop_first());
                assert(b =~= seq![b[0]] + b.drop_first());
            }
        }
    } else if a.len() == 0 && b.len() == 0 {
        assert(a =~= b);
    }
}

/// The code-point order of `String::cmp`: `a` comes before `b` when it is a
/// proper prefix of `b`, or when, at the first position where the two differ,
/// `a` has the smaller character, whatever their lengths.
pub open spec fn lex_before(a: Seq<char>, b: Seq<char>) -> bool {
    ||| (a.len() < b.len() && b.take(a.len() as int) == a)
    ||| exists|i: int| 0 <= i < a.len() && i < b.len() && a.take(i) == b.take(i) && #[trigger] a[i] < b[i]
}

/// The name order is the lexicographic code-point order of `String::cmp`.
pub proof fn lemma_text_lt_is_lexicographic(a: Seq<char>, b: Seq<char>)
    ensures
        text_lt(a, b) == lex_before(a, b),
    decreases a.len(),
{
    if a.len() == 0 {
        assert(b.take(0) =~= a);
    } else if b.len() == 0 {
    } else if a[0] != b[0] {
        if a.len() < b.len() && b.take(a.len() as int) == a {
            assert(b.take(a.len() as int)[0] == b[0]);
        }
        if exists|i: int| 0 <= i < a.len() && i < b.len() && a.take(i) == b.take(i) && #[trigger] a[i] < b[i] {
            let i = choose|i: int| 0 <= i < a.len() && i < b.len() && a.take(i) == b.take(i) && #[trigger] a[i] < b[i];
            if i > 0 {
                assert(a.take(i)[0] == b.take(i)[0]);
            }
        }
        if a[0] < b[0] {
            assert(a.take(0) =~= b.take(0));
            assert(a[0] < b[0]);
        }
    } else {
        let a1 = a.drop_first();
        let b1 = b.drop_first();
        lemma_text_lt_is_lexicographic(a1, b1);
        // The prefix case carries over after the common first character.
        if a.len() < b.len() && b.take(a.len() as int) == a {
            assert(b1.take(a1.len() as int) =~= b.take(a.len() as int).drop_first());
        }
        if a1.len() < b1.len() && b1.take(a1.len() as int) == a1 {
            assert(b.take(a.len() as int) =~= seq![b[0]] + b1.take(a1.len() as int));
            assert(a =~= seq![a[0]] + a1);
        }
        // So does a first difference, one position later.
        if exists|i: int| 0 <= i < a.len() && i < b.len() && a.take(i) == b.take(i) && #[trigger] a[i] < b[i] {
            let i = choose|i: int| 0 <= i < a.len() && i < b.len() && a.take(i) == b.take(i) && #[trigger] a[i] < b[i];
            if i == 0 {
                assert(false);
            } else {
                assert(a1.take(i - 1) =~= a.take(i).drop_first());
                assert(b1.take(i - 1) =~= b.take(i).drop_first());
                assert(a1[i - 1] == a[i]);
                assert(b1[i - 1] == b[i]);
                assert(a1[i - 1] < b1[i - 1]);
            }
        }
        if exists|i: int| 0 <= i < a1.len() && i < b1.len() && a1.take(i) == b1.take(i) && #[trigger] a1[i] < b1[i] {
            let i = choose|i: int| 0 <= i < a1.len() && i < b1.len() && a1.take(i) == b1.take(i) && #[trigger] a1[i] < b1[i];
            assert(a.take(i + 1) =~= seq![a[0]] + a1.take(i));
            assert(b.take(i + 1) =~= seq![b[0]] + b1.take(i));
            assert(a[i + 1] == a1[i]);
            assert(b[i + 1] < a[i + 1] || a[i + 1] < b[i + 1]);
            assert(a[i + 1] < b[i + 1]);
        }
    }
}

/// The voices are in order of their names.
pub open spec fn sorted_by_name(v: Seq<VoiceInfo>) -> bool {
    forall|i: int, j: int| 0 <= i < j < v.len() ==> text_le(#[trigger] v[i].name@, #[trigger] v[j].name@)
}

/// `p` says where each element of `new` came from in `old`: a bijection of
/// the positions.
pub open spec fn is_arrangement(old: Seq<VoiceInfo>, new: Seq<VoiceInfo>, p: Seq<int>) -> bool {
    &&& new.len() == old.len()
    &&& p.len() == new.len()
    &&& forall|i: int| 0 <= i < p.len() ==> 0 <= #[trigger] p[i] < old.len()
    &&& forall|i: int| 0 <= i < p.len() ==> new[i] == old[#[trigger] p[i]]
    &&& forall|i: int, j: int| 0 <= i < j < p.len() ==> #[trigger] p[i] != #[trigger] p[j]
}

/// `new` is `old` ordered by name, with voices of equal names kept in their
/// earlier order (a stable sort).
pub open spec fn is_stable_name_sort(old: Seq<VoiceInfo>, new: Seq<VoiceInfo>) -> bool {
    exists|p: Seq<int>|
        {
            &&& #[trigger] is_arrangement(old, new, p)
            &&& sorted_by_name(new)
            &&& forall|i: int, j: int|
                0 <= i < j < new.len() && new[i].name@ == new[j].name@ ==> #[trigger] p[i] < #[trigger] p[j]
        }
}

/// Whether `a`'s name comes after `b`'s.
fn name_after(a: &VoiceInfo, b: &VoiceInfo) -> (r: bool)
    ensures
        r == text_lt(b.name@, a.name@),
{
    let x = chars_of(a.name.as_str());
    let y = chars_of(b.name.as_str());
    let mut i: usize = 0;
    proof {
        assert(x@.skip(0) =~= x@);
        assert(y@.skip(0) =~= y@);
    }
    while i < x.len() && i < y.len()
        invariant
            x@ == a.name@,
            y@ == b.name@,
            i <= x.len(),
            i <= y.len(),
            x@.take(i as int) == y@.take(i as int),
            text_lt(y@, x@) == text_lt(y@.skip(i as int), x@.skip(i as int)),
        decreases x.len() - i,
    {
        if x[i] != y[i] {
            proof {
                assert(y@.skip(i as int)[0] == y@[i as int]);
                assert(x@.skip(i as int)[0] == x@[i as int]);
            }
            return y[i] < x[i];
        }
        proof {
            assert(y@.skip(i as int).drop_first() =~= y@.skip(i + 1));
            assert(x@.skip(i as int).drop_first() =~= x@.skip(i + 1));
            assert(x@.take(i + 1) =~= x@.take(i as int).push(x@[i as int]));
            assert(y@.take(i + 1) =~= y@.take(i as int).push(y@[i as int]));
        }
        i += 1;
    }
    y.len() - i < x.len() - i
}

/// Orders a voice list by name, keeping voices of equal names in their
/// earlier order (as `sort_by` on the names does).
pub fn sort_voices_by_name(v: &mut Vec<VoiceInfo>)
    ensures
        is_stable_name_sort(old(v)@, final(v)@),
{
    let ghost orig = v@;
    let ghost mut p: Seq<int> = Seq::new(v@.len(), |k: int| k);
    let n = v.len();
    let mut i: usize = 0;
    while i < n
        invariant
            n == v.len(),
            i <= n,
            is_arrangement(orig, v@, p),
            forall|k: int| i <= k < n ==> #[trigger] p[k] == k,
            forall|a: int, b: int|
                0 <= a < b < i ==> text_le(#[trigger] v@[a].name@, #[trigger] v@[b].name@),
            forall|a: int, b: int|
                0 <= a < b < i && v@[a].name@ == v@[b].name@ ==> #[trigger] p[a] < #[trigger] p[b],
            forall|a: int| 0 <= a < i ==> #[trigger] p[a] < i,
        decreases n - i,
    {
        // Move v[i] left past every voice whose name comes after it.
        let mut j: usize = i;
        while j > 0 && name_after(&v[j - 1], &v[j])
            invariant
                n == v.len(),
                j <= i < n,
                is_arrangement(orig, v@, p),
                forall|k: int| i < k < n ==> #[trigger] p[k] == k,
                p[j as int] == i,
                forall|a: int| 0 <= a <= i && a != j ==> #[trigger] p[a] < i,
                forall|a: int, b: int|
                    0 <= a < b <= i && a != j && b != j ==> text_le(
                        #[trigger] v@[a].name@,
                        #[trigger] v@[b].name@,
                    ),
                forall|a: int, b: int|
                    0 <= a < b <= i && a != j && b != j && v@[a].name@ == v@[b].name@
                        ==> #[trigger] p[a] < #[trigger] p[b],
                forall|b: int| j < b <= i ==> text_lt(v@[j as int].name@, #[trigger] v@[b].name@),
            decreases j,
        {
            let ghost before = v@;
            let ghost pb = p;
            let x = v.remove(j);
            v.insert(j - 1, x);
            proof {
                assert(v@ =~= before.update(j - 1, before[j as int]).update(
                    j as int,
                    before[j - 1],
                ));
                p = pb.update(j - 1, pb[j as int]).update(j as int, pb[j - 1]);
                let jj = j as int;
                assert forall|k: int| 0 <= k < p.len() implies 0 <= #[trigger] p[k] < orig.len()
                    && v@[k] == orig[p[k]] by {
                    if k == jj - 1 {
                        assert(pb[jj] < orig.len());
                    } else if k == jj {
                        assert(pb[jj - 1] < orig.len());
                    } else {
                        assert(pb[k] < orig.len());
                    }
                }
                assert forall|a: int, b: int| 0 <= a < b < p.len() implies #[trigger] p[a]
                    != #[trigger] p[b] by {
                    let a0 = if a == jj - 1 { jj } else if a == jj { jj - 1 } else { a };
                    let b0 = if b == jj - 1 { jj } else if b == jj { jj - 1 } else { b };
                    assert(p[a] == pb[a0] && p[b] == pb[b0]);
                    if a0 < b0 {
                        assert(pb[a0] != pb[b0]);
                    } else {
                        assert(pb[b0] != pb[a0]);
                    }
                }
                assert forall|b: int| jj - 1 < b <= i implies text_lt(
                    v@[jj - 1].name@,
                    #[trigger] v@[b].name@,
                ) by {
                    if b != jj {
                        assert(v@[b] == before[b]);
                    }
                }
                assert forall|a: int, b: int|
                    0 <= a < b <= i && a != jj - 1 && b != jj - 1 implies text_le(
                    #[trigger] v@[a].name@,
                    #[trigger] v@[b].name@,
                ) by {
                    if a == jj {
                        assert(v@[b] == before[b]);
                        assert(text_le(before[jj - 1].name@, before[b].name@));
                    } else if b == jj {
                        assert(v@[a] == before[a]);
                        assert(text_le(before[a].name@, before[jj - 1].name@));
                    } else {
                        assert(v@[a] == before[a]);
                        assert(v@[b] == before[b]);
                        assert(text_le(before[a].name@, before[b].name@));
                    }
                }
                assert forall|a: int, b: int|
                    0 <= a < b <= i && a != jj - 1 && b != jj - 1 && v@[a].name@ == v@[b].name@
                        implies #[trigger] p[a] < #[trigger] p[b] by {
                    if a == jj {
                        assert(v@[b] == before[b]);
                        assert(before[jj - 1].name@ == before[b].name@);
                        assert(pb[jj - 1] < pb[b]);
                    } else if b == jj {
                        assert(v@[a] == before[a]);
                        assert(before[a].name@ == before[jj - 1].name@);
                        assert(pb[a] < pb[jj - 1]);
                    } else {
                        assert(v@[a] == before[a]);
                        assert(v@[b] == before[b]);
                        assert(before[a].name@ == before[b].name@);
                        assert(pb[a] < pb[b]);
                    }
                }
                assert forall|a: int| 0 <= a <= i && a != jj - 1 implies #[trigger] p[a] < i by {
                    if a == jj {
                        assert(pb[jj - 1] < i);
                    } else {
                        assert(pb[a] < i);
                    }
                }
            }
            j -= 1;
        }
        proof {
            let jj = j as int;
            let key = v@[jj].name@;
            assert forall|a: int, b: int| 0 <= a < b < i + 1 implies text_le(
                #[trigger] v@[a].name@,
                #[trigger] v@[b].name@,
            ) by {
                if b == jj {
                    assert(text_le(v@[jj - 1].name@, key));
                    if a < jj - 1 {
                        assert(text_le(v@[a].name@, v@[jj - 1].name@));
                        lemma_text_le_transitive(v@[a].name@, v@[jj - 1].name@, key);
                    }
                } else if a == jj {
                    assert(text_lt(key, v@[b].name@));
                    lemma_text_lt_asym(key, v@[b].name@);
                } else {
                    assert(text_le(v@[a].name@, v@[b].name@));
                }
            }
            assert forall|a: int, b: int|
                0 <= a < b < i + 1 && v@[a].name@ == v@[b].name@ implies #[trigger] p[a]
                < #[trigger] p[b] by {
                if a == jj {
                    assert(text_lt(key, v@[b].name@));
                    lemma_text_lt_irreflexive(key);
                } else if b == jj {
                    assert(p[a] < i);
                } else {
                    assert(p[a] < p[b]);
                }
            }
        }
        i += 1;
    }
    proof {
        assert(is_arrangement(orig, v@, p));
        assert(sorted_by_name(v@));
    }
}

proof fn lemma_text_lt_asym(a: Seq<char>, b: Seq<char>)
    requires
        text_lt(a, b),
    ensures
        !text_lt(b, a),
{
    if text_lt(b, a) {
        lemma_text_lt_transitive(a, b, a);
        lemma_text_lt_irreflexive(a);
    }
}

proof fn lemma_text_le_transitive(a: Seq<char>, b: Seq<char>, c: Seq<char>)
    requires
        text_le(a, b),
        text_le(b, c),
    ensures
        text_le(a, c),
{
    if text_lt(c, a) {
        lemma_text_lt_total(a, b);
        lemma_text_lt_total(b, c);
        if a == b {
        } else if b == c {
        } else {
            lemma_text_lt_transitive(a, b, c);
            lemma_text_lt_asym(a, c);
        }
    }
}

// ---------------------------------------------------------------------------
// Requests and changes to the store
// ---------------------------------------------------------------------------

/// Whether a voice value names a file rather than a voice id: it holds a path
/// separator, is absolute, or ends with `.wav` or `.gguf` in any case. (Without
/// a separator a value can only be absolute through a drive prefix, so it
/// holds a `:`.)
pub open spec fn looks_like_path(v: Seq<char>) -> bool {
    v.contains('/') || v.contains('\\') || (v.contains(':') && spec_path_is_absolute(v)) || ends_with(
        lower_seq(v),
        ".wav"@,
    ) || ends_with(lower_seq(v), ".gguf"@)
}

/// The file that must exist for a voice value to be usable: the trimmed
/// value when it looks like a path, else `None`.
pub fn voice_path_to_check(voice: &str) -> (r: Option<String>)
    ensures
        match r {
            Some(p) => trim_ws(voice@).len() > 0 && looks_like_path(trim_ws(voice@)) && p@ == trim_ws(
                voice@,
            ),
            None => trim_ws(voice@).len() == 0 || !looks_like_path(trim_ws(voice@)),
        },
{
    let v = trim_whitespace(&chars_of(voice));
    if v.len() == 0 {
        return None;
    }
    let s = string_of(&v);
    if value_looks_like_path(&v, s.as_str()) {
        Some(s)
    } else {
        None
    }
}

fn value_looks_like_path(v: &Vec<char>, s: &str) -> (r: bool)
    requires
        s@ == v@,
    ensures
        r == looks_like_path(v@),
{
    let lower = lower_chars(v);
    let wav = chars_of(".wav");
    let gguf = chars_of(".gguf");
    contains_char(v, '/') || contains_char(v, '\\') || path_is_absolute(s) || ends_with_chars(
        &lower,
        &wav,
    ) || ends_with_chars(&lower, &gguf)
}

/// The value of the `voice` field sent to the speech server.
pub open spec fn spec_resolve_voice(voice: Seq<char>, path_exists: bool) -> Result<Seq<char>, Seq<char>> {
    let v = trim_ws(voice);
    if v.len() == 0 {
        Ok(Seq::empty())
    } else if looks_like_path(v) && !path_exists {
        Err("файл голоса не найден: "@ + v)
    } else {
        Ok(v)
    }
}

/// Resolves the `voice` field for a speech request: the trimmed value as it
/// is (a voice id or a file path); a path must name an existing file. Nothing
/// is copied into the voice store. `path_exists` tells whether the file that
/// `voice_path_to_check` returns exists.
pub fn resolve_voice_for_server(models_dir: &str, voice: &str, path_exists: bool) -> (r: Result<
    String,
    String,
>)
    ensures
        match (r, spec_resolve_voice(voice@, path_exists)) {
            (Ok(a), Ok(b)) => a@ == b,
            (Err(a), Err(b)) => a@ == b,
            _ => false,
        },
{
    let _ = models_dir;
    let v = trim_whitespace(&chars_of(voice));
    if v.len() == 0 {
        return Ok(String::new());
    }
    let s = string_of(&v);
    if value_looks_like_path(&v, s.as_str()) && !path_exists {
        let mut msg = chars_of("файл голоса не найден: ");
        append_chars(&mut msg, &v);
        return Err(string_of(&msg));
    }
    Ok(s)
}

/// Checks the input of `add_voice` before anything is written: the name must
/// not be blank and the source recording must exist. Returns the base id.
pub fn add_voice_precheck(name: &str, src_audio: &str, src_exists: bool) -> (r: Result<String, String>)
    ensures
        trim_ws(name@).len() == 0 ==> (r matches Err(e) && e@ == "укажите имя голоса"@),
        trim_ws(name@).len() > 0 && !src_exists ==> (r matches Err(e) && e@
            == "файл аудио не найден: "@ + src_audio@),
        trim_ws(name@).len() > 0 && src_exists ==> (r matches Ok(id) && id@ == sanitized_id(name@)),
{
    let t = trim_whitespace(&chars_of(name));
    if t.len() == 0 {
        return Err(String::from_str("укажите имя голоса"));
    }
    if !src_exists {
        let mut msg = chars_of("файл аудио не найден: ");
        append_str(&mut msg, src_audio);
        return Err(string_of(&msg));
    }
    Ok(sanitize_id(name))
}

/// Whether an avatar file extension names a picture (`jpg`, `jpeg`, `png`,
/// `webp`, in any case).
pub open spec fn is_avatar_ext(ext: Seq<char>) -> bool {
    let e = lower_seq(ext);
    e == "jpg"@ || e == "jpeg"@ || e == "png"@ || e == "webp"@
}

/// Whether an avatar file extension names a picture.
pub fn is_avatar_extension(ext: &str) -> (r: bool)
    ensures
        r == is_avatar_ext(ext@),
{
    let e = lower_chars(&chars_of(ext));
    chars_eq(&e, &chars_of("jpg")) || chars_eq(&e, &chars_of("jpeg")) || chars_eq(
        &e,
        &chars_of("png"),
    ) || chars_eq(&e, &chars_of("webp"))
}

/// The description of a newly added voice; the transcript is stored trimmed.
pub fn new_voice_info(
    id: &str,
    name: &str,
    wav_path: &str,
    ref_text: &str,
    has_avatar: bool,
    created_at: &str,
) -> (r: VoiceInfo)
    ensures
        r.id@ == id@,
        r.name@ == name@,
        r.path@ == wav_path@,
        r.ref_text@ == trim_ws(ref_text@),
        r.has_avatar == has_avatar,
        r.created_at@ == created_at@,
{
    VoiceInfo {
        id: String::from_str(id),
        name: String::from_str(name),
        path: String::from_str(wav_path),
        ref_text: trim_str(ref_text),
        has_avatar,
        created_at: String::from_str(created_at),
    }
}

/// The manifest holds every field of `info` that it stores: name, transcript,
/// avatar flag and creation time.
pub open spec fn manifest_matches(m: VoiceManifest, info: VoiceInfo) -> bool {
    &&& m.name matches Some(n) && n@ == info.name@
    &&& m.ref_text matches Some(t) && t@ == info.ref_text@
    &&& m.has_avatar == Some(info.has_avatar)
    &&& m.created_at matches Some(c) && c@ == info.created_at@
}

/// The manifest written beside a saved voice.
pub fn manifest_of(info: &VoiceInfo) -> (m: VoiceManifest)
    ensures
        manifest_matches(m, *info),
{
    VoiceManifest {
        name: Some(String::from_str(info.name.as_str())),
        ref_text: Some(String::from_str(info.ref_text.as_str())),
        has_avatar: Some(info.has_avatar),
        created_at: Some(String::from_str(info.created_at.as_str())),
    }
}

/// A saved voice reads back as it was saved: the description built from its
/// manifest, at its id and recording path, has the same name, transcript,
/// avatar flag and creation time, whether or not the avatar file is found.
pub proof fn lemma_manifest_reads_back(info: VoiceInfo, m: VoiceManifest, read: VoiceInfo, avatar_exists: bool)
    requires
        manifest_matches(m, info),
        read_from_manifest(read, info.id@, info.path@, Some(m), avatar_exists),
    ensures
        read.id@ == info.id@,
        read.name@ == info.name@,
        read.path@ == info.path@,
        read.ref_text@ == info.ref_text@,
        read.has_avatar == info.has_avatar,
        read.created_at@ == info.created_at@,
{
}

/// The outcome of deleting a voice: an error when none of its files existed.
pub fn delete_outcome(id: &str, removed_any: bool) -> (r: Result<(), String>)
    ensures
        removed_any ==> r is Ok,
        !removed_any ==> (r matches Err(e) && e@ == "голос не найден: "@ + id@),
{
    if removed_any {
        Ok(())
    } else {
        let mut msg = chars_of("голос не найден: ");
        append_str(&mut msg, id);
        Err(string_of(&msg))
    }
}

/// The files of a voice in the older layout, one folder per voice, and the
/// flat file each one moves to: `(file in <root>/<name>/, new file in <root>)`.
pub open spec fn spec_legacy_moves(name: Seq<char>) -> Seq<(Seq<char>, Seq<char>)> {
    seq![
        ("ref_audio.wav"@, name + ".wav"@),
        ("ref_text.txt"@, name + ".txt"@),
        ("avatar.jpg"@, name + ".avatar.jpg"@),
        ("voice.json"@, name + ".json"@),
    ]
}

/// How the files of a voice folder of the older layout move to the flat
/// layout; the recording comes first.
pub fn legacy_moves(name: &str) -> (r: Vec<(&'static str, String)>)
    ensures
        r@.map_values(|m: (&'static str, String)| (m.0@, m.1@)) == spec_legacy_moves(name@),
{
    let mut v: Vec<(&'static str, String)> = Vec::new();
    v.push(("ref_audio.wav", voice_file_name(name, VoiceFile::Wav)));
    v.push(("ref_text.txt", voice_file_name(name, VoiceFile::Text)));
    v.push(("avatar.jpg", voice_file_name(name, VoiceFile::Avatar)));
    v.push(("voice.json", voice_file_name(name, VoiceFile::Manifest)));
    proof {
        assert(v@.map_values(|m: (&'static str, String)| (m.0@, m.1@)) =~= spec_legacy_moves(name@));
    }
    v
}

/// The suffixed ids tried for a new voice are safe ids too.
pub proof fn lemma_voice_id_candidate_is_safe(base: Seq<char>, suffix: nat)
    requires
        is_safe_id(base),
    ensures
        is_safe_id(spec_voice_id_candidate(base, suffix)),
{
    lemma_decimal_ascii_digits(suffix);
    let d = decimal(suffix);
    let c = spec_voice_id_candidate(base, suffix);
    assert(c == base + seq!['_'] + d);
    assert forall|i: int| 0 <= i < c.len() implies is_id_char(#[trigger] c[i]) by {
        if i < base.len() {
            assert(c[i] == base[i]);
        } else if i == base.len() {
        } else {
            assert(c[i] == d[i - base.len() - 1]);
        }
    }
    assert forall|i: int| 0 <= i < c.len() - 1 implies !(#[trigger] c[i] == '_' && c[i + 1] == '_') by {
        if i < base.len() - 1 {
            assert(c[i] == base[i] && c[i + 1] == base[i + 1]);
        } else if i == base.len() - 1 {
            assert(c[i] == base.last());
        } else {
            assert(c[i + 1] == d[i + 1 - base.len() - 1]);
        }
    }
    assert(c.last() == d.last());
    assert(c[0] == base[0]);
}

/// A voice saved under a safe id is listed back under that id: its recording
/// `<id>.wav` (extension `wav`, stem the id) is neither hidden nor a clone
/// cache.
pub proof fn lemma_saved_voice_is_listed(id: Seq<char>)
    requires
        is_safe_id(id),
    ensures
        listed_voice(id + ".wav"@, Some("wav"@), Some(id)) == Some(id),
{
    reveal_strlit(".wav");
    reveal_strlit("wav");
    reveal_strlit(".");
    reveal_strlit(".__clone.wav");
    reveal_strlit(".__clone");
    let f = id + ".wav"@;
    assert(!is_id_char('.'));
    assert(f[0] == id[0]);
    assert(!starts_with(f, "."@)) by {
        if starts_with(f, "."@) {
            assert(f.take(1)[0] == "."@[0]);
        }
    }
    assert(!ends_with(id, ".__clone"@)) by {
        if ends_with(id, ".__clone"@) {
            assert(id.skip(id.len() - 8)[0] == '.');
            assert(id[id.len() - 8] == '.');
        }
    }
    assert(!ends_with(f, ".__clone.wav"@)) by {
        if ends_with(f, ".__clone.wav"@) {
            assert(f.skip(f.len() - 12)[0] == '.');
            assert(f[f.len() - 12] == id[id.len() - 8]);
        }
    }
    assert(lower_seq("wav"@) =~= "wav"@);
}

} // verus!

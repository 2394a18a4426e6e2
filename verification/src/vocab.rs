//! The token vocabulary of a recognition model and the text of a token
//! sequence.
//!
//! A vocabulary file has one entry per line: a token and its index separated
//! by white space, in either order (`▁при 17` or `17 ▁при`). Lines of another
//! shape are skipped; a later entry for an index replaces an earlier one.
use vstd::prelude::*;

use std::collections::HashMap;

use crate::text::{
    append_str, chars_of, char_is_whitespace, is_ascii_digit, spec_is_whitespace, string_of,
    trim_whitespace, trim_ws,
};

verus! {

broadcast use vstd::std_specs::hash::group_hash_axioms;

// ---------------------------------------------------------------------------
// Specification of the file format
// ---------------------------------------------------------------------------

/// Splitting text at line feeds: the finished lines and the line being read.
pub open spec fn line_scan(s: Seq<char>) -> (Seq<Seq<char>>, Seq<char>)
    decreases s.len(),
{
    if s.len() == 0 {
        (Seq::empty(), Seq::empty())
    } else {
        let (done, cur) = line_scan(s.drop_last());
        if s.last() == '\n' {
            (done.push(cur), Seq::empty())
        } else {
            (done, cur.push(s.last()))
        }
    }
}

/// The lines of a text (a carriage return before a line feed stays in the
/// line, where it is white space).
pub open spec fn text_lines(s: Seq<char>) -> Seq<Seq<char>> {
    line_scan(s).0.push(line_scan(s).1)
}

/// Splitting a line into white-space separated words: the finished words
/// and the word being read.
pub open spec fn word_scan(s: Seq<char>) -> (Seq<Seq<char>>, Seq<char>)
    decreases s.len(),
{
    if s.len() == 0 {
        (Seq::empty(), Seq::empty())
    } else {
        let (done, cur) = word_scan(s.drop_last());
        if spec_is_whitespace(s.last()) {
            if cur.len() > 0 {
                (done.push(cur), Seq::empty())
            } else {
                (done, cur)
            }
        } else {
            (done, cur.push(s.last()))
        }
    }
}

/// `str::split_whitespace`.
pub open spec fn words(s: Seq<char>) -> Seq<Seq<char>> {
    let (done, cur) = word_scan(s);
    if cur.len() > 0 {
        done.push(cur)
    } else {
        done
    }
}

/// The value of a string of decimal digits.
pub open spec fn digits_value(d: Seq<char>) -> nat
    decreases d.len(),
{
    if d.len() == 0 {
        0
    } else {
        digits_value(d.drop_last()) * 10 + ((d.last() as u32) - 48) as nat
    }
}

pub open spec fn all_digits(d: Seq<char>) -> bool {
    forall|i: int| 0 <= i < d.len() ==> is_ascii_digit(#[trigger] d[i])
}

/// `u32::from_str`: an optional `+` followed by at least one decimal digit,
/// with a value that fits in 32 bits.
pub open spec fn spec_parse_u32(s: Seq<char>) -> Option<u32> {
    let d = if s.len() > 0 && s[0] == '+' {
        s.drop_first()
    } else {
        s
    };
    if d.len() > 0 && all_digits(d) && digits_value(d) <= u32::MAX {
        Some(digits_value(d) as u32)
    } else {
        None
    }
}

/// The entry of a vocabulary line: `(index, token)` for a line of exactly two
/// words of which the second, or else the first, is an index.
pub open spec fn line_entry(line: Seq<char>) -> Option<(u32, Seq<char>)> {
    let p = words(line);
    if p.len() == 2 {
        match spec_parse_u32(p[1]) {
            Some(i) => Some((i, p[0])),
            None => match spec_parse_u32(p[0]) {
                Some(i) => Some((i, p[1])),
                None => None,
            },
        }
    } else {
        None
    }
}

/// The vocabulary of a sequence of lines, later lines replacing earlier
/// entries for the same index.
pub open spec fn vocab_of_lines(lines: Seq<Seq<char>>) -> Map<u32, Seq<char>>
    decreases lines.len(),
{
    if lines.len() == 0 {
        Map::empty()
    } else {
        let m = vocab_of_lines(lines.drop_last());
        match line_entry(lines.last()) {
            Some((i, t)) => m.insert(i, t),
            None => m,
        }
    }
}

/// The vocabulary of a file's text.
pub open spec fn spec_vocab(content: Seq<char>) -> Map<u32, Seq<char>> {
    vocab_of_lines(text_lines(content))
}

/// The entries of a sequence of lines, in file order.
pub open spec fn vocab_entries(lines: Seq<Seq<char>>) -> Seq<(u32, Seq<char>)>
    decreases lines.len(),
{
    if lines.len() == 0 {
        Seq::empty()
    } else {
        let e = vocab_entries(lines.drop_last());
        match line_entry(lines.last()) {
            Some(x) => e.push(x),
            None => e,
        }
    }
}

proof fn lemma_entries_push(lines: Seq<Seq<char>>, line: Seq<char>)
    ensures
        keys_of(vocab_entries(lines.push(line))) == match line_entry(line) {
            Some(x) => keys_of(vocab_entries(lines)).push(x.0),
            None => keys_of(vocab_entries(lines)),
        },
{
    assert(lines.push(line).drop_last() =~= lines);
    let ents = vocab_entries(lines);
    match line_entry(line) {
        Some(x) => {
            assert(vocab_entries(lines.push(line)) == ents.push(x));
            assert(ents.push(x).drop_last() =~= ents);
        },
        None => {
            assert(vocab_entries(lines.push(line)) == ents);
        },
    }
}

/// The indices of the entries of a text, in file order.
pub open spec fn entry_keys(content: Seq<char>) -> Seq<u32> {
    keys_of(vocab_entries(text_lines(content)))
}

/// The indices of a sequence of entries.
pub open spec fn keys_of(entries: Seq<(u32, Seq<char>)>) -> Seq<u32>
    decreases entries.len(),
{
    if entries.len() == 0 {
        Seq::empty()
    } else {
        keys_of(entries.drop_last()).push(entries.last().0)
    }
}

/// The blank index: the first index, in file order, whose token in the
/// vocabulary is a blank token; 0 when there is none.
pub open spec fn first_blank(keys: Seq<u32>, m: Map<u32, Seq<char>>) -> u32
    decreases keys.len(),
{
    if keys.len() == 0 {
        0
    } else if m.contains_key(keys[0]) && is_blank_token(m[keys[0]]) {
        keys[0]
    } else {
        first_blank(keys.drop_first(), m)
    }
}

/// The tokens that mark "no output" in CTC and RNN-T models.
pub open spec fn is_blank_token(t: Seq<char>) -> bool {
    t == "<blk>"@ || t == "<blank>"@
}

/// The view of a vocabulary held in memory.
pub open spec fn vocab_view(m: Map<u32, String>) -> Map<u32, Seq<char>> {
    m.map_values(|s: String| s@)
}

// ---------------------------------------------------------------------------
// Parsing
// ---------------------------------------------------------------------------

/// `u32::from_str`.
pub fn parse_u32(w: &Vec<char>) -> (r: Option<u32>)
    ensures
        r == spec_parse_u32(w@),
{
    let start: usize = if w.len() > 0 && w[0] == '+' {
        1
    } else {
        0
    };
    let ghost d = if w@.len() > 0 && w@[0] == '+' {
        w@.drop_first()
    } else {
        w@
    };
    proof {
        assert(d =~= w@.skip(start as int));
    }
    if start == w.len() {
        return None;
    }
    let mut val: u64 = 0;
    let mut i = start;
    while i < w.len()
        invariant
            start <= i <= w.len(),
            start < w.len(),
            d == w@.skip(start as int),
            d == (if w@.len() > 0 && w@[0] == '+' {
                w@.drop_first()
            } else {
                w@
            }),
            all_digits(w@.subrange(start as int, i as int)),
            val == digits_value(w@.subrange(start as int, i as int)),
            val <= u32::MAX,
        decreases w.len() - i,
    {
        let c = w[i];
        if !('0' <= c && c <= '9') {
            proof {
                assert(d[i - start] == c);
                assert(!is_ascii_digit(d[i - start]));
            }
            return None;
        }
        let ghost prefix = w@.subrange(start as int, i + 1);
        proof {
            assert(prefix.drop_last() =~= w@.subrange(start as int, i as int));
            assert(prefix.last() == c);
        }
        let digit = (c as u32 - 48) as u64;
        val = val * 10 + digit;
        i += 1;
        if val > 4294967295u64 {
            proof {
                if all_digits(d) {
                    lemma_digits_value_prefix(d, i - start);
                    assert(d.take(i - start) =~= prefix);
                }
            }
            return None;
        }
    }
    proof {
        assert(w@.subrange(start as int, w@.len() as int) =~= d);
    }
    Some(val as u32)
}

/// The value of a digit string is at least the value of each of its
/// prefixes, so an overflow in a prefix is an overflow of the whole.
proof fn lemma_digits_value_prefix(d: Seq<char>, k: int)
    requires
        0 <= k <= d.len(),
        all_digits(d),
    ensures
        digits_value(d) >= digits_value(d.take(k)),
    decreases d.len() - k,
{
    if k < d.len() {
        lemma_digits_value_prefix(d, k + 1);
        assert(d.take(k + 1).drop_last() =~= d.take(k));
        assert(is_ascii_digit(d[k]));
    } else {
        assert(d.take(k) =~= d);
    }
}

/// `str::split_whitespace`.
pub fn split_words(line: &Vec<char>) -> (r: Vec<Vec<char>>)
    ensures
        r@.map_values(|w: Vec<char>| w@) == words(line@),
{
    let mut done: Vec<Vec<char>> = Vec::new();
    let mut cur: Vec<char> = Vec::new();
    let mut i: usize = 0;
    while i < line.len()
        invariant
            i <= line.len(),
            (done@.map_values(|w: Vec<char>| w@), cur@) == word_scan(line@.take(i as int)),
        decreases line.len() - i,
    {
        let c = line[i];
        proof {
            assert(line@.take(i + 1).drop_last() =~= line@.take(i as int));
        }
        if char_is_whitespace(c) {
            if cur.len() > 0 {
                let ghost before = done@;
                let w = cur;
                done.push(w);
                cur = Vec::new();
                proof {
                    assert(done@.map_values(|w: Vec<char>| w@) =~= before.map_values(
                        |w: Vec<char>| w@,
                    ).push(w@));
                }
            }
        } else {
            cur.push(c);
        }
        i += 1;
    }
    proof {
        assert(line@.take(line.len() as int) =~= line@);
    }
    if cur.len() > 0 {
        let ghost before = done@;
        let w = cur;
        done.push(w);
        proof {
            assert(done@.map_values(|w: Vec<char>| w@) =~= before.map_values(|w: Vec<char>| w@).push(
                w@,
            ));
        }
    }
    done
}

/// The entry of one vocabulary line.
fn parse_line(line: &Vec<char>) -> (r: Option<(u32, Vec<char>)>)
    ensures
        match (r, line_entry(line@)) {
            (Some((i, t)), Some((si, st))) => i == si && t@ == st,
            (None, None) => true,
            _ => false,
        },
{
    let parts = split_words(line);
    proof {
        assert(parts@.map_values(|w: Vec<char>| w@).len() == parts@.len());
    }
    if parts.len() != 2 {
        return None;
    }
    proof {
        assert(parts@.map_values(|w: Vec<char>| w@)[0] == parts@[0]@);
        assert(parts@.map_values(|w: Vec<char>| w@)[1] == parts@[1]@);
    }
    match parse_u32(&parts[1]) {
        Some(i) => Some((i, parts[0].clone())),
        None => match parse_u32(&parts[0]) {
            Some(i) => Some((i, parts[1].clone())),
            None => None,
        },
    }
}

/// Reads a vocabulary file and finds its blank token.
///
/// The result maps each index to its token as `spec_vocab` says. The blank
/// index is that of a `<blk>` or `<blank>` token when there is one (the first
/// such entry in file order), else 0. A file without any entry is an error
/// that names `path`.
pub fn parse_vocab(content: &str, path: &str) -> (r: Result<(HashMap<u32, String>, u32), String>)
    ensures
        match r {
            Ok((m, blank)) => {
                &&& vocab_view(m@) == spec_vocab(content@)
                &&& m@.dom().len() > 0
                &&& blank == first_blank(entry_keys(content@), spec_vocab(content@))
                &&& (exists|k: u32| #[trigger] m@.contains_key(k) && is_blank_token(m@[k]@))
                    ==> m@.contains_key(blank) && is_blank_token(m@[blank]@)
                &&& !(exists|k: u32| #[trigger] m@.contains_key(k) && is_blank_token(m@[k]@))
                    ==> blank == 0
            },
            Err(e) => spec_vocab(content@).dom().len() == 0 && e@ == "vocab пуст или не распознан: "@
                + path@,
        },
{
    let text = chars_of(content);
    let mut m: HashMap<u32, String> = HashMap::new();
    let mut keys: Vec<u32> = Vec::new();
    let mut cur: Vec<char> = Vec::new();
    let mut i: usize = 0;
    while i < text.len()
        invariant
            i <= text.len(),
            vocab_view(m@) == vocab_of_lines(line_scan(text@.take(i as int)).0),
            keys@ == keys_of(vocab_entries(line_scan(text@.take(i as int)).0)),
            cur@ == line_scan(text@.take(i as int)).1,
            m@.dom() == keys@.to_set(),
        decreases text.len() - i,
    {
        let c = text[i];
        proof {
            assert(text@.take(i + 1).drop_last() =~= text@.take(i as int));
        }
        if c == '\n' {
            let ghost lines = line_scan(text@.take(i as int)).0;
            proof {
                assert(lines.push(cur@).drop_last() =~= lines);
            }
            insert_line(&mut m, &mut keys, &cur);
            proof {
                assert(line_scan(text@.take(i + 1)).0 == lines.push(cur@));
                lemma_entries_push(lines, cur@);
            }
            cur = Vec::new();
        } else {
            proof {
                assert(line_scan(text@.take(i + 1)).0 == line_scan(text@.take(i as int)).0);
            }
            proof {
                assert(line_scan(text@.take(i + 1)).0 == line_scan(text@.take(i as int)).0);
            }
            cur.push(c);
        }
        i += 1;
    }
    proof {
        assert(text@.take(text.len() as int) =~= text@);
        let lines = line_scan(text@).0;
        assert(text_lines(content@).drop_last() =~= lines);
    }
    insert_line(&mut m, &mut keys, &cur);
    proof {
        let lines = line_scan(text@).0;
        assert(text_lines(content@) == lines.push(cur@));
        lemma_entries_push(lines, cur@);
        assert(keys@ == entry_keys(content@));
    }
    if m.len() == 0 {
        proof {
            assert(m@.dom().len() == 0);
            assert(vocab_view(m@).dom() =~= m@.dom());
        }
        let mut msg = chars_of("vocab пуст или не распознан: ");
        append_str(&mut msg, path);
        return Err(string_of(&msg));
    }
    proof {
        assert(vocab_view(m@).dom() =~= m@.dom());
    }
    let ghost vv = vocab_view(m@);
    proof {
        assert(keys@.skip(0) =~= keys@);
    }
    let mut blank: u32 = 0;
    let mut found = false;
    let mut j: usize = 0;
    while j < keys.len()
        invariant
            j <= keys.len(),
            vv == vocab_view(m@),
            m@.dom() == keys@.to_set(),
            found ==> blank == first_blank(keys@, vv),
            !found ==> first_blank(keys@, vv) == first_blank(keys@.skip(j as int), vv),
            found ==> m@.contains_key(blank) && is_blank_token(m@[blank]@),
            !found ==> blank == 0,
            !found ==> forall|a: int| 0 <= a < j ==> !is_blank_token(#[trigger] m@[keys@[a]]@),
        decreases keys.len() - j,
    {
        proof {
            assert(keys@.skip(j as int).drop_first() =~= keys@.skip(j + 1));
            assert(keys@.skip(j as int)[0] == keys@[j as int]);
        }
        if !found {
            let k = keys[j];
            proof {
                assert(keys@.to_set().contains(k));
            }
            match m.get(&k) {
                Some(t) => {
                    if is_blank_text(&chars_of(t.as_str())) {
                        blank = k;
                        found = true;
                    }
                },
                None => {},
            }
        }
        j += 1;
    }
    proof {
        if !found {
            assert(keys@.skip(keys@.len() as int) =~= Seq::<u32>::empty());
        }
    }
    proof {
        if !found {
            assert forall|k: u32| #[trigger] m@.contains_key(k) implies !is_blank_token(m@[k]@) by {
                assert(keys@.to_set().contains(k));
                let a = choose|a: int| 0 <= a < keys@.len() && keys@[a] == k;
                assert(!is_blank_token(m@[keys@[a]]@));
            }
        }
    }
    Ok((m, blank))
}

fn is_blank_text(t: &Vec<char>) -> (r: bool)
    ensures
        r == is_blank_token(t@),
{
    crate::text::chars_eq(t, &chars_of("<blk>")) || crate::text::chars_eq(t, &chars_of("<blank>"))
}

/// Adds the entry of one line, if it has one.
fn insert_line(m: &mut HashMap<u32, String>, keys: &mut Vec<u32>, line: &Vec<char>)
    requires
        old(m)@.dom() == old(keys)@.to_set(),
    ensures
        vocab_view(final(m)@) == match line_entry(line@) {
            Some((i, t)) => vocab_view(old(m)@).insert(i, t),
            None => vocab_view(old(m)@),
        },
        final(keys)@ == match line_entry(line@) {
            Some((i, _)) => old(keys)@.push(i),
            None => old(keys)@,
        },
        final(m)@.dom() == final(keys)@.to_set(),
{
    match parse_line(line) {
        Some((i, t)) => {
            let s = string_of(&t);
            m.insert(i, s);
            keys.push(i);
            proof {
                assert(vocab_view(m@) =~= vocab_view(old(m)@).insert(i, t@));
                assert forall|x: u32| #[trigger] keys@.to_set().contains(x) == old(keys)@.to_set().insert(
                    i,
                ).contains(x) by {
                    if old(keys)@.contains(x) {
                        let a = choose|a: int| 0 <= a < old(keys)@.len() && old(keys)@[a] == x;
                        assert(keys@[a] == x);
                    }
                    if keys@.contains(x) && x != i {
                        let a = choose|a: int| 0 <= a < keys@.len() && keys@[a] == x;
                        assert(a < old(keys)@.len());
                        assert(old(keys)@[a] == x);
                    }
                    if x == i {
                        assert(keys@[keys@.len() - 1] == i);
                    }
                }
                assert(keys@.to_set() =~= old(keys)@.to_set().insert(i));
            }
        },
        None => {},
    }
}

// ---------------------------------------------------------------------------
// Detokenization
// ---------------------------------------------------------------------------

/// The concatenated tokens of an id sequence; ids without a token are skipped.
pub open spec fn token_text(ids: Seq<u32>, vocab: Map<u32, Seq<char>>) -> Seq<char>
    decreases ids.len(),
{
    if ids.len() == 0 {
        Seq::empty()
    } else {
        token_text(ids.drop_last(), vocab) + if vocab.contains_key(ids.last()) {
            vocab[ids.last()]
        } else {
            Seq::empty()
        }
    }
}

/// The word-boundary marker of SentencePiece tokens, `▁`.
pub open spec fn word_marker() -> char {
    '\u{2581}'
}

/// Word-boundary markers replaced by spaces.
pub open spec fn markers_to_spaces(s: Seq<char>) -> Seq<char> {
    s.map_values(|c: char| if c == word_marker() { ' ' } else { c })
}

/// The text of a token sequence: the tokens concatenated, word-boundary
/// markers turned into spaces, and the result trimmed.
pub open spec fn spec_detokenize(ids: Seq<u32>, vocab: Map<u32, Seq<char>>) -> Seq<char> {
    trim_ws(markers_to_spaces(token_text(ids, vocab)))
}

/// The text of a token sequence.
pub fn detokenize(ids: &Vec<u32>, vocab: &HashMap<u32, String>) -> (r: String)
    ensures
        r@ == spec_detokenize(ids@, vocab_view(vocab@)),
{
    let ghost vv = vocab_view(vocab@);
    let mut out: Vec<char> = Vec::new();
    let mut i: usize = 0;
    while i < ids.len()
        invariant
            i <= ids.len(),
            vv == vocab_view(vocab@),
            out@ == markers_to_spaces(token_text(ids@.take(i as int), vv)),
        decreases ids.len() - i,
    {
        let id = ids[i];
        proof {
            assert(ids@.take(i + 1).drop_last() =~= ids@.take(i as int));
        }
        let ghost before = out@;
        match vocab.get(&id) {
            Some(t) => {
                let tv = chars_of(t.as_str());
                let mut k: usize = 0;
                while k < tv.len()
                    invariant
                        k <= tv.len(),
                        out@ == before + markers_to_spaces(tv@.take(k as int)),
                    decreases tv.len() - k,
                {
                    let c = tv[k];
                    if c == '\u{2581}' {
                        out.push(' ');
                    } else {
                        out.push(c);
                    }
                    k += 1;
                    proof {
                        assert(markers_to_spaces(tv@.take(k as int)) =~= markers_to_spaces(
                            tv@.take(k - 1),
                        ).push(if c == word_marker() { ' ' } else { c }));
                        assert(out@ =~= before + markers_to_spaces(tv@.take(k as int)));
                    }
                }
                proof {
                    assert(tv@.take(tv.len() as int) =~= tv@);
                    assert(vv[id] == t@);
                    assert(markers_to_spaces(token_text(ids@.take(i + 1), vv)) =~= before
                        + markers_to_spaces(tv@));
                }
            },
            None => {
                proof {
                    assert(!vv.contains_key(id));
                    assert(token_text(ids@.take(i + 1), vv) =~= token_text(ids@.take(i as int), vv));
                }
            },
        }
        i += 1;
    }
    proof {
        assert(ids@.take(ids.len() as int) =~= ids@);
    }
    let t = trim_whitespace(&out);
    string_of(&t)
}

} // verus!

//! Character and string helpers shared by the parsers.

use vstd::prelude::*;

verus! {

/// ASCII lower-casing of one character; other characters are left as they are.
pub open spec fn ascii_lower(c: char) -> char {
    if 'A' <= c && c <= 'Z' {
        ((c as u32) + 32) as char
    } else {
        c
    }
}

/// The text of an error message that quotes a value: `'<value><suffix>`.
pub open spec fn quoted(value: Seq<char>, suffix: Seq<char>) -> Seq<char> {
    "'"@ + value + suffix
}

/// Builds `'<value><suffix>`.
pub fn quoted_message(value: &str, suffix: &str) -> (r: String)
    ensures
        r@ == quoted(value@, suffix@),
{
    let mut s = String::from_str("'");
    s.append(value);
    s.append(suffix);
    s
}

/// Number of bytes that UTF-8 takes for one character.
pub open spec fn char_width(c: char) -> nat {
    if (c as u32) < 0x80 {
        1
    } else if (c as u32) < 0x800 {
        2
    } else if (c as u32) < 0x10000 {
        3
    } else {
        4
    }
}

/// Number of bytes that UTF-8 takes for a text.
pub open spec fn utf8_len(s: Seq<char>) -> nat
    decreases s.len(),
{
    if s.len() == 0 {
        0
    } else {
        char_width(s[0]) + utf8_len(s.drop_first())
    }
}

/// The byte length that `str::len` reports is the sum of the character widths.
pub proof fn lemma_encode_utf8_len(s: Seq<char>)
    ensures
        vstd::utf8::encode_utf8(s).len() == utf8_len(s),
    decreases s.len(),
{
    if s.len() > 0 {
        lemma_encode_utf8_len(s.drop_first());
        let c = s[0];
        vstd::utf8::char_is_scalar(c);
    }
}

/// Byte length is additive over concatenation.
pub proof fn lemma_utf8_len_concat(a: Seq<char>, b: Seq<char>)
    ensures
        utf8_len(a + b) == utf8_len(a) + utf8_len(b),
    decreases a.len(),
{
    if a.len() > 0 {
        assert((a + b).drop_first() =~= a.drop_first() + b);
        lemma_utf8_len_concat(a.drop_first(), b);
    }
}

/// A text of one byte is one ASCII character, and conversely.
pub proof fn lemma_utf8_len_one(s: Seq<char>)
    ensures
        utf8_len(s) == 1 <==> (s.len() == 1 && (s[0] as u32) < 0x80),
{
    if s.len() > 0 {
        reveal_with_fuel(utf8_len, 2);
        if s.len() > 1 {
            lemma_utf8_len_ge_len(s.drop_first());
        }
    }
}

/// Every character takes at least one byte.
pub proof fn lemma_utf8_len_ge_len(s: Seq<char>)
    ensures
        utf8_len(s) >= s.len(),
    decreases s.len(),
{
    if s.len() > 0 {
        lemma_utf8_len_ge_len(s.drop_first());
    }
}

/// The byte length of a string, counted up to three: texts of three or more bytes
/// report three.
pub fn byte_len_up_to_three(value: &str) -> (r: usize)
    ensures
        r == if utf8_len(value@) < 3 { utf8_len(value@) } else { 3 },
{
    proof {
        lemma_utf8_len_ge_len(value@);
    }
    let n = value.unicode_len();
    if n == 0 {
        0
    } else if n == 1 {
        let c = value.get_char(0);
        proof {
            reveal_with_fuel(utf8_len, 2);
        }
        if (c as u32) < 0x80 {
            1
        } else if (c as u32) < 0x800 {
            2
        } else {
            3
        }
    } else if n == 2 {
        let c0 = value.get_char(0);
        let c1 = value.get_char(1);
        proof {
            reveal_with_fuel(utf8_len, 3);
            assert(value@.drop_first().drop_first().len() == 0);
        }
        if (c0 as u32) < 0x80 && (c1 as u32) < 0x80 {
            2
        } else {
            3
        }
    } else {
        3
    }
}

/// The characters with the Unicode `White_Space` property.
pub open spec fn is_white_space(c: char) -> bool {
    let u = c as u32;
    (0x09 <= u && u <= 0x0D) || u == 0x20 || u == 0x85 || u == 0xA0 || u == 0x1680 || (0x2000
        <= u && u <= 0x200A) || u == 0x2028 || u == 0x2029 || u == 0x202F || u == 0x205F || u
        == 0x3000
}

/// Whether a character has the Unicode `White_Space` property.
pub fn is_white_space_char(c: char) -> (r: bool)
    ensures
        r == is_white_space(c),
{
    let u = c as u32;
    (0x09 <= u && u <= 0x0D) || u == 0x20 || u == 0x85 || u == 0xA0 || u == 0x1680 || (0x2000
        <= u && u <= 0x200A) || u == 0x2028 || u == 0x2029 || u == 0x202F || u == 0x205F || u
        == 0x3000
}

/// The word that is being read, as a sequence of zero or one words.
pub open spec fn pending_word(cur: Seq<char>) -> Seq<Seq<char>> {
    if cur.len() > 0 {
        seq![cur]
    } else {
        seq![]
    }
}

/// The words of `s` that follow the partly read word `cur`: maximal runs of
/// characters that are not white space.
pub open spec fn split_words_from(s: Seq<char>, cur: Seq<char>) -> Seq<Seq<char>>
    decreases s.len(),
{
    if s.len() == 0 {
        pending_word(cur)
    } else if is_white_space(s[0]) {
        pending_word(cur) + split_words_from(s.drop_first(), seq![])
    } else {
        split_words_from(s.drop_first(), cur.push(s[0]))
    }
}

/// The words of a text: its maximal runs of characters that are not white space.
pub open spec fn words_of(s: Seq<char>) -> Seq<Seq<char>> {
    split_words_from(s, seq![])
}

/// The views of a sequence of strings.
pub open spec fn string_views(s: Seq<String>) -> Seq<Seq<char>> {
    s.map_values(|t: String| t@)
}

/// Splits a text into its words, as `str::split_whitespace` does.
pub fn split_whitespace(s: &str) -> (r: Vec<String>)
    ensures
        string_views(r@) == words_of(s@),
{
    let n = s.unicode_len();
    let mut out: Vec<String> = Vec::new();
    let mut cur = String::new();
    let mut i: usize = 0;
    proof {
        assert(s@.skip(0) =~= s@);
        assert(string_views(out@) =~= Seq::<Seq<char>>::empty());
        assert(cur@ =~= Seq::<char>::empty());
    }
    while i < n
        invariant
            n == s@.len(),
            i <= n,
            words_of(s@) == string_views(out@) + split_words_from(s@.skip(i as int), cur@),
        decreases n - i,
    {
        let c = s.get_char(i);
        let ghost rest = s@.skip(i as int);
        let ghost old_out = string_views(out@);
        let ghost old_cur = cur@;
        proof {
            assert(rest.drop_first() =~= s@.skip(i + 1));
            assert(rest[0] == c);
        }
        if is_white_space_char(c) {
            proof {
                assert(split_words_from(rest, old_cur) == pending_word(old_cur) + split_words_from(
                    rest.drop_first(),
                    seq![],
                ));
            }
            if cur.unicode_len() > 0 {
                let word = cur;
                out.push(word);
                cur = String::new();
                proof {
                    assert(string_views(out@) =~= old_out.push(old_cur));
                    assert(cur@ =~= Seq::<char>::empty());
                    assert(words_of(s@) =~= string_views(out@) + split_words_from(
                        s@.skip(i + 1),
                        cur@,
                    ));
                }
            } else {
                proof {
                    assert(old_cur =~= Seq::<char>::empty());
                    assert(pending_word(old_cur) =~= Seq::<Seq<char>>::empty());
                    assert(words_of(s@) =~= string_views(out@) + split_words_from(
                        s@.skip(i + 1),
                        cur@,
                    ));
                }
            }
        } else {
            let piece = s.substring_char(i, i + 1);
            cur.append(piece);
            proof {
                assert(piece@ =~= seq![c]);
                assert(cur@ =~= old_cur.push(c));
                assert(split_words_from(rest, old_cur) == split_words_from(
                    rest.drop_first(),
                    old_cur.push(c),
                ));
            }
        }
        i = i + 1;
    }
    proof {
        assert(s@.skip(n as int) =~= Seq::<char>::empty());
    }
    if cur.unicode_len() > 0 {
        let ghost old_out = string_views(out@);
        let ghost old_cur = cur@;
        out.push(cur);
        proof {
            assert(string_views(out@) =~= old_out.push(old_cur));
            assert(words_of(s@) =~= string_views(out@));
        }
    } else {
        proof {
            assert(words_of(s@) =~= string_views(out@));
        }
    }
    out
}

/// The pieces of `s` that follow the partly read piece `cur`, split at every `sep`.
pub open spec fn split_pieces_from(s: Seq<char>, sep: char, cur: Seq<char>) -> Seq<Seq<char>>
    decreases s.len(),
{
    if s.len() == 0 {
        seq![cur]
    } else if s[0] == sep {
        seq![cur] + split_pieces_from(s.drop_first(), sep, seq![])
    } else {
        split_pieces_from(s.drop_first(), sep, cur.push(s[0]))
    }
}

/// The pieces of a text between separators, empty pieces included, as
/// `str::split` with a character gives them.
pub open spec fn pieces_of(s: Seq<char>, sep: char) -> Seq<Seq<char>> {
    split_pieces_from(s, sep, seq![])
}

/// Splits a text at every occurrence of a character.
pub fn split_on_char(s: &str, sep: char) -> (r: Vec<String>)
    ensures
        string_views(r@) == pieces_of(s@, sep),
{
    let n = s.unicode_len();
    let mut out: Vec<String> = Vec::new();
    let mut cur = String::new();
    let mut i: usize = 0;
    proof {
        assert(s@.skip(0) =~= s@);
        assert(string_views(out@) =~= Seq::<Seq<char>>::empty());
        assert(cur@ =~= Seq::<char>::empty());
    }
    while i < n
        invariant
            n == s@.len(),
            i <= n,
            pieces_of(s@, sep) == string_views(out@) + split_pieces_from(s@.skip(i as int), sep, cur@),
        decreases n - i,
    {
        let c = s.get_char(i);
        let ghost rest = s@.skip(i as int);
        let ghost old_out = string_views(out@);
        let ghost old_cur = cur@;
        proof {
            assert(rest.drop_first() =~= s@.skip(i + 1));
            assert(rest[0] == c);
        }
        if c == sep {
            let piece = cur;
            out.push(piece);
            cur = String::new();
            proof {
                assert(string_views(out@) =~= old_out.push(old_cur));
                assert(cur@ =~= Seq::<char>::empty());
                assert(pieces_of(s@, sep) =~= string_views(out@) + split_pieces_from(
                    s@.skip(i + 1),
                    sep,
                    cur@,
                ));
            }
        } else {
            let piece = s.substring_char(i, i + 1);
            cur.append(piece);
            proof {
                assert(piece@ =~= seq![c]);
                assert(cur@ =~= old_cur.push(c));
            }
        }
        i = i + 1;
    }
    proof {
        assert(s@.skip(n as int) =~= Seq::<char>::empty());
    }
    let ghost old_out = string_views(out@);
    let ghost old_cur = cur@;
    out.push(cur);
    proof {
        assert(string_views(out@) =~= old_out.push(old_cur));
        assert(pieces_of(s@, sep) =~= string_views(out@));
    }
    out
}

/// Parts written one after the other with a separator between neighbours.
pub open spec fn join(parts: Seq<Seq<char>>, sep: Seq<char>) -> Seq<char>
    decreases parts.len(),
{
    if parts.len() == 0 {
        seq![]
    } else if parts.len() == 1 {
        parts[0]
    } else {
        join(parts.drop_last(), sep) + sep + parts.last()
    }
}

/// Writes the parts one after the other with the separator between neighbours.
pub fn join_strings(parts: &Vec<String>, sep: &str) -> (r: String)
    ensures
        r@ == join(string_views(parts@), sep@),
{
    let mut r = String::new();
    let mut i: usize = 0;
    while i < parts.len()
        invariant
            i <= parts.len(),
            r@ == join(string_views(parts@.take(i as int)), sep@),
        decreases parts.len() - i,
    {
        proof {
            let done = string_views(parts@.take(i as int));
            let next = string_views(parts@.take(i + 1));
            assert(next.drop_last() =~= done);
            assert(next.last() == parts@[i as int]@);
        }
        if i > 0 {
            r.append(sep);
        }
        r.append(parts[i].as_str());
        proof {
            if i == 0 {
                assert(string_views(parts@.take(1)) =~= seq![parts@[0]@]);
            }
        }
        i = i + 1;
    }
    proof {
        assert(parts@.take(parts.len() as int) =~= parts@);
    }
    r
}

/// Every character of a text has the property.
pub open spec fn all_chars(t: Seq<char>, p: spec_fn(char) -> bool) -> bool {
    forall|i: int| 0 <= i < t.len() ==> p(#[trigger] t[i])
}

/// Joining parts whose characters all have a property, with a separator whose
/// characters have it too, gives a text whose characters all have it.
pub proof fn lemma_join_all_chars(parts: Seq<Seq<char>>, sep: Seq<char>, p: spec_fn(char) -> bool)
    requires
        forall|k: int| 0 <= k < parts.len() ==> all_chars(#[trigger] parts[k], p),
        all_chars(sep, p),
    ensures
        all_chars(join(parts, sep), p),
    decreases parts.len(),
{
    if parts.len() == 1 {
        assert(all_chars(parts[0], p));
    } else if parts.len() > 1 {
        let init = parts.drop_last();
        assert forall|k: int| 0 <= k < init.len() implies all_chars(#[trigger] init[k], p) by {
            assert(init[k] == parts[k]);
        }
        lemma_join_all_chars(init, sep, p);
        assert(all_chars(parts.last(), p));
        let a = join(init, sep);
        let t = a + sep + parts.last();
        assert forall|i: int| 0 <= i < t.len() implies p(#[trigger] t[i]) by {
            if i < a.len() {
                assert(t[i] == a[i]);
            } else if i < a.len() + sep.len() {
                assert(t[i] == sep[i - a.len()]);
            } else {
                assert(t[i] == parts.last()[i - a.len() - sep.len()]);
            }
        }
    }
}

/// The words of a text whose characters are white space or have a property are
/// made of characters with that property.
pub proof fn lemma_words_all_chars(s: Seq<char>, cur: Seq<char>, p: spec_fn(char) -> bool)
    requires
        forall|i: int| 0 <= i < s.len() ==> is_white_space(#[trigger] s[i]) || p(s[i]),
        all_chars(cur, p),
    ensures
        forall|k: int|
            0 <= k < split_words_from(s, cur).len() ==> all_chars(
                #[trigger] split_words_from(s, cur)[k],
                p,
            ),
    decreases s.len(),
{
    if s.len() == 0 {
        let w = split_words_from(s, cur);
        assert forall|k: int| 0 <= k < w.len() implies all_chars(#[trigger] w[k], p) by {
            assert(w[k] == cur);
        }
    } else {
        let rest = s.drop_first();
        assert forall|i: int| 0 <= i < rest.len() implies is_white_space(#[trigger] rest[i]) || p(
            rest[i],
        ) by {
            assert(rest[i] == s[i + 1]);
        }
        if is_white_space(s[0]) {
            lemma_words_all_chars(rest, seq![], p);
            let w = split_words_from(s, cur);
            let tail = split_words_from(rest, seq![]);
            assert forall|k: int| 0 <= k < w.len() implies all_chars(#[trigger] w[k], p) by {
                if cur.len() > 0 && k > 0 {
                    assert(w[k] == tail[k - 1]);
                } else if cur.len() == 0 {
                    assert(w[k] == tail[k]);
                } else {
                    assert(w[k] == cur);
                }
            }
        } else {
            let next = cur.push(s[0]);
            assert forall|i: int| 0 <= i < next.len() implies p(#[trigger] next[i]) by {
                if i < cur.len() {
                    assert(next[i] == cur[i]);
                }
            }
            lemma_words_all_chars(rest, next, p);
            assert(split_words_from(s, cur) == split_words_from(rest, next));
        }
    }
}

/// A text with every ASCII capital letter lower-cased.
pub open spec fn lower_text(s: Seq<char>) -> Seq<char> {
    s.map_values(|c: char| ascii_lower(c))
}

/// Lower-casing keeps the length and byte length of a text, works character by
/// character, and lower-casing twice is lower-casing once.
pub proof fn lemma_lower_text(s: Seq<char>)
    ensures
        lower_text(s).len() == s.len(),
        forall|i: int| 0 <= i < s.len() ==> #[trigger] lower_text(s)[i] == ascii_lower(s[i]),
        utf8_len(lower_text(s)) == utf8_len(s),
        lower_text(lower_text(s)) == lower_text(s),
    decreases s.len(),
{
    if s.len() > 0 {
        lemma_lower_text(s.drop_first());
        assert(lower_text(s).drop_first() =~= lower_text(s.drop_first()));
    }
    assert(lower_text(lower_text(s)) =~= lower_text(s));
}

} // verus!

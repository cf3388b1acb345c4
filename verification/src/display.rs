use vstd::prelude::*;

use crate::text::{byte_len, digit, digit_char, push_char};

verus! {

/// Unicode `White_Space` characters (what `char::is_whitespace` accepts).
pub open spec fn is_space(c: char) -> bool {
    let u = c as u32;
    (0x09 <= u && u <= 0x0D) || u == 0x20 || u == 0x85 || u == 0xA0 || u == 0x1680 || (0x2000
        <= u && u <= 0x200A) || u == 0x2028 || u == 0x2029 || u == 0x202F || u == 0x205F || u
        == 0x3000
}

pub fn is_whitespace(c: char) -> (b: bool)
    ensures
        b == is_space(c),
{
    let u = c as u32;
    (0x09 <= u && u <= 0x0D) || u == 0x20 || u == 0x85 || u == 0xA0 || u == 0x1680 || (0x2000
        <= u && u <= 0x200A) || u == 0x2028 || u == 0x2029 || u == 0x202F || u == 0x205F || u
        == 0x3000
}

/// Splitting `s` left to right: the finished words and the word being read.
pub open spec fn split_state(s: Seq<char>) -> (Seq<Seq<char>>, Seq<char>)
    decreases s.len(),
{
    if s.len() == 0 {
        (Seq::empty(), Seq::empty())
    } else {
        let (ws, cur) = split_state(s.drop_last());
        let c = s.last();
        if is_space(c) {
            if cur.len() > 0 {
                (ws.push(cur), Seq::empty())
            } else {
                (ws, cur)
            }
        } else {
            (ws, cur.push(c))
        }
    }
}

/// The words of `s`: its maximal runs of non-whitespace characters.
pub open spec fn words(s: Seq<char>) -> Seq<Seq<char>> {
    let (ws, cur) = split_state(s);
    if cur.len() > 0 {
        ws.push(cur)
    } else {
        ws
    }
}

/// The words of `text`, in order.
pub fn split_words(text: &str) -> (ws: Vec<String>)
    ensures
        ws@.map_values(|w: String| w@) == words(text@),
{
    let n = text.unicode_len();
    let mut ws: Vec<String> = Vec::new();
    let mut cur = String::new();
    let mut i: usize = 0;
    while i < n
        invariant
            n == text@.len(),
            i <= n,
            (ws@.map_values(|w: String| w@), cur@) == split_state(text@.take(i as int)),
        decreases n - i,
    {
        let c = text.get_char(i);
        proof {
            assert(text@.take(i + 1).drop_last() =~= text@.take(i as int));
            assert(text@.take(i + 1).last() == c);
        }
        if is_whitespace(c) {
            if !cur.as_str().is_empty() {
                let ghost before = ws@;
                ws.push(cur);
                cur = String::new();
                assert(ws@.map_values(|w: String| w@) =~= before.map_values(|w: String| w@).push(
                    split_state(text@.take(i as int)).1,
                ));
            }
        } else {
            push_char(&mut cur, c);
        }
        i = i + 1;
    }
    assert(text@.take(n as int) =~= text@);
    if !cur.as_str().is_empty() {
        let ghost before = ws@;
        let ghost last = cur@;
        ws.push(cur);
        assert(ws@.map_values(|w: String| w@) =~= before.map_values(|w: String| w@).push(last));
    }
    ws
}

/// Greedy filling of lines of at most `max` bytes with `ws`: the finished
/// lines and the line being filled. A word that does not fit on a non-empty
/// line starts a new one.
pub open spec fn fill_state(ws: Seq<Seq<char>>, max: nat) -> (Seq<Seq<char>>, Seq<char>)
    decreases ws.len(),
{
    if ws.len() == 0 {
        (Seq::empty(), Seq::empty())
    } else {
        let (lines, cur) = fill_state(ws.drop_last(), max);
        let w = ws.last();
        let extra: nat = if cur.len() == 0 {
            0
        } else {
            1
        };
        if byte_len(cur) + byte_len(w) + extra > max && cur.len() > 0 {
            (lines.push(cur), w)
        } else if cur.len() > 0 {
            (lines, cur.push(' ') + w)
        } else {
            (lines, w)
        }
    }
}

/// `text` wrapped into lines of at most `max` bytes (a single word longer
/// than that gets a line of its own); no words gives one empty line.
pub open spec fn wrapped(text: Seq<char>, max: nat) -> Seq<Seq<char>> {
    let (lines, cur) = fill_state(words(text), max);
    let all = if cur.len() > 0 {
        lines.push(cur)
    } else {
        lines
    };
    if all.len() == 0 {
        seq![Seq::<char>::empty()]
    } else {
        all
    }
}

/// Wraps `text` on word boundaries into lines of at most `max_chars` bytes.
pub fn wrap_text(text: &str, max_chars: usize) -> (lines: Vec<String>)
    ensures
        lines@.map_values(|l: String| l@) == wrapped(text@, max_chars as nat),
{
    let ws = split_words(text);
    let ghost wv = ws@.map_values(|w: String| w@);
    let mut lines: Vec<String> = Vec::new();
    let mut current = String::new();
    let mut i: usize = 0;
    while i < ws.len()
        invariant
            i <= ws@.len(),
            wv == ws@.map_values(|w: String| w@),
            wv == words(text@),
            (lines@.map_values(|l: String| l@), current@) == fill_state(
                wv.take(i as int),
                max_chars as nat,
            ),
        decreases ws@.len() - i,
    {
        let word = ws[i].as_str();
        proof {
            assert(wv.take(i + 1).drop_last() =~= wv.take(i as int));
            assert(wv.take(i + 1).last() == word@);
        }
        let extra: u128 = if current.as_str().is_empty() {
            0
        } else {
            1
        };
        let cur_len = current.as_str().as_bytes().len() as u128;
        let word_len = word.as_bytes().len() as u128;
        let ghost prev = fill_state(wv.take(i as int), max_chars as nat);
        let ghost next = fill_state(wv.take(i + 1), max_chars as nat);
        assert(cur_len == byte_len(current@));
        assert(word_len == byte_len(word@));
        if cur_len + word_len + extra > max_chars as u128 && !current.as_str().is_empty() {
            let ghost before = lines@;
            let ghost finished = current@;
            lines.push(current);
            current = String::new();
            assert(lines@.map_values(|l: String| l@) =~= before.map_values(|l: String| l@).push(
                finished,
            ));
        }
        if !current.as_str().is_empty() {
            push_char(&mut current, ' ');
        }
        current.append(word);
        assert(current@ == next.1);
        assert(lines@.map_values(|l: String| l@) == next.0);
        i = i + 1;
    }
    assert(wv.take(ws@.len() as int) =~= wv);
    if !current.as_str().is_empty() {
        let ghost before = lines@;
        let ghost last = current@;
        lines.push(current);
        assert(lines@.map_values(|l: String| l@) =~= before.map_values(|l: String| l@).push(last));
    }
    if lines.len() == 0 {
        lines.push(String::new());
        assert(lines@.map_values(|l: String| l@) =~= seq![Seq::<char>::empty()]);
    }
    lines
}

/// Upper-case hexadecimal digit of `d < 16`.
pub open spec fn hex_char(d: int) -> char {
    if d < 10 {
        digit_char(d)
    } else if d == 10 {
        'A'
    } else if d == 11 {
        'B'
    } else if d == 12 {
        'C'
    } else if d == 13 {
        'D'
    } else if d == 14 {
        'E'
    } else {
        'F'
    }
}

fn hex_digit(d: u8) -> (c: char)
    requires
        d < 16,
    ensures
        c == hex_char(d as int),
{
    if d < 10 {
        digit(d as u64)
    } else if d == 10 {
        'A'
    } else if d == 11 {
        'B'
    } else if d == 12 {
        'C'
    } else if d == 13 {
        'D'
    } else if d == 14 {
        'E'
    } else {
        'F'
    }
}

/// The status an OLED adapter remembers: `<title>: <detail> @0x<AA>` with
/// the bus address in two upper-case hex digits.
pub open spec fn status_text(title: Seq<char>, detail: Seq<char>, address: u8) -> Seq<char> {
    title + ": "@ + detail + " @0x"@ + seq![hex_char((address / 16) as int), hex_char((address % 16) as int)]
}

pub fn format_status(title: &str, detail: &str, address: u8) -> (s: String)
    ensures
        s@ == status_text(title@, detail@, address),
{
    let mut s = String::from_str(title);
    s.append(": ");
    s.append(detail);
    s.append(" @0x");
    push_char(&mut s, hex_digit(address / 16));
    push_char(&mut s, hex_digit(address % 16));
    assert(s@ =~= status_text(title@, detail@, address));
    s
}

/// Text placed on the OLED with its top edge at row `y`.
pub struct ScreenText {
    pub text: String,
    pub y: i32,
}

/// Characters per line of the status screen.
pub const STATUS_LINE_CHARS: usize = 21;

/// Detail lines the status screen has room for.
pub const STATUS_DETAIL_LINES: usize = 4;

/// Row of the rule under the title.
pub const STATUS_RULE_Y: i32 = 13;

/// The status screen: the title at the top, then the first four lines of the
/// wrapped detail, 11 rows apart from row 18.
pub open spec fn status_screen(title: Seq<char>, detail: Seq<char>) -> Seq<(Seq<char>, int)> {
    let lines = wrapped(detail, 21);
    let shown = if lines.len() > 4 {
        lines.take(4)
    } else {
        lines
    };
    seq![(title, 0int)] + Seq::new(shown.len(), |i: int| (shown[i], 18 + 11 * i))
}

pub fn status_screen_texts(title: &str, detail: &str) -> (texts: Vec<ScreenText>)
    ensures
        texts@.map_values(|t: ScreenText| (t.text@, t.y as int)) == status_screen(title@, detail@),
{
    let lines = wrap_text(detail, STATUS_LINE_CHARS);
    let ghost lv = lines@.map_values(|l: String| l@);
    let ghost shown = if lv.len() > 4 {
        lv.take(4)
    } else {
        lv
    };
    let mut texts: Vec<ScreenText> = Vec::new();
    texts.push(ScreenText { text: String::from_str(title), y: 0 });
    let count = if lines.len() > STATUS_DETAIL_LINES {
        STATUS_DETAIL_LINES
    } else {
        lines.len()
    };
    let mut i: usize = 0;
    while i < count
        invariant
            count == shown.len(),
            count <= 4,
            count <= lines@.len(),
            lv == lines@.map_values(|l: String| l@),
            shown == (if lv.len() > 4 {
                lv.take(4)
            } else {
                lv
            }),
            i <= count,
            texts@.map_values(|t: ScreenText| (t.text@, t.y as int)) == seq![(title@, 0int)]
                + Seq::new(i as nat, |j: int| (shown[j], 18 + 11 * j)),
        decreases count - i,
    {
        let ghost before = texts@;
        assert(before.map_values(|t: ScreenText| (t.text@, t.y as int)).len() == i + 1);
        assert(before.len() == i + 1);
        let y: i32 = 18 + 11 * (i as i32);
        assert(shown[i as int] == lines@[i as int]@);
        texts.push(ScreenText { text: lines[i].clone(), y });
        assert(texts@ =~= before.push(texts@[i + 1]));
        assert(texts@.map_values(|t: ScreenText| (t.text@, t.y as int)) =~= before.map_values(
            |t: ScreenText| (t.text@, t.y as int),
        ).push((shown[i as int], 18 + 11 * i)));
        assert(texts@.map_values(|t: ScreenText| (t.text@, t.y as int)) =~= seq![(title@, 0int)]
            + Seq::new((i + 1) as nat, |j: int| (shown[j], 18 + 11 * j)));
        i = i + 1;
    }
    assert(texts@.map_values(|t: ScreenText| (t.text@, t.y as int)) =~= status_screen(
        title@,
        detail@,
    ));
    texts
}

/// `ls` joined with single spaces.
pub open spec fn joined(ls: Seq<Seq<char>>) -> Seq<char>
    decreases ls.len(),
{
    if ls.len() == 0 {
        Seq::empty()
    } else if ls.len() == 1 {
        ls[0]
    } else {
        joined(ls.drop_last()) + seq![' '] + ls.last()
    }
}

proof fn lemma_joined_push(ls: Seq<Seq<char>>, x: Seq<char>)
    ensures
        joined(ls.push(x)) == if ls.len() == 0 {
            x
        } else {
            joined(ls) + seq![' '] + x
        },
{
    assert(ls.push(x).drop_last() =~= ls);
}

/// Every word is non-empty.
proof fn lemma_split_state_nonempty(s: Seq<char>)
    ensures
        forall|i: int|
            0 <= i < split_state(s).0.len() ==> (#[trigger] split_state(s).0[i]).len() > 0,
    decreases s.len(),
{
    if s.len() > 0 {
        lemma_split_state_nonempty(s.drop_last());
        let (ws, cur) = split_state(s.drop_last());
        if is_space(s.last()) && cur.len() > 0 {
            let n = ws.push(cur);
            assert forall|i: int| 0 <= i < n.len() implies (#[trigger] n[i]).len() > 0 by {
                if i < ws.len() {
                    assert(n[i] == ws[i]);
                }
            }
        }
    }
}

proof fn lemma_words_nonempty(s: Seq<char>)
    ensures
        forall|i: int| 0 <= i < words(s).len() ==> (#[trigger] words(s)[i]).len() > 0,
{
    lemma_split_state_nonempty(s);
}

/// A single space is one byte.
proof fn lemma_space_byte_len()
    ensures
        byte_len(seq![' ']) == 1,
{
    let sp = seq![' '];
    assert(sp.drop_first() =~= Seq::<char>::empty());
    assert(vstd::utf8::has_width_1_encoding(' ' as u32));
    assert(vstd::utf8::encode_utf8(sp) =~= vstd::utf8::encode_scalar(' ' as u32) + vstd::utf8::encode_utf8(
        Seq::<char>::empty(),
    ));
}

/// While filling, the lines so far and the line being filled hold the words
/// in order, and each either fits or is a single word.
proof fn lemma_fill_state(ws: Seq<Seq<char>>, max: nat)
    requires
        forall|i: int| 0 <= i < ws.len() ==> (#[trigger] ws[i]).len() > 0,
    ensures
        ws.len() > 0 ==> fill_state(ws, max).1.len() > 0,
        ws.len() > 0 ==> joined(fill_state(ws, max).0.push(fill_state(ws, max).1)) == joined(ws),
        ws.len() == 0 ==> fill_state(ws, max).0.len() == 0 && fill_state(ws, max).1.len() == 0,
        forall|i: int|
            0 <= i < fill_state(ws, max).0.len() ==> byte_len(#[trigger] fill_state(ws, max).0[i])
                <= max || ws.contains(fill_state(ws, max).0[i]),
        byte_len(fill_state(ws, max).1) <= max || ws.contains(fill_state(ws, max).1),
    decreases ws.len(),
{
    if ws.len() > 0 {
        let prev = ws.drop_last();
        let w = ws.last();
        assert forall|i: int| 0 <= i < prev.len() implies (#[trigger] prev[i]).len() > 0 by {
            assert(prev[i] == ws[i]);
        }
        lemma_fill_state(prev, max);
        let (lines, cur) = fill_state(prev, max);
        assert(ws.contains(w)) by {
            assert(ws[ws.len() - 1] == w);
        }
        assert forall|x: Seq<char>| prev.contains(x) implies ws.contains(x) by {
            let j = choose|j: int| 0 <= j < prev.len() && prev[j] == x;
            assert(ws[j] == x);
        }
        assert(ws.len() == 1 ==> ws =~= seq![w]);
        if prev.len() > 0 {
            assert(ws.drop_last() == prev);
        }
        let extra: nat = if cur.len() == 0 {
            0
        } else {
            1
        };
        if byte_len(cur) + byte_len(w) + extra > max && cur.len() > 0 {
            lemma_joined_push(lines.push(cur), w);
            let nl = lines.push(cur);
            assert forall|i: int| 0 <= i < nl.len() implies byte_len(#[trigger] nl[i]) <= max
                || ws.contains(nl[i]) by {
                if i < lines.len() {
                    assert(nl[i] == lines[i]);
                }
            }
        } else if cur.len() > 0 {
            lemma_joined_push(lines, cur);
            lemma_joined_push(lines, cur.push(' ') + w);
            assert(cur.push(' ') + w =~= cur + seq![' '] + w);
            crate::text::lemma_encode_concat(cur, seq![' ']);
            crate::text::lemma_encode_concat(cur + seq![' '], w);
            lemma_space_byte_len();
            if lines.len() > 0 {
                assert(joined(lines) + seq![' '] + (cur + seq![' '] + w) =~= (joined(lines)
                    + seq![' '] + cur) + seq![' '] + w);
            }
            assert forall|i: int| 0 <= i < lines.len() implies byte_len(#[trigger] lines[i]) <= max
                || ws.contains(lines[i]) by {}
        } else {
            assert(prev.len() == 0);
            assert(ws =~= seq![w]);
        }
    }
}

/// No word is lost, repeated or reordered by wrapping: the lines joined
/// with spaces are the words joined with spaces. Every line fits in `max`
/// bytes unless it is a single word that is longer.
pub proof fn lemma_wrap_keeps_words(text: Seq<char>, max: nat)
    ensures
        words(text).len() > 0 ==> joined(wrapped(text, max)) == joined(words(text)),
        words(text).len() == 0 ==> wrapped(text, max) == seq![Seq::<char>::empty()],
        forall|i: int|
            0 <= i < wrapped(text, max).len() ==> byte_len(#[trigger] wrapped(text, max)[i]) <= max
                || words(text).contains(wrapped(text, max)[i]),
{
    let ws = words(text);
    lemma_words_nonempty(text);
    lemma_fill_state(ws, max);
    let (lines, cur) = fill_state(ws, max);
    if ws.len() > 0 {
        let all = lines.push(cur);
        assert(wrapped(text, max) == all);
        assert forall|i: int| 0 <= i < all.len() implies byte_len(#[trigger] all[i]) <= max
            || ws.contains(all[i]) by {
            if i < lines.len() {
                assert(all[i] == lines[i]);
            }
        }
    } else {
        assert(byte_len(Seq::<char>::empty()) == 0);
    }
}

} // verus!

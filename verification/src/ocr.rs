//! The integer and text side of captcha recognition: reading the
//! character dictionary, patching the model file, interpreting the shape of
//! the model's output, collapsing its best classes into text (CTC), and
//! sanitising that text.  The neural network and its floating-point output
//! stay with the front end.
use vstd::prelude::*;

use crate::text::{chars_of, decimal, push_char, string_of_chars, usize_to_decimal};

verus! {

// ---------------------------------------------------------------------------
// The dictionary.
// ---------------------------------------------------------------------------

/// The lines of `s`: the pieces between line feeds (the last piece is empty
/// when `s` ends with a line feed).
pub open spec fn split_lines(s: Seq<char>) -> Seq<Seq<char>>
    decreases s.len(),
{
    if s.len() == 0 {
        seq![Seq::empty()]
    } else {
        let prev = split_lines(s.drop_last());
        if s.last() == '\n' {
            prev.push(Seq::empty())
        } else {
            prev.update(prev.len() - 1, prev.last().push(s.last()))
        }
    }
}

/// `line` without its trailing carriage returns.
pub open spec fn trim_cr(line: Seq<char>) -> Seq<char>
    decreases line.len(),
{
    if line.len() > 0 && line.last() == '\r' {
        trim_cr(line.drop_last())
    } else {
        line
    }
}

/// The trimmed, non-empty lines among `lines`, in order.
pub open spec fn dict_lines(lines: Seq<Seq<char>>) -> Seq<Seq<char>>
    decreases lines.len(),
{
    if lines.len() == 0 {
        Seq::empty()
    } else {
        let t = trim_cr(lines.last());
        if t.len() > 0 {
            dict_lines(lines.drop_last()).push(t)
        } else {
            dict_lines(lines.drop_last())
        }
    }
}

/// The dictionary of a text: the blank entry (class 0), then each
/// non-empty line of the text without trailing carriage returns.
pub open spec fn dict_spec(content: Seq<char>) -> Seq<Seq<char>> {
    seq![Seq::empty()] + dict_lines(split_lines(content))
}

proof fn lemma_split_lines_nonempty(s: Seq<char>)
    ensures
        split_lines(s).len() >= 1,
    decreases s.len(),
{
    if s.len() > 0 {
        lemma_split_lines_nonempty(s.drop_last());
    }
}

/// `line` without its trailing carriage returns.
fn trim_cr_exec(line: &Vec<char>) -> (r: Vec<char>)
    ensures
        r@ == trim_cr(line@),
{
    let mut n: usize = line.len();
    assert(line@.take(n as int) =~= line@);
    while n > 0 && line[n - 1] == '\r'
        invariant
            n <= line.len(),
            trim_cr(line@) == trim_cr(line@.take(n as int)),
        decreases n,
    {
        assert(line@.take(n as int).drop_last() =~= line@.take(n - 1));
        n = n - 1;
    }
    let mut r: Vec<char> = Vec::new();
    let mut i: usize = 0;
    while i < n
        invariant
            i <= n <= line.len(),
            r@ == line@.take(i as int),
        decreases n - i,
    {
        r.push(line[i]);
        i = i + 1;
        assert(r@ =~= line@.take(i as int));
    }
    assert(n == 0 || line@.take(n as int).last() != '\r');
    r
}

fn push_line(out: &mut Vec<String>, line: &Vec<char>)
    ensures
        final(out).deep_view() == (if trim_cr(line@).len() > 0 {
            old(out).deep_view().push(trim_cr(line@))
        } else {
            old(out).deep_view()
        }),
{
    let t = trim_cr_exec(line);
    if t.len() > 0 {
        out.push(string_of_chars(&t));
        assert(final(out).deep_view() =~= old(out).deep_view().push(trim_cr(line@)));
    }
}

/// Reads the character dictionary of the recognition model.
pub fn parse_dict_content(content: &str) -> (dict: Vec<String>)
    ensures
        dict.deep_view() == dict_spec(content@),
{
    let cs = chars_of(content);
    let mut out: Vec<String> = Vec::new();
    out.push(String::new());
    let mut cur: Vec<char> = Vec::new();
    let mut i: usize = 0;
    proof {
        assert(cs@.take(0) =~= Seq::<char>::empty());
        assert(out.deep_view() =~= seq![Seq::<char>::empty()] + dict_lines(
            split_lines(cs@.take(0)).drop_last(),
        ));
    }
    while i < cs.len()
        invariant
            i <= cs.len(),
            cs@ == content@,
            split_lines(cs@.take(i as int)).len() >= 1,
            out.deep_view() == seq![Seq::<char>::empty()] + dict_lines(
                split_lines(cs@.take(i as int)).drop_last(),
            ),
            cur@ == split_lines(cs@.take(i as int)).last(),
        decreases cs.len() - i,
    {
        let c = cs[i];
        let ghost prev = split_lines(cs@.take(i as int));
        proof {
            assert(cs@.take(i + 1).drop_last() =~= cs@.take(i as int));
            lemma_split_lines_nonempty(cs@.take(i + 1));
        }
        if c == '\n' {
            push_line(&mut out, &cur);
            cur = Vec::new();
            proof {
                let next = split_lines(cs@.take(i + 1));
                assert(next == prev.push(Seq::empty()));
                assert(next.drop_last() =~= prev);
                assert(prev =~= prev.drop_last().push(prev.last()));
                assert(out.deep_view() =~= seq![Seq::<char>::empty()] + dict_lines(
                    next.drop_last(),
                ));
                assert(cur@ =~= next.last());
            }
        } else {
            cur.push(c);
            proof {
                let next = split_lines(cs@.take(i + 1));
                assert(next == prev.update(prev.len() - 1, prev.last().push(c)));
                assert(next.drop_last() =~= prev.drop_last());
            }
        }
        i = i + 1;
    }
    push_line(&mut out, &cur);
    proof {
        let all = split_lines(cs@.take(i as int));
        assert(cs@.take(i as int) =~= content@);
        assert(all =~= all.drop_last().push(all.last()));
        assert(out.deep_view() =~= dict_spec(content@));
    }
    out
}

// ---------------------------------------------------------------------------
// Captcha text.
// ---------------------------------------------------------------------------

pub open spec fn is_ascii_alnum(c: char) -> bool {
    ('0' <= c && c <= '9') || ('a' <= c && c <= 'z') || ('A' <= c && c <= 'Z')
}

/// The ASCII letters and digits of `s`, in order.
pub open spec fn alnum_chars(s: Seq<char>) -> Seq<char>
    decreases s.len(),
{
    if s.len() == 0 {
        Seq::empty()
    } else if is_ascii_alnum(s.last()) {
        alnum_chars(s.drop_last()).push(s.last())
    } else {
        alnum_chars(s.drop_last())
    }
}

/// The captcha text that a recognised text stands for: its first four ASCII
/// letters and digits (fewer when it has fewer).
pub open spec fn sanitize_captcha_spec(raw: Seq<char>) -> Seq<char> {
    let a = alnum_chars(raw);
    if a.len() <= 4 {
        a
    } else {
        a.take(4)
    }
}

/// What the letters and digits of a prefix of `s` are a prefix of.
proof fn lemma_alnum_prefix(s: Seq<char>, i: int)
    requires
        0 <= i <= s.len(),
    ensures
        alnum_chars(s.take(i)).len() <= alnum_chars(s).len(),
        alnum_chars(s.take(i)) =~= alnum_chars(s).take(alnum_chars(s.take(i)).len() as int),
    decreases s.len(),
{
    if i == s.len() {
        assert(s.take(i) =~= s);
    } else {
        assert(s.drop_last().take(i) =~= s.take(i));
        lemma_alnum_prefix(s.drop_last(), i);
    }
}

/// The first four ASCII letters and digits of a recognised text.
pub fn sanitize_captcha(raw: &str) -> (out: String)
    ensures
        out@ == sanitize_captcha_spec(raw@),
{
    let cs = chars_of(raw);
    let mut out = String::new();
    let mut n: usize = 0;
    let mut i: usize = 0;
    assert(cs@.take(0) =~= Seq::<char>::empty());
    while i < cs.len()
        invariant
            i <= cs.len(),
            cs@ == raw@,
            out@ == alnum_chars(cs@.take(i as int)),
            n == out@.len(),
            n < 4,
        decreases cs.len() - i,
    {
        let c = cs[i];
        assert(cs@.take(i + 1).drop_last() =~= cs@.take(i as int));
        if ('0' <= c && c <= '9') || ('a' <= c && c <= 'z') || ('A' <= c && c <= 'Z') {
            push_char(&mut out, c);
            n = n + 1;
            if n == 4 {
                proof {
                    lemma_alnum_prefix(raw@, i + 1);
                }
                return out;
            }
        }
        i = i + 1;
    }
    assert(cs@.take(i as int) =~= raw@);
    out
}

// ---------------------------------------------------------------------------
// The model file.
// ---------------------------------------------------------------------------

/// The bytes of "DynamicDimension.".
pub open spec fn dim_marker() -> Seq<u8> {
    seq![68u8, 121, 110, 97, 109, 105, 99, 68, 105, 109, 101, 110, 115, 105, 111, 110, 46]
}

/// "DynamicDimension." stands in `b` at position `i`.
pub open spec fn marker_at(b: Seq<u8>, i: int) -> bool {
    0 <= i && i + 17 <= b.len() && b.subrange(i, i + 17) == dim_marker()
}

/// The positions that the patch looks at: those before the last 17 bytes.
pub open spec fn scan_limit(len: int) -> int {
    if len >= 17 {
        len - 17
    } else {
        0
    }
}

/// The model bytes with "DynamicDimension." turned into
/// "DynamicDimension_" wherever it starts at a scanned position.
pub open spec fn patch_dim_names_spec(b: Seq<u8>) -> Seq<u8> {
    Seq::new(
        b.len(),
        |j: int|
            if j >= 16 && j - 16 < scan_limit(b.len() as int) && marker_at(b, j - 16) {
                95u8
            } else {
                b[j]
            },
    )
}

/// `r` is `b` patched at the marker positions below `i`.
pub open spec fn patched_below(b: Seq<u8>, r: Seq<u8>, i: int) -> bool {
    &&& r.len() == b.len()
    &&& forall|j: int|
        0 <= j < b.len() ==> #[trigger] r[j] == (if j >= 16 && j - 16 < i && marker_at(b, j - 16) {
            95u8
        } else {
            b[j]
        })
}

proof fn lemma_marker_bytes()
    ensures
        dim_marker().len() == 17,
        forall|k: int| 0 <= k < 17 ==> #[trigger] dim_marker()[k] != 95,
        forall|k: int| 0 <= k < 17 && #[trigger] dim_marker()[k] == 46 ==> k == 16,
{
    assert(dim_marker().len() == 17);
    assert forall|k: int| 0 <= k < 17 implies #[trigger] dim_marker()[k] != 95 by {
        assert(dim_marker()[k] == seq![68u8, 121, 110, 97, 109, 105, 99, 68, 105, 109, 101, 110, 115, 105, 111, 110, 46][k]);
    }
}

/// A window at `i` matches the marker in the partly patched bytes exactly
/// when it does in the original bytes: a patched byte never lies inside
/// another marker window.
proof fn lemma_window_unchanged(b: Seq<u8>, r: Seq<u8>, i: int)
    requires
        patched_below(b, r, i),
        0 <= i,
        i + 17 <= b.len(),
    ensures
        (forall|k: int| 0 <= k < 17 ==> r[i + k] == dim_marker()[k]) <==> marker_at(b, i),
{
    lemma_marker_bytes();
    if forall|k: int| 0 <= k < 17 ==> r[i + k] == dim_marker()[k] {
        assert forall|k: int| 0 <= k < 17 implies b[i + k] == dim_marker()[k] by {
            let j = i + k;
            assert(r[j] == dim_marker()[k]);
            if j >= 16 && j - 16 < i && marker_at(b, j - 16) {
                assert(r[j] == 95u8);
            }
        }
        assert(b.subrange(i, i + 17) =~= dim_marker());
    }
    if marker_at(b, i) {
        assert forall|k: int| 0 <= k < 17 implies r[i + k] == dim_marker()[k] by {
            let j = i + k;
            assert(b.subrange(i, i + 17)[k] == b[j]);
            if j >= 16 && j - 16 < i && marker_at(b, j - 16) {
                assert(b.subrange(j - 16, j + 1)[16] == b[j]);
                assert(b[j] == 46);
                assert(dim_marker()[k] == 46);
            }
        }
    }
}

fn marker_vec() -> (v: Vec<u8>)
    ensures
        v@ == dim_marker(),
{
    let v: Vec<u8> = vec![68u8, 121, 110, 97, 109, 105, 99, 68, 105, 109, 101, 110, 115, 105, 111, 110, 46];
    assert(v@ =~= dim_marker());
    v
}

/// Renames the model's dynamic dimensions so that the model reader accepts
/// them: each "DynamicDimension." starting before the last 17 bytes becomes
/// "DynamicDimension_".
pub fn patch_dim_names(bytes: &[u8]) -> (result: Vec<u8>)
    ensures
        result@ == patch_dim_names_spec(bytes@),
{
    let marker = marker_vec();
    let mut result: Vec<u8> = Vec::new();
    let mut c: usize = 0;
    while c < bytes.len()
        invariant
            c <= bytes.len(),
            result@ == bytes@.take(c as int),
        decreases bytes.len() - c,
    {
        result.push(bytes[c]);
        c = c + 1;
        assert(result@ =~= bytes@.take(c as int));
    }
    assert(bytes@.take(c as int) =~= bytes@);
    let len = bytes.len();
    let limit: usize = if len >= 17 {
        len - 17
    } else {
        0
    };
    let mut i: usize = 0;
    while i < limit
        invariant
            i <= limit,
            limit as int == scan_limit(len as int),
            len == bytes@.len(),
            marker@ == dim_marker(),
            patched_below(bytes@, result@, i as int),
        decreases limit - i,
    {
        let mut k: usize = 0;
        let mut matches = true;
        while k < 17
            invariant
                k <= 17,
                i < limit,
                limit as int == scan_limit(len as int),
                len == bytes@.len(),
                marker@ == dim_marker(),
                patched_below(bytes@, result@, i as int),
                matches ==> forall|k2: int| 0 <= k2 < k ==> result@[i + k2] == dim_marker()[k2],
                !matches ==> exists|k2: int| 0 <= k2 < 17 && result@[i + k2] != dim_marker()[k2],
            decreases 17 - k,
        {
            if matches && result[i + k] != marker[k] {
                matches = false;
            }
            k = k + 1;
        }
        proof {
            lemma_window_unchanged(bytes@, result@, i as int);
        }
        if matches {
            result.set(i + 16, 95u8);
        }
        assert(patched_below(bytes@, result@, i + 1)) by {
            assert forall|j: int| 0 <= j < bytes@.len() implies #[trigger] result@[j] == (if j
                >= 16 && j - 16 < i + 1 && marker_at(bytes@, j - 16) {
                95u8
            } else {
                bytes@[j]
            }) by {
                if j == i + 16 {
                } else {
                }
            }
        }
        i = i + 1;
    }
    assert(result@ =~= patch_dim_names_spec(bytes@));
    result
}

// ---------------------------------------------------------------------------
// The model's output.
// ---------------------------------------------------------------------------

/// How to read the model's output as rows of class scores: `time_steps`
/// rows of `classes` scores, taken by fixing index 0 of axis `batch_axis`,
/// transposed when `transposed`.
#[derive(Clone, Copy, Debug, PartialEq, Eq, Structural)]
pub struct LogitsLayout {
    pub time_steps: usize,
    pub classes: usize,
    pub batch_axis: usize,
    pub transposed: bool,
}

/// The text of a list of numbers as `{:?}` writes it, without brackets.
pub open spec fn number_list_body(s: Seq<usize>) -> Seq<char>
    decreases s.len(),
{
    if s.len() == 0 {
        Seq::empty()
    } else if s.len() == 1 {
        decimal(s[0] as nat)
    } else {
        number_list_body(s.drop_last()) + ", "@ + decimal(s.last() as nat)
    }
}

/// The text of a list of numbers as `{:?}` writes it.
pub open spec fn number_list(s: Seq<usize>) -> Seq<char> {
    "["@ + number_list_body(s) + "]"@
}

/// Writes a list of numbers as `{:?}` does.
pub fn format_number_list(s: &Vec<usize>) -> (r: String)
    ensures
        r@ == number_list(s@),
{
    let mut body = String::new();
    let mut i: usize = 0;
    assert(s@.take(0) =~= Seq::<usize>::empty());
    while i < s.len()
        invariant
            i <= s.len(),
            body@ == number_list_body(s@.take(i as int)),
        decreases s.len() - i,
    {
        let d = usize_to_decimal(s[i]);
        assert(s@.take(i + 1).drop_last() =~= s@.take(i as int));
        if i > 0 {
            body.append(", ");
        }
        body.append(d.as_str());
        i = i + 1;
        proof {
            if i == 1 {
                assert(body@ =~= decimal(s@[0] as nat));
            }
        }
    }
    assert(s@.take(i as int) =~= s@);
    let mut r = String::from_str("[");
    r.append(body.as_str());
    r.append("]");
    r
}

/// How the model's output of shape `shape` is read, or why it cannot be.
pub open spec fn logits_layout_spec(shape: Seq<usize>) -> Result<LogitsLayout, Seq<char>> {
    if shape.len() != 3 {
        Err("unexpected output shape: "@ + number_list(shape))
    } else {
        let layout = if shape[0] == 1 {
            if shape[2] >= shape[1] {
                Some(
                    LogitsLayout {
                        time_steps: shape[1],
                        classes: shape[2],
                        batch_axis: 0,
                        transposed: false,
                    },
                )
            } else {
                Some(
                    LogitsLayout {
                        time_steps: shape[2],
                        classes: shape[1],
                        batch_axis: 0,
                        transposed: true,
                    },
                )
            }
        } else if shape[1] == 1 {
            Some(
                LogitsLayout {
                    time_steps: shape[0],
                    classes: shape[2],
                    batch_axis: 1,
                    transposed: false,
                },
            )
        } else {
            None
        };
        match layout {
            None => Err("unsupported output layout: "@ + number_list(shape)),
            Some(l) => if l.classes == 0 || l.time_steps == 0 {
                Err("empty output logits"@)
            } else {
                Ok(l)
            },
        }
    }
}

/// Decides how to read the model's output of shape `shape`.
pub fn logits_layout(shape: &Vec<usize>) -> (r: Result<LogitsLayout, String>)
    ensures
        match r {
            Ok(l) => logits_layout_spec(shape@) == Ok::<LogitsLayout, Seq<char>>(l),
            Err(e) => logits_layout_spec(shape@) == Err::<LogitsLayout, Seq<char>>(e@),
        },
{
    if shape.len() != 3 {
        let mut m = String::from_str("unexpected output shape: ");
        let f = format_number_list(shape);
        m.append(f.as_str());
        return Err(m);
    }
    let layout = if shape[0] == 1 {
        if shape[2] >= shape[1] {
            LogitsLayout { time_steps: shape[1], classes: shape[2], batch_axis: 0, transposed: false }
        } else {
            LogitsLayout { time_steps: shape[2], classes: shape[1], batch_axis: 0, transposed: true }
        }
    } else if shape[1] == 1 {
        LogitsLayout { time_steps: shape[0], classes: shape[2], batch_axis: 1, transposed: false }
    } else {
        let mut m = String::from_str("unsupported output layout: ");
        let f = format_number_list(shape);
        m.append(f.as_str());
        return Err(m);
    };
    if layout.classes == 0 || layout.time_steps == 0 {
        return Err(String::from_str("empty output logits"));
    }
    Ok(layout)
}

/// Where the score of class `c` at time step `t` lies in an output of shape
/// `shape` stored in row-major order, read as `l` says.  Index 0 of the
/// batch axis is fixed, and the two other axes are (step, class), or
/// (class, step) when transposed; in both layouts that have a batch axis,
/// that gives row `step` (or `class`) of `shape[2]` entries.
pub open spec fn score_offset(shape: Seq<usize>, l: LogitsLayout, t: int, c: int) -> int {
    if l.transposed {
        c * shape[2] + t
    } else {
        t * shape[2] + c
    }
}

/// The number of scores in an output of shape `shape`.
pub open spec fn score_count(shape: Seq<usize>) -> int {
    shape[0] * shape[1] * shape[2]
}

proof fn lemma_offset_in_bounds(shape: Seq<usize>, l: LogitsLayout, t: int, c: int)
    requires
        logits_layout_spec(shape) == Ok::<LogitsLayout, Seq<char>>(l),
        0 <= t < l.time_steps,
        0 <= c < l.classes,
    ensures
        0 <= score_offset(shape, l, t, c) < score_count(shape),
{
    let s0 = shape[0] as int;
    let s1 = shape[1] as int;
    let s2 = shape[2] as int;
    if l.transposed {
        assert(s0 == 1 && l.classes == s1 && l.time_steps == s2);
        assert(0 <= c * s2 + t < s1 * s2) by (nonlinear_arith)
            requires
                0 <= c < s1,
                0 <= t < s2,
        ;
        assert(s0 * s1 * s2 == s1 * s2) by (nonlinear_arith)
            requires
                s0 == 1,
        ;
    } else if l.batch_axis == 0 {
        assert(s0 == 1 && l.time_steps == s1 && l.classes == s2);
        assert(0 <= t * s2 + c < s1 * s2) by (nonlinear_arith)
            requires
                0 <= t < s1,
                0 <= c < s2,
        ;
        assert(s0 * s1 * s2 == s1 * s2) by (nonlinear_arith)
            requires
                s0 == 1,
        ;
    } else {
        assert(s1 == 1 && l.time_steps == s0 && l.classes == s2);
        assert(0 <= t * s2 + c < s0 * s2) by (nonlinear_arith)
            requires
                0 <= t < s0,
                0 <= c < s2,
        ;
        assert(s0 * s1 * s2 == s0 * s2) by (nonlinear_arith)
            requires
                s1 == 1,
        ;
    }
}

/// The index, in the row-major scores of an output of shape `shape`, of the
/// score of class `c` at time step `t`, for the layout `logits_layout`
/// gave for that shape.
pub fn score_index(shape: &Vec<usize>, layout: LogitsLayout, t: usize, c: usize) -> (i: usize)
    requires
        logits_layout_spec(shape@) == Ok::<LogitsLayout, Seq<char>>(layout),
        t < layout.time_steps,
        c < layout.classes,
        score_count(shape@) <= usize::MAX,
    ensures
        i == score_offset(shape@, layout, t as int, c as int),
        i < score_count(shape@),
{
    proof {
        lemma_offset_in_bounds(shape@, layout, t as int, c as int);
    }
    let width = shape[2];
    if layout.transposed {
        c * width + t
    } else {
        t * width + c
    }
}

/// A matrix of `steps` rows of `classes` scores, with no more rows than
/// classes, is read alike whether it comes as `[1, steps, classes]` or as
/// `[steps, 1, classes]`: as `steps` time steps of `classes` classes, the
/// score of class `c` at step `t` taken from entry `t * classes + c`.  Its
/// transpose, as `[1, classes, steps]`, is read as the same matrix when it
/// has fewer rows than classes: the shorter axis is time.
pub proof fn lemma_layout_shorter_axis_is_time(steps: usize, classes: usize)
    requires
        1 <= steps <= classes,
    ensures
        ({
            let a = seq![1usize, steps, classes];
            let b = seq![steps, 1usize, classes];
            &&& logits_layout_spec(a) matches Ok(la) && la.time_steps == steps && la.classes
                == classes
            &&& logits_layout_spec(b) matches Ok(lb) && lb.time_steps == steps && lb.classes
                == classes
            &&& forall|t: int, c: int|
                0 <= t < steps && 0 <= c < classes ==> score_offset(
                    a,
                    logits_layout_spec(a)->Ok_0,
                    t,
                    c,
                ) == t * classes + c && score_offset(b, logits_layout_spec(b)->Ok_0, t, c) == t
                    * classes + c
        }),
        steps < classes ==> ({
            let d = seq![1usize, classes, steps];
            logits_layout_spec(d) matches Ok(ld) && ld.time_steps == steps && ld.classes
                == classes && forall|t: int, c: int|
                0 <= t < steps && 0 <= c < classes ==> score_offset(d, ld, t, c) == c * steps
                    + t
        }),
{
    let a = seq![1usize, steps, classes];
    let b = seq![steps, 1usize, classes];
    let d = seq![1usize, classes, steps];
    assert(a[0] == 1 && a[1] == steps && a[2] == classes);
    assert(b[0] == steps && b[1] == 1 && b[2] == classes);
    assert(d[0] == 1 && d[1] == classes && d[2] == steps);
}

// ---------------------------------------------------------------------------
// CTC decoding.
// ---------------------------------------------------------------------------

/// At time step `t` the best class is emitted: it is not the blank class
/// (0), differs from the best class of the step before (the blank before
/// the first step), and has an entry in the dictionary.
pub open spec fn ctc_emits(best: Seq<usize>, dict_len: int, t: int) -> bool {
    &&& best[t] != 0
    &&& (t == 0 || best[t] != best[t - 1])
    &&& best[t] < dict_len
}

/// The text of the first `n` steps: the dictionary entries of the emitted
/// classes, in order.
pub open spec fn ctc_text(best: Seq<usize>, dict: Seq<Seq<char>>, n: int) -> Seq<char>
    decreases n,
{
    if n <= 0 {
        Seq::empty()
    } else if ctc_emits(best, dict.len() as int, n - 1) {
        ctc_text(best, dict, n - 1) + dict[best[n - 1] as int]
    } else {
        ctc_text(best, dict, n - 1)
    }
}

/// The emitting steps among the first `n`, in order.
pub open spec fn ctc_steps(best: Seq<usize>, dict_len: int, n: int) -> Seq<usize>
    decreases n,
{
    if n <= 0 {
        Seq::empty()
    } else if ctc_emits(best, dict_len, n - 1) {
        ctc_steps(best, dict_len, n - 1).push((n - 1) as usize)
    } else {
        ctc_steps(best, dict_len, n - 1)
    }
}

/// Collapses the best class of each time step into text (greedy CTC):
/// returns the text and the time steps that contributed to it, whose scores
/// make the recognition's confidence.
pub fn ctc_collapse(best: &Vec<usize>, dict: &Vec<String>) -> (r: (String, Vec<usize>))
    ensures
        r.0@ == ctc_text(best@, dict.deep_view(), best@.len() as int),
        r.1@ == ctc_steps(best@, dict@.len() as int, best@.len() as int),
{
    let mut text = String::new();
    let mut steps: Vec<usize> = Vec::new();
    let mut prev: usize = 0;
    let mut t: usize = 0;
    while t < best.len()
        invariant
            t <= best.len(),
            text@ == ctc_text(best@, dict.deep_view(), t as int),
            steps@ == ctc_steps(best@, dict@.len() as int, t as int),
            prev == (if t == 0 {
                0
            } else {
                best@[t - 1]
            }),
        decreases best.len() - t,
    {
        let idx = best[t];
        if idx != 0 && idx != prev && idx < dict.len() {
            text.append(dict[idx].as_str());
            steps.push(t);
        }
        prev = idx;
        t = t + 1;
    }
    (text, steps)
}

// ---------------------------------------------------------------------------
// Laws.
// ---------------------------------------------------------------------------

proof fn lemma_alnum_chars_are_alnum(s: Seq<char>)
    ensures
        alnum_chars(s).len() <= s.len(),
        forall|i: int| 0 <= i < alnum_chars(s).len() ==> is_ascii_alnum(#[trigger] alnum_chars(s)[i]),
    decreases s.len(),
{
    if s.len() > 0 {
        lemma_alnum_chars_are_alnum(s.drop_last());
    }
}

/// A sanitised captcha text has at most four characters, each an ASCII
/// letter or digit.
pub proof fn lemma_sanitized_captcha(raw: Seq<char>)
    ensures
        sanitize_captcha_spec(raw).len() <= 4,
        forall|i: int|
            0 <= i < sanitize_captcha_spec(raw).len() ==> is_ascii_alnum(
                #[trigger] sanitize_captcha_spec(raw)[i],
            ),
{
    lemma_alnum_chars_are_alnum(raw);
}

/// The letters and digits of a text that starts with `c`: `c` itself when
/// it is one, then those of the rest.
proof fn lemma_alnum_chars_prepend(c: char, rest: Seq<char>)
    ensures
        alnum_chars(seq![c] + rest) == if ('0' <= c && c <= '9') || ('a' <= c && c <= 'z') || (
        'A' <= c && c <= 'Z') {
            seq![c] + alnum_chars(rest)
        } else {
            alnum_chars(rest)
        },
    decreases rest.len(),
{
    let t = seq![c] + rest;
    if rest.len() == 0 {
        assert(t.drop_last() =~= Seq::<char>::empty());
        assert(t.last() == c);
        assert(alnum_chars(Seq::<char>::empty()) =~= Seq::<char>::empty());
        assert(seq![c] + alnum_chars(rest) =~= seq![c]);
        assert(Seq::<char>::empty().push(c) =~= seq![c]);
    } else {
        assert(t.drop_last() =~= seq![c] + rest.drop_last());
        assert(t.last() == rest.last());
        lemma_alnum_chars_prepend(c, rest.drop_last());
        if ('0' <= c && c <= '9') || ('a' <= c && c <= 'z') || ('A' <= c && c <= 'Z') {
            assert((seq![c] + alnum_chars(rest.drop_last())).push(rest.last()) =~= seq![c] + alnum_chars(
                rest.drop_last(),
            ).push(rest.last()));
        }
    }
}

/// Sanitising reads the recognised text from its start and keeps its
/// first four ASCII letters and digits (digits '0' to '9', letters 'a' to
/// 'z' and 'A' to 'Z'), in order, and nothing else: an empty text gives
/// nothing; a text that starts with such a character gives that character
/// followed by the first three kept from the rest (all of them when fewer
/// than four); a text that starts with any other character gives what the
/// rest gives.
pub proof fn lemma_sanitize_keeps_first_four(c: char, rest: Seq<char>)
    ensures
        sanitize_captcha_spec(Seq::<char>::empty()) == Seq::<char>::empty(),
        (('0' <= c && c <= '9') || ('a' <= c && c <= 'z') || ('A' <= c && c <= 'Z'))
            ==> sanitize_captcha_spec(seq![c] + rest) == if sanitize_captcha_spec(rest).len() < 4 {
            seq![c] + sanitize_captcha_spec(rest)
        } else {
            seq![c] + sanitize_captcha_spec(rest).take(3)
        },
        !(('0' <= c && c <= '9') || ('a' <= c && c <= 'z') || ('A' <= c && c <= 'Z'))
            ==> sanitize_captcha_spec(seq![c] + rest) == sanitize_captcha_spec(rest),
{
    lemma_alnum_chars_prepend(c, rest);
    let a = alnum_chars(rest);
    if ('0' <= c && c <= '9') || ('a' <= c && c <= 'z') || ('A' <= c && c <= 'Z') {
        if a.len() <= 4 {
            if a.len() == 4 {
                assert((seq![c] + a).take(4) =~= seq![c] + a.take(3));
            }
        } else {
            assert((seq![c] + a).take(4) =~= seq![c] + a.take(4).take(3));
        }
    }
}

/// A text of at most four characters, each an ASCII letter or digit
/// ('0' to '9', 'a' to 'z', 'A' to 'Z'), is kept as it is.
pub proof fn lemma_sanitize_keeps_clean_text(raw: Seq<char>)
    requires
        raw.len() <= 4,
        forall|i: int|
            0 <= i < raw.len() ==> ('0' <= #[trigger] raw[i] && raw[i] <= '9') || ('a' <= raw[i]
                && raw[i] <= 'z') || ('A' <= raw[i] && raw[i] <= 'Z'),
    ensures
        sanitize_captcha_spec(raw) == raw,
    decreases raw.len(),
{
    if raw.len() > 0 {
        let rest = raw.drop_first();
        assert forall|i: int| 0 <= i < rest.len() implies ('0' <= #[trigger] rest[i] && rest[i]
            <= '9') || ('a' <= rest[i] && rest[i] <= 'z') || ('A' <= rest[i] && rest[i] <= 'Z') by {
            assert(rest[i] == raw[i + 1]);
        }
        lemma_sanitize_keeps_clean_text(rest);
        assert(raw[0] == raw[0]);
        lemma_sanitize_keeps_first_four(raw[0], rest);
        assert(seq![raw[0]] + rest =~= raw);
    } else {
        assert(raw =~= Seq::<char>::empty());
    }
}

/// Patching keeps the length of the model and changes no byte but a '.'
/// of "DynamicDimension.", which becomes '_'.
pub proof fn lemma_patch_only_renames(b: Seq<u8>)
    ensures
        patch_dim_names_spec(b).len() == b.len(),
        forall|j: int|
            0 <= j < b.len() && #[trigger] patch_dim_names_spec(b)[j] != b[j] ==> b[j] == 46
                && patch_dim_names_spec(b)[j] == 95,
{
    assert forall|j: int|
        0 <= j < b.len() && #[trigger] patch_dim_names_spec(b)[j] != b[j] implies b[j] == 46
            && patch_dim_names_spec(b)[j] == 95 by {
        if j >= 16 && j - 16 < scan_limit(b.len() as int) && marker_at(b, j - 16) {
            assert(b.subrange(j - 16, j + 1)[16] == b[j]);
        }
    }
}

proof fn lemma_dict_lines_nonempty(lines: Seq<Seq<char>>)
    ensures
        forall|i: int| 0 <= i < dict_lines(lines).len() ==> #[trigger] dict_lines(lines)[i].len() > 0,
    decreases lines.len(),
{
    if lines.len() > 0 {
        let prev = dict_lines(lines.drop_last());
        lemma_dict_lines_nonempty(lines.drop_last());
        let t = trim_cr(lines.last());
        if t.len() > 0 {
            assert forall|i: int| 0 <= i < dict_lines(lines).len() implies #[trigger] dict_lines(
                lines,
            )[i].len() > 0 by {
                if i < prev.len() {
                    assert(dict_lines(lines)[i] == prev[i]);
                }
            }
        }
    }
}

/// The dictionary starts with the blank entry, and has no other empty
/// entry.
pub proof fn lemma_dict_entries(content: Seq<char>)
    ensures
        dict_spec(content).len() >= 1,
        dict_spec(content)[0].len() == 0,
        forall|i: int| 1 <= i < dict_spec(content).len() ==> #[trigger] dict_spec(content)[i].len() > 0,
{
    lemma_dict_lines_nonempty(split_lines(content));
    let d = dict_lines(split_lines(content));
    assert forall|i: int| 1 <= i < dict_spec(content).len() implies #[trigger] dict_spec(
        content,
    )[i].len() > 0 by {
        assert(dict_spec(content)[i] == d[i - 1]);
    }
}

/// The steps that CTC decoding takes text from come in increasing order,
/// and each of them emits.
pub proof fn lemma_ctc_steps(best: Seq<usize>, dict_len: int, n: int)
    requires
        0 <= n <= best.len() <= usize::MAX,
    ensures
        forall|k: int|
            0 <= k < ctc_steps(best, dict_len, n).len() ==> {
                let t = #[trigger] ctc_steps(best, dict_len, n)[k] as int;
                0 <= t < n && ctc_emits(best, dict_len, t)
            },
        forall|k1: int, k2: int|
            0 <= k1 < k2 < ctc_steps(best, dict_len, n).len() ==> #[trigger] ctc_steps(
                best,
                dict_len,
                n,
            )[k1] < #[trigger] ctc_steps(best, dict_len, n)[k2],
    decreases n,
{
    if n > 0 {
        lemma_ctc_steps(best, dict_len, n - 1);
        let prev = ctc_steps(best, dict_len, n - 1);
        let cur = ctc_steps(best, dict_len, n);
        if ctc_emits(best, dict_len, n - 1) {
            assert(cur == prev.push((n - 1) as usize));
            assert forall|k: int| 0 <= k < cur.len() implies {
                let t = #[trigger] cur[k] as int;
                0 <= t < n && ctc_emits(best, dict_len, t)
            } by {
                if k < prev.len() {
                    assert(cur[k] == prev[k]);
                }
            }
            assert forall|k1: int, k2: int| 0 <= k1 < k2 < cur.len() implies #[trigger] cur[k1]
                < #[trigger] cur[k2] by {
                assert(cur[k1] == prev[k1]);
                if k2 < prev.len() {
                    assert(cur[k2] == prev[k2]);
                } else {
                    let t = prev[k1] as int;
                    assert(0 <= t < n - 1);
                }
            }
        }
    }
}

} // verus!

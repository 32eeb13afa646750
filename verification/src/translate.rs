//! The token-to-keystroke translator.
//!
//! Tokens stream out of the generation engine chunk by chunk; the translator
//! turns each chunk into instructions for the keystroke-injection service.
//! Within one generation, text is typed literally, and every newline
//! boundary of the streamed text triggers the configured newline behavior
//! before the text that follows it is typed: `Stop` halts the generation,
//! `Enter` presses Enter, `ShiftEnter` presses Enter while holding Shift.
//! A newline at the very end of the stream triggers nothing, and the very
//! first text of a generation is typed with no leading newline action. The
//! translator also honors cooperative cancellation: a raised cancel flag
//! halts the stream at the next chunk, before anything more is typed.

use vstd::prelude::*;
use vstd::string::*;

use crate::command::NewlineBehavior;

verus! {

/// A key the injection service can press, hold, or release.
#[derive(Clone, Copy, Debug, PartialEq, Eq, Structural)]
pub enum Key {
    Return,
    Shift,
    LShift,
    Meta,
    LeftArrow,
    RightArrow,
}

/// One instruction to the keystroke-injection service.
#[derive(Debug, PartialEq, Eq)]
pub enum KeyOp {
    /// Type this text literally.
    Text(String),
    /// Press and release the key.
    Press(Key),
    /// Hold the key down.
    Down(Key),
    /// Release the key.
    Up(Key),
}

/// The mathematical value of one injection instruction.
pub enum Stroke {
    Type(Seq<char>),
    Press(Key),
    Down(Key),
    Up(Key),
}

impl View for KeyOp {
    type V = Stroke;

    open spec fn view(&self) -> Stroke {
        match self {
            KeyOp::Text(s) => Stroke::Type(s@),
            KeyOp::Press(k) => Stroke::Press(*k),
            KeyOp::Down(k) => Stroke::Down(*k),
            KeyOp::Up(k) => Stroke::Up(*k),
        }
    }
}

/// The values of a list of injection instructions.
pub open spec fn strokes_of(ops: Seq<KeyOp>) -> Seq<Stroke> {
    ops.map_values(|op: KeyOp| op@)
}

/// The contents of a list of text segments.
pub open spec fn strings_view(segs: Seq<String>) -> Seq<Seq<char>> {
    segs.map_values(|s: String| s@)
}

/// What one newline boundary injects: nothing for `Stop` (the generation
/// halts instead), Enter for `Enter`, and Shift down, Enter, Shift up for
/// `ShiftEnter`.
pub open spec fn newline_strokes(nb: NewlineBehavior) -> Seq<Stroke> {
    match nb {
        NewlineBehavior::Stop => Seq::<Stroke>::empty(),
        NewlineBehavior::Enter => seq![Stroke::Press(Key::Return)],
        NewlineBehavior::ShiftEnter => seq![
            Stroke::Down(Key::Shift),
            Stroke::Press(Key::Return),
            Stroke::Up(Key::Shift),
        ],
    }
}

/// `text` split at every newline character, keeping empty segments: the
/// result has one segment more than the text has newlines, in order.
pub open spec fn split_lines(t: Seq<char>) -> Seq<Seq<char>>
    decreases t.len(),
{
    if t.len() == 0 {
        seq![Seq::<char>::empty()]
    } else if t[0] == '\n' {
        seq![Seq::<char>::empty()] + split_lines(t.skip(1))
    } else {
        let rest = split_lines(t.skip(1));
        seq![seq![t[0]] + rest[0]] + rest.skip(1)
    }
}

/// A split always yields at least one segment.
pub proof fn lemma_split_lines_len(t: Seq<char>)
    ensures
        split_lines(t).len() >= 1,
    decreases t.len(),
{
    if t.len() > 0 {
        lemma_split_lines_len(t.skip(1));
    }
}

/// When the text ends with a newline, the split ends with an empty segment
/// and has at least two segments.
pub proof fn lemma_split_lines_trailing(t: Seq<char>)
    requires
        t.len() > 0,
        t[t.len() - 1] == '\n',
    ensures
        split_lines(t).len() >= 2,
        split_lines(t).last() == Seq::<char>::empty(),
    decreases t.len(),
{
    lemma_split_lines_len(t.skip(1));
    if t.len() == 1 {
        assert(t.skip(1) =~= Seq::<char>::empty());
    } else {
        assert(t.skip(1)[t.skip(1).len() - 1] == '\n');
        lemma_split_lines_trailing(t.skip(1));
    }
}

/// The split of a text whose first newline sits at position `k`: the prefix
/// before it is the first segment, and the rest of the split is the split of
/// what follows the newline. With no newline at all the text is its only
/// segment.
pub proof fn lemma_split_lines_first(t: Seq<char>, k: int)
    requires
        0 <= k <= t.len(),
        forall|m: int| 0 <= m < k ==> t[m] != '\n',
        k == t.len() || t[k] == '\n',
    ensures
        k < t.len() ==> split_lines(t) == seq![t.take(k)] + split_lines(t.skip(k + 1)),
        k == t.len() ==> split_lines(t) == seq![t],
    decreases k,
{
    lemma_split_lines_len(t.skip(1));
    if k == 0 {
        if 0 < t.len() {
            assert(t.take(0) =~= Seq::<char>::empty());
            assert(split_lines(t) == seq![t.take(0)] + split_lines(t.skip(1)));
        } else {
            assert(t =~= Seq::<char>::empty());
            assert(split_lines(t) =~= seq![t]);
        }
    } else {
        lemma_split_lines_first(t.skip(1), k - 1);
        let rest = split_lines(t.skip(1));
        if k < t.len() {
            assert(t.skip(1)[k - 1] == '\n');
            assert(rest == seq![t.skip(1).take(k - 1)] + split_lines(t.skip(1).skip(k)));
            assert(seq![t[0]] + rest[0] =~= t.take(k));
            assert(t.skip(1).skip(k) =~= t.skip(k + 1));
            assert(rest.skip(1) =~= split_lines(t.skip(k + 1)));
            assert(split_lines(t) =~= seq![t.take(k)] + split_lines(t.skip(k + 1)));
        } else {
            assert(rest == seq![t.skip(1)]);
            assert(seq![t[0]] + rest[0] =~= t);
            assert(rest.skip(1) =~= Seq::<Seq<char>>::empty());
            assert(split_lines(t) =~= seq![t]);
        }
    }
}

/// The strokes and halt flag produced by walking the segments of one chunk.
/// `boundary` says whether a newline boundary precedes the first segment
/// (either inside this chunk's text or carried over from the previous
/// chunk). A boundary triggers the newline behavior before the segment is
/// typed; under `Stop` it halts instead, and nothing further is emitted.
/// Empty segments type nothing.
pub open spec fn emit_from(nb: NewlineBehavior, boundary: bool, segs: Seq<Seq<char>>) -> (Seq<
    Stroke,
>, bool)
    decreases segs.len(),
{
    if segs.len() == 0 {
        (Seq::<Stroke>::empty(), false)
    } else if boundary && nb == NewlineBehavior::Stop {
        (Seq::<Stroke>::empty(), true)
    } else {
        let pre = if boundary {
            newline_strokes(nb)
        } else {
            Seq::<Stroke>::empty()
        };
        let cur = if segs[0].len() > 0 {
            seq![Stroke::Type(segs[0])]
        } else {
            Seq::<Stroke>::empty()
        };
        let (rest, halted) = emit_from(nb, true, segs.drop_first());
        (pre + cur + rest, halted)
    }
}

/// The segments a chunk is typed in: its text split at newlines, with a
/// trailing newline carried over to the next chunk instead of ending the
/// list with an empty segment.
pub open spec fn chunk_segments(t: Seq<char>) -> Seq<Seq<char>> {
    if t.len() > 0 && t[t.len() - 1] == '\n' {
        split_lines(t).drop_last()
    } else {
        split_lines(t)
    }
}

/// The strokes one chunk injects, given the pending-boundary flag as the
/// chunk arrives. An empty chunk injects nothing.
pub open spec fn chunk_strokes(nb: NewlineBehavior, pending: bool, t: Seq<char>) -> Seq<Stroke> {
    if t.len() == 0 {
        Seq::<Stroke>::empty()
    } else {
        emit_from(nb, pending, chunk_segments(t)).0
    }
}

/// Whether one chunk halts the generation under the `Stop` policy.
pub open spec fn chunk_halts(nb: NewlineBehavior, pending: bool, t: Seq<char>) -> bool {
    if t.len() == 0 {
        false
    } else {
        emit_from(nb, pending, chunk_segments(t)).1
    }
}

/// The pending-boundary flag after one chunk: raised exactly when the chunk
/// ends with a newline, and carried unchanged across empty chunks.
pub open spec fn chunk_pending_after(pending: bool, t: Seq<char>) -> bool {
    if t.len() == 0 {
        pending
    } else {
        t[t.len() - 1] == '\n'
    }
}

/// How one chunk left the stream: still flowing, halted by the `Stop`
/// newline policy, or halted by a cancellation request.
#[derive(Clone, Copy, Debug, PartialEq, Eq, Structural)]
pub enum ChunkOutcome {
    Continue,
    Stopped,
    Cancelled,
}

/// The translator's state between chunks of one generation.
pub struct TranslatorState {
    /// True when the last text processed ended with a newline whose action
    /// has not fired yet; it fires before the next text is typed.
    pub pending: bool,
}

impl TranslatorState {
    /// The state at the start of a generation: no newline boundary pending,
    /// so the first text is typed with no leading newline action.
    pub fn start() -> (st: TranslatorState)
        ensures
            !st.pending,
    {
        TranslatorState { pending: false }
    }
}

/// Splits a chunk's text at every newline character, keeping empty
/// segments.
fn split_chunk(t: &str) -> (segs: Vec<String>)
    ensures
        strings_view(segs@) == split_lines(t@),
{
    let n: usize = t.unicode_len();
    let mut segs: Vec<String> = Vec::new();
    let mut start: usize = 0;
    let mut i: usize = 0;
    proof {
        assert(t@.skip(0) =~= t@);
        assert(strings_view(segs@) + split_lines(t@) =~= split_lines(t@));
    }
    while i < n
        invariant
            start <= i <= n,
            n == t@.len(),
            forall|m: int| start <= m < i ==> t@[m] != '\n',
            split_lines(t@) == strings_view(segs@) + split_lines(t@.skip(start as int)),
        decreases n - i,
    {
        if t.get_char(i) == '\n' {
            let ghost segs0 = segs@;
            let piece = t.substring_char(start, i);
            segs.push(String::from_str(piece));
            proof {
                let rem = t@.skip(start as int);
                assert(rem[i - start] == '\n');
                lemma_split_lines_first(rem, i - start);
                assert(rem.take(i - start) =~= t@.subrange(start as int, i as int));
                assert(rem.skip(i - start + 1) =~= t@.skip(i + 1));
                assert(strings_view(segs@) =~= strings_view(segs0).push(piece@));
                assert(strings_view(segs0) + split_lines(rem) =~= strings_view(segs@)
                    + split_lines(t@.skip(i + 1)));
            }
            start = i + 1;
        }
        i = i + 1;
    }
    let ghost segs0 = segs@;
    let piece = t.substring_char(start, n);
    segs.push(String::from_str(piece));
    proof {
        let rem = t@.skip(start as int);
        lemma_split_lines_first(rem, n - start);
        assert(rem =~= t@.subrange(start as int, n as int));
        assert(strings_view(segs@) =~= strings_view(segs0).push(piece@));
        assert(strings_view(segs0) + split_lines(rem) =~= strings_view(segs@));
    }
    segs
}

/// Walks a chunk's segments, emitting the newline action at each boundary
/// and typing each non-empty segment, halting at a boundary under `Stop`.
/// `boundary` says whether a boundary precedes the first segment.
fn emit_segments(nb: NewlineBehavior, boundary: bool, segs: &Vec<String>) -> (r: (Vec<KeyOp>, bool))
    ensures
        (strokes_of(r.0@), r.1) == emit_from(nb, boundary, strings_view(segs@)),
{
    let ghost sv = strings_view(segs@);
    let mut ops: Vec<KeyOp> = Vec::new();
    let mut bnd = boundary;
    let mut k: usize = 0;
    proof {
        assert(sv.skip(0) =~= sv);
        assert(strokes_of(ops@) + emit_from(nb, boundary, sv).0 =~= emit_from(nb, boundary, sv).0);
    }
    while k < segs.len()
        invariant
            k <= segs@.len(),
            sv == strings_view(segs@),
            emit_from(nb, boundary, sv).0 == strokes_of(ops@) + emit_from(
                nb,
                bnd,
                sv.skip(k as int),
            ).0,
            emit_from(nb, boundary, sv).1 == emit_from(nb, bnd, sv.skip(k as int)).1,
            k > 0 ==> bnd,
        decreases segs@.len() - k,
    {
        let ghost rem = sv.skip(k as int);
        proof {
            assert(rem.drop_first() =~= sv.skip(k + 1));
            assert(rem[0] == segs@[k as int]@);
        }
        if bnd {
            match nb {
                NewlineBehavior::Stop => {
                    proof {
                        assert(strokes_of(ops@) + emit_from(nb, bnd, rem).0 =~= strokes_of(ops@));
                    }
                    return (ops, true);
                },
                NewlineBehavior::Enter => {
                    let ghost ops0 = ops@;
                    ops.push(KeyOp::Press(Key::Return));
                    proof {
                        assert(strokes_of(ops@) =~= strokes_of(ops0) + newline_strokes(nb));
                    }
                },
                NewlineBehavior::ShiftEnter => {
                    let ghost ops0 = ops@;
                    ops.push(KeyOp::Down(Key::Shift));
                    ops.push(KeyOp::Press(Key::Return));
                    ops.push(KeyOp::Up(Key::Shift));
                    proof {
                        assert(strokes_of(ops@) =~= strokes_of(ops0) + newline_strokes(nb));
                    }
                },
            }
        }
        if !segs[k].as_str().is_empty() {
            let ghost ops0 = ops@;
            ops.push(KeyOp::Text(segs[k].clone()));
            proof {
                assert(strokes_of(ops@) =~= strokes_of(ops0).push(Stroke::Type(segs@[k as int]@)));
            }
        }
        proof {
            assert(strokes_of(ops@) + emit_from(nb, true, sv.skip(k + 1)).0 =~= emit_from(
                nb,
                boundary,
                sv,
            ).0);
        }
        bnd = true;
        k = k + 1;
    }
    proof {
        assert(sv.skip(sv.len() as int) =~= Seq::<Seq<char>>::empty());
        assert(strokes_of(ops@) + emit_from(nb, bnd, sv.skip(sv.len() as int)).0 =~= strokes_of(
            ops@,
        ));
    }
    (ops, false)
}

/// Processes one streamed chunk. With the cancel flag raised, nothing is
/// injected and the stream halts as cancelled; otherwise the chunk's text is
/// typed under the newline policy, the pending-boundary flag is carried to
/// the next chunk, and the outcome says whether the `Stop` policy halted the
/// stream.
pub fn process_chunk(
    st: &mut TranslatorState,
    cancel_requested: bool,
    nb: NewlineBehavior,
    t: &str,
) -> (r: (Vec<KeyOp>, ChunkOutcome))
    ensures
        cancel_requested ==> r.0@ == Seq::<KeyOp>::empty() && r.1 == ChunkOutcome::Cancelled
            && *final(st) == *old(st),
        !cancel_requested ==> {
            &&& strokes_of(r.0@) == chunk_strokes(nb, old(st).pending, t@)
            &&& (r.1 == ChunkOutcome::Stopped) == chunk_halts(nb, old(st).pending, t@)
            &&& r.1 != ChunkOutcome::Cancelled
            &&& final(st).pending == chunk_pending_after(old(st).pending, t@)
        },
{
    if cancel_requested {
        return (Vec::new(), ChunkOutcome::Cancelled);
    }
    let n: usize = t.unicode_len();
    if n == 0 {
        return (Vec::new(), ChunkOutcome::Continue);
    }
    let ends_nl = t.get_char(n - 1) == '\n';
    let mut segs = split_chunk(t);
    if ends_nl {
        proof {
            lemma_split_lines_trailing(t@);
        }
        let ghost segs0 = segs@;
        segs.pop();
        proof {
            assert(strings_view(segs@) =~= strings_view(segs0).drop_last());
        }
    }
    proof {
        assert(strings_view(segs@) == chunk_segments(t@));
    }
    let (ops, halted) = emit_segments(nb, st.pending, &segs);
    st.pending = ends_nl;
    let outcome = if halted {
        ChunkOutcome::Stopped
    } else {
        ChunkOutcome::Continue
    };
    (ops, outcome)
}

} // verus!

//! The container's framing: an extension field, one newline, and a payload
//! field.

use vstd::prelude::*;

verus! {

/// The byte that ends the extension field.
pub const NEWLINE: u8 = 10;

#[derive(Debug, Clone, Copy, PartialEq, Eq, Structural)]
pub enum FrameError {
    /// The container holds no newline, so it has no payload field.
    Malformed,
}

pub open spec fn no_newline(s: Seq<u8>) -> bool {
    forall|i: int| 0 <= i < s.len() ==> #[trigger] s[i] != NEWLINE
}

/// The container's bytes for an extension field and a payload field.
pub open spec fn frame_spec(ext: Seq<u8>, payload: Seq<u8>) -> Seq<u8> {
    ext + seq![NEWLINE] + payload
}

/// `s` with every newline taken out: the lines after the first, joined.
pub open spec fn join_lines(s: Seq<u8>) -> Seq<u8>
    decreases s.len(),
{
    if s.len() == 0 {
        s
    } else if s.last() == NEWLINE {
        join_lines(s.drop_last())
    } else {
        join_lines(s.drop_last()).push(s.last())
    }
}

/// `i` is the position of the first newline of `s`.
pub open spec fn is_first_newline(s: Seq<u8>, i: int) -> bool {
    0 <= i < s.len() && s[i] == NEWLINE && no_newline(s.take(i))
}

/// The two fields of a container: the text before the first newline, and
/// the rest with its newlines removed; none where there is no newline.
pub open spec fn unframe_spec(s: Seq<u8>) -> Option<(Seq<u8>, Seq<u8>)> {
    if no_newline(s) {
        None
    } else {
        let i = choose|i: int| is_first_newline(s, i);
        Some((s.take(i), join_lines(s.skip(i + 1))))
    }
}

proof fn lemma_first_newline_unique(s: Seq<u8>, i: int, j: int)
    requires
        is_first_newline(s, i),
        is_first_newline(s, j),
    ensures
        i == j,
{
    if i < j {
        assert(s.take(j)[i] == NEWLINE);
    } else if j < i {
        assert(s.take(i)[j] == NEWLINE);
    }
}

/// Text without newlines is left as it is by joining lines.
pub proof fn lemma_join_lines_no_newline(s: Seq<u8>)
    requires
        no_newline(s),
    ensures
        join_lines(s) == s,
    decreases s.len(),
{
    if s.len() > 0 {
        lemma_join_lines_no_newline(s.drop_last());
        assert(s.drop_last().push(s.last()) =~= s);
    }
}

/// Framing is undone by unframing: an extension field and a payload field,
/// neither holding a newline, come back as they went in.
pub proof fn lemma_unframe_frame(ext: Seq<u8>, payload: Seq<u8>)
    requires
        no_newline(ext),
        no_newline(payload),
    ensures
        unframe_spec(frame_spec(ext, payload)) == Some((ext, payload)),
{
    let s = frame_spec(ext, payload);
    let n = ext.len() as int;
    assert(s.take(n) =~= ext);
    assert(s.skip(n + 1) =~= payload);
    assert(s[n] == NEWLINE);
    assert(is_first_newline(s, n));
    let i = choose|i: int| is_first_newline(s, i);
    lemma_first_newline_unique(s, i, n);
    lemma_join_lines_no_newline(payload);
}

/// The container's bytes: `ext`, a newline, then `payload`.
pub fn frame(ext: &[u8], payload: &[u8]) -> (r: Vec<u8>)
    ensures
        r@ == frame_spec(ext@, payload@),
{
    let mut out: Vec<u8> = Vec::new();
    let mut i: usize = 0;
    while i < ext.len()
        invariant
            i <= ext@.len(),
            out@ == ext@.take(i as int),
        decreases ext@.len() - i,
    {
        out.push(ext[i]);
        i = i + 1;
        assert(out@ =~= ext@.take(i as int));
    }
    out.push(NEWLINE);
    let mut j: usize = 0;
    while j < payload.len()
        invariant
            j <= payload@.len(),
            out@ == ext@ + seq![NEWLINE] + payload@.take(j as int),
        decreases payload@.len() - j,
    {
        out.push(payload[j]);
        j = j + 1;
        assert(out@ =~= ext@ + seq![NEWLINE] + payload@.take(j as int));
    }
    assert(ext@.take(ext@.len() as int) =~= ext@);
    assert(payload@.take(payload@.len() as int) =~= payload@);
    out
}

/// Splits a container into its extension field (the bytes before the first
/// newline) and its payload field (all later lines, joined).
pub fn unframe(s: &[u8]) -> (r: Result<(Vec<u8>, Vec<u8>), FrameError>)
    ensures
        r matches Ok((e, p)) ==> unframe_spec(s@) == Some((e@, p@)),
        r is Err <==> unframe_spec(s@) is None,
{
    let mut ext: Vec<u8> = Vec::new();
    let mut i: usize = 0;
    while i < s.len() && s[i] != NEWLINE
        invariant
            i <= s@.len(),
            ext@ == s@.take(i as int),
            no_newline(ext@),
        decreases s@.len() - i,
    {
        ext.push(s[i]);
        i = i + 1;
        assert(ext@ =~= s@.take(i as int));
    }
    if i == s.len() {
        assert(s@.take(i as int) =~= s@);
        return Err(FrameError::Malformed);
    }
    let start: usize = i + 1;
    let mut payload: Vec<u8> = Vec::new();
    let mut j: usize = start;
    while j < s.len()
        invariant
            start <= j <= s@.len(),
            payload@ == join_lines(s@.subrange(start as int, j as int)),
        decreases s@.len() - j,
    {
        assert(s@.subrange(start as int, j + 1 as int).drop_last() =~= s@.subrange(
            start as int,
            j as int,
        ));
        if s[j] != NEWLINE {
            payload.push(s[j]);
        }
        j = j + 1;
    }
    proof {
        assert(is_first_newline(s@, i as int));
        let k = choose|k: int| is_first_newline(s@, k);
        lemma_first_newline_unique(s@, k, i as int);
        assert(s@.subrange(start as int, s@.len() as int) =~= s@.skip(start as int));
    }
    Ok((ext, payload))
}

} // verus!

use vstd::prelude::*;
use vstd::string::StringSliceAdditionalSpecFns;

verus! {

/// The pieces of the first `n` bytes of `b` that end at a trigger byte, as
/// `(start, end)` offsets, and where the piece in progress starts.
pub open spec fn closed_pieces(b: Seq<u8>, triggers: Seq<u8>, n: int) -> (Seq<(usize, usize)>, int)
    decreases n,
{
    if n <= 0 {
        (seq![], 0)
    } else {
        let (rs, from) = closed_pieces(b, triggers, n - 1);
        if triggers.contains(b[n - 1]) {
            (rs.push((from as usize, (n - 1) as usize)), n)
        } else {
            (rs, from)
        }
    }
}

/// `b` split at every trigger byte: the pieces between triggers, as
/// `(start, end)` byte offsets, the last running to the end.
pub open spec fn split_pieces(b: Seq<u8>, triggers: Seq<u8>) -> Seq<(usize, usize)> {
    let (rs, from) = closed_pieces(b, triggers, b.len() as int);
    rs.push((from as usize, b.len() as usize))
}

proof fn lemma_closed_from(b: Seq<u8>, triggers: Seq<u8>, n: int)
    requires
        0 <= n <= b.len(),
    ensures
        0 <= closed_pieces(b, triggers, n).1 <= n,
    decreases n,
{
    if n > 0 {
        lemma_closed_from(b, triggers, n - 1);
    }
}

fn contains_byte(triggers: &[u8], c: u8) -> (r: bool)
    ensures
        r == triggers@.contains(c),
{
    let mut i: usize = 0;
    while i < triggers.len()
        invariant
            i <= triggers@.len(),
            forall|k: int| 0 <= k < i ==> triggers@[k] != c,
        decreases triggers@.len() - i,
    {
        if triggers[i] == c {
            return true;
        }
        i = i + 1;
    }
    false
}

/// Splits `text` at each byte of `triggers`, returning the byte ranges of the
/// pieces between them, as `(start, end)`, in order.
pub fn text_splitter(text: &str, triggers: &[u8]) -> (r: Vec<(usize, usize)>)
    ensures
        r@ == split_pieces(text.spec_bytes(), triggers@),
{
    let bytes = text.as_bytes();
    let mut buf: Vec<(usize, usize)> = Vec::new();
    let mut from: usize = 0;
    let mut i: usize = 0;
    while i < bytes.len()
        invariant
            i <= bytes@.len(),
            bytes@ == text.spec_bytes(),
            (buf@, from as int) == closed_pieces(bytes@, triggers@, i as int),
        decreases bytes@.len() - i,
    {
        proof {
            lemma_closed_from(bytes@, triggers@, i as int);
        }
        if contains_byte(triggers, bytes[i]) {
            buf.push((from, i));
            from = i + 1;
        }
        i = i + 1;
    }
    buf.push((from, bytes.len()));
    buf
}

} // verus!

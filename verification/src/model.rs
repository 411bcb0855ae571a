//! A sequential model of the resource behind a handle.
//!
//! The handle itself only routes bytes: a write call hands them to a pump
//! through the pipe, a read call drains them from it, and a seek task moves
//! the cursor. This module states what those episodes amount to on the
//! resource once each has run to completion — contents plus cursor — and
//! proves the laws the routing is meant to preserve.

use vstd::prelude::*;

verus! {

/// A resource as the pump episodes linearize it: its contents and the cursor.
pub ghost struct FileModel {
    pub data: Seq<u8>,
    pub pos: nat,
}

/// The contents after writing `b` at position `pos`: the bytes before `pos`
/// (zero-extended when `pos` lies past the end), then `b`, then whatever of
/// the old contents lies past the written range.
pub open spec fn write_at(data: Seq<u8>, pos: nat, b: Seq<u8>) -> Seq<u8> {
    let padded = if pos <= data.len() {
        data
    } else {
        data + Seq::new((pos - data.len()) as nat, |i: int| 0u8)
    };
    padded.take(pos as int) + b + if pos + b.len() <= padded.len() {
        padded.skip((pos + b.len()) as int)
    } else {
        Seq::<u8>::empty()
    }
}

/// A completed writing episode that accepted all of `b`: the contents are
/// overwritten at the cursor and the cursor moves past what was written.
pub open spec fn model_write(m: FileModel, b: Seq<u8>) -> FileModel {
    FileModel { data: write_at(m.data, m.pos, b), pos: (m.pos + b.len()) as nat }
}

/// A completed seek to an absolute position.
pub open spec fn model_seek(m: FileModel, pos: nat) -> FileModel {
    FileModel { data: m.data, pos }
}

/// A completed read of up to `n` bytes: the bytes the stream yields (clipped
/// at end of stream) and the resource afterwards.
pub open spec fn model_read(m: FileModel, n: nat) -> (Seq<u8>, FileModel) {
    if m.pos >= m.data.len() {
        (Seq::<u8>::empty(), m)
    } else {
        let end = if m.pos + n <= m.data.len() { (m.pos + n) as nat } else { m.data.len() };
        (m.data.subrange(m.pos as int, end as int), FileModel { data: m.data, pos: end })
    }
}

/// Round trip: writing `b` from the start of the resource, seeking back to
/// the start, then reading `b.len()` bytes yields exactly `b` — for any `b`,
/// the empty sequence included, and any prior contents.
pub proof fn lemma_round_trip(init: Seq<u8>, b: Seq<u8>)
    ensures
        ({
            let m1 = model_write(FileModel { data: init, pos: 0 }, b);
            let m2 = model_seek(m1, 0);
            model_read(m2, b.len()).0 == b
        }),
{
    let m1 = model_write(FileModel { data: init, pos: 0 }, b);
    assert(m1.data =~= b + if b.len() <= init.len() {
        init.skip(b.len() as int)
    } else {
        Seq::<u8>::empty()
    });
    if b.len() == 0 {
        assert(model_read(model_seek(m1, 0), 0).0 =~= b);
    } else {
        assert(m1.data.subrange(0, b.len() as int) =~= b);
    }
}

/// End-of-stream stability: at or past the end, a read yields no bytes and
/// leaves the resource exactly as it was, however often it is repeated.
pub proof fn lemma_eof_stable(m: FileModel, n: nat)
    requires
        m.pos >= m.data.len(),
    ensures
        model_read(m, n).0 == Seq::<u8>::empty(),
        model_read(m, n).1 == m,
{
}

} // verus!

use vstd::prelude::*;
use vstd::string::StringSliceAdditionalSpecFns;

verus! {

/// The size of the buffer that a formatted line of text is written into.
pub const TEXTBUF_SIZE: usize = 1024;

/// A formatting target over a caller-owned byte buffer: fragments are
/// appended at `offset`, and one that does not fit is refused whole.
pub struct TextBuf<'a> {
    pub buf: &'a mut [u8],
    pub offset: usize,
}

/// A fragment did not fit in what is left of the buffer.
#[derive(Clone, Copy, Debug, PartialEq, Eq, Structural)]
pub struct FormatError;

/// The buffer `contents` after `bytes` was copied in at `offset`.
pub open spec fn after_write(contents: Seq<u8>, offset: int, bytes: Seq<u8>) -> Seq<u8> {
    contents.subrange(0, offset) + bytes + contents.subrange(
        offset + bytes.len(),
        contents.len() as int,
    )
}

impl<'a> TextBuf<'a> {
    /// The cursor lies within the buffer.
    pub open spec fn wf(&self) -> bool {
        self.offset <= self.buf@.len()
    }

    /// The bytes written so far.
    pub open spec fn written(&self) -> Seq<u8> {
        self.buf@.subrange(0, self.offset as int)
    }

    /// Appends the bytes of `s` at the cursor and moves the cursor past them;
    /// where fewer than `s.len()` bytes are left, fails and changes nothing.
    pub fn write_str(&mut self, s: &str) -> (r: Result<(), FormatError>)
        requires
            old(self).wf(),
        ensures
            r is Ok <==> old(self).offset + s.spec_bytes().len() <= old(self).buf@.len(),
            r is Ok ==> final(self).offset == old(self).offset + s.spec_bytes().len()
                && final(self).buf@ == after_write(
                old(self).buf@,
                old(self).offset as int,
                s.spec_bytes(),
            ),
            r is Ok ==> final(self).written() == old(self).written() + s.spec_bytes(),
            r is Err ==> final(self).offset == old(self).offset && final(self).buf@
                == old(self).buf@,
            final(self).wf(),
    {
        let bytes = s.as_bytes();
        let len = bytes.len();
        if self.buf.len() - self.offset < len {
            return Err(FormatError);
        }
        let start = self.offset;
        let mut i: usize = 0;
        while i < len
            invariant
                bytes@ == s.spec_bytes(),
                len == bytes@.len(),
                start == old(self).offset,
                self.offset == start,
                start + len <= old(self).buf@.len() <= usize::MAX,
                self.buf@.len() == old(self).buf@.len(),
                i <= len,
                forall|j: int| 0 <= j < start ==> self.buf@[j] == old(self).buf@[j],
                forall|j: int| 0 <= j < i ==> self.buf@[start + j] == bytes@[j],
                forall|j: int|
                    start + i <= j < self.buf@.len() ==> self.buf@[j] == old(self).buf@[j],
            decreases len - i,
        {
            self.buf[start + i] = bytes[i];
            i += 1;
        }
        self.offset = start + len;
        proof {
            let expected = after_write(old(self).buf@, start as int, bytes@);
            assert forall|j: int| 0 <= j < self.buf@.len() implies self.buf@[j] == expected[j] by {
                if j >= start && j < start + len {
                    assert(self.buf@[start + (j - start)] == bytes@[j - start]);
                }
            }
            assert(self.buf@ =~= expected);
            assert(self.buf@.subrange(0, self.offset as int) =~= old(self).buf@.subrange(
                0,
                start as int,
            ) + bytes@);
        }
        Ok(())
    }
}

/// What the cursor and the written bytes become over a run of writes that all
/// succeed: starting from an empty sink, the cursor ends at the total length of
/// the fragments and the written bytes are the fragments one after another.
/// `contents[k]` and `offsets[k]` are the buffer and the cursor before the
/// `k`-th write.
pub proof fn lemma_writes_concatenate(
    frags: Seq<Seq<u8>>,
    contents: Seq<Seq<u8>>,
    offsets: Seq<int>,
)
    requires
        contents.len() == frags.len() + 1,
        offsets.len() == frags.len() + 1,
        offsets[0] == 0,
        forall|k: int|
            0 <= k < frags.len() ==> offsets[k] + (#[trigger] frags[k]).len() <= contents[k].len()
                && contents[k + 1] == after_write(contents[k], offsets[k], frags[k])
                && offsets[k + 1] == offsets[k] + frags[k].len(),
    ensures
        offsets.last() == frags.flatten().len(),
        contents.last().subrange(0, offsets.last()) == frags.flatten(),
{
    lemma_writes_prefix(frags, contents, offsets, frags.len() as int);
    assert(frags.take(frags.len() as int) =~= frags);
    frags.lemma_flatten_and_flatten_alt_are_equivalent();
}

proof fn lemma_writes_prefix(
    frags: Seq<Seq<u8>>,
    contents: Seq<Seq<u8>>,
    offsets: Seq<int>,
    n: int,
)
    requires
        0 <= n <= frags.len(),
        contents.len() == frags.len() + 1,
        offsets.len() == frags.len() + 1,
        offsets[0] == 0,
        forall|k: int|
            0 <= k < frags.len() ==> offsets[k] + (#[trigger] frags[k]).len() <= contents[k].len()
                && contents[k + 1] == after_write(contents[k], offsets[k], frags[k])
                && offsets[k + 1] == offsets[k] + frags[k].len(),
    ensures
        offsets[n] == frags.take(n).flatten_alt().len(),
        contents[n].subrange(0, offsets[n]) == frags.take(n).flatten_alt(),
    decreases n,
{
    if n == 0 {
        assert(frags.take(0) =~= Seq::<Seq<u8>>::empty());
        assert(contents[0].subrange(0, 0) =~= Seq::<u8>::empty());
    } else {
        let k = n - 1;
        lemma_writes_prefix(frags, contents, offsets, k);
        let prefix = frags.take(n);
        assert(prefix.drop_last() =~= frags.take(k));
        assert(prefix.last() == frags[k]);
        assert(offsets[k] + frags[k].len() <= contents[k].len());
        assert(contents[n].subrange(0, offsets[n]) =~= contents[k].subrange(0, offsets[k])
            + frags[k]);
    }
}

} // verus!

use vstd::prelude::*;
use vstd::seq_lib::lemma_flatten_concat;

verus! {

broadcast use vstd::seq_lib::group_seq_properties;

/// The chunks of exactly `n` bytes that `data` holds, from its start.
pub open spec fn exact_chunks(n: nat, data: Seq<u8>) -> Seq<Seq<u8>>
    decreases data.len(),
{
    if n == 0 || data.len() < n {
        Seq::empty()
    } else {
        seq![data.take(n as int)] + exact_chunks(n, data.skip(n as int))
    }
}

/// What is left of `data` after its chunks of exactly `n` bytes.
pub open spec fn exact_rest(n: nat, data: Seq<u8>) -> Seq<u8>
    decreases data.len(),
{
    if n == 0 || data.len() < n {
        data
    } else {
        exact_rest(n, data.skip(n as int))
    }
}

/// The chunks forwarded and the bytes kept when `data` reaches an
/// at-least buffer of threshold `n`: everything goes at once when it
/// holds `n` bytes or more.
pub open spec fn at_least_chunks(n: nat, data: Seq<u8>) -> Seq<Seq<u8>> {
    if data.len() >= n && data.len() > 0 {
        seq![data]
    } else {
        Seq::empty()
    }
}

pub open spec fn at_least_rest(n: nat, data: Seq<u8>) -> Seq<u8> {
    if data.len() >= n && data.len() > 0 {
        Seq::empty()
    } else {
        data
    }
}

/// The final chunk that closing a buffer holding `rest` forwards.
pub open spec fn final_chunks(rest: Seq<u8>) -> Seq<Seq<u8>> {
    if rest.len() == 0 {
        Seq::empty()
    } else {
        seq![rest]
    }
}

pub open spec fn chunks_view(v: Seq<Vec<u8>>) -> Seq<Seq<u8>> {
    v.map_values(|c: Vec<u8>| c@)
}

pub proof fn lemma_exact_split(n: nat, data: Seq<u8>)
    ensures
        exact_chunks(n, data).flatten() + exact_rest(n, data) == data,
        forall|i: int| 0 <= i < exact_chunks(n, data).len() ==> (#[trigger] exact_chunks(n, data)[i]).len() == n,
        n > 0 ==> exact_rest(n, data).len() < n,
    decreases data.len(),
{
    if n == 0 || data.len() < n {
    } else {
        let head = data.take(n as int);
        let tail = data.skip(n as int);
        lemma_exact_split(n, tail);
        lemma_flatten_concat(seq![head], exact_chunks(n, tail));
        seq![head].lemma_flatten_one_element();
        assert(head + tail =~= data);
        assert(exact_chunks(n, data).flatten() + exact_rest(n, data)
            =~= head + (exact_chunks(n, tail).flatten() + exact_rest(n, tail)));
        assert forall|i: int| 0 <= i < exact_chunks(n, data).len() implies (#[trigger] exact_chunks(n, data)[i]).len() == n by {
            if i > 0 {
                assert(exact_chunks(n, data)[i] == exact_chunks(n, tail)[i - 1]);
            }
        }
    }
}

fn copy_range(v: &Vec<u8>, lo: usize, hi: usize) -> (r: Vec<u8>)
    requires
        lo <= hi <= v.len(),
    ensures
        r@ == v@.subrange(lo as int, hi as int),
{
    let mut r: Vec<u8> = Vec::new();
    let mut i: usize = lo;
    while i < hi
        invariant
            lo <= i <= hi <= v.len(),
            r@ == v@.subrange(lo as int, i as int),
        decreases hi - i,
    {
        r.push(v[i]);
        i = i + 1;
    }
    r
}

fn concat(a: &Vec<u8>, b: &[u8]) -> (r: Vec<u8>)
    ensures
        r@ == a@ + b@,
{
    let mut r: Vec<u8> = Vec::new();
    let mut i: usize = 0;
    while i < a.len()
        invariant
            i <= a.len(),
            r@ == a@.take(i as int),
        decreases a.len() - i,
    {
        r.push(a[i]);
        i = i + 1;
    }
    let mut j: usize = 0;
    while j < b.len()
        invariant
            j <= b.len(),
            r@ == a@ + b@.take(j as int),
        decreases b.len() - j,
    {
        r.push(b[j]);
        j = j + 1;
    }
    r
}

/// Reshapes writes into chunks of exactly `size` bytes; the remainder
/// waits for more bytes, or for `close`.
pub struct ExactBufWriter {
    size: usize,
    buffer: Vec<u8>,
}

impl ExactBufWriter {
    pub closed spec fn spec_size(&self) -> nat {
        self.size as nat
    }

    /// The bytes received and not yet forwarded.
    pub closed spec fn spec_buffer(&self) -> Seq<u8> {
        self.buffer@
    }

    pub open spec fn wf(&self) -> bool {
        self.spec_size() > 0 && self.spec_buffer().len() < self.spec_size()
    }

    pub fn new(size: usize) -> (r: ExactBufWriter)
        requires
            size > 0,
        ensures
            r.wf(),
            r.spec_size() == size,
            r.spec_buffer() == Seq::<u8>::empty(),
    {
        ExactBufWriter { size, buffer: Vec::new() }
    }

    pub fn buffered(&self) -> (r: usize)
        ensures
            r == self.spec_buffer().len(),
    {
        self.buffer.len()
    }

    /// Takes `bs` and returns the chunks of exactly the configured size that
    /// the buffered bytes followed by `bs` now make up, in order.
    pub fn write(&mut self, bs: &[u8]) -> (r: Vec<Vec<u8>>)
        requires
            old(self).wf(),
            old(self).spec_buffer().len() + bs@.len() <= usize::MAX,
        ensures
            final(self).wf(),
            final(self).spec_size() == old(self).spec_size(),
            chunks_view(r@) == exact_chunks(old(self).spec_size(), old(self).spec_buffer() + bs@),
            final(self).spec_buffer() == exact_rest(old(self).spec_size(), old(self).spec_buffer() + bs@),
    {
        let data = concat(&self.buffer, bs);
        let n = self.size;
        let ghost nn = n as nat;
        let mut chunks: Vec<Vec<u8>> = Vec::new();
        let mut i: usize = 0;
        while data.len() - i >= n
            invariant
                n > 0,
                nn == n as nat,
                i <= data.len(),
                exact_chunks(nn, data@) == chunks_view(chunks@) + exact_chunks(nn, data@.skip(i as int)),
                exact_rest(nn, data@) == exact_rest(nn, data@.skip(i as int)),
            decreases data.len() - i,
        {
            let c = copy_range(&data, i, i + n);
            let ghost rest = data@.skip(i as int);
            assert(rest.take(n as int) =~= c@);
            assert(rest.skip(n as int) =~= data@.skip(i + n));
            let ghost before = chunks@;
            chunks.push(c);
            assert(chunks_view(chunks@) =~= chunks_view(before) + seq![c@]);
            i = i + n;
        }
        let ghost rest = data@.skip(i as int);
        assert(chunks_view(chunks@) + exact_chunks(nn, rest) =~= chunks_view(chunks@));
        self.buffer = copy_range(&data, i, data.len());
        assert(self.buffer@ =~= rest);
        proof {
            lemma_exact_split(nn, data@);
        }
        chunks
    }

    /// Hands out what is still buffered, if anything, as the last chunk.
    pub fn close(&mut self) -> (r: Option<Vec<u8>>)
        requires
            old(self).wf(),
        ensures
            final(self).wf(),
            final(self).spec_size() == old(self).spec_size(),
            final(self).spec_buffer() == Seq::<u8>::empty(),
            old(self).spec_buffer().len() == 0 ==> r.is_none(),
            old(self).spec_buffer().len() > 0 ==> r.is_some() && r.unwrap()@ == old(self).spec_buffer(),
    {
        if self.buffer.len() == 0 {
            None
        } else {
            let mut out: Vec<u8> = Vec::new();
            std::mem::swap(&mut out, &mut self.buffer);
            Some(out)
        }
    }

    /// Drops what is buffered.
    pub fn abort(&mut self)
        requires
            old(self).wf(),
        ensures
            final(self).wf(),
            final(self).spec_size() == old(self).spec_size(),
            final(self).spec_buffer() == Seq::<u8>::empty(),
    {
        self.buffer = Vec::new();
    }
}

/// Reshapes writes into chunks of at least `size` bytes: bytes wait in the
/// buffer until it holds `size` or more, then all of them go as one chunk.
pub struct AtLeastBufWriter {
    size: usize,
    buffer: Vec<u8>,
}

impl AtLeastBufWriter {
    pub closed spec fn spec_size(&self) -> nat {
        self.size as nat
    }

    /// The bytes received and not yet forwarded.
    pub closed spec fn spec_buffer(&self) -> Seq<u8> {
        self.buffer@
    }

    pub open spec fn wf(&self) -> bool {
        self.spec_buffer().len() < self.spec_size() || self.spec_buffer().len() == 0
    }

    pub fn new(size: usize) -> (r: AtLeastBufWriter)
        ensures
            r.wf(),
            r.spec_size() == size,
            r.spec_buffer() == Seq::<u8>::empty(),
    {
        AtLeastBufWriter { size, buffer: Vec::new() }
    }

    pub fn buffered(&self) -> (r: usize)
        ensures
            r == self.spec_buffer().len(),
    {
        self.buffer.len()
    }

    /// Takes `bs`; once the buffered bytes followed by `bs` reach the
    /// threshold, returns all of them as one chunk and empties the buffer.
    pub fn write(&mut self, bs: &[u8]) -> (r: Option<Vec<u8>>)
        requires
            old(self).wf(),
            old(self).spec_buffer().len() + bs@.len() <= usize::MAX,
        ensures
            final(self).wf(),
            final(self).spec_size() == old(self).spec_size(),
            (match r {
                Some(c) => seq![c@],
                None => Seq::<Seq<u8>>::empty(),
            }) == at_least_chunks(old(self).spec_size(), old(self).spec_buffer() + bs@),
            final(self).spec_buffer() == at_least_rest(old(self).spec_size(), old(self).spec_buffer() + bs@),
    {
        let data = concat(&self.buffer, bs);
        if data.len() >= self.size && data.len() > 0 {
            self.buffer = Vec::new();
            assert(self.buffer@ =~= Seq::<u8>::empty());
            Some(data)
        } else {
            self.buffer = data;
            None
        }
    }

    /// Hands out what is still buffered, if anything, as the last chunk,
    /// whatever its size.
    pub fn close(&mut self) -> (r: Option<Vec<u8>>)
        requires
            old(self).wf(),
        ensures
            final(self).wf(),
            final(self).spec_size() == old(self).spec_size(),
            final(self).spec_buffer() == Seq::<u8>::empty(),
            old(self).spec_buffer().len() == 0 ==> r.is_none(),
            old(self).spec_buffer().len() > 0 ==> r.is_some() && r.unwrap()@ == old(self).spec_buffer(),
    {
        if self.buffer.len() == 0 {
            None
        } else {
            let mut out: Vec<u8> = Vec::new();
            std::mem::swap(&mut out, &mut self.buffer);
            Some(out)
        }
    }

    /// Drops what is buffered.
    pub fn abort(&mut self)
        requires
            old(self).wf(),
        ensures
            final(self).wf(),
            final(self).spec_size() == old(self).spec_size(),
            final(self).spec_buffer() == Seq::<u8>::empty(),
    {
        self.buffer = Vec::new();
    }
}

/// The chunks an exact buffer of size `n` forwards over `writes`, before
/// `close`, and the bytes it then holds.
pub open spec fn exact_run(n: nat, writes: Seq<Seq<u8>>) -> (Seq<Seq<u8>>, Seq<u8>)
    decreases writes.len(),
{
    if writes.len() == 0 {
        (Seq::empty(), Seq::empty())
    } else {
        let p = exact_run(n, writes.drop_last());
        let d = p.1 + writes.last();
        (p.0 + exact_chunks(n, d), exact_rest(n, d))
    }
}

/// Everything an exact buffer of size `n` forwards over `writes` and `close`.
pub open spec fn exact_forwarded(n: nat, writes: Seq<Seq<u8>>) -> Seq<Seq<u8>> {
    exact_run(n, writes).0 + final_chunks(exact_run(n, writes).1)
}

/// The chunks an at-least buffer of threshold `n` forwards over `writes`,
/// before `close`, and the bytes it then holds.
pub open spec fn at_least_run(n: nat, writes: Seq<Seq<u8>>) -> (Seq<Seq<u8>>, Seq<u8>)
    decreases writes.len(),
{
    if writes.len() == 0 {
        (Seq::empty(), Seq::empty())
    } else {
        let p = at_least_run(n, writes.drop_last());
        let d = p.1 + writes.last();
        (p.0 + at_least_chunks(n, d), at_least_rest(n, d))
    }
}

/// Everything an at-least buffer of threshold `n` forwards over `writes` and `close`.
pub open spec fn at_least_forwarded(n: nat, writes: Seq<Seq<u8>>) -> Seq<Seq<u8>> {
    at_least_run(n, writes).0 + final_chunks(at_least_run(n, writes).1)
}

proof fn lemma_flatten_last(writes: Seq<Seq<u8>>)
    requires
        writes.len() > 0,
    ensures
        writes.flatten() == writes.drop_last().flatten() + writes.last(),
{
    assert(writes =~= writes.drop_last().push(writes.last()));
    writes.drop_last().lemma_flatten_push(writes.last());
}

proof fn lemma_final_chunks(forwarded: Seq<Seq<u8>>, rest: Seq<u8>)
    ensures
        (forwarded + final_chunks(rest)).flatten() == forwarded.flatten() + rest,
{
    lemma_flatten_concat(forwarded, final_chunks(rest));
    if rest.len() > 0 {
        seq![rest].lemma_flatten_one_element();
    }
    assert((forwarded + final_chunks(rest)).flatten() =~= forwarded.flatten() + rest);
}

proof fn lemma_exact_run(n: nat, writes: Seq<Seq<u8>>)
    requires
        n > 0,
    ensures
        exact_run(n, writes).0.flatten() + exact_run(n, writes).1 == writes.flatten(),
        forall|i: int| 0 <= i < exact_run(n, writes).0.len() ==> (#[trigger] exact_run(n, writes).0[i]).len() == n,
        exact_run(n, writes).1.len() < n,
    decreases writes.len(),
{
    if writes.len() > 0 {
        let prev = writes.drop_last();
        lemma_exact_run(n, prev);
        let p = exact_run(n, prev);
        let d = p.1 + writes.last();
        lemma_exact_split(n, d);
        lemma_flatten_concat(p.0, exact_chunks(n, d));
        lemma_flatten_last(writes);
        let q = exact_run(n, writes);
        assert(q.0.flatten() + q.1 =~= p.0.flatten() + (exact_chunks(n, d).flatten() + exact_rest(n, d)));
        assert forall|i: int| 0 <= i < q.0.len() implies (#[trigger] q.0[i]).len() == n by {
            if i < p.0.len() {
                assert(q.0[i] == p.0[i]);
            } else {
                assert(q.0[i] == exact_chunks(n, d)[i - p.0.len()]);
            }
        }
    } else {
        assert(writes.flatten() =~= Seq::<u8>::empty());
        assert(exact_run(n, writes).0.flatten() =~= Seq::<u8>::empty());
    }
}

/// Over any writes, an exact buffer of size `n` forwards chunks of exactly
/// `n` bytes, then at `close` at most one shorter, non-empty chunk; and the
/// chunks joined are the written bytes, in order, none lost.
pub proof fn lemma_exact_buffer_law(n: nat, writes: Seq<Seq<u8>>)
    requires
        n > 0,
    ensures
        exact_forwarded(n, writes).flatten() == writes.flatten(),
        forall|i: int| 0 <= i < exact_forwarded(n, writes).len() - 1
            ==> (#[trigger] exact_forwarded(n, writes)[i]).len() == n,
        exact_forwarded(n, writes).len() > 0 ==> 0 < exact_forwarded(n, writes).last().len() <= n,
{
    lemma_exact_run(n, writes);
    let p = exact_run(n, writes);
    lemma_final_chunks(p.0, p.1);
    let f = exact_forwarded(n, writes);
    assert forall|i: int| 0 <= i < f.len() - 1 implies (#[trigger] f[i]).len() == n by {
        assert(f[i] == p.0[i]);
    }
    if f.len() > 0 {
        if p.1.len() == 0 {
            assert(f.last() == p.0[p.0.len() - 1]);
        }
    }
}

proof fn lemma_at_least_run(n: nat, writes: Seq<Seq<u8>>)
    ensures
        at_least_run(n, writes).0.flatten() + at_least_run(n, writes).1 == writes.flatten(),
        forall|i: int| 0 <= i < at_least_run(n, writes).0.len()
            ==> (#[trigger] at_least_run(n, writes).0[i]).len() >= n
                && at_least_run(n, writes).0[i].len() > 0,
        at_least_run(n, writes).1.len() < n || at_least_run(n, writes).1.len() == 0,
    decreases writes.len(),
{
    if writes.len() > 0 {
        let prev = writes.drop_last();
        lemma_at_least_run(n, prev);
        let p = at_least_run(n, prev);
        let d = p.1 + writes.last();
        lemma_flatten_concat(p.0, at_least_chunks(n, d));
        lemma_flatten_last(writes);
        if d.len() >= n && d.len() > 0 {
            seq![d].lemma_flatten_one_element();
        }
        let q = at_least_run(n, writes);
        assert(q.0.flatten() + q.1 =~= p.0.flatten() + (at_least_chunks(n, d).flatten() + at_least_rest(n, d)));
        assert forall|i: int| 0 <= i < q.0.len() implies (#[trigger] q.0[i]).len() >= n && q.0[i].len() > 0 by {
            if i < p.0.len() {
                assert(q.0[i] == p.0[i]);
            } else {
                assert(q.0[i] == at_least_chunks(n, d)[i - p.0.len()]);
            }
        }
    } else {
        assert(writes.flatten() =~= Seq::<u8>::empty());
        assert(at_least_run(n, writes).0.flatten() =~= Seq::<u8>::empty());
    }
}

/// Over any writes, an at-least buffer of threshold `n` forwards no chunk
/// shorter than `n` but the last one, which `close` hands out; no chunk is
/// empty, and the chunks joined are the written bytes, in order, none lost.
pub proof fn lemma_at_least_buffer_law(n: nat, writes: Seq<Seq<u8>>)
    ensures
        at_least_forwarded(n, writes).flatten() == writes.flatten(),
        forall|i: int| 0 <= i < at_least_run(n, writes).0.len()
            ==> (#[trigger] at_least_run(n, writes).0[i]).len() >= n,
        forall|i: int| 0 <= i < at_least_forwarded(n, writes).len() - 1
            ==> (#[trigger] at_least_forwarded(n, writes)[i]).len() >= n,
        forall|i: int| 0 <= i < at_least_forwarded(n, writes).len()
            ==> (#[trigger] at_least_forwarded(n, writes)[i]).len() > 0,
{
    lemma_at_least_run(n, writes);
    let p = at_least_run(n, writes);
    lemma_final_chunks(p.0, p.1);
    let f = at_least_forwarded(n, writes);
    assert forall|i: int| 0 <= i < f.len() - 1 implies (#[trigger] f[i]).len() >= n by {
        assert(f[i] == p.0[i]);
    }
    assert forall|i: int| 0 <= i < f.len() implies (#[trigger] f[i]).len() > 0 by {
        if i < p.0.len() {
            assert(f[i] == p.0[i]);
        }
    }
}

} // verus!

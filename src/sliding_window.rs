use vstd::prelude::*;

verus! {

/// The `k`-th frame of `input`: `w` elements starting at `k * f`.
pub open spec fn frame_at<T>(input: Seq<T>, k: nat, w: nat, f: nat) -> Seq<T> {
    input.subrange((k * f) as int, (k * f + w) as int)
}

/// How many frames of width `w` and hop `f` a sequence of `n` elements holds.
pub open spec fn frame_count(n: nat, w: nat, f: nat) -> nat
    recommends
        f > 0,
{
    if n < w {
        0
    } else {
        ((n - w) as nat / f) + 1
    }
}

/// Consecutive frames overlap by `w - f` samples: the last `w - f` of frame `k` are
/// the first `w - f` of frame `k + 1`.
pub proof fn lemma_consecutive_overlap<T>(input: Seq<T>, k: nat, w: nat, f: nat)
    requires
        f <= w,
        (k + 1) * f + w <= input.len(),
    ensures
        frame_at(input, k, w, f).subrange(f as int, w as int) == frame_at(
            input,
            k + 1,
            w,
            f,
        ).subrange(0, (w - f) as int),
{
    assert((k + 1) * f == k * f + f) by (nonlinear_arith);
    assert(frame_at(input, k, w, f).subrange(f as int, w as int) =~= frame_at(
        input,
        k + 1,
        w,
        f,
    ).subrange(0, (w - f) as int));
}

/// Buffers chunks of samples and hands out frames of `window_size` samples, each
/// starting `frame_size` samples after the previous one.
pub struct SlidingWindow<T> {
    buffer: Vec<T>,
    window_size: usize,
    frame_size: usize,
    tail: usize,
    input: Ghost<Seq<T>>,
    emitted: Ghost<nat>,
}

impl<T> SlidingWindow<T> {
    /// Samples buffered and not yet dropped from the head.
    pub closed spec fn buffered(&self) -> Seq<T> {
        self.buffer@
    }

    /// Samples that a frame spans.
    pub closed spec fn window(&self) -> nat {
        self.window_size as nat
    }

    /// Samples by which one frame is ahead of the previous one.
    pub closed spec fn hop(&self) -> nat {
        self.frame_size as nat
    }

    /// Samples available since the last frame was taken.
    pub closed spec fn pending(&self) -> nat {
        self.tail as nat
    }

    /// Every sample pushed so far, in order.
    pub closed spec fn input(&self) -> Seq<T> {
        self.input@
    }

    /// Number of frames handed out so far.
    pub closed spec fn emitted(&self) -> nat {
        self.emitted@
    }

    /// The buffer is the input with the first `emitted * hop` samples dropped, the
    /// pending count is its length, and every frame handed out lay within the input.
    pub closed spec fn wf(&self) -> bool {
        &&& self.frame_size <= self.window_size
        &&& self.tail as nat == self.buffer@.len()
        &&& self.emitted@ * self.frame_size <= self.input@.len()
        &&& self.buffer@ == self.input@.subrange(
            (self.emitted@ * self.frame_size) as int,
            self.input@.len() as int,
        )
        &&& (self.emitted@ == 0 || (self.emitted@ - 1) * self.frame_size + self.window_size
            <= self.input@.len())
    }

    /// Frames handed out so far plus frames that the buffer still holds make up every
    /// frame of the input: for pushes that total `n` samples, a window of `w` and a hop
    /// `f > 0` hand out `(n - w) / f + 1` frames in all once `n >= w`, and none before.
    pub proof fn lemma_frame_count(&self)
        requires
            self.wf(),
            self.hop() > 0,
        ensures
            self.emitted() + frame_count(self.pending(), self.window(), self.hop())
                == frame_count(self.input().len(), self.window(), self.hop()),
            self.pending() < self.window() ==> self.emitted() == frame_count(
                self.input().len(),
                self.window(),
                self.hop(),
            ),
    {
        let n = self.input@.len() as int;
        let k = self.emitted@ as int;
        let f = self.frame_size as int;
        let w = self.window_size as int;
        let p = n - k * f;
        assert(p == self.tail as int);
        if p >= w {
            let q = (p - w) / f;
            let r = (p - w) % f;
            vstd::arithmetic::div_mod::lemma_fundamental_div_mod(p - w, f);
            assert(0 <= r < f) by {
                vstd::arithmetic::div_mod::lemma_mod_bound(p - w, f);
            }
            assert(n - w == (q + k) * f + r) by (nonlinear_arith)
                requires
                    p - w == f * q + r,
                    p == n - k * f,
            ;
            vstd::arithmetic::div_mod::lemma_fundamental_div_mod_converse(n - w, f, q + k, r);
        } else if k > 0 {
            let r = n - w - (k - 1) * f;
            assert(0 <= r < f) by (nonlinear_arith)
                requires
                    r == n - w - (k - 1) * f,
                    (k - 1) * f + w <= n,
                    n - k * f < w,
                    f > 0,
            ;
            vstd::arithmetic::div_mod::lemma_fundamental_div_mod_converse(n - w, f, k - 1, r);
        }
    }

    /// No frame is handed out while fewer than a window of samples have been pushed.
    pub proof fn lemma_no_frame_before_window(&self)
        requires
            self.wf(),
        ensures
            self.input().len() < self.window() ==> self.emitted() == 0,
    {
        if self.emitted@ > 0 {
            let e = self.emitted@ as int;
            let f = self.frame_size as int;
            assert((e - 1) * f >= 0) by (nonlinear_arith)
                requires
                    e > 0,
                    f >= 0,
            ;
        }
    }

    /// The pending count is the length of the buffer.
    pub proof fn lemma_pending_is_buffered(&self)
        requires
            self.wf(),
        ensures
            self.pending() == self.buffered().len(),
            self.buffered() == self.input().subrange(
                (self.emitted() * self.hop()) as int,
                self.input().len() as int,
            ),
            self.hop() <= self.window(),
    {
    }
}

impl<T: Copy> SlidingWindow<T> {
    /// An empty window that hands out frames of `window_size` samples, advancing by
    /// `frame_size` samples from one frame to the next.
    pub fn new(window_size: usize, frame_size: usize) -> (r: Self)
        requires
            frame_size <= window_size,
        ensures
            r.wf(),
            r.window() == window_size,
            r.hop() == frame_size,
            r.input() == Seq::<T>::empty(),
            r.buffered() == Seq::<T>::empty(),
            r.pending() == 0,
            r.emitted() == 0,
    {
        let r = SlidingWindow {
            buffer: Vec::new(),
            window_size,
            frame_size,
            tail: 0,
            input: Ghost(Seq::empty()),
            emitted: Ghost(0),
        };
        assert(r.emitted@ * r.frame_size == 0);
        assert(r.buffer@ =~= r.input@.subrange(0, 0));
        r
    }

    /// Samples available since the last frame was taken.
    pub fn pending_count(&self) -> (r: usize)
        ensures
            r == self.pending(),
    {
        self.tail
    }

    /// Samples that a frame spans.
    pub fn window_size(&self) -> (r: usize)
        ensures
            r == self.window(),
    {
        self.window_size
    }

    /// Samples by which one frame is ahead of the previous one.
    pub fn frame_size(&self) -> (r: usize)
        ensures
            r == self.hop(),
    {
        self.frame_size
    }

    /// Appends a chunk of samples at the tail.
    pub fn push(&mut self, data: Vec<T>)
        requires
            old(self).wf(),
            old(self).pending() + data@.len() <= usize::MAX,
        ensures
            final(self).wf(),
            final(self).input() == old(self).input() + data@,
            final(self).buffered() == old(self).buffered() + data@,
            final(self).pending() == old(self).pending() + data@.len(),
            final(self).window() == old(self).window(),
            final(self).hop() == old(self).hop(),
            final(self).emitted() == old(self).emitted(),
    {
        let mut data = data;
        let ghost added = data@;
        self.tail = self.tail + data.len();
        self.buffer.append(&mut data);
        proof {
            let old_input = self.input@;
            self.input = Ghost(old_input + added);
            assert(self.buffer@ =~= self.input@.subrange(
                (self.emitted@ * self.frame_size) as int,
                self.input@.len() as int,
            ));
        }
    }

    /// Hands out the next frame when at least a window of samples is pending, and
    /// drops the first `frame_size` samples; otherwise reports that none is ready
    /// and leaves the window as it was.
    pub fn poll_next(&mut self) -> (r: Option<Vec<T>>)
        requires
            old(self).wf(),
        ensures
            final(self).wf(),
            old(self).pending() < old(self).window() <==> r is None,
            r is None ==> *final(self) == *old(self),
            r matches Some(frame) ==> {
                &&& frame@ == old(self).buffered().subrange(0, old(self).window() as int)
                &&& frame@ == frame_at(
                    old(self).input(),
                    old(self).emitted(),
                    old(self).window(),
                    old(self).hop(),
                )
                &&& final(self).buffered() == old(self).buffered().subrange(
                    old(self).hop() as int,
                    old(self).buffered().len() as int,
                )
                &&& final(self).pending() == old(self).pending() - old(self).hop()
                &&& final(self).emitted() == old(self).emitted() + 1
                &&& final(self).input() == old(self).input()
                &&& final(self).window() == old(self).window()
                &&& final(self).hop() == old(self).hop()
            },
    {
        if self.tail < self.window_size {
            return None;
        }
        let ghost start = self.emitted@ * self.frame_size;
        let mut frame: Vec<T> = Vec::with_capacity(self.window_size);
        let mut i: usize = 0;
        while i < self.window_size
            invariant
                self.wf(),
                self.window_size <= self.buffer@.len(),
                i <= self.window_size,
                frame@ == self.buffer@.subrange(0, i as int),
            decreases self.window_size - i,
        {
            frame.push(self.buffer[i]);
            assert(frame@ =~= self.buffer@.subrange(0, i + 1));
            i += 1;
        }
        let rest = self.buffer.split_off(self.frame_size);
        self.buffer = rest;
        self.tail = self.tail - self.frame_size;
        proof {
            let k = self.emitted@;
            let n = self.input@.len();
            assert(frame@ =~= self.input@.subrange(start, start + self.window_size));
            assert((k + 1) * self.frame_size == start + self.frame_size) by (nonlinear_arith)
                requires
                    start == k * self.frame_size,
            ;
            assert(self.buffer@ =~= self.input@.subrange(
                (start + self.frame_size) as int,
                n as int,
            ));
            self.emitted = Ghost(k + 1);
        }
        Some(frame)
    }
}

} // verus!

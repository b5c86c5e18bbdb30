use vstd::prelude::*;
use crate::api::models::YTrack;
use crate::utils::text::str_equal;
use crate::player::draws::DrawLog;

verus! {

/// What happens when the queue runs past its last (or first) track.
#[derive(Debug, Clone, Copy, PartialEq, Eq, Structural)]
pub enum RepeatMode {
    Off,
    One,
    All,
}

/// The repeat mode that `cycle_repeat` moves to: off, all, one, off, ...
pub open spec fn next_repeat_mode(m: RepeatMode) -> RepeatMode {
    match m {
        RepeatMode::Off => RepeatMode::All,
        RepeatMode::All => RepeatMode::One,
        RepeatMode::One => RepeatMode::Off,
    }
}

/// The abstract state of a playback queue.
#[verifier::ext_equal]
pub struct QueueModel {
    pub tracks: Seq<YTrack>,
    /// Index of the current track in play order when shuffle is off.
    pub current_index: nat,
    pub shuffle: bool,
    pub repeat: RepeatMode,
    /// The shuffled play order: indices into `tracks`.
    pub order: Seq<usize>,
    /// Position in `order` of the current track when shuffle is on.
    pub position: nat,
    /// The values the random generator has returned for shuffling, oldest
    /// first.
    pub drawn: Seq<usize>,
}

/// `order` holds each of `0..n` exactly once.
pub open spec fn is_order_of(order: Seq<usize>, n: nat) -> bool {
    &&& order.len() == n
    &&& forall|i: int| 0 <= i < n ==> (#[trigger] order[i]) < n
    &&& forall|i: int, j: int| 0 <= i < j < n ==> order[i] != order[j]
}

/// The invariant every queue keeps.
pub open spec fn queue_wf(m: QueueModel) -> bool {
    &&& m.current_index < m.tracks.len() || (m.tracks.len() == 0 && m.current_index == 0)
    &&& m.order.len() <= m.tracks.len()
    &&& is_order_of(m.order, m.order.len())
    &&& m.position < m.order.len() || (m.order.len() == 0 && m.position == 0)
    &&& !m.shuffle ==> m.order.len() == 0 && m.position == 0
}

/// Index into `tracks` of the current track, if there is one.
pub open spec fn current_slot(m: QueueModel) -> Option<int> {
    if m.shuffle {
        if m.position < m.order.len() && m.order[m.position as int] < m.tracks.len() {
            Some(m.order[m.position as int] as int)
        } else {
            None
        }
    } else {
        if m.current_index < m.tracks.len() {
            Some(m.current_index as int)
        } else {
            None
        }
    }
}

/// The current track, if there is one.
pub open spec fn current_of(m: QueueModel) -> Option<YTrack> {
    match current_slot(m) {
        Some(i) => Some(m.tracks[i]),
        None => None,
    }
}

pub open spec fn deref_track(r: Option<&YTrack>) -> Option<YTrack> {
    match r {
        Some(t) => Some(*t),
        None => None,
    }
}

/// `o` with the entries at `a` and `b` exchanged.
pub open spec fn swapped(o: Seq<usize>, a: int, b: int) -> Seq<usize> {
    o.update(a, o[b]).update(b, o[a])
}

/// Draws fit a Fisher-Yates shuffle of `n` items: one per step `i` from
/// `n - 1` down to 1, the draw of step `i` at index `i - 1` and at most `i`.
pub open spec fn draws_fit(n: nat, draws: Seq<usize>) -> bool {
    &&& draws.len() == if n == 0 { 0 } else { (n - 1) as nat }
    &&& forall|k: int| 0 <= k < draws.len() ==> #[trigger] draws[k] <= k + 1
}

/// The steps `i`, `i - 1`, ..., 1 of Fisher-Yates on `o`: step `i` exchanges
/// the entries at `i` and at the draw of step `i`.
pub open spec fn fy_steps(o: Seq<usize>, draws: Seq<usize>, i: int) -> Seq<usize>
    decreases i,
{
    if i <= 0 {
        o
    } else {
        fy_steps(swapped(o, i, draws[i - 1] as int), draws, i - 1)
    }
}

/// The Fisher-Yates order of `0..n` for the given draws: start from
/// `0, 1, ..., n - 1` and, for `i` from `n - 1` down to 1, exchange the
/// entries at `i` and at the draw of step `i`.
pub open spec fn fy_order(n: nat, draws: Seq<usize>) -> Seq<usize> {
    fy_steps(Seq::new(n, |k: int| k as usize), draws, n - 1)
}

/// The order is the Fisher-Yates order of `0..n` for some fitting draws.
pub open spec fn is_fy_order(order: Seq<usize>, n: nat) -> bool {
    exists|d: Seq<usize>| draws_fit(n, d) && order == #[trigger] fy_order(n, d)
}

/// After a full shuffled pass with repeat-all the new order starts
/// elsewhere than on the track just finished: when it would start there,
/// its first and last entries are exchanged.
pub open spec fn wrap_order(o: Seq<usize>, current: nat) -> Seq<usize> {
    if o.len() > 1 && o[0] == current {
        swapped(o, 0, o.len() - 1)
    } else {
        o
    }
}

/// The draws made between two records of the log, arranged by step: the
/// draw for step `i` at index `i - 1`. The draws are made from the last
/// step down, so this is the new part of the log reversed.
pub open spec fn step_draws(before: Seq<usize>, after: Seq<usize>) -> Seq<usize> {
    after.skip(before.len() as int).reverse()
}

/// The log grew by exactly the draws of one shuffle of `n` items, each
/// within its step's range.
pub open spec fn fresh_draws(before: Seq<usize>, after: Seq<usize>, n: nat) -> bool {
    &&& before.len() <= after.len()
    &&& after.take(before.len() as int) == before
    &&& draws_fit(n, step_draws(before, after))
}

/// `new` is `old` with a fresh shuffle order over all tracks, positioned on
/// the current track (or at 0 when the queue is empty).
pub open spec fn reshuffled(old: QueueModel, new: QueueModel) -> bool {
    &&& new.tracks == old.tracks
    &&& new.current_index == old.current_index
    &&& new.shuffle == old.shuffle
    &&& new.repeat == old.repeat
    &&& is_order_of(new.order, old.tracks.len())
    &&& fresh_draws(old.drawn, new.drawn, old.tracks.len())
    &&& new.order == fy_order(old.tracks.len(), step_draws(old.drawn, new.drawn))
    &&& is_fy_order(new.order, old.tracks.len())
    &&& (old.tracks.len() == 0 ==> new.position == 0)
    &&& (old.current_index < old.tracks.len() ==> new.position < new.order.len()
        && new.order[new.position as int] == old.current_index)
}

/// The state after making sure the shuffle order covers every track.
pub open spec fn order_ensured(old: QueueModel, mid: QueueModel) -> bool {
    if old.order.len() == old.tracks.len() {
        mid == old
    } else {
        reshuffled(old, mid)
    }
}

/// One step forward in shuffle mode from `mid`, whose order covers all tracks.
pub open spec fn shuffle_forward(mid: QueueModel, new: QueueModel, out: Option<YTrack>) -> bool {
    if mid.position + 1 < mid.order.len() {
        &&& new == QueueModel { position: mid.position + 1, ..mid }
        &&& out == current_of(new)
    } else {
        match mid.repeat {
            RepeatMode::Off => new == mid && out is None,
            RepeatMode::One => new == mid && out == current_of(new),
            RepeatMode::All => {
                &&& new.tracks == mid.tracks
                &&& new.current_index == mid.current_index
                &&& new.shuffle == mid.shuffle
                &&& new.repeat == mid.repeat
                &&& is_order_of(new.order, mid.tracks.len())
                &&& fresh_draws(mid.drawn, new.drawn, mid.tracks.len())
                &&& new.order == wrap_order(
                    fy_order(mid.tracks.len(), step_draws(mid.drawn, new.drawn)),
                    mid.current_index,
                )
                &&& new.position == 0
                &&& (mid.tracks.len() > 1 ==> new.order[0] != mid.current_index)
                &&& out == current_of(new)
            },
        }
    }
}

/// What `next_track` does.
pub open spec fn next_step(old: QueueModel, new: QueueModel, out: Option<YTrack>) -> bool {
    if old.tracks.len() == 0 {
        new == old && out is None
    } else if !old.shuffle {
        if old.current_index + 1 >= old.tracks.len() {
            match old.repeat {
                RepeatMode::All => new == QueueModel { current_index: 0, ..old } && out
                    == current_of(new),
                RepeatMode::One => new == old && out == current_of(new),
                RepeatMode::Off => new == old && out is None,
            }
        } else {
            new == QueueModel { current_index: old.current_index + 1, ..old } && out
                == current_of(new)
        }
    } else {
        exists|mid: QueueModel| order_ensured(old, mid) && #[trigger] shuffle_forward(mid, new, out)
    }
}

/// One step back in shuffle mode from `mid`, whose order covers all tracks.
pub open spec fn shuffle_back(mid: QueueModel, new: QueueModel, out: Option<YTrack>) -> bool {
    if mid.position == 0 {
        match mid.repeat {
            RepeatMode::All => new == QueueModel {
                position: if mid.order.len() > 0 { (mid.order.len() - 1) as nat } else { 0 },
                ..mid
            } && out == current_of(new),
            RepeatMode::One => new == mid && out == current_of(new),
            RepeatMode::Off => new == mid && out is None,
        }
    } else {
        new == QueueModel { position: (mid.position - 1) as nat, ..mid } && out == current_of(new)
    }
}

/// What `prev_track` does.
pub open spec fn prev_step(old: QueueModel, new: QueueModel, out: Option<YTrack>) -> bool {
    if old.tracks.len() == 0 {
        new == old && out is None
    } else if !old.shuffle {
        if old.current_index == 0 {
            match old.repeat {
                RepeatMode::All => new == QueueModel {
                    current_index: (old.tracks.len() - 1) as nat,
                    ..old
                } && out == current_of(new),
                RepeatMode::One => new == old && out == current_of(new),
                RepeatMode::Off => new == old && out is None,
            }
        } else {
            new == QueueModel { current_index: (old.current_index - 1) as nat, ..old } && out
                == current_of(new)
        }
    } else {
        exists|mid: QueueModel| order_ensured(old, mid) && #[trigger] shuffle_back(mid, new, out)
    }
}

/// What `set_shuffle(on)` does.
pub open spec fn shuffle_set(old: QueueModel, on: bool, new: QueueModel) -> bool {
    if on == old.shuffle {
        new == old
    } else if on {
        reshuffled(old, QueueModel { shuffle: false, ..new }) && new.shuffle
    } else {
        &&& new.tracks == old.tracks
        &&& new.repeat == old.repeat
        &&& !new.shuffle
        &&& new.order.len() == 0
        &&& new.position == 0
        &&& new.drawn == old.drawn
        &&& new.current_index == if old.position < old.order.len() {
            old.order[old.position as int] as nat
        } else {
            old.current_index
        }
    }
}

/// What `set_current_by_id(id)` does: `found` tells whether a track has
/// that id; the first such track becomes the current one (in shuffle mode,
/// its place in the order when it has one), and otherwise nothing changes.
pub open spec fn current_set(old: QueueModel, id: Seq<char>, found: bool, new: QueueModel) -> bool {
    &&& found == exists|i: int| 0 <= i < old.tracks.len() && (#[trigger] old.tracks[i]).id@ == id
    &&& !found ==> new == old
    &&& found ==> {
        let k = new.current_index as int;
        &&& new.tracks == old.tracks
        &&& new.shuffle == old.shuffle
        &&& new.repeat == old.repeat
        &&& new.order == old.order
        &&& new.drawn == old.drawn
        &&& k < new.tracks.len()
        &&& new.tracks[k].id@ == id
        &&& forall|i: int| 0 <= i < k ==> (#[trigger] new.tracks[i]).id@ != id
        &&& if new.shuffle && old.order.contains(k as usize) {
            new.order[new.position as int] == k
        } else {
            new.position == old.position
        }
    }
}

/// The Fisher-Yates order of `0..n` for the given draws.
pub fn shuffled_order(n: usize, draws: &[usize]) -> (r: Vec<usize>)
    requires
        draws_fit(n as nat, draws@),
    ensures
        r@ == fy_order(n as nat, draws@),
        is_order_of(r@, n as nat),
{
    let mut order: Vec<usize> = Vec::new();
    let mut k: usize = 0;
    while k < n
        invariant
            k <= n,
            order@.len() == k,
            forall|i: int| 0 <= i < k ==> order@[i] == i,
        decreases n - k,
    {
        order.push(k);
        k = k + 1;
    }
    assert(order@ == Seq::new(n as nat, |k: int| k as usize));
    let mut i: usize = n;
    while i > 1
        invariant
            i <= n,
            n > 0 ==> i >= 1,
            draws_fit(n as nat, draws@),
            is_order_of(order@, n as nat),
            fy_order(n as nat, draws@) == fy_steps(order@, draws@, i - 1),
        decreases i,
    {
        i = i - 1;
        let j = draws[i - 1];
        assert(draws@[i - 1] <= i);
        let ghost before = order@;
        let a = order[i];
        let b = order[j];
        order.set(i, b);
        order.set(j, a);
        assert(order@ == swapped(before, i as int, j as int));
        assert forall|x: int, y: int| 0 <= x < y < n implies order@[x] != order@[y] by {}
    }
    order
}

/// Fisher-Yates draws a random index in `0..=upper` from the thread-local
/// generator of `fastrand` (`fastrand::usize(..=upper)`). Only the range of
/// the result is stated, since the value is random; the value returned is
/// what `log` records as drawn.
#[verifier::external_body]
fn random_index_upto(log: &mut DrawLog, upper: usize) -> (r: usize)
    ensures
        r <= upper,
        final(log).drawn() == old(log).drawn().push(r),
{
    fastrand::usize(..=upper)
}

/// The queue of tracks being played, with shuffle and repeat.
#[derive(Clone)]
pub struct PlaybackQueue {
    tracks: Vec<YTrack>,
    current_index: usize,
    shuffle: bool,
    repeat: RepeatMode,
    shuffle_order: Vec<usize>,
    shuffle_position: usize,
    draw_log: DrawLog,
}

impl View for PlaybackQueue {
    type V = QueueModel;

    closed spec fn view(&self) -> QueueModel {
        QueueModel {
            tracks: self.tracks@,
            current_index: self.current_index as nat,
            shuffle: self.shuffle,
            repeat: self.repeat,
            order: self.shuffle_order@,
            position: self.shuffle_position as nat,
            drawn: self.draw_log.drawn(),
        }
    }
}

impl PlaybackQueue {
    pub open spec fn wf(&self) -> bool {
        queue_wf(self@)
    }

    pub fn tracks(&self) -> (r: &[YTrack])
        ensures
            r@ == self@.tracks,
    {
        self.tracks.as_slice()
    }

    pub fn repeat(&self) -> (r: &RepeatMode)
        ensures
            *r == self@.repeat,
    {
        &self.repeat
    }

    pub fn shuffle(&self) -> (r: &bool)
        ensures
            *r == self@.shuffle,
    {
        &self.shuffle
    }

    pub fn new() -> (q: Self)
        ensures
            q.wf(),
            q@ == (QueueModel {
                tracks: Seq::empty(),
                current_index: 0,
                shuffle: false,
                repeat: RepeatMode::Off,
                order: Seq::empty(),
                position: 0,
                drawn: Seq::empty(),
            }),
    {
        PlaybackQueue {
            tracks: Vec::new(),
            current_index: 0,
            shuffle: false,
            repeat: RepeatMode::Off,
            shuffle_order: Vec::new(),
            shuffle_position: 0,
            draw_log: DrawLog::new(),
        }
    }

    pub fn append(&mut self, track: YTrack)
        requires
            old(self).wf(),
        ensures
            final(self).wf(),
            final(self)@ == (QueueModel { tracks: old(self)@.tracks.push(track), ..old(self)@ }),
    {
        self.tracks.push(track);
    }

    pub fn append_multiple(&mut self, tracks: Vec<YTrack>)
        requires
            old(self).wf(),
        ensures
            final(self).wf(),
            final(self)@ == (QueueModel { tracks: old(self)@.tracks + tracks@, ..old(self)@ }),
    {
        let mut tracks = tracks;
        self.tracks.append(&mut tracks);
    }

    pub fn clear(&mut self)
        requires
            old(self).wf(),
        ensures
            final(self).wf(),
            final(self)@ == (QueueModel {
                tracks: Seq::empty(),
                current_index: 0,
                order: Seq::empty(),
                position: 0,
                ..old(self)@
            }),
    {
        self.tracks.clear();
        self.current_index = 0;
        self.shuffle_order.clear();
        self.shuffle_position = 0;
    }

    /// Find track by ID and set it as current
    pub fn set_current_by_id(&mut self, track_id: &str) -> (found: bool)
        requires
            old(self).wf(),
        ensures
            final(self).wf(),
            current_set(old(self)@, track_id@, found, final(self)@),
    {
        match find_track(&self.tracks, track_id) {
            Some(idx) => {
                self.current_index = idx;
                if self.shuffle {
                    match find_index(&self.shuffle_order, idx) {
                        Some(pos) => self.shuffle_position = pos,
                        None => {},
                    }
                }
                true
            },
            None => false,
        }
    }

    pub fn current(&self) -> (r: Option<&YTrack>)
        ensures
            deref_track(r) == current_of(self@),
    {
        if self.shuffle {
            if self.shuffle_position < self.shuffle_order.len() {
                let i = self.shuffle_order[self.shuffle_position];
                if i < self.tracks.len() {
                    Some(&self.tracks[i])
                } else {
                    None
                }
            } else {
                None
            }
        } else {
            if self.current_index < self.tracks.len() {
                Some(&self.tracks[self.current_index])
            } else {
                None
            }
        }
    }

    fn ensure_shuffle_order(&mut self)
        requires
            queue_wf(old(self)@),
        ensures
            queue_wf(final(self)@) || !final(self)@.shuffle,
            order_ensured(old(self)@, final(self)@),
            final(self)@.order.len() == final(self)@.tracks.len(),
    {
        if self.shuffle_order.len() != self.tracks.len() {
            self.regenerate_shuffle_order();
        }
    }

    fn regenerate_shuffle_order(&mut self)
        requires
            queue_wf(old(self)@),
        ensures
            reshuffled(old(self)@, final(self)@),
    {
        let n = self.tracks.len();
        // One draw per step of the shuffle, made from the last step down.
        let mut draws: Vec<usize> = Vec::new();
        let steps: usize = if n == 0 { 0 } else { n - 1 };
        while draws.len() < steps
            invariant
                steps == if n == 0 { 0 } else { n - 1 },
                draws@.len() <= steps,
                forall|k: int| 0 <= k < draws@.len() ==> #[trigger] draws@[k] == 0,
            decreases steps - draws@.len(),
        {
            draws.push(0);
        }
        let ghost start = self@;
        let mut i: usize = steps;
        while i > 0
            invariant
                i <= steps,
                steps == if n == 0 { 0 } else { n - 1 },
                n == self.tracks@.len(),
                draws@.len() == steps,
                forall|k: int| 0 <= k < steps ==> #[trigger] draws@[k] <= k + 1,
                self@ == (QueueModel { drawn: self@.drawn, ..start }),
                start.drawn.len() + (steps - i) == self@.drawn.len(),
                self@.drawn.take(start.drawn.len() as int) == start.drawn,
                forall|c: int|
                    0 <= c < steps - i ==> #[trigger] self@.drawn[start.drawn.len() + c]
                        == draws@[steps - 1 - c],
            decreases i,
        {
            let ghost before = self@.drawn;
            let j = random_index_upto(&mut self.draw_log, i);
            draws.set(i - 1, j);
            i = i - 1;
            assert(self@.drawn.take(start.drawn.len() as int) =~= before.take(start.drawn.len() as int));
        }
        proof {
            let after = self@.drawn;
            let tail = after.skip(start.drawn.len() as int);
            assert(tail.len() == steps);
            assert forall|m: int| 0 <= m < steps implies #[trigger] tail.reverse()[m] == draws@[m] by {
                let c = steps - 1 - m;
                assert(tail.reverse()[m] == tail[c]);
                assert(tail[c] == after[start.drawn.len() + c]);
            }
            assert(step_draws(start.drawn, self@.drawn) =~= draws@);
        }
        let order = shuffled_order(n, &draws);
        let ci = self.current_index;
        let pos = match find_index(&order, ci) {
            Some(p) => p,
            None => {
                if n > 0 {
                    // every index below n occurs in the order, so the current one does too
                    proof {
                        lemma_order_hits(order@, n as nat, ci);
                    }
                }
                0
            },
        };
        self.shuffle_order = order;
        self.shuffle_position = pos;
    }

    pub fn next_track(&mut self) -> (r: Option<&YTrack>)
        requires
            old(self).wf(),
        ensures
            final(self).wf(),
            next_step(old(self)@, final(self)@, deref_track(r)),
    {
        if self.tracks.len() == 0 {
            return None;
        }
        if self.shuffle {
            self.ensure_shuffle_order();
            let ghost mid = self@;
            if self.shuffle_position + 1 >= self.shuffle_order.len() {
                match self.repeat {
                    RepeatMode::All => {
                        // Wrap around into a fresh order, starting from its
                        // first track rather than the one that just finished
                        // (regenerate leaves shuffle_position on the current track).
                        self.regenerate_shuffle_order();
                        self.shuffle_position = 0;
                        let len = self.shuffle_order.len();
                        if self.shuffle_order[0] == self.current_index && len > 1 {
                            let last = len - 1;
                            let a = self.shuffle_order[0];
                            let b = self.shuffle_order[last];
                            self.shuffle_order.set(0, b);
                            self.shuffle_order.set(last, a);
                        }
                    },
                    RepeatMode::One => {},
                    RepeatMode::Off => {
                        assert(shuffle_forward(mid, self@, None));
                        return None;
                    },
                }
            } else {
                self.shuffle_position = self.shuffle_position + 1;
            }
            let r = self.current();
            assert(shuffle_forward(mid, self@, deref_track(r)));
            r
        } else {
            if self.current_index + 1 >= self.tracks.len() {
                match self.repeat {
                    RepeatMode::All => self.current_index = 0,
                    RepeatMode::One => {},
                    RepeatMode::Off => return None,
                }
            } else {
                self.current_index = self.current_index + 1;
            }
            self.current()
        }
    }

    pub fn prev_track(&mut self) -> (r: Option<&YTrack>)
        requires
            old(self).wf(),
        ensures
            final(self).wf(),
            prev_step(old(self)@, final(self)@, deref_track(r)),
    {
        if self.tracks.len() == 0 {
            return None;
        }
        if self.shuffle {
            self.ensure_shuffle_order();
            let ghost mid = self@;
            if self.shuffle_position == 0 {
                match self.repeat {
                    RepeatMode::All => {
                        self.shuffle_position = if self.shuffle_order.len() > 0 {
                            self.shuffle_order.len() - 1
                        } else {
                            0
                        };
                    },
                    RepeatMode::One => {},
                    RepeatMode::Off => {
                        assert(shuffle_back(mid, self@, None));
                        return None;
                    },
                }
            } else {
                self.shuffle_position = self.shuffle_position - 1;
            }
            let r = self.current();
            assert(shuffle_back(mid, self@, deref_track(r)));
            r
        } else {
            if self.current_index == 0 {
                match self.repeat {
                    RepeatMode::All => self.current_index = self.tracks.len() - 1,
                    RepeatMode::One => {},
                    RepeatMode::Off => return None,
                }
            } else {
                self.current_index = self.current_index - 1;
            }
            self.current()
        }
    }

    pub fn is_empty(&self) -> (r: bool)
        ensures
            r == (self@.tracks.len() == 0),
    {
        self.tracks.len() == 0
    }

    pub fn len(&self) -> (r: usize)
        ensures
            r == self@.tracks.len(),
    {
        self.tracks.len()
    }

    pub fn set_shuffle(&mut self, shuffle: bool)
        requires
            old(self).wf(),
        ensures
            final(self).wf(),
            shuffle_set(old(self)@, shuffle, final(self)@),
    {
        if shuffle == self.shuffle {
            return;
        }
        if shuffle {
            self.regenerate_shuffle_order();
        } else {
            if self.shuffle_position < self.shuffle_order.len() {
                self.current_index = self.shuffle_order[self.shuffle_position];
            }
            self.shuffle_order.clear();
            self.shuffle_position = 0;
        }
        self.shuffle = shuffle;
    }

    pub fn set_repeat(&mut self, mode: RepeatMode)
        requires
            old(self).wf(),
        ensures
            final(self).wf(),
            final(self)@ == (QueueModel { repeat: mode, ..old(self)@ }),
    {
        self.repeat = mode;
    }

    pub fn toggle_shuffle(&mut self) -> (on: bool)
        requires
            old(self).wf(),
        ensures
            final(self).wf(),
            on == !old(self)@.shuffle,
            shuffle_set(old(self)@, on, final(self)@),
    {
        self.set_shuffle(!self.shuffle);
        self.shuffle
    }

    pub fn cycle_repeat(&mut self) -> (mode: RepeatMode)
        requires
            old(self).wf(),
        ensures
            final(self).wf(),
            mode == next_repeat_mode(old(self)@.repeat),
            final(self)@ == (QueueModel { repeat: mode, ..old(self)@ }),
    {
        self.repeat = match self.repeat {
            RepeatMode::Off => RepeatMode::All,
            RepeatMode::All => RepeatMode::One,
            RepeatMode::One => RepeatMode::Off,
        };
        self.repeat
    }
}

/// The first track whose id is `id`.
fn find_track(tracks: &Vec<YTrack>, id: &str) -> (r: Option<usize>)
    ensures
        match r {
            Some(k) => k < tracks@.len() && tracks@[k as int].id@ == id@ && forall|i: int|
                0 <= i < k ==> (#[trigger] tracks@[i]).id@ != id@,
            None => forall|i: int| 0 <= i < tracks@.len() ==> (#[trigger] tracks@[i]).id@ != id@,
        },
{
    for k in 0..tracks.len()
        invariant
            forall|i: int| 0 <= i < k ==> (#[trigger] tracks@[i]).id@ != id@,
    {
        if str_equal(tracks[k].id.as_str(), id) {
            return Some(k);
        }
    }
    None
}

/// The first position of `x` in `v`.
fn find_index(v: &Vec<usize>, x: usize) -> (r: Option<usize>)
    ensures
        match r {
            Some(k) => k < v@.len() && v@[k as int] == x && forall|i: int| 0 <= i < k ==> v@[i] != x,
            None => !v@.contains(x),
        },
{
    for k in 0..v.len()
        invariant
            forall|i: int| 0 <= i < k ==> v@[i] != x,
    {
        if v[k] == x {
            return Some(k);
        }
    }
    None
}

/// Cycling the repeat mode three times comes back to where it started.
pub proof fn law_cycle_repeat_period(m: RepeatMode)
    ensures
        next_repeat_mode(next_repeat_mode(next_repeat_mode(m))) == m,
{
}

/// Turning shuffle on or off keeps the track that is playing.
pub proof fn law_set_shuffle_keeps_current(old: QueueModel, on: bool, new: QueueModel)
    requires
        queue_wf(old),
        shuffle_set(old, on, new),
        current_of(old) is Some,
    ensures
        current_of(new) == current_of(old),
{
}

/// When the queue is not at its end, stepping forward and then back returns
/// to the same state and the same track.
pub proof fn law_prev_undoes_next(
    q0: QueueModel,
    q1: QueueModel,
    q2: QueueModel,
    o1: Option<YTrack>,
    o2: Option<YTrack>,
)
    requires
        queue_wf(q0),
        q0.tracks.len() > 0,
        !q0.shuffle ==> q0.current_index + 1 < q0.tracks.len(),
        q0.shuffle ==> q0.order.len() == q0.tracks.len() && q0.position + 1 < q0.order.len(),
        next_step(q0, q1, o1),
        prev_step(q1, q2, o2),
    ensures
        q2 == q0,
        o2 == current_of(q0),
{
    if q0.shuffle {
        let mid = choose|mid: QueueModel| order_ensured(q0, mid) && #[trigger] shuffle_forward(mid, q1, o1);
        assert(mid == q0);
        let mid2 = choose|mid2: QueueModel| order_ensured(q1, mid2) && #[trigger] shuffle_back(mid2, q2, o2);
        assert(mid2 == q1);
    }
}

/// When the queue is not at its start, stepping back and then forward
/// returns to the same state and the same track.
pub proof fn law_next_undoes_prev(
    q0: QueueModel,
    q1: QueueModel,
    q2: QueueModel,
    o1: Option<YTrack>,
    o2: Option<YTrack>,
)
    requires
        queue_wf(q0),
        q0.tracks.len() > 0,
        !q0.shuffle ==> q0.current_index > 0,
        q0.shuffle ==> q0.order.len() == q0.tracks.len() && q0.position > 0,
        prev_step(q0, q1, o1),
        next_step(q1, q2, o2),
    ensures
        q2 == q0,
        o2 == current_of(q0),
{
    if q0.shuffle {
        let mid = choose|mid: QueueModel| order_ensured(q0, mid) && #[trigger] shuffle_back(mid, q1, o1);
        assert(mid == q0);
        let mid2 = choose|mid2: QueueModel| order_ensured(q1, mid2) && #[trigger] shuffle_forward(mid2, q2, o2);
        assert(mid2 == q1);
    }
}

/// In shuffle mode, once the play order covers the queue, every track has a
/// place in it: one pass through the order plays each track exactly once.
pub proof fn law_shuffle_order_covers_every_track(m: QueueModel, i: usize)
    requires
        queue_wf(m),
        m.shuffle,
        m.order.len() == m.tracks.len(),
        0 <= i < m.tracks.len(),
    ensures
        exists|p: int| 0 <= p < m.order.len() && m.order[p] == i,
{
    lemma_order_hits(m.order, m.order.len(), i);
}

/// After any step forward or back in shuffle mode the play order covers the queue.
pub proof fn law_shuffle_step_keeps_full_order(old: QueueModel, new: QueueModel, out: Option<YTrack>)
    requires
        queue_wf(old),
        old.shuffle,
        next_step(old, new, out) || prev_step(old, new, out),
    ensures
        is_order_of(new.order, new.tracks.len()),
{
    if old.tracks.len() > 0 {
        if next_step(old, new, out) {
            let mid = choose|mid: QueueModel| order_ensured(old, mid) && #[trigger] shuffle_forward(mid, new, out);
        } else {
            let mid = choose|mid: QueueModel| order_ensured(old, mid) && #[trigger] shuffle_back(mid, new, out);
        }
    }
}

/// Once the shuffle order covers the queue it is kept: stepping back never
/// changes it, and stepping forward changes it only when the last track of
/// the order is passed with repeat-all on.
pub proof fn law_shuffle_keeps_order(old: QueueModel, new: QueueModel, out: Option<YTrack>)
    requires
        queue_wf(old),
        old.shuffle,
        old.order.len() == old.tracks.len(),
        prev_step(old, new, out) || (next_step(old, new, out) && !(old.position + 1
            >= old.order.len() && old.repeat == RepeatMode::All)),
    ensures
        new.order == old.order,
        new.tracks == old.tracks,
{
    if old.tracks.len() > 0 {
        if prev_step(old, new, out) {
            let mid = choose|mid: QueueModel| order_ensured(old, mid) && #[trigger] shuffle_back(mid, new, out);
            assert(mid == old);
        } else {
            let mid = choose|mid: QueueModel| order_ensured(old, mid) && #[trigger] shuffle_forward(mid, new, out);
            assert(mid == old);
        }
    }
}

/// A track chosen by its id becomes the current track, when shuffle is off
/// or the shuffle order covers the queue.
pub proof fn law_selected_track_is_current(old: QueueModel, id: Seq<char>, new: QueueModel)
    requires
        queue_wf(old),
        queue_wf(new),
        current_set(old, id, true, new),
        old.shuffle ==> old.order.len() == old.tracks.len(),
    ensures
        current_of(new) matches Some(t) && t.id@ == id,
{
    let k = new.current_index;
    if old.shuffle {
        lemma_order_hits(old.order, old.order.len(), k as usize);
        let p = choose|p: int| 0 <= p < old.order.len() && old.order[p] == k as usize;
        assert(old.order[p] == k as usize);
        assert(old.order.contains(k as usize));
    }
}

/// The state of a shuffle pass after `i` steps forward from the start of
/// the order with repeat off: the position moves one place per step and
/// stays on the last track at the end.
pub open spec fn pass_state(m0: QueueModel, i: int) -> QueueModel {
    if m0.tracks.len() == 0 {
        m0
    } else {
        QueueModel {
            position: if i < m0.tracks.len() { i as nat } else { (m0.tracks.len() - 1) as nat },
            ..m0
        }
    }
}

proof fn lemma_pass_prefix(ms: Seq<QueueModel>, outs: Seq<Option<YTrack>>, k: int)
    requires
        ms.len() >= 1,
        outs.len() + 1 == ms.len(),
        queue_wf(ms[0]),
        ms[0].shuffle,
        ms[0].repeat == RepeatMode::Off,
        ms[0].order.len() == ms[0].tracks.len(),
        ms[0].position == 0,
        forall|i: int| 0 <= i < outs.len() ==> next_step(#[trigger] ms[i], ms[i + 1], outs[i]),
        0 <= k < ms.len(),
    ensures
        forall|i: int| 0 <= i <= k ==> ms[i] == pass_state(ms[0], i),
        forall|i: int|
            0 <= i < k ==> outs[i] == (if i + 1 < ms[0].tracks.len() {
                Some(ms[0].tracks[ms[0].order[i + 1] as int])
            } else {
                None::<YTrack>
            }),
    decreases k,
{
    let m0 = ms[0];
    let n = m0.tracks.len();
    if k > 0 {
        lemma_pass_prefix(ms, outs, k - 1);
        let j = k - 1;
        assert(next_step(ms[j], ms[j + 1], outs[j]));
        assert(ms[j] == pass_state(m0, j));
        if n > 0 {
            let mid = choose|mid: QueueModel| order_ensured(ms[j], mid) && #[trigger] shuffle_forward(mid, ms[j + 1], outs[j]);
            assert(mid == ms[j]);
            if j + 1 < n {
                assert(ms[k] == pass_state(m0, k));
                assert(m0.order[j + 1] < n);
            } else {
                assert(ms[k] == pass_state(m0, k));
            }
        }
    }
}

/// In shuffle mode with repeat off, a step back that returns nothing has
/// reached the first place of an order that covers the queue: the start of
/// the pass that `law_shuffle_pass` describes.
pub proof fn law_prev_none_reaches_pass_start(old: QueueModel, new: QueueModel)
    requires
        queue_wf(old),
        old.shuffle,
        old.repeat == RepeatMode::Off,
        old.tracks.len() > 0,
        prev_step(old, new, None),
    ensures
        queue_wf(new),
        new.shuffle,
        new.repeat == RepeatMode::Off,
        new.order.len() == new.tracks.len(),
        new.position == 0,
        new.tracks == old.tracks,
        is_fy_order(new.order, new.tracks.len()) || new.order == old.order,
{
    let mid = choose|mid: QueueModel| order_ensured(old, mid) && #[trigger] shuffle_back(mid, new, None);
    if mid.position > 0 {
        assert(current_of(new) is Some);
    }
}

/// One pass through the shuffle order: starting from the first place of an
/// order that covers the queue, with repeat off, the current track and
/// then the tracks that the steps forward return, up to the first `None`,
/// are the tracks in the order's sequence; the order holds each track
/// exactly once, and neither the tracks nor the order change on the way.
pub proof fn law_shuffle_pass(ms: Seq<QueueModel>, outs: Seq<Option<YTrack>>)
    requires
        ms.len() >= 1,
        outs.len() + 1 == ms.len(),
        queue_wf(ms[0]),
        ms[0].shuffle,
        ms[0].repeat == RepeatMode::Off,
        ms[0].order.len() == ms[0].tracks.len(),
        ms[0].position == 0,
        forall|i: int| 0 <= i < outs.len() ==> next_step(#[trigger] ms[i], ms[i + 1], outs[i]),
    ensures
        is_order_of(ms[0].order, ms[0].tracks.len()),
        forall|i: int|
            0 <= i < ms.len() ==> (#[trigger] ms[i]).tracks == ms[0].tracks && ms[i].order
                == ms[0].order,
        ms[0].tracks.len() > 0 ==> current_of(ms[0]) == Some(ms[0].tracks[ms[0].order[0] as int]),
        forall|i: int|
            0 <= i < outs.len() ==> #[trigger] outs[i] == (if i + 1 < ms[0].tracks.len() {
                Some(ms[0].tracks[ms[0].order[i + 1] as int])
            } else {
                None::<YTrack>
            }),
{
    lemma_pass_prefix(ms, outs, ms.len() - 1);
    assert forall|i: int| 0 <= i < ms.len() implies (#[trigger] ms[i]).tracks == ms[0].tracks
        && ms[i].order == ms[0].order by {
        assert(ms[i] == pass_state(ms[0], i));
    }
    if ms[0].tracks.len() > 0 {
        assert(ms[0].order[0] < ms[0].tracks.len());
    }
}

/// Turning shuffle on draws one random value per Fisher-Yates step, from
/// the last step down, each at most its step, and the new order is the
/// Fisher-Yates order for exactly those draws: the order comes from what the
/// generator returned, and it holds each track once.
pub proof fn law_shuffle_on_uses_the_draws(old: QueueModel, new: QueueModel)
    requires
        queue_wf(old),
        !old.shuffle,
        shuffle_set(old, true, new),
    ensures
        new.tracks == old.tracks,
        new.drawn.len() == old.drawn.len() + if old.tracks.len() == 0 {
            0
        } else {
            old.tracks.len() - 1
        },
        new.drawn.take(old.drawn.len() as int) == old.drawn,
        forall|k: int|
            0 <= k < new.drawn.len() - old.drawn.len() ==> #[trigger] new.drawn[old.drawn.len() + k]
                <= old.tracks.len() - 1 - k,
        new.order == fy_order(old.tracks.len(), step_draws(old.drawn, new.drawn)),
        is_order_of(new.order, old.tracks.len()),
{
    let n = old.tracks.len();
    let d = step_draws(old.drawn, new.drawn);
    let tail = new.drawn.skip(old.drawn.len() as int);
    assert forall|k: int| 0 <= k < new.drawn.len() - old.drawn.len() implies #[trigger] new.drawn[old.drawn.len() + k]
        <= n - 1 - k by {
        let m = tail.len() - 1 - k;
        assert(d[m] == tail[k]);
        assert(d[m] <= m + 1);
    }
}

/// Positions above `i` are not touched by the steps `i` down to 1.
proof fn lemma_fy_steps_keep_above(o: Seq<usize>, d: Seq<usize>, i: int, p: int)
    requires
        i < p < o.len(),
        0 <= i,
        forall|k: int| 0 <= k < i ==> #[trigger] d[k] <= k + 1,
        i <= d.len(),
    ensures
        fy_steps(o, d, i).len() == o.len(),
        fy_steps(o, d, i)[p] == o[p],
    decreases i,
{
    if i > 0 {
        let o2 = swapped(o, i, d[i - 1] as int);
        lemma_fy_steps_keep_above(o2, d, i - 1, p);
    }
}

/// Shuffling does not always give the list order: for two or more tracks
/// there are draws for which the last place of the order holds the first
/// track.
pub proof fn law_shuffle_can_reorder(n: nat)
    requires
        n >= 2,
    ensures
        exists|d: Seq<usize>| draws_fit(n, d) && #[trigger] fy_order(n, d)[n - 1] == 0usize,
{
    let d = Seq::new((n - 1) as nat, |k: int| 0usize);
    let o = Seq::new(n, |k: int| k as usize);
    let o2 = swapped(o, n - 1, 0);
    assert(fy_steps(o, d, n - 1) == fy_steps(o2, d, n - 2));
    if n - 2 < n - 1 {
        lemma_fy_steps_keep_above(o2, d, n - 2, n - 1);
    }
    assert(o2[n - 1] == 0usize);
    assert(draws_fit(n, d));
    assert(fy_order(n, d)[n - 1] == 0usize);
}

/// In an order of `0..n`, every index below `n` occurs.
proof fn lemma_order_hits(order: Seq<usize>, n: nat, x: usize)
    requires
        is_order_of(order, n),
        x < n,
    ensures
        exists|i: int| 0 <= i < n && order[i] == x,
{
    let s = order.map_values(|v: usize| v as int);
    assert(s.no_duplicates());
    s.unique_seq_to_set();
    let r = vstd::set_lib::set_int_range(0, n as int);
    vstd::set_lib::lemma_int_range(0, n as int);
    assert(s.to_set().subset_of(r));
    vstd::set_lib::lemma_len_subset(s.to_set(), r);
    vstd::set_lib::lemma_subset_equality(s.to_set(), r);
    assert(r.contains(x as int));
    assert(s.to_set().contains(x as int));
    let i = choose|i: int| 0 <= i < s.len() && s[i] == x as int;
    assert(order[i] == x);
}

} // verus!

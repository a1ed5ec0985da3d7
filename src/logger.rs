//! Storage of the log view: a ring buffer of recent records and the table of
//! display levels per log target.
use vstd::prelude::*;

verus! {

/// Verbosity threshold of a log target.
#[derive(Debug, Clone, Copy, PartialEq, Eq, Structural)]
pub enum LogLevel {
    Off,
    Error,
    Warn,
    Info,
    Debug,
    Trace,
}

/// A buffer that holds the last `max_depth` elements pushed into it.
pub struct CircularBuffer<T> {
    buffer: Vec<T>,
    max_depth: usize,
    next_write_pos: usize,
}

impl<T> CircularBuffer<T> {
    /// Number of elements the buffer holds at most.
    pub closed spec fn depth(&self) -> nat {
        self.max_depth as nat
    }

    /// Number of elements pushed since creation or the last `take`.
    pub closed spec fn pushed(&self) -> nat {
        self.next_write_pos as nat
    }

    /// Elements held, oldest first.
    pub closed spec fn contents(&self) -> Seq<T> {
        if self.buffer@.len() < self.max_depth || self.max_depth == 0 {
            self.buffer@
        } else {
            let w = (self.next_write_pos % self.max_depth) as int;
            self.buffer@.subrange(w, self.buffer@.len() as int) + self.buffer@.subrange(0, w)
        }
    }

    /// The buffer holds at most `depth` elements; until it is full it holds
    /// every element pushed.
    pub closed spec fn wf(&self) -> bool {
        &&& self.buffer@.len() <= self.max_depth
        &&& self.buffer@.len() < self.max_depth ==> self.next_write_pos == self.buffer@.len()
        &&& self.buffer@.len() == self.max_depth ==> self.next_write_pos >= self.max_depth
    }

    /// An empty buffer that holds at most `max_depth` elements.
    pub fn new(max_depth: usize) -> (r: CircularBuffer<T>)
        ensures
            r.wf(),
            r.depth() == max_depth,
            r.contents().len() == 0,
            r.pushed() == 0,
    {
        CircularBuffer { buffer: Vec::new(), max_depth, next_write_pos: 0 }
    }

    /// Number of elements held.
    pub fn len(&self) -> (r: usize)
        requires
            self.wf(),
        ensures
            r == self.contents().len(),
    {
        self.buffer.len()
    }

    /// Whether no element is held.
    pub fn is_empty(&self) -> (r: bool)
        requires
            self.wf(),
        ensures
            r == (self.contents().len() == 0),
    {
        self.buffer.len() == 0
    }

    /// Number of elements pushed since creation or the last `take`.
    pub fn total_elements(&self) -> (r: usize)
        ensures
            r == self.pushed(),
    {
        self.next_write_pos
    }

    /// Pushes an element. Once the buffer is full, the oldest element makes
    /// room for it; a buffer of depth zero keeps nothing.
    pub fn push(&mut self, elem: T)
        requires
            old(self).wf(),
            old(self).pushed() < usize::MAX,
        ensures
            final(self).wf(),
            final(self).depth() == old(self).depth(),
            final(self).pushed() == old(self).pushed() + 1,
            final(self).contents() == (if old(self).depth() == 0 {
                old(self).contents()
            } else if old(self).contents().len() < old(self).depth() {
                old(self).contents().push(elem)
            } else {
                old(self).contents().drop_first().push(elem)
            }),
    {
        let ghost old_contents = self.contents();
        if self.buffer.len() < self.max_depth {
            self.buffer.push(elem);
            proof {
                if self.buffer@.len() == self.max_depth {
                    assert((self.next_write_pos + 1) % (self.max_depth as int) == 0) by (nonlinear_arith)
                        requires
                            self.next_write_pos + 1 == self.max_depth,
                    ;
                }
            }
            self.next_write_pos = self.next_write_pos + 1;
            proof {
                if self.buffer@.len() == self.max_depth {
                    assert(self.buffer@.subrange(0, self.buffer@.len() as int) =~= self.buffer@);
                    assert(self.buffer@.subrange(0, 0) =~= Seq::<T>::empty());
                    assert(self.contents() =~= old_contents.push(elem));
                }
            }
        } else if self.max_depth > 0 {
            let w = self.next_write_pos % self.max_depth;
            let ghost d = self.max_depth as int;
            let ghost b = self.buffer@;
            self.buffer.set(w, elem);
            let ghost w2 = ((self.next_write_pos + 1) % (self.max_depth as int)) as int;
            proof {
                assert(w2 == if w + 1 == d { 0 } else { w + 1 }) by (nonlinear_arith)
                    requires
                        w == self.next_write_pos % self.max_depth,
                        d == self.max_depth,
                        d > 0,
                        w2 == (self.next_write_pos + 1) % (self.max_depth as int),
                ;
                assert(0 <= w < d) by (nonlinear_arith)
                    requires
                        w == self.next_write_pos % self.max_depth,
                        d == self.max_depth,
                        d > 0,
                ;
                let nb = self.buffer@;
                let nc = nb.subrange(w2, d) + nb.subrange(0, w2);
                let oc = b.subrange(w as int, d) + b.subrange(0, w as int);
                assert(old_contents =~= oc);
                assert(nc =~= oc.drop_first().push(elem));
            }
            self.next_write_pos = self.next_write_pos + 1;
        } else {
            self.next_write_pos = self.next_write_pos + 1;
        }
    }

    /// Takes out every element held, oldest first, leaving an empty buffer
    /// with no element counted as pushed.
    pub fn take(&mut self) -> (r: Vec<T>)
        requires
            old(self).wf(),
        ensures
            final(self).wf(),
            r@ == old(self).contents(),
            final(self).depth() == old(self).depth(),
            final(self).contents().len() == 0,
            final(self).pushed() == 0,
    {
        let mut consumed: Vec<T> = Vec::new();
        if self.buffer.len() < self.max_depth || self.max_depth == 0 {
            consumed.append(&mut self.buffer);
        } else {
            let pos = self.next_write_pos % self.max_depth;
            proof {
                assert(pos < self.max_depth) by (nonlinear_arith)
                    requires
                        pos == self.next_write_pos % self.max_depth,
                        self.max_depth > 0,
                ;
            }
            let mut tail = self.buffer.split_off(pos);
            consumed.append(&mut tail);
            consumed.append(&mut self.buffer);
        }
        self.next_write_pos = 0;
        consumed
    }

    /// References to the elements held, oldest first.
    pub fn iter(&self) -> (r: Vec<&T>)
        requires
            self.wf(),
        ensures
            r@.len() == self.contents().len(),
            forall|i: int| 0 <= i < r@.len() ==> *r@[i] == self.contents()[i],
    {
        let len = self.buffer.len();
        let start: usize = if self.next_write_pos <= self.max_depth || self.max_depth == 0 {
            0
        } else {
            self.next_write_pos % self.max_depth
        };
        proof {
            if !(self.next_write_pos <= self.max_depth || self.max_depth == 0) {
                assert(start < self.max_depth) by (nonlinear_arith)
                    requires
                        start == self.next_write_pos % self.max_depth,
                        self.max_depth > 0,
                ;
            } else if self.buffer@.len() == self.max_depth && self.max_depth > 0 {
                assert(self.next_write_pos % self.max_depth == 0) by (nonlinear_arith)
                    requires
                        self.next_write_pos == self.max_depth,
                        self.max_depth > 0,
                ;
                assert(self.buffer@.subrange(0, 0) =~= Seq::<T>::empty());
                assert(self.buffer@.subrange(0, len as int) =~= self.buffer@);
            }
            assert(start == 0 || self.buffer@.len() == self.max_depth);
        }
        let ghost c = self.contents();
        let mut out: Vec<&T> = Vec::new();
        let mut k: usize = 0;
        while k < len
            invariant
                len == self.buffer@.len(),
                start < len || len == 0 || start == 0,
                start <= len,
                c == self.contents(),
                c.len() == len,
                forall|i: int| 0 <= i < len ==> c[i] == self.buffer@[(if start + i < len { start + i } else { start + i - len }) as int],
                k <= len,
                out@.len() == k,
                forall|i: int| 0 <= i < k ==> *out@[i] == c[i],
            decreases len - k,
        {
            let idx = if k < len - start {
                start + k
            } else {
                k - (len - start)
            };
            out.push(&self.buffer[idx]);
            k = k + 1;
        }
        out
    }

    /// References to the elements held, newest first.
    pub fn rev_iter(&self) -> (r: Vec<&T>)
        requires
            self.wf(),
        ensures
            r@.len() == self.contents().len(),
            forall|i: int|
                0 <= i < r@.len() ==> *r@[i] == self.contents()[self.contents().len() - 1 - i],
    {
        let forward = self.iter();
        let mut out: Vec<&T> = Vec::new();
        let mut k: usize = forward.len();
        while k > 0
            invariant
                k <= forward@.len(),
                out@.len() == forward@.len() - k,
                forall|i: int| 0 <= i < out@.len() ==> out@[i] == forward@[forward@.len() - 1 - i],
            decreases k,
        {
            k = k - 1;
            out.push(forward[k]);
        }
        out
    }
}

/// Display levels per log target, with a generation counter that changes
/// whenever the table does.
pub struct LevelConfig {
    config: Vec<(String, LogLevel)>,
    levels: Ghost<Map<Seq<char>, LogLevel>>,
    generation: u64,
}

impl LevelConfig {
    /// Level of each target in the table.
    pub closed spec fn level_map(&self) -> Map<Seq<char>, LogLevel> {
        self.levels@
    }

    /// Number of changes made to the table.
    pub closed spec fn generation_count(&self) -> u64 {
        self.generation
    }

    /// Targets are listed once each, and the list holds exactly the map.
    pub closed spec fn wf(&self) -> bool {
        &&& forall|i: int, j: int|
            0 <= i < j < self.config@.len() ==> (#[trigger] self.config@[i]).0@ != (
            #[trigger] self.config@[j]).0@
        &&& forall|i: int|
            0 <= i < self.config@.len() ==> self.levels@.contains_key((#[trigger] self.config@[i]).0@)
                && self.levels@[self.config@[i].0@] == self.config@[i].1
        &&& forall|t: Seq<char>|
            #[trigger] self.levels@.contains_key(t) ==> exists|i: int|
                0 <= i < self.config@.len() && (#[trigger] self.config@[i]).0@ == t
    }

    /// An empty table.
    pub fn new() -> (r: LevelConfig)
        ensures
            r.wf(),
            r.level_map() == Map::<Seq<char>, LogLevel>::empty(),
            r.generation_count() == 0,
    {
        LevelConfig {
            config: Vec::new(),
            levels: Ghost(Map::empty()),
            generation: 0,
        }
    }

    fn find(&self, target: &String) -> (r: Option<usize>)
        requires
            self.wf(),
        ensures
            match r {
                Some(i) => i < self.config@.len() && self.config@[i as int].0@ == target@,
                None => !self.level_map().contains_key(target@),
            },
    {
        let mut i: usize = 0;
        while i < self.config.len()
            invariant
                i <= self.config@.len(),
                forall|k: int| 0 <= k < i ==> (#[trigger] self.config@[k]).0@ != target@,
            decreases self.config@.len() - i,
        {
            if self.config[i].0.eq(target) {
                return Some(i);
            }
            i = i + 1;
        }
        None
    }

    /// Sets the level of `target`. The generation moves on by one unless the
    /// target already had that level.
    pub fn set(&mut self, target: &str, level: LogLevel)
        requires
            old(self).wf(),
            old(self).generation_count() < u64::MAX,
        ensures
            final(self).wf(),
            final(self).level_map() == old(self).level_map().insert(target@, level),
            final(self).generation_count() == (if old(self).level_map().contains_key(target@)
                && old(self).level_map()[target@] == level {
                old(self).generation_count()
            } else {
                (old(self).generation_count() + 1) as u64
            }),
    {
        let name = String::from_str(target);
        match self.find(&name) {
            Some(i) => {
                if self.config[i].1 != level {
                    self.config.set(i, (name, level));
                    self.levels = Ghost(self.levels@.insert(target@, level));
                    self.generation = self.generation + 1;
                    proof {
                        assert(self.level_map() =~= old(self).level_map().insert(target@, level));
                        assert forall|t: Seq<char>| #[trigger] self.levels@.contains_key(t) implies exists|k: int|
                            0 <= k < self.config@.len() && (#[trigger] self.config@[k]).0@ == t by {
                            if t != target@ {
                                assert(old(self).levels@.contains_key(t));
                                let k = choose|k: int| 0 <= k < old(self).config@.len() && (#[trigger] old(self).config@[k]).0@ == t;
                                assert(self.config@[k].0@ == t);
                            } else {
                                assert(self.config@[i as int].0@ == t);
                            }
                        }
                    }
                } else {
                    proof {
                        assert(self.level_map() =~= old(self).level_map().insert(target@, level));
                    }
                }
            },
            None => {
                self.config.push((name, level));
                self.levels = Ghost(self.levels@.insert(target@, level));
                self.generation = self.generation + 1;
                proof {
                    let n = old(self).config@.len() as int;
                    assert(self.config@[n].0@ == target@);
                    assert forall|t: Seq<char>| #[trigger] self.levels@.contains_key(t) implies exists|k: int|
                        0 <= k < self.config@.len() && (#[trigger] self.config@[k]).0@ == t by {
                        if t != target@ {
                            assert(old(self).levels@.contains_key(t));
                            let k = choose|k: int| 0 <= k < old(self).config@.len() && (#[trigger] old(self).config@[k]).0@ == t;
                            assert(self.config@[k].0@ == t);
                        } else {
                            assert(self.config@[n].0@ == t);
                        }
                    }
                }
            },
        }
    }

    /// Number of changes made to the table.
    pub fn generation(&self) -> (r: u64)
        ensures
            r == self.generation_count(),
    {
        self.generation
    }

    /// The level of `target`, if the table has one.
    pub fn get(&self, target: &str) -> (r: Option<LogLevel>)
        requires
            self.wf(),
        ensures
            r == (if self.level_map().contains_key(target@) {
                Some(self.level_map()[target@])
            } else {
                None
            }),
    {
        let name = String::from_str(target);
        match self.find(&name) {
            Some(i) => Some(self.config[i].1),
            None => None,
        }
    }
}

} // verus!

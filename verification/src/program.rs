//! The cache of compiled shader programs, shared by all instanced
//! drawables, and the count of those that are alive. The cache is torn down
//! as a whole when the last of them goes.

use crate::error::Error;
use vstd::prelude::*;

verus! {

/// One compiled program with the fragment source it was compiled from.
struct Entry<P> {
    source: String,
    program: P,
}

/// The programs compiled so far and the number of drawables that use them.
/// `P` is whatever stands for a compiled program.
pub struct ProgramCache<P> {
    entries: Vec<Entry<P>>,
    live: u32,
}

/// All that can be observed of a cache.
pub struct CacheView<P> {
    /// The fragment sources, in the order in which they were first asked for.
    pub sources: Seq<Seq<char>>,
    /// The program compiled from each source.
    pub programs: Seq<P>,
    /// The number of drawables that are alive.
    pub live: nat,
}

impl<P> CacheView<P> {
    /// Each source has its program, and no source stands twice.
    pub open spec fn wf(self) -> bool {
        &&& self.sources.len() == self.programs.len()
        &&& forall|i: int, j: int|
            0 <= i < j < self.sources.len() ==> self.sources[i] != self.sources[j]
    }

    /// Whether a program compiled from `source` is held.
    pub open spec fn holds(self, source: Seq<char>) -> bool {
        self.sources.contains(source)
    }

    /// The handle of the program compiled from `source`.
    pub open spec fn handle(self, source: Seq<char>) -> int {
        self.sources.index_of(source)
    }

    /// The cache with one more entry at its end.
    pub open spec fn with(self, source: Seq<char>, program: P) -> CacheView<P> {
        CacheView {
            sources: self.sources.push(source),
            programs: self.programs.push(program),
            ..self
        }
    }

    /// The cache after a request for `source`, where `compiled` is what
    /// compiling it gives: nothing changes when the source is held already,
    /// or when it does not compile.
    pub open spec fn requested(self, source: Seq<char>, compiled: Result<P, Error>) -> CacheView<
        P,
    > {
        if self.holds(source) {
            self
        } else {
            match compiled {
                Ok(program) => self.with(source, program),
                Err(_) => self,
            }
        }
    }

    /// The cache after one more drawable came to life.
    pub open spec fn registered(self) -> CacheView<P> {
        CacheView { live: self.live + 1, ..self }
    }

    /// The cache after a drawable went: when it was the last, no program is left.
    pub open spec fn released(self) -> CacheView<P> {
        if self.live == 1 {
            CacheView { sources: Seq::empty(), programs: Seq::empty(), live: 0 }
        } else {
            CacheView { live: (self.live - 1) as nat, ..self }
        }
    }
}

impl<P> View for ProgramCache<P> {
    type V = CacheView<P>;

    closed spec fn view(&self) -> CacheView<P> {
        CacheView {
            sources: Seq::new(self.entries@.len(), |i: int| self.entries@[i].source@),
            programs: Seq::new(self.entries@.len(), |i: int| self.entries@[i].program),
            live: self.live as nat,
        }
    }
}

impl<P> ProgramCache<P> {
    /// No fragment source has two entries.
    pub open spec fn wf(&self) -> bool {
        self@.wf()
    }

    /// A cache without programs and without drawables.
    pub fn new() -> (r: ProgramCache<P>)
        ensures
            r.wf(),
            r@.sources.len() == 0,
            r@.live == 0,
    {
        ProgramCache { entries: Vec::new(), live: 0 }
    }

    /// The number of programs held, which is the number of compilations
    /// that succeeded since the cache was last empty.
    pub fn len(&self) -> (n: usize)
        ensures
            n == self@.sources.len(),
    {
        self.entries.len()
    }

    /// The number of drawables that are alive.
    pub fn live_count(&self) -> (n: u32)
        ensures
            n == self@.live,
    {
        self.live
    }

    /// Counts one more drawable.
    pub fn register(&mut self)
        requires
            old(self).wf(),
            old(self)@.live < u32::MAX,
        ensures
            final(self).wf(),
            final(self)@ == old(self)@.registered(),
    {
        self.live = self.live + 1;
    }

    /// Counts one drawable less, and drops every program when none is left.
    pub fn release(&mut self)
        requires
            old(self).wf(),
            old(self)@.live > 0,
        ensures
            final(self).wf(),
            final(self)@ == old(self)@.released(),
    {
        self.live = self.live - 1;
        if self.live == 0 {
            self.entries.clear();
        }
        assert(self@.sources =~= old(self)@.released().sources);
        assert(self@.programs =~= old(self)@.released().programs);
    }

    /// The handle of the program compiled from `source`, if one is held.
    pub fn lookup(&self, source: &str) -> (r: Option<usize>)
        requires
            self.wf(),
        ensures
            r is Some <==> self@.holds(source@),
            r matches Some(h) ==> h < self@.sources.len() && self@.sources[h as int] == source@
                && h == self@.handle(source@),
    {
        let key = source.to_owned();
        let mut i: usize = 0;
        while i < self.entries.len()
            invariant
                self.wf(),
                i <= self.entries@.len(),
                key@ == source@,
                forall|j: int| 0 <= j < i ==> self@.sources[j] != source@,
            decreases self.entries@.len() - i,
        {
            if self.entries[i].source == key {
                proof {
                    assert(self@.sources[i as int] == source@);
                    let h = self@.sources.index_of(source@);
                    assert(0 <= h < self@.sources.len() && self@.sources[h] == source@);
                }
                return Some(i);
            }
            i += 1;
        }
        None
    }

    /// The program behind a handle, if the handle is one of this cache.
    pub fn program(&self, handle: usize) -> (r: Option<&P>)
        ensures
            handle < self@.programs.len() ==> r == Some(&self@.programs[handle as int]),
            handle >= self@.programs.len() ==> r is None,
    {
        if handle < self.entries.len() {
            Some(&self.entries[handle].program)
        } else {
            None
        }
    }

    fn push(&mut self, source: &str, program: P) -> (handle: usize)
        requires
            old(self).wf(),
            !old(self)@.holds(source@),
        ensures
            final(self).wf(),
            final(self)@ == old(self)@.with(source@, program),
            handle == old(self)@.sources.len(),
            final(self)@.holds(source@),
            handle == final(self)@.handle(source@),
    {
        let handle = self.entries.len();
        self.entries.push(Entry { source: source.to_owned(), program });
        proof {
            assert(self@.sources =~= old(self)@.sources.push(source@));
            assert(self@.programs =~= old(self)@.programs.push(program));
            assert(self@.sources[handle as int] == source@);
            let h = self@.sources.index_of(source@);
            assert(0 <= h < self@.sources.len() && self@.sources[h] == source@);
        }
        handle
    }

    /// Takes in what compiling `source` gave. A source that is held keeps
    /// its program and its handle, whatever came; for one that is not, a
    /// program gets the next handle, and a failure is handed on and leaves
    /// the cache as it was.
    pub fn insert(&mut self, source: &str, compiled: Result<P, Error>) -> (r: Result<usize, Error>)
        requires
            old(self).wf(),
        ensures
            final(self).wf(),
            final(self)@ == old(self)@.requested(source@, compiled),
            old(self)@.holds(source@) ==> (r matches Ok(h) && h == old(self)@.handle(source@)),
            !old(self)@.holds(source@) ==> match compiled {
                Ok(_) => r matches Ok(h) && h == old(self)@.sources.len(),
                Err(e) => r == Err::<usize, Error>(e),
            },
            r matches Ok(h) ==> final(self)@.holds(source@) && h == final(self)@.handle(source@),
    {
        match self.lookup(source) {
            Some(handle) => Ok(handle),
            None => match compiled {
                Ok(program) => Ok(self.push(source, program)),
                Err(e) => Err(e),
            },
        }
    }

    /// The handle of the program for `source`: the one held, or else the one
    /// that `compile` makes of the source now. A source that is held is
    /// never compiled again; one that does not compile leaves no entry.
    pub fn get_or_create<F>(&mut self, source: &str, compile: F) -> (r: Result<usize, Error>) where
        F: FnOnce(&str) -> Result<P, Error>,

        requires
            old(self).wf(),
            call_requires(compile, (source,)),
        ensures
            final(self).wf(),
            request_outcome(old(self)@, final(self)@, source, compile, r),
    {
        match self.lookup(source) {
            Some(handle) => Ok(handle),
            None => match compile(source) {
                Ok(program) => Ok(self.push(source, program)),
                Err(e) => Err(e),
            },
        }
    }
}

/// What holds of a request for `source` that took the cache from `before`
/// to `after` and gave `r`, where `compile` is asked only for a source that
/// is not held.
pub open spec fn request_outcome<P, F: FnOnce(&str) -> Result<P, Error>>(
    before: CacheView<P>,
    after: CacheView<P>,
    source: &str,
    compile: F,
    r: Result<usize, Error>,
) -> bool {
    &&& before.holds(source@) ==> {
        &&& r matches Ok(h) && h == before.handle(source@)
        &&& after == before
    }
    &&& !before.holds(source@) ==> exists|compiled: Result<P, Error>|
        {
            &&& #[trigger] call_ensures(compile, (source,), compiled)
            &&& after == before.requested(source@, compiled)
            &&& match compiled {
                Ok(_) => r matches Ok(h) && h == before.sources.len(),
                Err(e) => r == Err::<usize, Error>(e),
            }
        }
    &&& r matches Ok(h) ==> after.holds(source@) && h == after.handle(source@)
    &&& r is Err ==> after == before
}

/// The same source asked for twice gets the same handle and the same
/// program, and the second request compiles nothing: it adds no entry,
/// whatever a compilation would have given.
pub proof fn lemma_same_source_twice<P>(
    cache: CacheView<P>,
    source: Seq<char>,
    first: P,
    second: Result<P, Error>,
)
    requires
        cache.wf(),
    ensures
        ({
            let once = cache.requested(source, Ok(first));
            let twice = once.requested(source, second);
            &&& once.wf()
            &&& once.holds(source)
            &&& twice == once
            &&& twice.handle(source) == once.handle(source)
            &&& twice.programs[twice.handle(source)] == once.programs[once.handle(source)]
            &&& !cache.holds(source) ==> once.sources.len() == cache.sources.len() + 1
            &&& cache.holds(source) ==> once.sources.len() == cache.sources.len()
        }),
{
    let once = cache.requested(source, Ok(first));
    if !cache.holds(source) {
        assert(once.sources[cache.sources.len() as int] == source);
    }
}

/// Two different sources that are not held yet are compiled once each and
/// get two entries with different handles.
pub proof fn lemma_two_sources<P>(
    cache: CacheView<P>,
    one: Seq<char>,
    other: Seq<char>,
    first: P,
    second: P,
)
    requires
        cache.wf(),
        one != other,
        !cache.holds(one),
        !cache.holds(other),
    ensures
        ({
            let both = cache.requested(one, Ok(first)).requested(other, Ok(second));
            &&& both.wf()
            &&& both.sources.len() == cache.sources.len() + 2
            &&& both.handle(one) == cache.sources.len()
            &&& both.handle(other) == cache.sources.len() + 1
            &&& both.handle(one) != both.handle(other)
        }),
{
    let once = cache.requested(one, Ok(first));
    assert(once.sources[cache.sources.len() as int] == one);
    assert(!once.holds(other));
    let both = once.requested(other, Ok(second));
    assert(both.sources[cache.sources.len() as int] == one);
    assert(both.sources[cache.sources.len() as int + 1] == other);
    assert(both.holds(one));
    assert(both.holds(other));
}

/// When the last drawable goes and a new one comes, no program has
/// outlived the gap: a source that was held before is compiled again.
pub proof fn lemma_teardown<P>(cache: CacheView<P>, source: Seq<char>, again: P)
    requires
        cache.wf(),
        cache.live == 1,
    ensures
        ({
            let fresh = cache.released().registered();
            &&& fresh.wf()
            &&& fresh.sources.len() == 0
            &&& fresh.live == 1
            &&& !fresh.holds(source)
            &&& fresh.requested(source, Ok(again)).sources == seq![source]
            &&& fresh.requested(source, Ok(again)).programs == seq![again]
        }),
{
    let fresh = cache.released().registered();
    assert(fresh.requested(source, Ok(again)).sources =~= seq![source]);
    assert(fresh.requested(source, Ok(again)).programs =~= seq![again]);
}

} // verus!

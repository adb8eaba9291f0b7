//! Bookkeeping for the node integration benchmarks: the hierarchical path a
//! benchmark is registered under, the run mode, the requested block size, and
//! the averaging of collected timing samples.

use vstd::prelude::*;
use vstd::string::StrSliceExecFns;
use vstd::string::StringExecFns;

use crate::strutil;

verus! {

/// The two characters that separate (and precede) the segments of a
/// benchmark path when it is rendered as one string.
pub open spec fn path_sep() -> Seq<char> {
    seq![':', ':']
}

/// The rendered form of a benchmark path: every segment prefixed by the
/// separator, in order.
pub open spec fn full_of(segs: Seq<Seq<char>>) -> Seq<char>
    decreases segs.len(),
{
    if segs.len() == 0 {
        Seq::empty()
    } else {
        path_sep() + segs.first() + full_of(segs.skip(1))
    }
}

/// Appending one segment appends one separator and the segment to the
/// rendered path.
pub proof fn lemma_full_of_push(segs: Seq<Seq<char>>, x: Seq<char>)
    ensures
        full_of(segs.push(x)) == full_of(segs) + path_sep() + x,
    decreases segs.len(),
{
    if segs.len() == 0 {
        assert(segs.push(x).skip(1) =~= Seq::<Seq<char>>::empty());
        assert(segs.push(x).first() == x);
        assert(full_of(Seq::<Seq<char>>::empty()) == Seq::<char>::empty());
        assert(full_of(segs.push(x)) =~= full_of(segs) + path_sep() + x);
    } else {
        assert(segs.push(x).skip(1) =~= segs.skip(1).push(x));
        lemma_full_of_push(segs.skip(1), x);
        assert(full_of(segs.push(x)) =~= full_of(segs) + path_sep() + x);
    }
}

/// Where in the benchmark hierarchy a benchmark lives, as a sequence of
/// name segments.
pub struct Path {
    segments: Vec<String>,
}

impl View for Path {
    type V = Seq<Seq<char>>;

    closed spec fn view(&self) -> Seq<Seq<char>> {
        self.segments@.map_values(|s: String| s@)
    }
}

impl Path {
    /// A path made of the given segments, in order.
    pub fn new(elements: &[&str]) -> (r: Path)
        ensures
            r@ == elements@.map_values(|e: &str| e@),
    {
        let mut segments: Vec<String> = Vec::new();
        let mut i: usize = 0;
        while i < elements.len()
            invariant
                0 <= i <= elements@.len(),
                segments@.len() == i,
                forall|j: int| 0 <= j < i ==> #[trigger] segments@[j]@ == elements@[j]@,
            decreases elements@.len() - i,
        {
            let e: &&str = vstd::slice::slice_index_get(elements, i);
            segments.push(String::from_str(*e));
            i += 1;
        }
        let p = Path { segments };
        proof {
            assert(p@ =~= elements@.map_values(|e: &str| e@));
        }
        p
    }

    /// Extend the path by one segment.
    pub fn push(&mut self, element: &str)
        ensures
            final(self)@ == old(self)@.push(element@),
    {
        self.segments.push(String::from_str(element));
        proof {
            assert(self@ =~= old(self)@.push(element@));
        }
    }

    /// The path as one string, every segment preceded by the separator.
    pub fn full(&self) -> (r: String)
        ensures
            r@ == full_of(self@),
    {
        let mut acc = String::new();
        let mut i: usize = 0;
        while i < self.segments.len()
            invariant
                0 <= i <= self.segments@.len(),
                acc@ == full_of(self@.subrange(0, i as int)),
            decreases self.segments@.len() - i,
        {
            proof {
                reveal_strlit("::");
            }
            acc.append("::");
            acc.append(self.segments[i].as_str());
            proof {
                lemma_full_of_push(self@.subrange(0, i as int), self@[i as int]);
                assert(self@.subrange(0, i as int).push(self@[i as int]) =~= self@.subrange(
                    0,
                    i + 1,
                ));
                assert(acc@ =~= full_of(self@.subrange(0, i + 1)));
            }
            i += 1;
        }
        proof {
            assert(self@.subrange(0, self@.len() as int) =~= self@);
        }
        acc
    }

    /// Whether the rendered path contains `path` as a substring; used to
    /// filter benchmarks from the command line.
    pub fn has(&self, path: &str) -> (r: bool)
        ensures
            r == strutil::spec_contains(full_of(self@), path@),
    {
        let full = self.full();
        strutil::str_contains(full.as_str(), path)
    }
}

/// How a benchmark is run: plain timing, or with pauses so a profiler can
/// isolate each measured run.
#[derive(Clone, Copy, PartialEq, Eq, Structural, Debug)]
pub enum Mode {
    Regular,
    Profile,
}

impl Mode {
    /// The mode named by a command-line label, if any.
    pub fn from_label(s: &str) -> (r: Option<Mode>)
        ensures
            r == (if s@ == "regular"@ {
                Some(Mode::Regular)
            } else if s@ == "profile"@ {
                Some(Mode::Profile)
            } else {
                None::<Mode>
            }),
    {
        if strutil::str_eq(s, "regular") {
            Some(Mode::Regular)
        } else if strutil::str_eq(s, "profile") {
            Some(Mode::Profile)
        } else {
            None
        }
    }
}

/// How full the generated block of a benchmark is.
#[derive(Clone, Copy, PartialEq, Eq, Structural, Debug)]
pub enum SizeType {
    Small,
    Medium,
    Large,
    Full,
    Custom(usize),
}

impl SizeType {
    /// The number of transactions the size stands for; `None` for a full
    /// block, which holds as many as fit.
    pub fn transactions(&self) -> (r: Option<usize>)
        ensures
            r == (match *self {
                SizeType::Small => Some(10usize),
                SizeType::Medium => Some(100usize),
                SizeType::Large => Some(500usize),
                SizeType::Full => None::<usize>,
                SizeType::Custom(v) => Some(v),
            }),
    {
        match self {
            SizeType::Small => Some(10),
            SizeType::Medium => Some(100),
            SizeType::Large => Some(500),
            SizeType::Full => None,
            SizeType::Custom(v) => Some(*v),
        }
    }
}

/// The sum of a sequence of timing samples.
pub open spec fn sum_of(s: Seq<u64>) -> int
    decreases s.len(),
{
    if s.len() == 0 {
        0
    } else {
        sum_of(s.drop_last()) + s.last()
    }
}

/// A sum of `u64` samples is bounded by the count times the largest `u64`.
proof fn lemma_sum_of_bound(s: Seq<u64>)
    ensures
        0 <= sum_of(s) <= s.len() * u64::MAX,
    decreases s.len(),
{
    if s.len() == 0 {
    } else {
        lemma_sum_of_bound(s.drop_last());
        assert(s.len() * u64::MAX == (s.len() - 1) * u64::MAX + u64::MAX) by (nonlinear_arith);
    }
}

/// The mean of the collected samples of one benchmark, rounded down;
/// `None` when nothing was collected.
pub fn mean_nanos(samples: &Vec<u64>) -> (r: Option<u64>)
    ensures
        match r {
            Some(m) => samples@.len() > 0 && m == sum_of(samples@) / (samples@.len() as int),
            None => samples@.len() == 0,
        },
{
    if samples.len() == 0 {
        return None;
    }
    let mut acc: u128 = 0;
    let mut i: usize = 0;
    while i < samples.len()
        invariant
            0 <= i <= samples@.len(),
            acc == sum_of(samples@.subrange(0, i as int)),
            acc <= i * u64::MAX,
        decreases samples@.len() - i,
    {
        proof {
            lemma_sum_of_bound(samples@.subrange(0, i as int));
            assert(acc + samples@[i as int] <= (i + 1) * u64::MAX) by (nonlinear_arith)
                requires
                    acc <= i * u64::MAX && samples@[i as int] <= u64::MAX,
            ;
            assert((i + 1) * u64::MAX < u128::MAX) by (nonlinear_arith)
                requires
                    i + 1 <= usize::MAX,
            ;
        }
        acc = acc + samples[i] as u128;
        proof {
            assert(samples@.subrange(0, i + 1).drop_last() =~= samples@.subrange(0, i as int));
        }
        i += 1;
    }
    proof {
        assert(samples@.subrange(0, samples@.len() as int) =~= samples@);
        assert(sum_of(samples@) / (samples@.len() as int) <= u64::MAX) by (nonlinear_arith)
            requires
                0 <= sum_of(samples@) <= samples@.len() * u64::MAX && samples@.len() > 0,
        ;
    }
    let len = samples.len() as u128;
    let m = acc / len;
    Some(m as u64)
}

} // verus!

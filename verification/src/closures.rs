//! A memoizing evaluator: it wraps a calculation on `u32` and runs it at
//! most once for every distinct argument.

use std::collections::HashMap;
use vstd::prelude::*;

verus! {

broadcast use vstd::std_specs::hash::group_hash_axioms;

/// Wraps a calculation and remembers, for every argument seen so far, the
/// value that the calculation gave for it.
pub struct Cacher<T> where T: Fn(u32) -> u32 {
    calculation: T,
    value: HashMap<u32, u32>,
    runs: Ghost<nat>,
}

impl<T> View for Cacher<T> where T: Fn(u32) -> u32 {
    type V = Map<u32, u32>;

    /// The store: every argument seen so far, with the value kept for it.
    closed spec fn view(&self) -> Map<u32, u32> {
        self.value@
    }
}

impl<T> Cacher<T> where T: Fn(u32) -> u32 {
    /// The wrapped calculation.
    pub closed spec fn calculation(&self) -> T {
        self.calculation
    }

    /// How often the wrapped calculation has been run by this cacher.
    pub closed spec fn runs(&self) -> nat {
        self.runs@
    }

    /// Every stored value is one that the calculation gave for its key, and
    /// the calculation has been run once for every stored key.
    pub open spec fn wf(&self) -> bool {
        &&& self@.dom().finite()
        &&& self.runs() == self@.len()
        &&& forall|k: u32| #[trigger]
            self@.contains_key(k) ==> call_ensures(self.calculation(), (k,), self@[k])
    }

    /// What one lookup of `arg` does: `self` is the cacher before the
    /// lookup, `r` the value handed out and `after` the cacher afterwards.
    pub open spec fn looked_up(&self, arg: u32, r: u32, after: &Self) -> bool {
        &&& after.calculation() == self.calculation()
        &&& if self@.contains_key(arg) {
            &&& r == self@[arg]
            &&& after@ == self@
            &&& after.runs() == self.runs()
        } else {
            &&& call_ensures(self.calculation(), (arg,), r)
            &&& after@ == self@.insert(arg, r)
            &&& after.runs() == self.runs() + 1
        }
    }

    /// A cacher around `calculation` with an empty store.
    pub fn new(calculation: T) -> (cacher: Cacher<T>)
        ensures
            cacher.wf(),
            cacher.calculation() == calculation,
            cacher@ == Map::<u32, u32>::empty(),
            cacher.runs() == 0,
    {
        Cacher { calculation, value: HashMap::new(), runs: Ghost(0) }
    }

    /// The value of the calculation at `arg`: taken from the store if `arg`
    /// was seen before, else computed, stored and returned.
    pub fn value(&mut self, arg: u32) -> (r: u32)
        requires
            old(self).wf(),
            old(self)@.contains_key(arg) || call_requires(old(self).calculation(), (arg,)),
        ensures
            final(self).wf(),
            old(self).looked_up(arg, r, final(self)),
            call_ensures(old(self).calculation(), (arg,), r),
    {
        match self.value.get(&arg) {
            Some(val) => *val,
            None => {
                let v = (self.calculation)(arg);
                self.value.insert(arg, v);
                proof {
                    self.runs@ = self.runs@ + 1;
                }
                v
            },
        }
    }
}

/// Looking the same argument up twice in a row runs the calculation at most
/// once, exactly once if the argument was new, and both lookups hand out the
/// same value. The second lookup runs nothing and stores nothing.
pub proof fn repeated_lookup_runs_once<T: Fn(u32) -> u32>(
    c0: Cacher<T>,
    c1: Cacher<T>,
    c2: Cacher<T>,
    x: u32,
    r1: u32,
    r2: u32,
)
    requires
        c0.looked_up(x, r1, &c1),
        c1.looked_up(x, r2, &c2),
    ensures
        r2 == r1,
        c2@ == c1@,
        c2.runs() == c1.runs(),
        c2.runs() == c0.runs() + if c0@.contains_key(x) { 0nat } else { 1nat },
{
}

/// A lookup of `x` leaves every other argument `y` as it was: `y` is stored
/// afterwards exactly if it was stored before, with the same value. A
/// following lookup of `y` hands out that value if there is one, and else
/// runs the calculation on `y`. The value kept for `x` is not disturbed by it.
pub proof fn lookups_of_distinct_keys_are_isolated<T: Fn(u32) -> u32>(
    c0: Cacher<T>,
    c1: Cacher<T>,
    c2: Cacher<T>,
    x: u32,
    y: u32,
    rx: u32,
    ry: u32,
)
    requires
        x != y,
        c0.looked_up(x, rx, &c1),
        c1.looked_up(y, ry, &c2),
    ensures
        c1@.contains_key(y) == c0@.contains_key(y),
        c0@.contains_key(y) ==> c1@[y] == c0@[y] && ry == c0@[y] && c2.runs() == c1.runs(),
        !c0@.contains_key(y) ==> call_ensures(c0.calculation(), (y,), ry) && c2.runs()
            == c1.runs() + 1,
        c2@.contains_key(x) && c2@[x] == rx,
        c2@.contains_key(y) && c2@[y] == ry,
{
}

/// Lookups of `x`, then `y`, then `x` again run the calculation once for
/// each of the two that was new, whichever of them comes first, and the
/// third lookup hands out what the first one did.
pub proof fn interleaved_lookups_run_once_per_key<T: Fn(u32) -> u32>(
    c0: Cacher<T>,
    c1: Cacher<T>,
    c2: Cacher<T>,
    c3: Cacher<T>,
    x: u32,
    y: u32,
    r1: u32,
    r2: u32,
    r3: u32,
)
    requires
        x != y,
        c0.looked_up(x, r1, &c1),
        c1.looked_up(y, r2, &c2),
        c2.looked_up(x, r3, &c3),
    ensures
        r3 == r1,
        c3@ == c2@,
        c3.runs() == c0.runs() + (if c0@.contains_key(x) { 0nat } else { 1nat }) + (if c0@.contains_key(y) { 0nat } else { 1nat }),
{
}

/// A lookup takes nothing out of the store and changes no value in it.
pub proof fn store_only_grows<T: Fn(u32) -> u32>(c0: Cacher<T>, c1: Cacher<T>, x: u32, r: u32)
    requires
        c0.looked_up(x, r, &c1),
    ensures
        c0@.submap_of(c1@),
        c1@.contains_key(x) && c1@[x] == r,
        c1@.dom() == c0@.dom().insert(x),
        c1.runs() >= c0.runs(),
{
    assert(c1@.dom() =~= c0@.dom().insert(x));
}

/// A lookup keeps the cacher well formed: what it stores is the value that
/// the calculation gave, and the count of runs keeps pace with the store.
pub proof fn lookup_keeps_well_formed<T: Fn(u32) -> u32>(
    c0: Cacher<T>,
    c1: Cacher<T>,
    x: u32,
    r: u32,
)
    requires
        c0.wf(),
        c0.looked_up(x, r, &c1),
    ensures
        c1.wf(),
        call_ensures(c0.calculation(), (x,), r),
{
}

/// The calculation gives at most one value for every argument.
pub open spec fn is_deterministic<T: Fn(u32) -> u32>(calculation: T) -> bool {
    forall|x: u32, a: u32, b: u32|
        call_ensures(calculation, (x,), a) && call_ensures(calculation, (x,), b) ==> a == b
}

/// Around a calculation that gives at most one value for every argument, a
/// lookup hands out what the calculation itself gives, whether the value
/// comes from the store or is computed.
pub proof fn lookup_agrees_with_calculation<T: Fn(u32) -> u32>(
    c0: Cacher<T>,
    c1: Cacher<T>,
    x: u32,
    r: u32,
    direct: u32,
)
    requires
        c0.wf(),
        is_deterministic(c0.calculation()),
        c0.looked_up(x, r, &c1),
        call_ensures(c0.calculation(), (x,), direct),
    ensures
        r == direct,
{
}

/// Where the calculation gives no value for `x`, because it fails on it,
/// no lookup of `x` comes back with one either, and the store has no entry
/// for `x`: the next lookup of `x` is a fresh attempt on the calculation.
pub proof fn failure_is_passed_on<T: Fn(u32) -> u32>(c0: Cacher<T>, c1: Cacher<T>, x: u32, r: u32)
    requires
        c0.wf(),
        forall|v: u32| !call_ensures(c0.calculation(), (x,), v),
    ensures
        !c0@.contains_key(x),
        !c0.looked_up(x, r, &c1),
{
}

/// A run of lookups: `states[i]` is the cacher before lookup `i`, which asks
/// for `args[i]` and hands out `results[i]`; `states[i + 1]` is the cacher
/// after it.
pub open spec fn is_run<T: Fn(u32) -> u32>(
    states: Seq<Cacher<T>>,
    args: Seq<u32>,
    results: Seq<u32>,
) -> bool {
    &&& states.len() == args.len() + 1
    &&& results.len() == args.len()
    &&& forall|i: int|
        0 <= i < args.len() ==> states[i].looked_up(#[trigger] args[i], results[i], &states[i + 1])
}

/// In any run of lookups, in whatever order the arguments come, the
/// calculation is run once for every distinct argument that was not stored
/// at the start, the store ends up holding the arguments of the run besides
/// what it held, and two lookups of one argument hand out one value.
pub proof fn run_computes_each_new_key_once<T: Fn(u32) -> u32>(
    states: Seq<Cacher<T>>,
    args: Seq<u32>,
    results: Seq<u32>,
)
    requires
        is_run(states, args, results),
        states[0]@.dom().finite(),
    ensures
        states.last().calculation() == states[0].calculation(),
        states.last()@.dom() == states[0]@.dom().union(args.to_set()),
        states.last().runs() == states[0].runs() + args.to_set().difference(states[0]@.dom()).len(),
        forall|k: u32| states[0]@.contains_key(k) ==> states.last()@[k] == states[0]@[k],
        forall|i: int| 0 <= i < args.len() ==> states.last()@[#[trigger] args[i]] == results[i],
        forall|i: int, j: int|
            0 <= i < args.len() && 0 <= j < args.len() && args[i] == args[j] ==> results[i]
                == results[j],
    decreases args.len(),
{
    let start = states[0]@.dom();
    if args.len() == 0 {
        assert(args.to_set() =~= Set::<u32>::empty());
        assert(start.union(args.to_set()) =~= start);
        assert(args.to_set().difference(start) =~= Set::<u32>::empty());
    } else {
        let n = args.len() as int;
        let a = args.last();
        let before = states[n - 1];
        let after = states[n];
        let head_states = states.drop_last();
        let head_args = args.drop_last();
        let head_results = results.drop_last();
        assert forall|i: int| 0 <= i < head_args.len() implies head_states[i].looked_up(
            #[trigger] head_args[i],
            head_results[i],
            &head_states[i + 1],
        ) by {
            assert(states[i].looked_up(args[i], results[i], &states[i + 1]));
        }
        run_computes_each_new_key_once(head_states, head_args, head_results);
        assert(before.looked_up(args[n - 1], results[n - 1], &after));
        assert(args.to_set() == head_args.to_set().insert(a)) by {
            assert(args =~= head_args.push(a));
            head_args.lemma_push_to_set_commute(a);
        }
        vstd::seq_lib::seq_to_set_is_finite(head_args);
        let head_new = head_args.to_set().difference(start);
        let all_new = args.to_set().difference(start);
        if before@.contains_key(a) {
            assert(all_new =~= head_new);
        } else {
            assert(all_new =~= head_new.insert(a));
        }
        assert(after@.dom() =~= start.union(args.to_set()));
        assert forall|i: int| 0 <= i < args.len() implies after@[#[trigger] args[i]]
            == results[i] by {
            if i < n - 1 {
                assert(before@.contains_key(head_args[i]));
                assert(before@[head_args[i]] == head_results[i]);
            }
        }
    }
}

/// What a day's workout consists of.
#[derive(Debug, Clone, Copy, PartialEq, Eq, Structural)]
pub enum Workout {
    /// Pushups and situps, the same number of each.
    Strength { pushups: u32, situps: u32 },
    /// No exercise today.
    Rest,
    /// A run of so many minutes.
    Run { minutes: u32 },
}

/// Plans a workout from the wanted `intensity`. The numbers come from
/// `calculation`, which is costly and therefore asked through a [`Cacher`]:
/// below an intensity of 25 the plan is pushups and situps, the calculation
/// being run once for both; from 25 on it is a rest day when `random_number`
/// is 3, and a run otherwise.
pub fn generate_workout<T>(calculation: T, intensity: u32, random_number: u32) -> (plan:
    Workout) where T: Fn(u32) -> u32
    requires
        intensity < 25 || random_number != 3 ==> call_requires(calculation, (intensity,)),
    ensures
        match plan {
            Workout::Strength { pushups, situps } => {
                &&& intensity < 25
                &&& call_ensures(calculation, (intensity,), pushups)
                &&& situps == pushups
            },
            Workout::Rest => intensity >= 25 && random_number == 3,
            Workout::Run { minutes } => {
                &&& intensity >= 25
                &&& random_number != 3
                &&& call_ensures(calculation, (intensity,), minutes)
            },
        },
{
    let mut expensive_result = Cacher::new(calculation);
    if intensity < 25 {
        let pushups = expensive_result.value(intensity);
        let situps = expensive_result.value(intensity);
        assert(expensive_result.runs() == 1);
        Workout::Strength { pushups, situps }
    } else {
        if random_number == 3 {
            Workout::Rest
        } else {
            Workout::Run { minutes: expensive_result.value(intensity) }
        }
    }
}

/// Calls a closure whose types were settled by its first use.
pub fn one_type_inference_per_closure_def() {
    let x = |x: i32| -> (same: i32)
        ensures
            same == x,
        { x };
    let five = x(5);
    assert(five == 5);
}

/// Hands a closure to a function that takes one on numbers.
pub fn pass_closure() {
    let f = |x: u32| -> (same: u32)
        ensures
            same == x,
        { x };
    accept_closure_int(f);
}

/// Calls `f` on the text `hello`.
pub fn accept_closure_string<F: Fn(String) -> String>(f: F)
    requires
        forall|text: String| text@ == "hello"@ ==> call_requires(f, (text,)),
{
    let x = f(String::from_str("hello"));
}

/// Calls `f` on the number 3.
pub fn accept_closure_int<F: Fn(u32) -> u32>(f: F)
    requires
        call_requires(f, (3u32,)),
{
    let x = f(3);
}

/// Calls a closure that reads a number of the scope around it.
pub fn capturing_environment() {
    let x: i32 = 4;
    let equal_to_x = |z: i32| -> (equal: bool)
        ensures
            equal == (z == x),
        { z == x };
    let y: i32 = 4;
    let equal = equal_to_x(y);
    assert(equal);
}

/// Makes a closure that takes a vector of the scope around it for its own.
pub fn move_keyword() {
    let x: Vec<i32> = vec![1, 2, 3];
    let equal_to_x = move |z: Vec<i32>| -> (equal: bool)
        ensures
            equal == (z@ =~= x@),
        { z == x };
}

} // verus!

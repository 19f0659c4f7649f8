//! The orchestrator: a feature root, a spawner, and the suites registered so
//! far.
//!
//! The trellis touches no file system. Whoever builds it looks at the disk
//! and hands over what was found: a `PathProbe` of the resolved root for
//! `new`, and whether the feature file exists for `add_test`. The rules that
//! turn those findings into a trellis, a registration or a `ConfigError` are
//! here. Nor does the trellis drive a unit of work: `run_tests` hands the
//! join of the units to the spawner and gives back what is left to await.

use crate::definition::CucumberTest;
use crate::error::ConfigError;
use crate::path::feature_file_path;
use crate::path::feature_path;
use crate::path::is_rooted;
use crate::path::resolve_root;
use crate::path::resolved_root;
use crate::path::starts_at_root;
use crate::path::text_of;
use crate::result::TestResult;
use crate::spawners::DefaultSpawner;
use crate::spawners::Spawned;
use crate::spawners::TestSpawnFactory;
use crate::spawners::TestSpawner;
use futures::task::FutureObj;
use futures::FutureExt;
use vstd::prelude::*;
use vstd::string::*;

verus! {

/// What a look at the disk found at a path.
#[derive(Clone, Copy, Debug, PartialEq, Eq)]
pub struct PathProbe {
    /// Something exists at the path.
    pub exists: bool,
    /// What exists at the path is a directory.
    pub is_dir: bool,
}

/// One registration: the name of the suite and the unit of work that runs it.
struct Registered {
    name: String,
    unit: TestResult,
}

/// The orchestrator. It is built once for a test run, takes registrations,
/// and is used up by `run_tests`.
pub struct CucumberTrellis {
    path_base: String,
    tests: Vec<Registered>,
    spawner: Box<dyn TestSpawner>,
}

/// Calls `futures::future::join_all` on `units` and erases the type of the
/// joined future, its output dropped. Trusted, and nothing is claimed of the
/// handle: the verifier cannot see inside a computation. By the crate's
/// documentation the joined future drives all of the given futures and
/// completes once each of them has.
#[verifier::external_body]
fn join_all(units: Vec<TestResult>) -> (all: FutureObj<'static, ()>) {
    FutureObj::new(Box::pin(futures::future::join_all(units).map(drop)))
}

/// The units of the registrations `tests`, in the same order.
spec fn units_of(tests: Seq<Registered>) -> Seq<TestResult> {
    Seq::new(tests.len(), |i: int| tests[i].unit)
}

/// Moves the units out of the registrations `tests`, keeping their order.
fn take_units(tests: Vec<Registered>) -> (units: Vec<TestResult>)
    ensures
        units@ == units_of(tests@),
{
    let ghost all = units_of(tests@);
    let mut pending = tests;
    let mut reversed: Vec<TestResult> = Vec::new();
    while pending.len() > 0
        invariant
            pending@.len() + reversed@.len() == all.len(),
            forall|i: int| 0 <= i < pending@.len() ==> pending@[i].unit == all[i],
            forall|j: int| 0 <= j < reversed@.len() ==> reversed@[j] == all[all.len() - 1 - j],
        decreases pending@.len(),
    {
        match pending.pop() {
            Some(last) => reversed.push(last.unit),
            None => {},
        }
    }
    let mut units: Vec<TestResult> = Vec::new();
    while reversed.len() > 0
        invariant
            units@.len() + reversed@.len() == all.len(),
            forall|j: int| 0 <= j < reversed@.len() ==> reversed@[j] == all[all.len() - 1 - j],
            forall|i: int| 0 <= i < units@.len() ==> units@[i] == all[i],
        decreases reversed@.len(),
    {
        match reversed.pop() {
            Some(next) => units.push(next),
            None => {},
        }
    }
    units
}

impl CucumberTrellis {
    /// The feature root that the trellis is bound to.
    pub closed spec fn root(&self) -> Seq<char> {
        self.path_base@
    }

    /// The names of the registered suites, in registration order.
    pub closed spec fn suites(&self) -> Seq<Seq<char>> {
        Seq::new(self.tests@.len(), |i: int| self.tests@[i].name@)
    }

    /// The registered units of work, in registration order: one for each
    /// name in `suites`.
    pub closed spec fn units(&self) -> Seq<TestResult> {
        units_of(self.tests@)
    }

    /// Each registered suite has exactly one unit.
    pub proof fn one_unit_per_suite(&self)
        ensures
            self.units().len() == self.suites().len(),
    {
    }

    /// A trellis that has just been bound to `root`: nothing is registered,
    /// and the spawner is the default one.
    pub open spec fn is_fresh(&self, root: Seq<char>) -> bool {
        &&& self.root() == root
        &&& self.suites() == Seq::<Seq<char>>::empty()
        &&& self.units() == Seq::<TestResult>::empty()
        &&& self.spawns_with(DefaultSpawner)
    }

    /// What binding to the resolved root `root` comes to, given what `probe`
    /// found there: the root must be rooted, exist and be a directory, and
    /// is asked for these in this order.
    pub open spec fn binds_as(bound: Result<Self, ConfigError>, root: Seq<char>, probe: PathProbe) -> bool {
        if !is_rooted(root) {
            bound matches Err(ConfigError::PathIsNotAbsolute { path }) && path@ == root
        } else if !probe.exists {
            bound matches Err(ConfigError::PathDoesNotExist { path }) && path@ == root
        } else if !probe.is_dir {
            bound matches Err(ConfigError::PathIsNotADirectory { path }) && path@ == root
        } else {
            bound matches Ok(trellis) && trellis.is_fresh(root)
        }
    }

    /// Binds a trellis to the resolved root `root`, of which `probe` tells
    /// what is on disk. The trellis starts with the default spawner.
    pub fn bind(root: String, probe: PathProbe) -> (bound: Result<Self, ConfigError>)
        ensures
            Self::binds_as(bound, root@, probe),
    {
        if !starts_at_root(root.as_str()) {
            return Err(ConfigError::PathIsNotAbsolute { path: root });
        }
        if !probe.exists {
            return Err(ConfigError::PathDoesNotExist { path: root });
        }
        if !probe.is_dir {
            return Err(ConfigError::PathIsNotADirectory { path: root });
        }
        let spawner: Box<dyn TestSpawner> = Box::new(DefaultSpawner);
        let trellis = CucumberTrellis { path_base: root, tests: Vec::new(), spawner };
        assert(trellis.suites() =~= Seq::<Seq<char>>::empty());
        assert(trellis.units() =~= Seq::<TestResult>::empty());
        Ok(trellis)
    }

    /// What creating a trellis for the optional base `base` against the
    /// working directory `cwd` comes to: a working directory that is not
    /// rooted is refused; against any other the root is resolved and bound.
    pub open spec fn makes_as(
        made: Result<Self, ConfigError>,
        base: Option<Seq<char>>,
        cwd: Seq<char>,
        probe: PathProbe,
    ) -> bool {
        if is_rooted(cwd) {
            Self::binds_as(made, resolved_root(base, cwd), probe)
        } else {
            made matches Err(ConfigError::PathIsNotAbsolute { path }) && path@ == cwd
        }
    }

    /// Creates a trellis for the feature files below `feature_path_base`,
    /// made absolute against the working directory `cwd`. Without a base the
    /// root is `tests/features` below `cwd`. `probe` tells what is on disk at
    /// the resolved root, which `resolve_root` computes beforehand. The root
    /// of the trellis is always rooted.
    pub fn new(feature_path_base: Option<&str>, cwd: &str, probe: PathProbe) -> (made: Result<
        Self,
        ConfigError,
    >)
        ensures
            Self::makes_as(made, text_of(feature_path_base), cwd@, probe),
            made is Ok ==> is_rooted(made.unwrap().root()),
    {
        match resolve_root(feature_path_base, cwd) {
            Ok(root) => Self::bind(root, probe),
            Err(error) => Err(error),
        }
    }

    /// The feature root that the trellis is bound to.
    pub fn path_base(&self) -> (root: &str)
        ensures
            root@ == self.root(),
    {
        self.path_base.as_str()
    }

    /// The number of registered suites.
    pub fn len(&self) -> (n: usize)
        ensures
            n == self.suites().len(),
            n == self.units().len(),
    {
        self.tests.len()
    }

    /// Whether no suite is registered.
    pub fn is_empty(&self) -> (empty: bool)
        ensures
            empty == (self.suites().len() == 0),
    {
        self.tests.len() == 0
    }

    /// The name of the suite that was registered as number `index`.
    pub fn suite_name(&self, index: usize) -> (name: Option<&str>)
        ensures
            match name {
                Some(n) => index < self.suites().len() && n@ == self.suites()[index as int],
                None => index >= self.suites().len(),
            },
    {
        if index < self.tests.len() {
            Some(self.tests[index].name.as_str())
        } else {
            None
        }
    }

    /// Where the feature file of the suite `T` has to be for `add_test` to
    /// register it.
    pub fn feature_file<T: CucumberTest>(&self) -> (path: String)
        ensures
            path@ == feature_path(self.root(), T::NAME@),
    {
        feature_file_path(self.path_base.as_str(), T::NAME)
    }

    /// Adds the suite `T` to the trellis. `feature_found` tells whether its
    /// feature file, at the path that `feature_file` gives, exists. Where it
    /// does, the suite is started on that path and its unit is appended;
    /// where it does not, the trellis stays as it was.
    pub fn add_test<T: CucumberTest>(&mut self, feature_found: bool) -> (added: Result<
        (),
        ConfigError,
    >)
        ensures
            final(self).root() == old(self).root(),
            final(self).same_spawner(*old(self)),
            match added {
                Ok(()) => {
                    &&& feature_found
                    &&& final(self).suites() == old(self).suites().push(T::NAME@)
                    &&& exists|path: String, unit: TestResult|
                        {
                            &&& path@ == feature_path(old(self).root(), T::NAME@)
                            &&& #[trigger] call_ensures(T::run, (path,), unit)
                            &&& final(self).units() == old(self).units().push(unit)
                        }
                },
                Err(ConfigError::FeatureFileDoesNotExist { path }) => {
                    &&& !feature_found
                    &&& path@ == feature_path(old(self).root(), T::NAME@)
                    &&& *final(self) == *old(self)
                },
                Err(_) => false,
            },
    {
        let path = feature_file_path(self.path_base.as_str(), T::NAME);
        if !feature_found {
            return Err(ConfigError::FeatureFileDoesNotExist { path });
        }
        let unit = T::run(path);
        let ghost made = unit;
        self.tests.push(Registered { name: String::from_str(T::NAME), unit });
        proof {
            assert(final(self).suites() =~= old(self).suites().push(T::NAME@));
            assert(final(self).units() =~= old(self).units().push(made));
        }
        Ok(())
    }

    /// Installs the spawner that the factory of `S` makes in place of the one
    /// the trellis holds. The root and the registrations are untouched.
    pub fn with_spawner<S: TestSpawner + TestSpawnFactory + 'static>(self) -> (fitted: Self)
        ensures
            fitted.root() == self.root(),
            fitted.suites() == self.suites(),
            fitted.units() == self.units(),
            exists|made: S| #[trigger] call_ensures(S::new, (), made) && fitted.spawns_with(made),
    {
        let made = S::new();
        let ghost installed = made;
        let spawner: Box<dyn TestSpawner> = Box::new(made);
        let fitted = CucumberTrellis { path_base: self.path_base, tests: self.tests, spawner };
        assert(call_ensures(S::new, (), installed) && fitted.spawns_with(installed));
        fitted
    }

    /// Whether the spawner that the trellis holds is `spawner`, boxed and
    /// its type forgotten.
    pub closed spec fn spawns_with<S: TestSpawner + 'static>(&self, spawner: S) -> bool {
        self.spawner == boxed(spawner)
    }

    /// Takes the trellis apart into its units of work, in registration
    /// order, for a caller that drives them itself.
    pub fn into_units(self) -> (units: Vec<TestResult>)
        ensures
            units@ == self.units(),
    {
        take_units(self.tests)
    }

    /// Whether the trellis holds the spawner that `other` holds.
    pub closed spec fn same_spawner(&self, other: Self) -> bool {
        self.spawner == other.spawner
    }

    /// Runs all tests in the trellis: joins the registered units, in
    /// registration order, into one unit that completes once each of them
    /// has, and hands it to the spawner. What comes back is what the spawner
    /// made of it, and is left to await: the run is over once that has
    /// completed. The trellis is used up.
    pub fn run_tests(self) -> (spawned: Spawned)
        ensures
            exists|all: TestResult| #[trigger] self.joins(all) && self.hands_over(all, spawned),
    {
        let CucumberTrellis { path_base: _, tests, spawner } = self;
        let units = take_units(tests);
        let ghost taken = units;
        let all = TestResult::from_inner(join_all(units));
        let ghost joined = all;
        let spawned = spawner.spawn(all);
        assert(call_ensures(join_all, (taken,), joined.computation()));
        assert(self.joins(joined) && self.hands_over(joined, spawned));
        spawned
    }

    /// Whether `all` is the join of the registered units: what joining them,
    /// in registration order, gave.
    pub closed spec fn joins(&self, all: TestResult) -> bool {
        exists|units: Vec<TestResult>|
            units@ == self.units() && #[trigger] call_ensures(
                join_all,
                (units,),
                all.computation(),
            )
    }

    /// Whether `spawned` is what the spawner of the trellis made of `all`.
    pub closed spec fn hands_over(&self, all: TestResult, spawned: Spawned) -> bool {
        self.spawner.places(all, spawned)
    }
}

/// The spawner `spawner` as a trellis holds one: boxed, its type forgotten.
spec fn boxed<S: TestSpawner + 'static>(spawner: S) -> Box<dyn TestSpawner> {
    Box::new(spawner)
}

} // verus!

//! The options of a test entry point: which may be given, what they are
//! called, and which of them go together.
//!
//! An entry point is configured by a list of options, each given at most
//! once: `features` names the feature root, `executor` names the function
//! that drives the run, and `use_tokio` asks for the Tokio runtime instead,
//! which rules `executor` out.

use std::collections::HashSet;
use vstd::prelude::*;
use vstd::string::*;

verus! {

/// The kinds of option.
#[derive(Clone, Copy, Debug, PartialEq, Eq, Structural)]
pub enum OptionKind {
    /// The feature root.
    Features,
    /// The function that drives the run.
    Executor,
    /// Run under the Tokio runtime.
    UseTokio,
}

/// One option as it was given, with its value.
#[derive(Clone, Debug)]
pub enum AttributeOption {
    /// `features = "<path>"`: the text of the path.
    Features(String),
    /// `executor = <path>`: the path of the function, as written.
    Executor(String),
    /// `use_tokio`.
    UseTokio,
}

/// Why a list of options is refused.
#[derive(Clone, Debug, PartialEq, Eq)]
pub enum OptionError {
    /// The name is that of no option.
    UnknownOption { name: String },
    /// The option of this name is given a second time, at this place in the
    /// list.
    DuplicateOption { name: String, index: usize },
    /// `use_tokio` and `executor` are both given.
    ExclusiveOptions,
}

/// The options of an entry point, settled.
#[derive(Clone, Debug, PartialEq, Eq)]
pub struct AttributeOptions {
    /// The feature root, where one is given.
    pub features: Option<String>,
    /// The function that drives the run, where one is given.
    pub executor: Option<String>,
    /// Whether the run is under the Tokio runtime.
    pub use_tokio: bool,
}

/// How an entry point drives the run.
#[derive(Clone, Debug, PartialEq, Eq)]
pub enum Driver {
    /// An asynchronous entry point under the Tokio runtime, which awaits
    /// the run.
    Tokio,
    /// A plain entry point, which hands the run to the function at this
    /// path.
    Executor(String),
}

/// What an entry point is generated from.
#[derive(Clone, Debug, PartialEq, Eq)]
pub struct EntryPoint {
    /// The feature root, where one is given.
    pub features: Option<String>,
    /// How the run is driven.
    pub driver: Driver,
}

/// The path of the function that drives the run where the options name
/// none.
pub open spec fn default_executor() -> Seq<char> {
    "futures::executor::block_on"@
}

/// The name under which an option of kind `kind` is given.
pub open spec fn kind_name(kind: OptionKind) -> Seq<char> {
    match kind {
        OptionKind::Features => "features"@,
        OptionKind::Executor => "executor"@,
        OptionKind::UseTokio => "use_tokio"@,
    }
}

/// The number under which a kind is remembered as seen.
pub open spec fn kind_code(kind: OptionKind) -> u8 {
    match kind {
        OptionKind::Features => 0,
        OptionKind::Executor => 1,
        OptionKind::UseTokio => 2,
    }
}

/// The kind of the option called `name`, if there is one.
pub open spec fn kind_named(name: Seq<char>) -> Option<OptionKind> {
    if name == "features"@ {
        Some(OptionKind::Features)
    } else if name == "executor"@ {
        Some(OptionKind::Executor)
    } else if name == "use_tokio"@ {
        Some(OptionKind::UseTokio)
    } else {
        None
    }
}

/// Whether the option at `index` repeats the kind of an earlier one.
pub open spec fn repeats_at(items: Seq<AttributeOption>, index: int) -> bool {
    exists|earlier: int| 0 <= earlier < index && items[earlier].kind() == items[index].kind()
}

/// Whether no option of `items` repeats the kind of an earlier one.
pub open spec fn repeat_free(items: Seq<AttributeOption>) -> bool {
    forall|index: int| 0 <= index < items.len() ==> !repeats_at(items, index)
}

/// Whether `index` is the first place at which `items` repeats a kind.
pub open spec fn first_repeat_at(items: Seq<AttributeOption>, index: int) -> bool {
    &&& 0 <= index < items.len()
    &&& repeats_at(items, index)
    &&& forall|before: int| 0 <= before < index ==> !repeats_at(items, before)
}

/// Whether an option of kind `kind` is among `items`.
pub open spec fn gives(items: Seq<AttributeOption>, kind: OptionKind) -> bool {
    exists|index: int| 0 <= index < items.len() && items[index].kind() == kind
}

/// Whether `value` is what `items` gives for `features`: the text of the
/// option where it is given, nothing where it is not.
pub open spec fn is_features_of(value: Option<String>, items: Seq<AttributeOption>) -> bool {
    match value {
        Some(text) => exists|index: int|
            0 <= index < items.len() && items[index] == AttributeOption::Features(text),
        None => !gives(items, OptionKind::Features),
    }
}

/// Whether `value` is what `items` gives for `executor`: the path of the
/// option where it is given, nothing where it is not.
pub open spec fn is_executor_of(value: Option<String>, items: Seq<AttributeOption>) -> bool {
    match value {
        Some(text) => exists|index: int|
            0 <= index < items.len() && items[index] == AttributeOption::Executor(text),
        None => !gives(items, OptionKind::Executor),
    }
}

impl OptionKind {
    /// The name under which the option is given.
    pub fn name(&self) -> (name: String)
        ensures
            name@ == kind_name(*self),
    {
        match self {
            OptionKind::Features => String::from_str("features"),
            OptionKind::Executor => String::from_str("executor"),
            OptionKind::UseTokio => String::from_str("use_tokio"),
        }
    }

    /// The number under which the kind is remembered as seen.
    pub fn code(&self) -> (code: u8)
        ensures
            code == kind_code(*self),
    {
        match self {
            OptionKind::Features => 0,
            OptionKind::Executor => 1,
            OptionKind::UseTokio => 2,
        }
    }

    /// Whether the option is followed by `=` and a value.
    pub fn takes_value(&self) -> (valued: bool)
        ensures
            valued == (*self != OptionKind::UseTokio),
    {
        match self {
            OptionKind::Features => true,
            OptionKind::Executor => true,
            OptionKind::UseTokio => false,
        }
    }

    /// Finds the kind of the option called `name`.
    pub fn named(name: &str) -> (kind: Result<OptionKind, OptionError>)
        ensures
            match kind {
                Ok(k) => kind_named(name@) == Some(k),
                Err(OptionError::UnknownOption { name: unknown }) => kind_named(name@) is None
                    && unknown@ == name@,
                Err(_) => false,
            },
    {
        let given = String::from_str(name);
        if given == String::from_str("features") {
            Ok(OptionKind::Features)
        } else if given == String::from_str("executor") {
            Ok(OptionKind::Executor)
        } else if given == String::from_str("use_tokio") {
            Ok(OptionKind::UseTokio)
        } else {
            Err(OptionError::UnknownOption { name: given })
        }
    }
}

impl AttributeOption {
    /// The kind of the option.
    pub open spec fn kind(&self) -> OptionKind {
        match self {
            AttributeOption::Features(_) => OptionKind::Features,
            AttributeOption::Executor(_) => OptionKind::Executor,
            AttributeOption::UseTokio => OptionKind::UseTokio,
        }
    }

    /// The kind of the option.
    pub fn kind_of(&self) -> (kind: OptionKind)
        ensures
            kind == self.kind(),
    {
        match self {
            AttributeOption::Features(_) => OptionKind::Features,
            AttributeOption::Executor(_) => OptionKind::Executor,
            AttributeOption::UseTokio => OptionKind::UseTokio,
        }
    }

    /// The name under which the option is given.
    pub fn name(&self) -> (name: String)
        ensures
            name@ == kind_name(self.kind()),
    {
        match self {
            Self::Features(_) => String::from_str("features"),
            Self::Executor(_) => String::from_str("executor"),
            Self::UseTokio => String::from_str("use_tokio"),
        }
    }
}

impl PartialEq for AttributeOption {
    /// Two options are the same option when they are of one kind, whatever
    /// their values.
    fn eq(&self, other: &Self) -> (same: bool) {
        match (self, other) {
            (Self::Features(_), Self::Features(_)) => true,
            (Self::Executor(_), Self::Executor(_)) => true,
            (Self::UseTokio, Self::UseTokio) => true,
            _ => false,
        }
    }
}

impl Eq for AttributeOption {

}

impl vstd::std_specs::cmp::PartialEqSpecImpl for AttributeOption {
    open spec fn obeys_eq_spec() -> bool {
        true
    }

    open spec fn eq_spec(&self, other: &Self) -> bool {
        self.kind() == other.kind()
    }
}

impl AttributeOptions {
    /// What settling `items` comes to. A repeated option is refused at the
    /// place where it is first repeated, under its name; a list without repetition is
    /// refused where it gives both `use_tokio` and `executor`; any other list
    /// is accepted with the values it gives.
    pub open spec fn settles_as(
        settled: Result<AttributeOptions, OptionError>,
        items: Seq<AttributeOption>,
    ) -> bool {
        match settled {
            Ok(options) => {
                &&& repeat_free(items)
                &&& !(gives(items, OptionKind::UseTokio) && gives(items, OptionKind::Executor))
                &&& is_features_of(options.features, items)
                &&& is_executor_of(options.executor, items)
                &&& options.use_tokio == gives(items, OptionKind::UseTokio)
            },
            Err(OptionError::DuplicateOption { name, index }) => {
                &&& first_repeat_at(items, index as int)
                &&& name@ == kind_name(items[index as int].kind())
            },
            Err(OptionError::ExclusiveOptions) => {
                &&& repeat_free(items)
                &&& gives(items, OptionKind::UseTokio)
                &&& gives(items, OptionKind::Executor)
            },
            Err(OptionError::UnknownOption { .. }) => false,
        }
    }

    /// Settles the options `items`, taken in the order in which they were
    /// given.
    pub fn resolve(items: &Vec<AttributeOption>) -> (settled: Result<AttributeOptions, OptionError>)
        ensures
            Self::settles_as(settled, items@),
    {
        broadcast use vstd::std_specs::hash::group_hash_axioms;

        let mut features: Option<String> = None;
        let mut executor: Option<String> = None;
        let mut use_tokio = false;
        let mut seen: HashSet<u8> = HashSet::new();
        let mut i: usize = 0;
        while i < items.len()
            invariant
                0 <= i <= items.len(),
                forall|index: int| 0 <= index < i ==> !repeats_at(items@, index),
                forall|kind: OptionKind|
                    seen@.contains(#[trigger] kind_code(kind)) == gives(items@.take(i as int), kind),
                is_features_of(features, items@.take(i as int)),
                is_executor_of(executor, items@.take(i as int)),
                use_tokio == gives(items@.take(i as int), OptionKind::UseTokio),
            decreases items.len() - i,
        {
            let ghost seen_before = items@.take(i as int);
            let ghost next = items@.take(i + 1);
            let item = &items[i];
            let fresh = seen.insert(item.kind_of().code());
            assert(fresh == !gives(seen_before, item.kind()));
            if !fresh {
                proof {
                    let earlier = choose|k: int|
                        0 <= k < seen_before.len() && seen_before[k].kind() == item.kind();
                    assert(items@[earlier].kind() == items@[i as int].kind());
                }
                return Err(OptionError::DuplicateOption { name: item.name(), index: i });
            }
            assert(!repeats_at(items@, i as int)) by {
                if repeats_at(items@, i as int) {
                    let earlier = choose|k: int|
                        0 <= k < i && items@[k].kind() == items@[i as int].kind();
                    assert(seen_before[earlier].kind() == item.kind());
                }
            }
            assert forall|kind: OptionKind|
                seen@.contains(#[trigger] kind_code(kind)) == gives(next, kind) by {
                lemma_gives_one_more(items@, i as int, kind);
            }
            match item {
                AttributeOption::Features(value) => {
                    features = Some(value.clone());
                },
                AttributeOption::Executor(value) => {
                    executor = Some(value.clone());
                },
                AttributeOption::UseTokio => {
                    use_tokio = true;
                },
            }
            proof {
                lemma_gives_one_more(items@, i as int, OptionKind::Features);
                lemma_gives_one_more(items@, i as int, OptionKind::Executor);
                lemma_gives_one_more(items@, i as int, OptionKind::UseTokio);
                if features is Some {
                    let text = features->0;
                    let at = if item.kind() == OptionKind::Features {
                        i as int
                    } else {
                        choose|k: int|
                            0 <= k < seen_before.len() && seen_before[k] == AttributeOption::Features(text)
                    };
                    assert(next[at] == AttributeOption::Features(text));
                }
                if executor is Some {
                    let text = executor->0;
                    let at = if item.kind() == OptionKind::Executor {
                        i as int
                    } else {
                        choose|k: int|
                            0 <= k < seen_before.len() && seen_before[k] == AttributeOption::Executor(text)
                    };
                    assert(next[at] == AttributeOption::Executor(text));
                }
            }
            i += 1;
        }
        assert(items@.take(i as int) == items@);
        if use_tokio && executor.is_some() {
            return Err(OptionError::ExclusiveOptions);
        }
        Ok(AttributeOptions { features, executor, use_tokio })
    }
}

impl EntryPoint {
    /// The path of the function that drives the run under `options`, taken
    /// without the Tokio runtime.
    pub open spec fn executor_of(options: AttributeOptions) -> Seq<char> {
        match options.executor {
            Some(path) => path@,
            None => default_executor(),
        }
    }

    /// Plans the entry point for `options`. The Tokio runtime, where it is
    /// asked for, takes the place of any executor.
    pub fn plan(options: AttributeOptions) -> (entry: EntryPoint)
        ensures
            entry.features == options.features,
            match entry.driver {
                Driver::Tokio => options.use_tokio,
                Driver::Executor(path) => !options.use_tokio && path@ == Self::executor_of(options),
            },
    {
        let AttributeOptions { features, executor, use_tokio } = options;
        let driver = if use_tokio {
            Driver::Tokio
        } else {
            match executor {
                Some(path) => Driver::Executor(path),
                None => Driver::Executor(String::from_str("futures::executor::block_on")),
            }
        };
        EntryPoint { features, driver }
    }
}

/// An option is among the first `count + 1` of `items` exactly when it is
/// among the first `count` or is the one at `count`.
proof fn lemma_gives_one_more(items: Seq<AttributeOption>, count: int, kind: OptionKind)
    requires
        0 <= count < items.len(),
    ensures
        gives(items.take(count + 1), kind) == (gives(items.take(count), kind) || items[count].kind()
            == kind),
{
    let shorter = items.take(count);
    let longer = items.take(count + 1);
    if gives(shorter, kind) {
        let at = choose|k: int| 0 <= k < shorter.len() && shorter[k].kind() == kind;
        assert(longer[at].kind() == kind);
    }
    if items[count].kind() == kind {
        assert(longer[count].kind() == kind);
    }
    if gives(longer, kind) {
        let at = choose|k: int| 0 <= k < longer.len() && longer[k].kind() == kind;
        if at < count {
            assert(shorter[at].kind() == kind);
        }
    }
}

impl OptionError {
    /// The message of the error.
    pub open spec fn message_text(&self) -> Seq<char> {
        match self {
            OptionError::UnknownOption { .. } => "Unknown option"@,
            OptionError::DuplicateOption { name, .. } => "Duplicate option: "@ + name@,
            OptionError::ExclusiveOptions => "Cannot use both `use_tokio` and `executor`"@,
        }
    }

    /// Renders the error for a person to read.
    pub fn message(&self) -> (message: String)
        ensures
            message@ == self.message_text(),
    {
        match self {
            OptionError::UnknownOption { .. } => String::from_str("Unknown option"),
            OptionError::DuplicateOption { name, .. } => String::from_str("Duplicate option: ").concat(
                name.as_str(),
            ),
            OptionError::ExclusiveOptions => String::from_str(
                "Cannot use both `use_tokio` and `executor`",
            ),
        }
    }
}

} // verus!

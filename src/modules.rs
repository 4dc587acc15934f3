//! The built-in module set: capability modules installed strictly in a
//! fixed order, each only after the modules whose globals it relies on.
use vstd::prelude::*;
use crate::ops::ModuleInstallationError;

verus! {

/// The built-in capability modules.
#[derive(Clone, Copy, Debug, PartialEq, Eq, Structural)]
pub enum BuiltinModule {
    /// Console and logging primitives.
    Console,
    /// Web IDL and text-encoding support.
    WebIdl,
    /// URL parsing.
    Url,
    /// Web-platform primitives: timers, blobs, event targets.
    Web,
    /// Network fetch.
    Fetch,
}

/// The modules whose globals `m` relies on.
pub open spec fn prerequisites(m: BuiltinModule) -> Seq<BuiltinModule> {
    match m {
        BuiltinModule::Console => seq![],
        BuiltinModule::WebIdl => seq![],
        BuiltinModule::Url => seq![BuiltinModule::WebIdl],
        BuiltinModule::Web => seq![BuiltinModule::WebIdl, BuiltinModule::Console, BuiltinModule::Url],
        BuiltinModule::Fetch => seq![
            BuiltinModule::WebIdl,
            BuiltinModule::Web,
            BuiltinModule::Url,
            BuiltinModule::Console,
        ],
    }
}

/// The declared installation order.
pub open spec fn declared_order_spec() -> Seq<BuiltinModule> {
    seq![
        BuiltinModule::Console,
        BuiltinModule::WebIdl,
        BuiltinModule::Url,
        BuiltinModule::Web,
        BuiltinModule::Fetch,
    ]
}

/// The first of `deps` that is not among `installed`.
pub open spec fn first_missing(installed: Seq<BuiltinModule>, deps: Seq<BuiltinModule>) -> Option<
    BuiltinModule,
>
    decreases deps.len(),
{
    if deps.len() == 0 {
        None
    } else if !installed.contains(deps[0]) {
        Some(deps[0])
    } else {
        first_missing(installed, deps.drop_first())
    }
}

/// Why `m` cannot be installed after `installed`, if it cannot.
pub open spec fn install_check(installed: Seq<BuiltinModule>, m: BuiltinModule) -> Option<
    ModuleInstallationError,
> {
    if installed.contains(m) {
        Some(ModuleInstallationError::DuplicateModule(m))
    } else {
        match first_missing(installed, prerequisites(m)) {
            Some(d) => Some(ModuleInstallationError::MissingPrerequisite { module: m, missing: d }),
            None => None,
        }
    }
}

/// Installing the modules of `order` one after the other, stopping at the
/// first failure: the modules installed, or that failure.
pub open spec fn install_outcome(order: Seq<BuiltinModule>) -> Result<
    Seq<BuiltinModule>,
    ModuleInstallationError,
>
    decreases order.len(),
{
    if order.len() == 0 {
        Ok(seq![])
    } else {
        match install_outcome(order.drop_last()) {
            Err(e) => Err(e),
            Ok(inst) => match install_check(inst, order.last()) {
                Some(e) => Err(e),
                None => Ok(inst.push(order.last())),
            },
        }
    }
}

/// Every module of `order` comes after each of its prerequisites.
pub open spec fn prerequisites_first(order: Seq<BuiltinModule>) -> bool {
    forall|i: int, j: int|
        0 <= i < order.len() && 0 <= j < prerequisites(order[i]).len() ==> #[trigger] order.take(
            i,
        ).contains(#[trigger] prerequisites(order[i])[j])
}

/// The prerequisites of a module, in the order they are checked.
pub fn prerequisites_of(m: BuiltinModule) -> (r: Vec<BuiltinModule>)
    ensures
        r@ == prerequisites(m),
{
    let r = match m {
        BuiltinModule::Console => vec![],
        BuiltinModule::WebIdl => vec![],
        BuiltinModule::Url => vec![BuiltinModule::WebIdl],
        BuiltinModule::Web => vec![BuiltinModule::WebIdl, BuiltinModule::Console, BuiltinModule::Url],
        BuiltinModule::Fetch => vec![
            BuiltinModule::WebIdl,
            BuiltinModule::Web,
            BuiltinModule::Url,
            BuiltinModule::Console,
        ],
    };
    assert(r@ =~= prerequisites(m));
    r
}

/// The declared installation order of the built-in modules.
pub fn declared_order() -> (r: Vec<BuiltinModule>)
    ensures
        r@ == declared_order_spec(),
{
    let r = vec![
        BuiltinModule::Console,
        BuiltinModule::WebIdl,
        BuiltinModule::Url,
        BuiltinModule::Web,
        BuiltinModule::Fetch,
    ];
    assert(r@ =~= declared_order_spec());
    r
}

/// The modules installed so far, in installation order.
#[derive(Clone, Debug)]
pub struct ModuleSet {
    installed: Vec<BuiltinModule>,
}

impl ModuleSet {
    pub closed spec fn view(&self) -> Seq<BuiltinModule> {
        self.installed@
    }

    /// An empty set.
    pub fn new() -> (r: ModuleSet)
        ensures
            r@ == Seq::<BuiltinModule>::empty(),
    {
        ModuleSet { installed: Vec::new() }
    }

    /// The installed modules, in installation order.
    pub fn modules(&self) -> (r: Vec<BuiltinModule>)
        ensures
            r@ == self@,
    {
        self.installed.clone()
    }

    /// Whether `m` is installed.
    pub fn contains(&self, m: BuiltinModule) -> (r: bool)
        ensures
            r == self@.contains(m),
    {
        let mut i: usize = 0;
        while i < self.installed.len()
            invariant
                i <= self@.len(),
                forall|j: int| 0 <= j < i ==> #[trigger] self@[j] != m,
            decreases self@.len() - i,
        {
            if self.installed[i] == m {
                return true;
            }
            i = i + 1;
        }
        false
    }

    /// The first prerequisite of `m` that is not installed.
    fn first_missing_of(&self, m: BuiltinModule) -> (r: Option<BuiltinModule>)
        ensures
            r == first_missing(self@, prerequisites(m)),
    {
        let deps = prerequisites_of(m);
        let mut i: usize = 0;
        assert(deps@.subrange(0, deps@.len() as int) =~= deps@);
        while i < deps.len()
            invariant
                i <= deps@.len(),
                deps@ == prerequisites(m),
                first_missing(self@, deps@) == first_missing(self@, deps@.subrange(
                    i as int,
                    deps@.len() as int,
                )),
            decreases deps@.len() - i,
        {
            let d = deps[i];
            let ghost rest = deps@.subrange(i as int, deps@.len() as int);
            assert(rest.drop_first() =~= deps@.subrange(i + 1, deps@.len() as int));
            if !self.contains(d) {
                return Some(d);
            }
            i = i + 1;
        }
        assert(deps@.subrange(i as int, deps@.len() as int).len() == 0);
        None
    }

    /// Installs `m`; refuses a module that is already installed or whose
    /// prerequisites are not, and then leaves the set as it was.
    pub fn install(&mut self, m: BuiltinModule) -> (r: Result<(), ModuleInstallationError>)
        ensures
            match install_check(old(self)@, m) {
                Some(e) => r == Err::<(), ModuleInstallationError>(e) && final(self)@ == old(
                    self,
                )@,
                None => r is Ok && final(self)@ == old(self)@.push(m),
            },
    {
        if self.contains(m) {
            return Err(ModuleInstallationError::DuplicateModule(m));
        }
        match self.first_missing_of(m) {
            Some(d) => Err(ModuleInstallationError::MissingPrerequisite { module: m, missing: d }),
            None => {
                self.installed.push(m);
                Ok(())
            },
        }
    }

    /// Installs the modules of `order` one after the other, failing fast at
    /// the first that cannot be installed.
    pub fn install_all(order: &Vec<BuiltinModule>) -> (r: Result<ModuleSet, ModuleInstallationError>)
        ensures
            r is Ok <==> install_outcome(order@) is Ok,
            r matches Ok(s) ==> install_outcome(order@) == Ok::<
                Seq<BuiltinModule>,
                ModuleInstallationError,
            >(s@),
            r matches Err(e) ==> install_outcome(order@) == Err::<
                Seq<BuiltinModule>,
                ModuleInstallationError,
            >(e),
    {
        let mut set = ModuleSet::new();
        let mut i: usize = 0;
        while i < order.len()
            invariant
                i <= order@.len(),
                install_outcome(order@.take(i as int)) == Ok::<
                    Seq<BuiltinModule>,
                    ModuleInstallationError,
                >(set@),
            decreases order@.len() - i,
        {
            let m = order[i];
            assert(order@.take(i + 1).drop_last() =~= order@.take(i as int));
            let res = set.install(m);
            match res {
                Err(e) => {
                    proof {
                        lemma_install_outcome_stops(order@, i + 1);
                    }
                    return Err(e);
                },
                Ok(()) => {},
            }
            i = i + 1;
        }
        assert(order@.take(order@.len() as int) =~= order@);
        Ok(set)
    }
}

/// Once a prefix of `order` fails, the whole of it fails the same way.
proof fn lemma_install_outcome_stops(order: Seq<BuiltinModule>, n: int)
    requires
        0 <= n <= order.len(),
        install_outcome(order.take(n)) is Err,
    ensures
        install_outcome(order) == install_outcome(order.take(n)),
    decreases order.len() - n,
{
    if n == order.len() {
        assert(order.take(n) =~= order);
    } else {
        assert(order.take(n + 1).drop_last() =~= order.take(n));
        lemma_install_outcome_stops(order, n + 1);
    }
}

/// `first_missing` finds nothing exactly when every dependency is installed.
proof fn lemma_first_missing_none(installed: Seq<BuiltinModule>, deps: Seq<BuiltinModule>)
    ensures
        first_missing(installed, deps) is None <==> forall|j: int|
            0 <= j < deps.len() ==> installed.contains(#[trigger] deps[j]),
    decreases deps.len(),
{
    if deps.len() > 0 {
        lemma_first_missing_none(installed, deps.drop_first());
        if first_missing(installed, deps) is None {
            assert forall|j: int| 0 <= j < deps.len() implies installed.contains(
                #[trigger] deps[j],
            ) by {
                if j > 0 {
                    assert(deps[j] == deps.drop_first()[j - 1]);
                }
            }
        } else if installed.contains(deps[0]) {
            let k = choose|k: int|
                0 <= k < deps.drop_first().len() && !installed.contains(
                    #[trigger] deps.drop_first()[k],
                );
            assert(deps[k + 1] == deps.drop_first()[k]);
        }
    }
}

/// A successful installation installs exactly the modules of `order`, in
/// that order, each after its prerequisites.
pub proof fn lemma_install_success(order: Seq<BuiltinModule>)
    requires
        install_outcome(order) is Ok,
    ensures
        install_outcome(order) == Ok::<Seq<BuiltinModule>, ModuleInstallationError>(order),
        prerequisites_first(order),
    decreases order.len(),
{
    if order.len() == 0 {
        assert(order =~= seq![]);
    } else {
        let prev = order.drop_last();
        lemma_install_success(prev);
        let m = order.last();
        lemma_first_missing_none(prev, prerequisites(m));
        assert(prev.push(m) =~= order);
        assert forall|i: int, j: int|
            0 <= i < order.len() && 0 <= j < prerequisites(order[i]).len() implies #[trigger] order.take(
            i,
        ).contains(#[trigger] prerequisites(order[i])[j]) by {
            if i < order.len() - 1 {
                assert(order.take(i) =~= prev.take(i));
                assert(prev[i] == order[i]);
                assert(prev.take(i).contains(prerequisites(prev[i])[j]));
            } else {
                assert(order.take(i) =~= prev);
                assert(prev.contains(prerequisites(m)[j]));
            }
        }
    }
}

/// Installing in an order that puts a module before one of its
/// prerequisites fails.
pub proof fn lemma_out_of_order_install_fails(order: Seq<BuiltinModule>, i: int, j: int)
    requires
        0 <= i < order.len(),
        0 <= j < prerequisites(order[i]).len(),
        !order.take(i).contains(prerequisites(order[i])[j]),
    ensures
        install_outcome(order) is Err,
{
    if install_outcome(order) is Ok {
        lemma_install_success(order);
    }
}

/// Each prefix of the declared order installs every module of it.
proof fn lemma_declared_prefix_installs(k: int)
    requires
        0 <= k <= 5,
    ensures
        install_outcome(declared_order_spec().take(k)) == Ok::<
            Seq<BuiltinModule>,
            ModuleInstallationError,
        >(declared_order_spec().take(k)),
    decreases k,
{
    let o = declared_order_spec();
    if k == 0 {
        assert(o.take(0) =~= seq![]);
    } else {
        lemma_declared_prefix_installs(k - 1);
        let prev = o.take(k - 1);
        let m = o[k - 1];
        assert(o.take(k).drop_last() =~= prev);
        assert(o.take(k).last() == m);
        assert(prev.push(m) =~= o.take(k));
        assert(!prev.contains(m)) by {
            if prev.contains(m) {
                let x = choose|x: int| 0 <= x < prev.len() && prev[x] == m;
                assert(o[x] == m);
            }
        }
        assert forall|j: int| 0 <= j < prerequisites(m).len() implies prev.contains(
            #[trigger] prerequisites(m)[j],
        ) by {
            let d = prerequisites(m)[j];
            if d == BuiltinModule::Console {
                assert(prev[0] == d);
            } else if d == BuiltinModule::WebIdl {
                assert(prev[1] == d);
            } else if d == BuiltinModule::Url {
                assert(prev[2] == d);
            } else if d == BuiltinModule::Web {
                assert(prev[3] == d);
            }
        }
        lemma_first_missing_none(prev, prerequisites(m));
    }
}

/// The declared order installs every module.
pub proof fn lemma_declared_order_installs()
    ensures
        install_outcome(declared_order_spec()) == Ok::<
            Seq<BuiltinModule>,
            ModuleInstallationError,
        >(declared_order_spec()),
{
    lemma_declared_prefix_installs(5);
    assert(declared_order_spec().take(5) =~= declared_order_spec());
}

} // verus!

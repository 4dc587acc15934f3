//! The native op registry: op names, unique across the registry, each bound
//! to a host-side function that script code calls synchronously.
use vstd::prelude::*;

verus! {

/// The name under which the print op is exposed to scripts.
pub open spec fn print_op_name() -> Seq<char> {
    seq!['o', 'p', '_', 'p', 'r', 'i', 'n', 't']
}

/// The description of one native op.
#[derive(Clone, Debug)]
pub struct OpDecl {
    pub name: String,
    /// The op completes before the calling script frame continues.
    pub is_synchronous: bool,
}

/// A failure while wiring the runtime together; fatal at initialization.
#[derive(Clone, Debug)]
pub enum ModuleInstallationError {
    /// An op of this name is already registered.
    DuplicateOp(String),
    /// This module is already installed; its globals would collide.
    DuplicateModule(crate::modules::BuiltinModule),
    /// `module` was installed before `missing`, which it depends on.
    MissingPrerequisite {
        module: crate::modules::BuiltinModule,
        missing: crate::modules::BuiltinModule,
    },
}

/// Whether `names` holds no name twice.
pub open spec fn unique_names(names: Seq<Seq<char>>) -> bool {
    forall|i: int, j: int| 0 <= i < j < names.len() ==> names[i] != names[j]
}

/// The outcome of registering `name` on a registry holding `names`: the
/// names after the call, and whether the call succeeded.
pub open spec fn register_spec(names: Seq<Seq<char>>, name: Seq<char>) -> (Seq<Seq<char>>, bool) {
    if names.contains(name) {
        (names, false)
    } else {
        (names.push(name), true)
    }
}

/// The ops available to script code, in registration order.
#[derive(Clone, Debug)]
pub struct OpRegistry {
    ops: Vec<OpDecl>,
}

impl OpRegistry {
    /// The registered names, in registration order.
    pub closed spec fn view(&self) -> Seq<Seq<char>> {
        self.ops@.map_values(|d: OpDecl| d.name@)
    }

    pub open spec fn wf(&self) -> bool {
        unique_names(self@)
    }

    /// An empty registry.
    pub fn new() -> (r: OpRegistry)
        ensures
            r@ == Seq::<Seq<char>>::empty(),
            r.wf(),
    {
        let r = OpRegistry { ops: Vec::new() };
        assert(r@ =~= Seq::<Seq<char>>::empty());
        r
    }

    /// The number of registered ops.
    pub fn len(&self) -> (r: usize)
        ensures
            r == self@.len(),
    {
        self.ops.len()
    }

    /// Whether an op of this name is registered.
    pub fn contains(&self, name: &str) -> (r: bool)
        ensures
            r == self@.contains(name@),
    {
        let target = name.to_owned();
        let mut i: usize = 0;
        while i < self.ops.len()
            invariant
                i <= self@.len(),
                self@.len() == self.ops@.len(),
                target@ == name@,
                forall|j: int| 0 <= j < i ==> #[trigger] self@[j] != name@,
            decreases self.ops@.len() - i,
        {
            if self.ops[i].name == target {
                assert(self@[i as int] == name@);
                return true;
            }
            i = i + 1;
        }
        false
    }

    /// Registers an op; a name that is already present is refused and the
    /// registry is left as it was.
    pub fn register(&mut self, decl: OpDecl) -> (r: Result<(), ModuleInstallationError>)
        requires
            old(self).wf(),
        ensures
            final(self).wf(),
            (final(self)@, r is Ok) == register_spec(old(self)@, decl.name@),
            r matches Err(e) ==> e matches ModuleInstallationError::DuplicateOp(n) && n@
                == decl.name@,
    {
        if self.contains(decl.name.as_str()) {
            return Err(ModuleInstallationError::DuplicateOp(decl.name));
        }
        let ghost before = self@;
        self.ops.push(decl);
        assert(self@ =~= before.push(decl.name@));
        Ok(())
    }
}

/// The names of `decls`, in order.
pub open spec fn decl_names(decls: Seq<OpDecl>) -> Seq<Seq<char>> {
    decls.map_values(|d: OpDecl| d.name@)
}

impl OpRegistry {
    /// Registers `decls` in order, failing fast at the first name that is
    /// already registered.
    pub fn from_decls(decls: Vec<OpDecl>) -> (r: Result<OpRegistry, ModuleInstallationError>)
        ensures
            r is Ok <==> unique_names(decl_names(decls@)),
            r matches Ok(reg) ==> reg@ == decl_names(decls@) && reg.wf(),
            r matches Err(e) ==> e matches ModuleInstallationError::DuplicateOp(n) && exists|
                i: int,
                j: int,
            |
                0 <= i < j < decls@.len() && (#[trigger] decl_names(decls@)[i]) == n@ && (
                #[trigger] decl_names(decls@)[j]) == n@,
    {
        let ghost names = decl_names(decls@);
        let ghost all = decls@;
        let mut rest = decls;
        let total = rest.len();
        let mut reg = OpRegistry::new();
        let mut i: usize = 0;
        while rest.len() > 0
            invariant
                i + rest@.len() == all.len(),
                all.len() == total,
                all == decls@,
                names == decl_names(all),
                rest@ == all.skip(i as int),
                reg.wf(),
                reg@ == names.take(i as int),
            decreases rest@.len(),
        {
            let d = rest.remove(0);
            assert(d == all[i as int]);
            assert(names[i as int] == d.name@);
            let ghost before = reg@;
            match reg.register(d) {
                Err(e) => {
                    proof {
                        let k = choose|k: int| 0 <= k < before.len() && before[k] == names[i as int];
                        assert(names.take(i as int)[k] == names[k]);
                        assert(names[k] == names[i as int]);
                        assert(!unique_names(names));
                        assert(0 <= k < i < decls@.len() && decl_names(decls@)[k] == names[i as int]
                            && decl_names(decls@)[i as int] == names[i as int]);
                    }
                    return Err(e);
                },
                Ok(()) => {},
            }
            assert(reg@ =~= names.take(i + 1));
            assert(rest@ =~= all.skip(i + 1));
            i = i + 1;
        }
        assert(names.take(all.len() as int) =~= names);
        Ok(reg)
    }
}

/// Registering a name twice fails the second time, and the registry keeps
/// the name once.
pub proof fn lemma_register_twice_fails(names: Seq<Seq<char>>, name: Seq<char>)
    ensures
        !register_spec(register_spec(names, name).0, name).1,
        register_spec(register_spec(names, name).0, name).0 == register_spec(names, name).0,
{
    let once = register_spec(names, name).0;
    if !names.contains(name) {
        assert(once[once.len() - 1] == name);
    }
    assert(once.contains(name));
}

/// The host's logging sink, one entry per line written.
#[derive(Clone, Debug)]
pub struct LogSink {
    pub lines: Vec<String>,
}

impl LogSink {
    pub fn new() -> (r: LogSink)
        ensures
            r.lines@.len() == 0,
    {
        LogSink { lines: Vec::new() }
    }
}

/// The print op: forwards its text argument to the host's logging sink as
/// one line and returns nothing to the script. It never fails.
pub fn op_print(sink: &mut LogSink, value: String)
    ensures
        final(sink).lines@ == old(sink).lines@.push(value),
{
    sink.lines.push(value);
}

/// The declaration of the print op.
pub fn print_op_decl() -> (r: OpDecl)
    ensures
        r.name@ == print_op_name(),
        r.is_synchronous,
{
    proof {
        reveal_strlit("op_print");
    }
    let name = "op_print".to_owned();
    assert(name@ =~= print_op_name());
    OpDecl { name, is_synchronous: true }
}

} // verus!

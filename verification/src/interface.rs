//! Interface definitions: the explicit schema an RPC client is derived
//! from.
//!
//! A service is a named, ordered set of methods; each method declares its
//! parameters, its return type, and whether it is Exclusive (may mutate
//! the key's state, serialized per key) or Shared (read-only, may run
//! concurrently with other Shared invocations). The schema is the single
//! source the wire layer uses to build requests, and the mode is the
//! single input the durable runtime uses for admission; the client passes
//! the method name through and is otherwise agnostic to the mode.

use vstd::prelude::*;

verus! {

/// Concurrency mode of one method with respect to the instance key,
/// fixed when the interface is defined.
#[derive(Clone, Copy, Debug, PartialEq, Eq, Structural)]
pub enum ConcurrencyMode {
    Exclusive,
    Shared,
}

/// The declared type of one parameter.
#[derive(Clone, Copy, Debug, PartialEq, Eq, Structural)]
pub enum ParamType {
    I64,
    Str,
}

/// The declared return type of one method.
#[derive(Clone, Copy, Debug, PartialEq, Eq, Structural)]
pub enum RetType {
    I64,
    Unit,
}

/// One declared parameter: its name and its type.
pub struct ParamDef {
    pub name: String,
    pub ty: ParamType,
}

/// One method of a service interface.
pub struct MethodDef {
    pub name: String,
    pub params: Vec<ParamDef>,
    pub ret: RetType,
    pub mode: ConcurrencyMode,
}

/// The first method at or after position `i` whose name matches, if any.
pub open spec fn find_method_from(methods: Seq<MethodDef>, i: int, name: Seq<char>) -> Option<
    MethodDef,
>
    decreases methods.len() - i,
{
    if i < 0 || i >= methods.len() {
        None
    } else if methods[i].name@ == name {
        Some(methods[i])
    } else {
        find_method_from(methods, i + 1, name)
    }
}

/// A service interface: a named, ordered set of methods, immutable once
/// built.
pub struct InterfaceDef {
    pub name: String,
    pub methods: Vec<MethodDef>,
}

impl InterfaceDef {
    /// The method a name resolves to: the first one declared under it.
    pub open spec fn spec_find(&self, name: Seq<char>) -> Option<MethodDef> {
        find_method_from(self.methods@, 0, name)
    }

    /// Looks a method up by name.
    pub fn find_method(&self, name: &String) -> (r: Option<&MethodDef>)
        ensures
            match r {
                Some(m) => self.spec_find(name@) == Some(*m),
                None => self.spec_find(name@) is None,
            },
    {
        let n = self.methods.len();
        let mut i: usize = 0;
        while i < n
            invariant
                n == self.methods@.len(),
                0 <= i <= n,
                find_method_from(self.methods@, 0, name@) == find_method_from(
                    self.methods@,
                    i as int,
                    name@,
                ),
            decreases n - i,
        {
            if self.methods[i].name == *name {
                return Some(&self.methods[i]);
            }
            i = i + 1;
        }
        None
    }
}

/// The counter service's interface: five methods against one per-key
/// `count` slot. Only `get_count` is Shared; every mutating method is
/// Exclusive, and `add` is the one method that takes a parameter.
pub fn counter_interface() -> (r: InterfaceDef)
    ensures
        r.name@ == "CounterService"@,
        r.methods@.len() == 5,
        r.methods@[0].name@ == "increment"@,
        r.methods@[0].params@.len() == 0,
        r.methods@[0].ret == RetType::I64,
        r.methods@[0].mode == ConcurrencyMode::Exclusive,
        r.methods@[1].name@ == "decrement"@,
        r.methods@[1].params@.len() == 0,
        r.methods@[1].ret == RetType::I64,
        r.methods@[1].mode == ConcurrencyMode::Exclusive,
        r.methods@[2].name@ == "get_count"@,
        r.methods@[2].params@.len() == 0,
        r.methods@[2].ret == RetType::I64,
        r.methods@[2].mode == ConcurrencyMode::Shared,
        r.methods@[3].name@ == "reset"@,
        r.methods@[3].params@.len() == 0,
        r.methods@[3].ret == RetType::Unit,
        r.methods@[3].mode == ConcurrencyMode::Exclusive,
        r.methods@[4].name@ == "add"@,
        r.methods@[4].params@.len() == 1,
        r.methods@[4].params@[0].name@ == "value"@,
        r.methods@[4].params@[0].ty == ParamType::I64,
        r.methods@[4].ret == RetType::I64,
        r.methods@[4].mode == ConcurrencyMode::Exclusive,
{
    let mut methods: Vec<MethodDef> = Vec::new();
    methods.push(
        MethodDef {
            name: "increment".to_owned(),
            params: Vec::new(),
            ret: RetType::I64,
            mode: ConcurrencyMode::Exclusive,
        },
    );
    methods.push(
        MethodDef {
            name: "decrement".to_owned(),
            params: Vec::new(),
            ret: RetType::I64,
            mode: ConcurrencyMode::Exclusive,
        },
    );
    methods.push(
        MethodDef {
            name: "get_count".to_owned(),
            params: Vec::new(),
            ret: RetType::I64,
            mode: ConcurrencyMode::Shared,
        },
    );
    methods.push(
        MethodDef {
            name: "reset".to_owned(),
            params: Vec::new(),
            ret: RetType::Unit,
            mode: ConcurrencyMode::Exclusive,
        },
    );
    let mut add_params: Vec<ParamDef> = Vec::new();
    add_params.push(ParamDef { name: "value".to_owned(), ty: ParamType::I64 });
    methods.push(
        MethodDef {
            name: "add".to_owned(),
            params: add_params,
            ret: RetType::I64,
            mode: ConcurrencyMode::Exclusive,
        },
    );
    InterfaceDef { name: "CounterService".to_owned(), methods }
}

} // verus!

//! Machine state: the value stack, the constant pool, the globals, the
//! exception-handler stack and the connector namespaces.
use vstd::prelude::*;
use crate::access::{dict_assign, dict_get, dict_has, dict_set, find_key, lemma_dict_pos};
use crate::text::string_of;
use crate::value::{group_value_views, pairs_of, vals_of, Val, Value};

verus! {

broadcast use {group_value_views, vstd::std_specs::vec::group_vec_axioms};

/// No two entries share a key.
pub open spec fn keys_unique(ps: Seq<(Seq<char>, Val)>) -> bool {
    forall|i: int, j: int| 0 <= i < j < ps.len() ==> #[trigger] ps[i].0 != #[trigger] ps[j].0
}

/// Setting a key keeps keys unique.
pub proof fn lemma_set_keeps_unique(ps: Seq<(Seq<char>, Val)>, k: Seq<char>, v: Val)
    requires
        keys_unique(ps),
    ensures
        keys_unique(dict_set(ps, k, v)),
{
    if dict_has(ps, k) {
        lemma_dict_pos(ps, k);
        let q = dict_set(ps, k, v);
        assert forall|i: int, j: int| 0 <= i < j < q.len() implies #[trigger] q[i].0 != #[trigger] q[j].0 by {
            assert(ps[i].0 != ps[j].0);
        }
    } else {
        let q = dict_set(ps, k, v);
        assert forall|i: int, j: int| 0 <= i < j < q.len() implies #[trigger] q[i].0 != #[trigger] q[j].0 by {
            if j == ps.len() {
                assert(ps[i].0 != k);
            } else {
                assert(ps[i].0 != ps[j].0);
            }
        }
    }
}

/// A string-keyed namespace of values, each key held once.
pub struct Namespace {
    entries: Vec<(String, Value)>,
}

impl View for Namespace {
    type V = Seq<(Seq<char>, Val)>;

    closed spec fn view(&self) -> Seq<(Seq<char>, Val)> {
        pairs_of(self.entries@)
    }
}

impl Namespace {
    #[verifier::type_invariant]
    spec fn distinct_keys(self) -> bool {
        keys_unique(pairs_of(self.entries@))
    }

    /// An empty namespace.
    pub fn new() -> (r: Namespace)
        ensures
            r@ == Seq::<(Seq<char>, Val)>::empty(),
            keys_unique(r@),
    {
        let r = Namespace { entries: Vec::new() };
        assert(r@ =~= Seq::<(Seq<char>, Val)>::empty());
        r
    }

    /// The number of keys.
    pub fn len(&self) -> (r: usize)
        ensures
            r == self@.len(),
    {
        self.entries.len()
    }

    /// Whether the namespace has no key.
    pub fn is_empty(&self) -> (r: bool)
        ensures
            r == (self@.len() == 0),
    {
        self.entries.len() == 0
    }

    /// Whether `key` is bound.
    pub fn contains_key(&self, key: &String) -> (r: bool)
        ensures
            r == dict_has(self@, key@),
    {
        find_key(&self.entries, key).is_some()
    }

    /// The value bound to `key`, if any.
    pub fn get(&self, key: &str) -> (r: Option<&Value>)
        ensures
            match r {
                Some(v) => dict_get(self@, key@) == Some(v@),
                None => dict_get(self@, key@) is None,
            },
    {
        let k = string_of(key);
        match find_key(&self.entries, &k) {
            Some(i) => Some(&self.entries[i].1),
            None => None,
        }
    }

    /// A copy of the value bound to `key`, if any.
    pub fn lookup(&self, key: &String) -> (r: Option<Value>)
        ensures
            match r {
                Some(v) => dict_get(self@, key@) == Some(v@),
                None => dict_get(self@, key@) is None,
            },
    {
        match find_key(&self.entries, key) {
            Some(i) => Some(self.entries[i].1.duplicate()),
            None => None,
        }
    }

    /// Binds `key` to `v`, replacing any earlier binding in place.
    pub fn insert(&mut self, key: String, v: Value)
        ensures
            final(self)@ == dict_set(old(self)@, key@, v@),
            keys_unique(final(self)@),
    {
        proof {
            use_type_invariant(&*self);
            lemma_set_keeps_unique(self@, key@, v@);
        }
        let mut entries: Vec<(String, Value)> = Vec::new();
        std::mem::swap(&mut entries, &mut self.entries);
        dict_assign(&mut entries, key, v);
        self.entries = entries;
    }

    /// The keys, in the order they were first bound.
    pub fn keys(&self) -> (r: Vec<String>)
        ensures
            r@.len() == self@.len(),
            forall|i: int| 0 <= i < r@.len() ==> #[trigger] r@[i]@ == self@[i].0,
            keys_unique(self@),
    {
        proof {
            use_type_invariant(self);
        }
        let mut out: Vec<String> = Vec::new();
        let mut i: usize = 0;
        while i < self.entries.len()
            invariant
                i <= self.entries@.len(),
                out@.len() == i,
                forall|j: int| 0 <= j < i ==> #[trigger] out@[j]@ == pairs_of(self.entries@)[j].0,
            decreases self.entries@.len() - i,
        {
            out.push(self.entries[i].0.clone());
            i = i + 1;
        }
        out
    }

    /// A copy of each binding, in order.
    pub fn items(&self) -> (r: Vec<(String, Value)>)
        ensures
            pairs_of(r@) == self@,
    {
        crate::value::duplicate_pairs(&self.entries)
    }
}

/// The model of the machine state.
#[verifier::ext_equal]
pub struct VState {
    pub stack: Seq<Val>,
    pub constants: Seq<Val>,
    pub globals: Seq<(Seq<char>, Val)>,
    pub try_stack: Seq<usize>,
    pub conector_vars: Seq<(Seq<char>, Val)>,
    pub results: Seq<(Seq<char>, Val)>,
}

/// The machine state that instructions read and change.
pub struct VMState {
    /// The operand stack; its last element is the top.
    pub stack: Vec<Value>,
    /// The constant pool of the loaded program.
    pub constants: Vec<Value>,
    /// Global variables.
    pub globals: Namespace,
    /// Handler addresses of the enclosing `try` blocks, innermost last.
    pub try_stack: Vec<usize>,
    /// The connector's variables (`self.conector.variables`).
    pub conector_vars: Namespace,
    /// The connector's results (`self.conector.results`).
    pub results: Namespace,
}

impl View for VMState {
    type V = VState;

    open spec fn view(&self) -> VState {
        VState {
            stack: vals_of(self.stack@),
            constants: vals_of(self.constants@),
            globals: self.globals@,
            try_stack: self.try_stack@,
            conector_vars: self.conector_vars@,
            results: self.results@,
        }
    }
}

/// The model state with `v` pushed.
pub open spec fn pushed(s: VState, v: Val) -> VState {
    VState { stack: s.stack.push(v), ..s }
}

/// The model state with the top of the stack removed (unchanged when empty).
pub open spec fn popped(s: VState) -> VState {
    if s.stack.len() > 0 {
        VState { stack: s.stack.drop_last(), ..s }
    } else {
        s
    }
}

/// The model state with other globals.
pub open spec fn with_globals(s: VState, g: Seq<(Seq<char>, Val)>) -> VState {
    VState { globals: g, ..s }
}

/// The model state with other connector variables.
pub open spec fn with_vars(s: VState, g: Seq<(Seq<char>, Val)>) -> VState {
    VState { conector_vars: g, ..s }
}

/// The model state with other connector results.
pub open spec fn with_results(s: VState, g: Seq<(Seq<char>, Val)>) -> VState {
    VState { results: g, ..s }
}

/// The model state with another exception-handler stack.
pub open spec fn with_try(s: VState, t: Seq<usize>) -> VState {
    VState { try_stack: t, ..s }
}

/// The top of the stack, if any.
pub open spec fn top(s: VState) -> Option<Val> {
    if s.stack.len() > 0 {
        Some(s.stack.last())
    } else {
        None
    }
}

/// The constant at `idx`, if any.
pub open spec fn const_at(s: VState, idx: int) -> Option<Val> {
    if 0 <= idx < s.constants.len() {
        Some(s.constants[idx])
    } else {
        None
    }
}

/// The string constant at `idx`, if that constant is a string.
pub open spec fn const_str(s: VState, idx: int) -> Option<Seq<char>> {
    match const_at(s, idx) {
        Some(Val::Str(t)) => Some(t),
        _ => None,
    }
}

/// The value of global `name`, null when unbound.
pub open spec fn global_of(s: VState, name: Seq<char>) -> Val {
    match dict_get(s.globals, name) {
        Some(v) => v,
        None => Val::Null,
    }
}

impl VMState {
    /// A fresh state: empty stacks, pool and namespaces.
    pub fn new() -> (r: VMState)
        ensures
            r@.stack.len() == 0,
            r@.constants.len() == 0,
            r@.globals.len() == 0,
            r@.try_stack.len() == 0,
            r@.conector_vars.len() == 0,
            r@.results.len() == 0,
    {
        VMState {
            stack: Vec::new(),
            constants: Vec::new(),
            globals: Namespace::new(),
            try_stack: Vec::new(),
            conector_vars: Namespace::new(),
            results: Namespace::new(),
        }
    }

    /// Pushes a value onto the stack.
    pub fn push(&mut self, v: Value)
        ensures
            final(self)@ == pushed(old(self)@, v@),
    {
        proof {
            crate::value::lemma_vals_push(self.stack@, v);
        }
        self.stack.push(v);
    }

    /// Removes and returns the top of the stack.
    pub fn pop(&mut self) -> (r: Option<Value>)
        ensures
            final(self)@ == popped(old(self)@),
            match r {
                Some(v) => top(old(self)@) == Some(v@),
                None => top(old(self)@) is None,
            },
    {
        proof {
            if self.stack@.len() > 0 {
                crate::value::lemma_vals_drop_last(self.stack@);
            }
        }
        self.stack.pop()
    }

    /// The top of the stack, if any.
    pub fn peek(&self) -> (r: Option<&Value>)
        ensures
            match r {
                Some(v) => top(self@) == Some(v@),
                None => top(self@) is None,
            },
    {
        if self.stack.len() == 0 {
            None
        } else {
            Some(&self.stack[self.stack.len() - 1])
        }
    }

    /// The constant at `idx`, if any.
    pub fn get_const(&self, idx: usize) -> (r: Option<&Value>)
        ensures
            match r {
                Some(v) => const_at(self@, idx as int) == Some(v@),
                None => const_at(self@, idx as int) is None,
            },
    {
        if idx < self.constants.len() {
            Some(&self.constants[idx])
        } else {
            None
        }
    }

    /// A copy of the string constant at `idx`, if that constant is a string.
    pub fn get_const_str(&self, idx: usize) -> (r: Option<String>)
        ensures
            match r {
                Some(t) => const_str(self@, idx as int) == Some(t@),
                None => const_str(self@, idx as int) is None,
            },
    {
        match self.get_const(idx) {
            Some(Value::Str(t)) => Some(t.clone()),
            _ => None,
        }
    }

    /// A copy of global `name`, null when unbound.
    pub fn load_global(&self, name: &String) -> (r: Value)
        ensures
            r@ == global_of(self@, name@),
    {
        match self.globals.lookup(name) {
            Some(v) => v,
            None => Value::Null,
        }
    }

    /// Binds global `name` to `v`.
    pub fn store_global(&mut self, name: String, v: Value)
        ensures
            final(self)@ == with_globals(old(self)@, dict_set(old(self)@.globals, name@, v@)),
    {
        self.globals.insert(name, v);
    }
}

} // verus!

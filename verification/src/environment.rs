//! A snapshot of the process environment: variable names and raw values.

use vstd::prelude::*;
use vstd::slice::slice_to_vec;
use crate::path::borrowed_bytes;

verus! {

/// The variables that are set, by name, each with the bytes it is set to.
pub type Variables = Map<Seq<char>, Seq<u8>>;

/// One variable: its name and the bytes it is set to.
struct Binding {
    name: String,
    value: Vec<u8>,
}

/// What a list of bindings says, a later binding of a name replacing an
/// earlier one.
spec fn bound(bindings: Seq<Binding>) -> Variables
    decreases bindings.len(),
{
    if bindings.len() == 0 {
        Map::empty()
    } else {
        bound(bindings.drop_last()).insert(bindings.last().name@, bindings.last().value@)
    }
}

/// A name that no binding carries is not bound.
proof fn lemma_unbound(bindings: Seq<Binding>, name: Seq<char>)
    requires
        forall|j: int| 0 <= j < bindings.len() ==> bindings[j].name@ != name,
    ensures
        !bound(bindings).contains_key(name),
    decreases bindings.len(),
{
    if bindings.len() > 0 {
        lemma_unbound(bindings.drop_last(), name);
    }
}

/// The last binding of a name decides its value.
proof fn lemma_bound_by_last(bindings: Seq<Binding>, i: int, name: Seq<char>)
    requires
        0 <= i < bindings.len(),
        bindings[i].name@ == name,
        forall|j: int| i < j < bindings.len() ==> bindings[j].name@ != name,
    ensures
        bound(bindings).contains_key(name),
        bound(bindings)[name] == bindings[i].value@,
    decreases bindings.len(),
{
    if i + 1 < bindings.len() {
        lemma_bound_by_last(bindings.drop_last(), i, name);
    }
}

/// Dropping one binding of a name changes nothing for the other names.
proof fn lemma_bound_without(bindings: Seq<Binding>, i: int, name: Seq<char>)
    requires
        0 <= i < bindings.len(),
        bindings[i].name@ == name,
    ensures
        bound(bindings.remove(i)).remove(name) == bound(bindings).remove(name),
    decreases bindings.len(),
{
    let rest = bindings.drop_last();
    let last = bindings.last();
    if i + 1 == bindings.len() {
        assert(bindings.remove(i) == rest);
    } else {
        lemma_bound_without(rest, i, name);
        assert(bindings.remove(i).drop_last() == rest.remove(i));
        // Unbinding `name` before the last binding is added changes nothing
        // once `name` is unbound after it.
        let shorter = bound(rest.remove(i));
        let longer = bound(rest);
        assert(shorter.insert(last.name@, last.value@).remove(name) == shorter.remove(name).insert(
            last.name@,
            last.value@,
        ).remove(name));
        assert(longer.insert(last.name@, last.value@).remove(name) == longer.remove(name).insert(
            last.name@,
            last.value@,
        ).remove(name));
    }
}

/// The variables of a process at one moment.
///
/// A variable may be set to the empty value; [`lookup_env`] is where an
/// empty value comes to count as none.
pub struct Environment {
    bindings: Vec<Binding>,
}

impl View for Environment {
    type V = Variables;

    closed spec fn view(&self) -> Variables {
        bound(self.bindings@)
    }
}

impl Environment {
    /// An environment in which no variable is set.
    pub fn new() -> (env: Environment)
        ensures
            env@ == Variables::empty(),
    {
        Environment { bindings: Vec::new() }
    }

    /// Sets the variable `key` to `value`, whatever it was before.
    pub fn set_var(&mut self, key: &str, value: &[u8])
        ensures
            final(self)@ == old(self)@.insert(key@, value@),
    {
        self.remove_var(key);
        let ghost before = self.bindings@;
        self.bindings.push(Binding { name: key.to_owned(), value: slice_to_vec(value) });
        assert(self.bindings@.drop_last() == before);
        assert(old(self)@.remove(key@).insert(key@, value@) == old(self)@.insert(key@, value@));
    }

    /// Unsets the variable `key`; nothing changes where it was not set.
    pub fn remove_var(&mut self, key: &str)
        ensures
            final(self)@ == old(self)@.remove(key@),
    {
        let name = key.to_owned();
        let mut i: usize = 0;
        while i < self.bindings.len()
            invariant
                i <= self.bindings.len(),
                name@ == key@,
                bound(self.bindings@).remove(key@) == bound(old(self).bindings@).remove(key@),
                forall|j: int| 0 <= j < i ==> self.bindings[j].name@ != key@,
            decreases self.bindings.len() - i,
        {
            if self.bindings[i].name == name {
                proof {
                    lemma_bound_without(self.bindings@, i as int, key@);
                }
                self.bindings.remove(i);
            } else {
                i += 1;
            }
        }
        proof {
            lemma_unbound(self.bindings@, key@);
            assert(bound(self.bindings@).remove(key@) == bound(self.bindings@));
        }
    }

    /// The value that `key` is set to, empty or not.
    pub fn var_os(&self, key: &str) -> (value: Option<&[u8]>)
        ensures
            borrowed_bytes(value) == self@.get(key@),
    {
        let name = key.to_owned();
        let mut i: usize = self.bindings.len();
        while i > 0
            invariant
                i <= self.bindings.len(),
                name@ == key@,
                forall|j: int| i <= j < self.bindings.len() ==> self.bindings[j].name@ != key@,
            decreases i,
        {
            i -= 1;
            if self.bindings[i].name == name {
                proof {
                    lemma_bound_by_last(self.bindings@, i as int, key@);
                }
                return Some(self.bindings[i].value.as_slice());
            }
        }
        proof {
            lemma_unbound(self.bindings@, key@);
        }
        None
    }
}

/// What a lookup of `key` yields: the value it is set to, unless that
/// value is empty.
pub open spec fn lookup_env_spec(env: Variables, key: Seq<char>) -> Option<Seq<u8>> {
    if env.contains_key(key) && env[key].len() > 0 {
        Some(env[key])
    } else {
        None
    }
}

/// Looks `key` up in `env`. A variable set to the empty value counts as
/// not set.
pub fn lookup_env<'a>(env: &'a Environment, key: &str) -> (value: Option<&'a [u8]>)
    ensures
        borrowed_bytes(value) == lookup_env_spec(env@, key@),
{
    match env.var_os(key) {
        Some(v) => if v.len() > 0 {
            Some(v)
        } else {
            None
        },
        None => None,
    }
}

} // verus!

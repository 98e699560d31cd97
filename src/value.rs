use vstd::prelude::*;

verus! {

/// A value of the hosted interpreter, as far as the server bridge reads it.
pub enum Value {
    /// A value that the bridge never looks into (nil, a float, a list, ...).
    Other,
    Bool(bool),
    Int(i64),
    Str(String),
    /// A symbol, a key-symbol or a type name: text that is not a string.
    Symbol(String),
    Array(Vec<Value>),
    /// A mapping, as its entries; where a key is given twice the later entry stands.
    Mapping(Vec<(String, Value)>),
    /// A function value of the interpreter.
    Func,
    /// An error value of the interpreter, with its text.
    Error(String),
    /// A value annotated with a type name.
    Typed(String, Box<Value>),
}

/// The value with one type annotation taken off.
pub open spec fn unpacked(v: Value) -> Value {
    match v {
        Value::Typed(_, inner) => *inner,
        _ => v,
    }
}

/// The text of a value that can stand for a string.
pub open spec fn text_of(v: Value) -> Option<Seq<char>> {
    match unpacked(v) {
        Value::Str(s) => Some(s@),
        Value::Symbol(s) => Some(s@),
        _ => None,
    }
}

/// The integer that a value holds, if it is one.
pub open spec fn int_of(v: Value) -> Option<i64> {
    match unpacked(v) {
        Value::Int(n) => Some(n),
        _ => None,
    }
}

/// The mapping that a sequence of entries stands for: later entries override earlier ones.
pub open spec fn assoc<V>(e: Seq<(String, V)>) -> Map<Seq<char>, V>
    decreases e.len(),
{
    if e.len() == 0 {
        Map::empty()
    } else {
        assoc(e.drop_last()).insert(e.last().0@, e.last().1)
    }
}

/// No key occurs twice among the entries.
pub open spec fn keys_unique<V>(e: Seq<(String, V)>) -> bool {
    forall|i: int, j: int| 0 <= i < j < e.len() ==> e[i].0@ != e[j].0@
}

pub proof fn lemma_assoc_has_key<V>(e: Seq<(String, V)>, k: Seq<char>)
    ensures
        assoc(e).dom().contains(k) <==> exists|i: int| 0 <= i < e.len() && e[i].0@ == k,
    decreases e.len(),
{
    if e.len() > 0 {
        lemma_assoc_has_key(e.drop_last(), k);
        if assoc(e.drop_last()).dom().contains(k) {
            let i = choose|i: int| 0 <= i < e.drop_last().len() && e.drop_last()[i].0@ == k;
            assert(e[i].0@ == k);
        }
        if exists|i: int| 0 <= i < e.len() && e[i].0@ == k {
            let i = choose|i: int| 0 <= i < e.len() && e[i].0@ == k;
            if i < e.len() - 1 {
                assert(e.drop_last()[i].0@ == k);
            }
        }
    }
}

proof fn lemma_assoc_update<V>(e: Seq<(String, V)>, i: int, k: String, v: V)
    requires
        keys_unique(e),
        0 <= i < e.len(),
        e[i].0@ == k@,
    ensures
        assoc(e.update(i, (k, v))) =~= assoc(e).insert(k@, v),
    decreases e.len(),
{
    let u = e.update(i, (k, v));
    if i == e.len() - 1 {
        assert(u.drop_last() =~= e.drop_last());
    } else {
        assert(u.drop_last() =~= e.drop_last().update(i, (k, v)));
        lemma_assoc_update(e.drop_last(), i, k, v);
        assert(e.last().0@ != k@);
    }
}

proof fn lemma_assoc_last_of_key<V>(e: Seq<(String, V)>, i: int)
    requires
        0 <= i < e.len(),
        forall|j: int| i < j < e.len() ==> e[j].0@ != e[i].0@,
    ensures
        assoc(e).dom().contains(e[i].0@),
        assoc(e)[e[i].0@] == e[i].1,
    decreases e.len(),
{
    if i < e.len() - 1 {
        lemma_assoc_last_of_key(e.drop_last(), i);
    }
}

/// The value that the entries give for `k`: that of the last entry of `k`.
pub fn lookup<'a, V>(e: &'a Vec<(String, V)>, k: &String) -> (r: Option<&'a V>)
    ensures
        r.is_some() == assoc(e@).dom().contains(k@),
        r.is_some() ==> *r->0 == assoc(e@)[k@],
{
    let mut i: usize = e.len();
    while i > 0
        invariant
            i <= e.len(),
            forall|j: int| i <= j < e.len() ==> e@[j].0@ != k@,
        decreases i,
    {
        i = i - 1;
        if e[i].0 == *k {
            proof {
                lemma_assoc_last_of_key(e@, i as int);
            }
            return Some(&e[i].1);
        }
    }
    proof {
        lemma_assoc_has_key(e@, k@);
    }
    None
}

/// Sets `k` to `v` among the entries: replaces the entry of `k` where there is
/// one, else appends one.
pub fn put_entry<V>(m: &mut Vec<(String, V)>, k: String, v: V)
    requires
        keys_unique(old(m)@),
    ensures
        keys_unique(final(m)@),
        assoc(final(m)@) == assoc(old(m)@).insert(k@, v),
{
    let n = m.len();
    let mut i: usize = 0;
    while i < n
        invariant
            n == m.len(),
            i <= n,
            m@ == old(m)@,
            keys_unique(m@),
            forall|j: int| 0 <= j < i ==> m@[j].0@ != k@,
        decreases n - i,
    {
        if m[i].0 == k {
            proof {
                lemma_assoc_update(m@, i as int, k, v);
            }
            m.set(i, (k, v));
            assert(keys_unique(m@)) by {
                assert forall|a: int, b: int| 0 <= a < b < m@.len() implies m@[a].0@ != m@[b].0@ by {
                    assert(old(m)@[a].0@ != old(m)@[b].0@);
                }
            }
            return;
        }
        i = i + 1;
    }
    proof {
        assert(m@.push((k, v)).drop_last() =~= m@);
    }
    m.push((k, v));
    assert(keys_unique(m@)) by {
        assert forall|a: int, b: int| 0 <= a < b < m@.len() implies m@[a].0@ != m@[b].0@ by {
            if b < n {
                assert(old(m)@[a].0@ != old(m)@[b].0@);
            }
        }
    }
}

} // verus!

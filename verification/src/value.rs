use vstd::prelude::*;

verus! {

/// Canonical JSON-compatible value: the sole data interchange type at the
/// boundary between the host runtime and a native handler.
///
/// A number is an integer (signed or unsigned) or a floating-point value;
/// a floating-point value is carried by its IEEE-754 bit pattern, so the
/// value model itself stays exact and free of rounding. An object is a
/// sequence of key/value pairs in insertion order.
#[derive(Debug, PartialEq, Eq)]
pub enum Value {
    Null,
    Bool(bool),
    Int(i64),
    UInt(u64),
    Float(u64),
    Text(String),
    Array(Vec<Value>),
    Object(Vec<(String, Value)>),
}

/// Value equality of canonical values: arrays compare by ordered elements,
/// objects compare by their key/value pairs regardless of pair order, and
/// an integer compares equal across its signed and unsigned carriers.
pub open spec fn val_equiv(a: Value, b: Value) -> bool
    decreases a, 0int, 0int,
{
    match (a, b) {
        (Value::Null, Value::Null) => true,
        (Value::Bool(x), Value::Bool(y)) => x == y,
        (Value::Int(x), Value::Int(y)) => x == y,
        (Value::UInt(x), Value::UInt(y)) => x == y,
        (Value::Int(x), Value::UInt(y)) => x >= 0 && x == y,
        (Value::UInt(x), Value::Int(y)) => y >= 0 && x == y,
        (Value::Float(x), Value::Float(y)) => x == y,
        (Value::Text(x), Value::Text(y)) => x@ == y@,
        (Value::Array(x), Value::Array(y)) => {
            &&& x@.len() == y@.len()
            &&& forall|i: int| 0 <= i < x@.len() ==> val_equiv(x@[i], y@[i])
        },
        (Value::Object(x), Value::Object(y)) => {
            pairs_covered(x@, y@) && pairs_covered_rev(x@, y@)
        },
        _ => false,
    }
}

/// Whether some pair of `y` carries the key `key` and a value to which `v`
/// is value-equal.
pub open spec fn has_pair(y: Seq<(String, Value)>, key: Seq<char>, v: Value) -> bool
    decreases v, 0int, y.len(),
{
    if y.len() == 0 {
        false
    } else {
        (y[0].0@ == key && val_equiv(v, y[0].1)) || has_pair(y.drop_first(), key, v)
    }
}

/// Whether every pair of `x` is matched in `y`: same key, value-equal
/// value.
pub open spec fn pairs_covered(x: Seq<(String, Value)>, y: Seq<(String, Value)>) -> bool
    decreases x, 0int, 1int,
{
    if x.len() == 0 {
        true
    } else {
        has_pair(y, x[0].0@, x[0].1) && pairs_covered(x.drop_first(), y)
    }
}

/// Whether some pair of `x` carries the key `key` and a value that is
/// value-equal to `v`; the values of `x` stand on the left of the
/// comparison.
pub open spec fn has_pair_rev(x: Seq<(String, Value)>, key: Seq<char>, v: Value) -> bool
    decreases x, 0int, 0int,
{
    if x.len() == 0 {
        false
    } else {
        (x[0].0@ == key && val_equiv(x[0].1, v)) || has_pair_rev(x.drop_first(), key, v)
    }
}

/// Whether every pair of `y` is matched in `x`: same key, value-equal
/// value, the values of `x` standing on the left of the comparison.
pub open spec fn pairs_covered_rev(x: Seq<(String, Value)>, y: Seq<(String, Value)>) -> bool
    decreases x, 0int, 1 + y.len(),
{
    if y.len() == 0 {
        true
    } else {
        has_pair_rev(x, y[0].0@, y[0].1) && pairs_covered_rev(x, y.drop_first())
    }
}

impl Value {
    /// True exactly when the value is the null value.
    pub fn is_null(&self) -> (r: bool)
        ensures
            r == (*self matches Value::Null),
    {
        match self {
            Value::Null => true,
            _ => false,
        }
    }

    /// Decides value equality: `true` exactly when the two values are equal
    /// as canonical values, with objects compared by key/value pairs
    /// regardless of pair order.
    pub fn deep_eq(&self, other: &Value) -> (r: bool)
        ensures
            r == val_equiv(*self, *other),
        decreases *self, 0int, 0int,
    {
        match self {
            Value::Null => match other {
                Value::Null => true,
                _ => false,
            },
            Value::Bool(x) => match other {
                Value::Bool(y) => x == y,
                _ => false,
            },
            Value::Int(x) => match other {
                Value::Int(y) => x == y,
                Value::UInt(y) => *x >= 0 && (*x as u64) == *y,
                _ => false,
            },
            Value::UInt(x) => match other {
                Value::UInt(y) => x == y,
                Value::Int(y) => *y >= 0 && *x == (*y as u64),
                _ => false,
            },
            Value::Float(x) => match other {
                Value::Float(y) => x == y,
                _ => false,
            },
            Value::Text(x) => match other {
                Value::Text(y) => *x == *y,
                _ => false,
            },
            Value::Array(x) => match other {
                Value::Array(y) => {
                    if x.len() != y.len() {
                        return false;
                    }
                    let n = x.len();
                    for i in 0..n
                        invariant
                            *self is Array && self->Array_0 == *x,
                            *other is Array && other->Array_0 == *y,
                            n == x@.len(),
                            n == y@.len(),
                            forall|k: int| 0 <= k < i ==> val_equiv(x@[k], y@[k]),
                    {
                        proof {
                            assert(decreases_to!(*self => self->Array_0));
                            assert(decreases_to!(x@ => x@[i as int]));
                            assert(decreases_to!(*self => x@[i as int]));
                        }
                        if !x[i].deep_eq(&y[i]) {
                            return false;
                        }
                    }
                    true
                },
                _ => false,
            },
            Value::Object(x) => match other {
                Value::Object(y) => {
                    proof {
                        assert(decreases_to!(*self => self->Object_0));
                        assert(decreases_to!(*self => x@));
                    }
                    pairs_check(x, y) && pairs_check_rev(x, y)
                },
                _ => false,
            },
        }
    }
}

/// Decides whether every pair of `x` is matched by key in `y` with a
/// value-equal value.
fn pairs_check(x: &Vec<(String, Value)>, y: &Vec<(String, Value)>) -> (r: bool)
    ensures
        r == pairs_covered(x@, y@),
    decreases x@, 0int, 1int,
{
    let n = x.len();
    proof {
        assert(x@.skip(0) =~= x@);
    }
    for i in 0..n
        invariant
            n == x@.len(),
            pairs_covered(x@, y@) == pairs_covered(x@.skip(i as int), y@),
    {
        proof {
            assert(x@.skip(i as int).drop_first() =~= x@.skip(i + 1));
            assert(x@.skip(i as int)[0] == x@[i as int]);
            assert(decreases_to!(x@ => x@[i as int]));
            assert(decreases_to!(x@[i as int] => x@[i as int].1));
            assert(decreases_to!(x@ => x@[i as int].1));
        }
        if !pair_in(&x[i].0, &x[i].1, y) {
            return false;
        }
    }
    proof {
        assert(x@.skip(n as int).len() == 0);
    }
    true
}

/// Decides whether every pair of `y` is matched by key in `x` with a
/// value-equal value, the values of `x` standing on the left of the
/// comparison.
fn pairs_check_rev(x: &Vec<(String, Value)>, y: &Vec<(String, Value)>) -> (r: bool)
    ensures
        r == pairs_covered_rev(x@, y@),
    decreases x@, 0int, 2int,
{
    let m = y.len();
    proof {
        assert(y@.skip(0) =~= y@);
    }
    for j in 0..m
        invariant
            m == y@.len(),
            pairs_covered_rev(x@, y@) == pairs_covered_rev(x@, y@.skip(j as int)),
    {
        proof {
            assert(y@.skip(j as int).drop_first() =~= y@.skip(j + 1));
            assert(y@.skip(j as int)[0] == y@[j as int]);
        }
        if !pair_in_rev(x, &y[j].0, &y[j].1) {
            return false;
        }
    }
    proof {
        assert(y@.skip(m as int).len() == 0);
    }
    true
}

/// Whether some pair of `pairs` carries the key `key` and a value that is
/// value-equal to `val`.
fn pair_in(key: &String, val: &Value, pairs: &Vec<(String, Value)>) -> (r: bool)
    ensures
        r == has_pair(pairs@, key@, *val),
    decreases *val, 0int, 1int,
{
    let n = pairs.len();
    proof {
        assert(pairs@.skip(0) =~= pairs@);
    }
    for j in 0..n
        invariant
            n == pairs@.len(),
            has_pair(pairs@, key@, *val) == has_pair(pairs@.skip(j as int), key@, *val),
    {
        proof {
            assert(pairs@.skip(j as int).drop_first() =~= pairs@.skip(j + 1));
            assert(pairs@.skip(j as int)[0] == pairs@[j as int]);
        }
        if pairs[j].0 == *key && val.deep_eq(&pairs[j].1) {
            return true;
        }
    }
    proof {
        assert(pairs@.skip(n as int).len() == 0);
    }
    false
}

/// Whether some pair of `pairs` carries the key `key` and a value to which
/// `val` is value-equal; the candidate values of `pairs` stand on the left
/// of the comparison.
fn pair_in_rev(pairs: &Vec<(String, Value)>, key: &String, val: &Value) -> (r: bool)
    ensures
        r == has_pair_rev(pairs@, key@, *val),
    decreases pairs@, 0int, 1int,
{
    let n = pairs.len();
    proof {
        assert(pairs@.skip(0) =~= pairs@);
    }
    for i in 0..n
        invariant
            n == pairs@.len(),
            has_pair_rev(pairs@, key@, *val) == has_pair_rev(pairs@.skip(i as int), key@, *val),
    {
        proof {
            assert(pairs@.skip(i as int).drop_first() =~= pairs@.skip(i + 1));
            assert(pairs@.skip(i as int)[0] == pairs@[i as int]);
            assert(decreases_to!(pairs@ => pairs@[i as int]));
            assert(decreases_to!(pairs@[i as int] => pairs@[i as int].1));
            assert(decreases_to!(pairs@ => pairs@[i as int].1));
        }
        if pairs[i].0 == *key && pairs[i].1.deep_eq(val) {
            return true;
        }
    }
    proof {
        assert(pairs@.skip(n as int).len() == 0);
    }
    false
}

/// Finding a pair where it stands: the pair at index `i` of `pairs` is
/// found by a key/value search over `pairs`, provided its value is
/// value-equal to itself.
proof fn lemma_has_pair_at(pairs: Seq<(String, Value)>, i: int)
    requires
        0 <= i < pairs.len(),
        val_equiv(pairs[i].1, pairs[i].1),
    ensures
        has_pair(pairs, pairs[i].0@, pairs[i].1),
    decreases i,
{
    if i > 0 {
        assert(pairs.drop_first()[i - 1] == pairs[i]);
        lemma_has_pair_at(pairs.drop_first(), i - 1);
    }
}

/// The reversed search finds the pair as well, with the found value on the
/// left of the comparison.
proof fn lemma_has_pair_rev_at(pairs: Seq<(String, Value)>, i: int)
    requires
        0 <= i < pairs.len(),
        val_equiv(pairs[i].1, pairs[i].1),
    ensures
        has_pair_rev(pairs, pairs[i].0@, pairs[i].1),
    decreases i,
{
    if i > 0 {
        assert(pairs.drop_first()[i - 1] == pairs[i]);
        lemma_has_pair_rev_at(pairs.drop_first(), i - 1);
    }
}

/// Every pair of the suffix of `full` that starts at `k` is matched in
/// `full` itself, in both search directions, provided each value of `full`
/// is value-equal to itself.
proof fn lemma_pairs_covered_self(full: Seq<(String, Value)>, k: int)
    requires
        0 <= k <= full.len(),
        forall|i: int| 0 <= i < full.len() ==> val_equiv((#[trigger] full[i]).1, full[i].1),
    ensures
        pairs_covered(full.skip(k), full),
        pairs_covered_rev(full, full.skip(k)),
    decreases full.len() - k,
{
    if k < full.len() {
        let p = full[k];
        assert(val_equiv(p.1, p.1));
        lemma_has_pair_at(full, k);
        lemma_has_pair_rev_at(full, k);
        lemma_pairs_covered_self(full, k + 1);
        assert(full.skip(k).drop_first() =~= full.skip(k + 1));
        assert(full.skip(k)[0] == full[k]);
    } else {
        assert(full.skip(k).len() == 0);
    }
}

/// Value equality is reflexive: every canonical value equals itself, an
/// object in particular whatever order its pairs stand in.
pub proof fn lemma_val_equiv_reflexive(v: Value)
    ensures
        val_equiv(v, v),
    decreases v, 1int, 0int,
{
    match v {
        Value::Array(x) => {
            assert forall|i: int| 0 <= i < x@.len() implies val_equiv(x@[i], x@[i]) by {
                assert(decreases_to!(v => v->Array_0));
                assert(decreases_to!(x@ => x@[i]));
                assert(decreases_to!(v => x@[i]));
                lemma_val_equiv_reflexive(x@[i]);
            }
        },
        Value::Object(x) => {
            assert forall|i: int| 0 <= i < x@.len() implies val_equiv(
                (#[trigger] x@[i]).1,
                x@[i].1,
            ) by {
                assert(decreases_to!(v => v->Object_0));
                assert(decreases_to!(x@ => x@[i]));
                assert(decreases_to!(x@[i] => x@[i].1));
                assert(decreases_to!(v => x@[i].1));
                lemma_val_equiv_reflexive(x@[i].1);
            }
            lemma_pairs_covered_self(x@, 0);
            assert(x@.skip(0) =~= x@);
        },
        _ => {},
    }
}

/// Walking to an index: the pair at index `i` of `x` is found by the
/// forward search over `y` whenever every pair of `x` is.
proof fn lemma_covered_index(x: Seq<(String, Value)>, y: Seq<(String, Value)>, i: int)
    requires
        pairs_covered(x, y),
        0 <= i < x.len(),
    ensures
        has_pair(y, x[i].0@, x[i].1),
    decreases i,
{
    if i > 0 {
        assert(x.drop_first()[i - 1] == x[i]);
        lemma_covered_index(x.drop_first(), y, i - 1);
    }
}

/// Walking to an index: the pair at index `j` of `y` is found by the
/// reversed search over `x` whenever every pair of `y` is.
proof fn lemma_covered_rev_index(x: Seq<(String, Value)>, y: Seq<(String, Value)>, j: int)
    requires
        pairs_covered_rev(x, y),
        0 <= j < y.len(),
    ensures
        has_pair_rev(x, y[j].0@, y[j].1),
    decreases j,
{
    if j > 0 {
        assert(y.drop_first()[j - 1] == y[j]);
        lemma_covered_rev_index(x, y.drop_first(), j - 1);
    }
}

/// Turning a reversed hit into a forward one: symmetry of the single
/// comparison, applied at the pair the search found.
proof fn lemma_has_pair_rev_to_fwd(x: Seq<(String, Value)>, key: Seq<char>, v: Value)
    requires
        has_pair_rev(x, key, v),
    ensures
        has_pair(x, key, v),
    decreases x, 1int, 0int,
{
    if x[0].0@ == key && val_equiv(x[0].1, v) {
        assert(decreases_to!(x => x[0]));
        assert(decreases_to!(x[0] => x[0].1));
        assert(decreases_to!(x => x[0].1));
        lemma_val_equiv_symmetric(x[0].1, v);
    } else {
        lemma_has_pair_rev_to_fwd(x.drop_first(), key, v);
    }
}

/// Turning a forward hit into a reversed one, for a value that stands on
/// the left of the original comparison.
proof fn lemma_has_pair_fwd_to_rev(y: Seq<(String, Value)>, key: Seq<char>, v: Value)
    requires
        has_pair(y, key, v),
    ensures
        has_pair_rev(y, key, v),
    decreases v, 1int, y.len(),
{
    if y[0].0@ == key && val_equiv(v, y[0].1) {
        lemma_val_equiv_symmetric(v, y[0].1);
    } else {
        lemma_has_pair_fwd_to_rev(y.drop_first(), key, v);
    }
}

/// Every pair of the suffix of `y` starting at `k` is matched forward in
/// `x`, whenever every pair of `y` is matched reversed in `x`.
proof fn lemma_build_covered(y: Seq<(String, Value)>, x: Seq<(String, Value)>, k: int)
    requires
        pairs_covered_rev(x, y),
        0 <= k <= y.len(),
    ensures
        pairs_covered(y.skip(k), x),
    decreases x, 2int, y.len() - k,
{
    if k < y.len() {
        lemma_covered_rev_index(x, y, k);
        lemma_has_pair_rev_to_fwd(x, y[k].0@, y[k].1);
        lemma_build_covered(y, x, k + 1);
        assert(y.skip(k).drop_first() =~= y.skip(k + 1));
        assert(y.skip(k)[0] == y[k]);
    } else {
        assert(y.skip(k).len() == 0);
    }
}

/// Every pair of the suffix of `x` starting at `k` is matched reversed in
/// `y`, whenever every pair of `x` is matched forward in `y`.
proof fn lemma_build_covered_rev(y: Seq<(String, Value)>, x: Seq<(String, Value)>, k: int)
    requires
        pairs_covered(x, y),
        0 <= k <= x.len(),
    ensures
        pairs_covered_rev(y, x.skip(k)),
    decreases x, 3int, x.len() - k,
{
    if k < x.len() {
        lemma_covered_index(x, y, k);
        assert(decreases_to!(x => x[k]));
        assert(decreases_to!(x[k] => x[k].1));
        assert(decreases_to!(x => x[k].1));
        lemma_has_pair_fwd_to_rev(y, x[k].0@, x[k].1);
        lemma_build_covered_rev(y, x, k + 1);
        assert(x.skip(k).drop_first() =~= x.skip(k + 1));
        assert(x.skip(k)[0] == x[k]);
    } else {
        assert(x.skip(k).len() == 0);
    }
}

/// Value equality is symmetric: whichever side an object or a number
/// stands on, the comparison comes out the same.
pub proof fn lemma_val_equiv_symmetric(a: Value, b: Value)
    requires
        val_equiv(a, b),
    ensures
        val_equiv(b, a),
    decreases a, 0int, 0int,
{
    match a {
        Value::Array(x) => {
            let y = b->Array_0;
            assert forall|i: int| 0 <= i < y@.len() implies val_equiv(y@[i], x@[i]) by {
                assert(decreases_to!(a => a->Array_0));
                assert(decreases_to!(x@ => x@[i]));
                assert(decreases_to!(a => x@[i]));
                lemma_val_equiv_symmetric(x@[i], y@[i]);
            }
        },
        Value::Object(x) => {
            let y = b->Object_0;
            assert(decreases_to!(a => a->Object_0));
            assert(decreases_to!(a => x@));
            lemma_build_covered(y@, x@, 0);
            assert(y@.skip(0) =~= y@);
            lemma_build_covered_rev(y@, x@, 0);
            assert(x@.skip(0) =~= x@);
        },
        _ => {},
    }
}

/// Composing one comparison with a forward hit: a value equal to a found
/// value is itself found, under the same key.
proof fn lemma_has_pair_compose(v: Value, w: Value, z: Seq<(String, Value)>, key: Seq<char>)
    requires
        val_equiv(v, w),
        has_pair(z, key, w),
    ensures
        has_pair(z, key, v),
    decreases v, 1int, z.len(),
{
    if z[0].0@ == key && val_equiv(w, z[0].1) {
        lemma_val_equiv_transitive(v, w, z[0].1);
    } else {
        lemma_has_pair_compose(v, w, z.drop_first(), key);
    }
}

/// Hopping a forward hit across a covered table: what is found in `y` is
/// found in `z` whenever every pair of `y` is matched in `z`.
proof fn lemma_has_pair_hop(v: Value, y: Seq<(String, Value)>, z: Seq<(String, Value)>, key: Seq<char>)
    requires
        has_pair(y, key, v),
        pairs_covered(y, z),
    ensures
        has_pair(z, key, v),
    decreases v, 2int, y.len(),
{
    if y[0].0@ == key && val_equiv(v, y[0].1) {
        lemma_has_pair_compose(v, y[0].1, z, key);
    } else {
        lemma_has_pair_hop(v, y.drop_first(), z, key);
    }
}

/// Composing one comparison with a reversed hit: a found value equal to
/// `w` is also a found value equal to anything `w` equals.
proof fn lemma_has_pair_rev_compose(x: Seq<(String, Value)>, w: Value, v: Value, key: Seq<char>)
    requires
        has_pair_rev(x, key, w),
        val_equiv(w, v),
    ensures
        has_pair_rev(x, key, v),
    decreases x, 1int, 0int,
{
    if x[0].0@ == key && val_equiv(x[0].1, w) {
        assert(decreases_to!(x => x[0]));
        assert(decreases_to!(x[0] => x[0].1));
        assert(decreases_to!(x => x[0].1));
        lemma_val_equiv_transitive(x[0].1, w, v);
    } else {
        lemma_has_pair_rev_compose(x.drop_first(), w, v, key);
    }
}

/// Hopping a reversed hit across a covered table: what is found reversed
/// in `y` is found reversed in `x` whenever every pair of `y` is matched
/// reversed in `x`.
proof fn lemma_has_pair_rev_hop(x: Seq<(String, Value)>, y: Seq<(String, Value)>, key: Seq<char>, v: Value)
    requires
        pairs_covered_rev(x, y),
        has_pair_rev(y, key, v),
    ensures
        has_pair_rev(x, key, v),
    decreases x, 2int, y.len(),
{
    if y[0].0@ == key && val_equiv(y[0].1, v) {
        lemma_has_pair_rev_compose(x, y[0].1, v, key);
    } else {
        lemma_has_pair_rev_hop(x, y.drop_first(), key, v);
    }
}

/// Forward coverage composes: every pair of the suffix of `x` starting at
/// `k` is matched in `z` when `x` is covered by `y` and `y` by `z`.
proof fn lemma_covered_trans(x: Seq<(String, Value)>, y: Seq<(String, Value)>, z: Seq<(String, Value)>, k: int)
    requires
        pairs_covered(x, y),
        pairs_covered(y, z),
        0 <= k <= x.len(),
    ensures
        pairs_covered(x.skip(k), z),
    decreases x, 3int, x.len() - k,
{
    if k < x.len() {
        lemma_covered_index(x, y, k);
        assert(decreases_to!(x => x[k]));
        assert(decreases_to!(x[k] => x[k].1));
        assert(decreases_to!(x => x[k].1));
        lemma_has_pair_hop(x[k].1, y, z, x[k].0@);
        lemma_covered_trans(x, y, z, k + 1);
        assert(x.skip(k).drop_first() =~= x.skip(k + 1));
        assert(x.skip(k)[0] == x[k]);
    } else {
        assert(x.skip(k).len() == 0);
    }
}

/// Reversed coverage composes: every pair of the suffix of `z` starting at
/// `k` is matched reversed in `x` when `y` covers `z` reversed and `x`
/// covers `y` reversed.
proof fn lemma_covered_rev_trans(x: Seq<(String, Value)>, y: Seq<(String, Value)>, z: Seq<(String, Value)>, k: int)
    requires
        pairs_covered_rev(x, y),
        pairs_covered_rev(y, z),
        0 <= k <= z.len(),
    ensures
        pairs_covered_rev(x, z.skip(k)),
    decreases x, 3int, z.len() - k,
{
    if k < z.len() {
        lemma_covered_rev_index(y, z, k);
        lemma_has_pair_rev_hop(x, y, z[k].0@, z[k].1);
        lemma_covered_rev_trans(x, y, z, k + 1);
        assert(z.skip(k).drop_first() =~= z.skip(k + 1));
        assert(z.skip(k)[0] == z[k]);
    } else {
        assert(z.skip(k).len() == 0);
    }
}

/// Value equality is transitive: two values each equal to a third are
/// equal to one another.
pub proof fn lemma_val_equiv_transitive(a: Value, b: Value, c: Value)
    requires
        val_equiv(a, b),
        val_equiv(b, c),
    ensures
        val_equiv(a, c),
    decreases a, 0int, 0int,
{
    match a {
        Value::Array(x) => {
            let y = b->Array_0;
            let z = c->Array_0;
            assert forall|i: int| 0 <= i < x@.len() implies val_equiv(x@[i], z@[i]) by {
                assert(decreases_to!(a => a->Array_0));
                assert(decreases_to!(x@ => x@[i]));
                assert(decreases_to!(a => x@[i]));
                lemma_val_equiv_transitive(x@[i], y@[i], z@[i]);
            }
        },
        Value::Object(x) => {
            let y = b->Object_0;
            let z = c->Object_0;
            assert(decreases_to!(a => a->Object_0));
            assert(decreases_to!(a => x@));
            lemma_covered_trans(x@, y@, z@, 0);
            assert(x@.skip(0) =~= x@);
            lemma_covered_rev_trans(x@, y@, z@, 0);
            assert(z@.skip(0) =~= z@);
        },
        _ => {},
    }
}

} // verus!

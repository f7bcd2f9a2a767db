//! JSON values as the library reasons about them.
//!
//! Text is parsed into these values at the edge; the library reads them
//! with the accessors below, each of which has an exact contract.
use vstd::prelude::*;

use crate::text::{chars_of, dec, decimal, push_char, push_str, str_eq};

verus! {

/// A JSON number: a non-negative integer, a negative integer, or a binary
/// floating-point value `(-1)^negative * mantissa * 2^exponent`.
#[derive(Debug, Clone, Copy, PartialEq, Eq, Structural)]
pub enum JsonNumber {
    PosInt(u64),
    NegInt(i64),
    Float { negative: bool, mantissa: u64, exponent: i32 },
}

/// A JSON value.  Object entries keep their order; keys are unique.
#[derive(Debug)]
pub enum JsonValue {
    Null,
    Bool(bool),
    Number(JsonNumber),
    String(String),
    Array(Vec<JsonValue>),
    Object(Vec<(String, JsonValue)>),
}

/// The value stored under `key`, if any (first entry with that key).
pub open spec fn lookup(entries: Seq<(String, JsonValue)>, key: Seq<char>) -> Option<JsonValue>
    decreases entries.len(),
{
    if entries.len() == 0 {
        None
    } else if entries[0].0@ == key {
        Some(entries[0].1)
    } else {
        lookup(entries.drop_first(), key)
    }
}

/// `value.get(key)`: the member of an object, `None` for anything else.
pub open spec fn member(v: JsonValue, key: Seq<char>) -> Option<JsonValue> {
    match v {
        JsonValue::Object(entries) => lookup(entries@, key),
        _ => None,
    }
}

/// The string content, when the value is a string.
pub open spec fn str_of(v: JsonValue) -> Option<Seq<char>> {
    match v {
        JsonValue::String(s) => Some(s@),
        _ => None,
    }
}

/// `value.get(key).and_then(as_str)`.
pub open spec fn member_str(v: JsonValue, key: Seq<char>) -> Option<Seq<char>> {
    match member(v, key) {
        Some(m) => str_of(m),
        None => None,
    }
}

/// `2^k`.
pub open spec fn two_pow(k: nat) -> nat
    decreases k,
{
    if k == 0 {
        1
    } else {
        2 * two_pow((k - 1) as nat)
    }
}

/// Whether the number lies in the closed interval `[0, 1]`.
pub open spec fn in_unit_interval(n: JsonNumber) -> bool {
    match n {
        JsonNumber::PosInt(k) => k <= 1,
        JsonNumber::NegInt(k) => 0 <= k <= 1,
        JsonNumber::Float { negative, mantissa, exponent } => if negative {
            mantissa == 0
        } else if exponent >= 0 {
            mantissa * two_pow(exponent as nat) <= 1
        } else {
            mantissa <= two_pow((-exponent) as nat)
        },
    }
}

proof fn lemma_two_pow_ge(k: nat)
    ensures
        two_pow(k) >= k + 1,
        k > 0 ==> two_pow(k) >= 2,
    decreases k,
{
    if k > 0 {
        lemma_two_pow_ge((k - 1) as nat);
    }
}

proof fn lemma_two_pow_mono(a: nat, b: nat)
    requires
        a <= b,
    ensures
        two_pow(a) <= two_pow(b),
    decreases b,
{
    if a < b {
        lemma_two_pow_mono(a, (b - 1) as nat);
    }
}

proof fn lemma_mul_le_one(m: nat, p: nat)
    requires
        p >= 1,
    ensures
        m * p <= 1 <==> (m == 0 || (m == 1 && p == 1)),
{
    if m >= 1 && p >= 2 {
        assert(m * p >= 2) by (nonlinear_arith)
            requires
                m >= 1,
                p >= 2,
        ;
    }
    if m >= 2 {
        assert(m * p >= 2) by (nonlinear_arith)
            requires
                m >= 2,
                p >= 1,
        ;
    }
    if m == 1 {
        assert(m * p == p);
    }
    if m == 0 {
        assert(m * p == 0);
    }
}

impl JsonNumber {
    /// `as_u64`: the value when it is a non-negative integer.
    pub fn as_u64(&self) -> (r: Option<u64>)
        ensures
            r == (match *self {
                JsonNumber::PosInt(k) => Some(k),
                _ => None::<u64>,
            }),
    {
        match self {
            JsonNumber::PosInt(k) => Some(*k),
            _ => None,
        }
    }

    /// Whether the value, read as a float, lies in `[0, 1]`.
    pub fn in_unit_interval(&self) -> (r: bool)
        ensures
            r == in_unit_interval(*self),
    {
        match self {
            JsonNumber::PosInt(k) => *k <= 1,
            JsonNumber::NegInt(k) => 0 <= *k && *k <= 1,
            JsonNumber::Float { negative, mantissa, exponent } => {
                if *negative {
                    *mantissa == 0
                } else if *exponent >= 0 {
                    proof {
                        lemma_two_pow_ge(*exponent as nat);
                        lemma_mul_le_one(*mantissa as nat, two_pow(*exponent as nat));
                        if *exponent == 0 {
                            assert(two_pow(0) == 1);
                        }
                    }
                    *mantissa == 0 || (*mantissa == 1 && *exponent == 0)
                } else {
                    let k: u32 = if *exponent == i32::MIN {
                        2147483648u32
                    } else {
                        (-*exponent) as u32
                    };
                    if k >= 64 {
                        proof {
                            lemma_two_pow_64();
                            lemma_two_pow_mono(64, k as nat);
                        }
                        true
                    } else {
                        let mut p: u64 = 1;
                        let mut i: u32 = 0;
                        proof {
                            lemma_two_pow_mono(0, 63);
                        }
                        while i < k
                            invariant
                                i <= k < 64,
                                p == two_pow(i as nat),
                                two_pow(i as nat) <= two_pow(63),
                            decreases k - i,
                        {
                            proof {
                                lemma_two_pow_63();
                                lemma_two_pow_mono((i + 1) as nat, 63);
                            }
                            p = p * 2;
                            i = i + 1;
                        }
                        *mantissa <= p
                    }
                }
            },
        }
    }
}

proof fn lemma_two_pow_63()
    ensures
        two_pow(63) == 0x8000_0000_0000_0000,
{
    reveal_with_fuel(two_pow, 64);
}

proof fn lemma_two_pow_64()
    ensures
        two_pow(64) == 0x1_0000_0000_0000_0000,
{
    reveal_with_fuel(two_pow, 65);
}

/// Looking a key up after an entry is appended.
pub proof fn lemma_lookup_push(s: Seq<(String, JsonValue)>, e: (String, JsonValue), k: Seq<char>)
    ensures
        lookup(s.push(e), k) == match lookup(s, k) {
            Some(v) => Some(v),
            None => if e.0@ == k {
                Some(e.1)
            } else {
                None
            },
        },
    decreases s.len(),
{
    if s.len() > 0 {
        assert(s.push(e).drop_first() =~= s.drop_first().push(e));
        lemma_lookup_push(s.drop_first(), e, k);
    } else {
        assert(s.push(e).drop_first() =~= s);
    }
}

/// A member's value as the characters and numbers it holds: `null`, a
/// string, a number, or an array of strings.
pub enum FieldV {
    Null,
    Str(Seq<char>),
    Num(JsonNumber),
    Strs(Seq<Seq<char>>),
}

/// Whether `v` is the string `t`.
pub open spec fn str_is(v: JsonValue, t: Seq<char>) -> bool {
    v matches JsonValue::String(x) && x@ == t
}

/// Whether `v` is the value `f` describes.
pub open spec fn field_is(v: JsonValue, f: FieldV) -> bool {
    match f {
        FieldV::Null => v is Null,
        FieldV::Str(t) => str_is(v, t),
        FieldV::Num(n) => v == JsonValue::Number(n),
        FieldV::Strs(ts) => v matches JsonValue::Array(items) && items@.len() == ts.len() && forall|i: int|
            0 <= i < ts.len() ==> str_is(#[trigger] items@[i], ts[i]),
    }
}

/// Whether `v` is an object with exactly the members `fs`, in that order.
pub open spec fn object_is(v: JsonValue, fs: Seq<(Seq<char>, FieldV)>) -> bool {
    v matches JsonValue::Object(es) && es@.len() == fs.len() && forall|i: int|
        0 <= i < fs.len() ==> (#[trigger] es@[i]).0@ == fs[i].0 && field_is(es@[i].1, fs[i].1)
}

/// An optional string: the string, or `null`.
pub open spec fn opt_field(o: Option<Seq<char>>) -> FieldV {
    match o {
        Some(t) => FieldV::Str(t),
        None => FieldV::Null,
    }
}

/// Appends the member `key: v` to the entries of an object under
/// construction; a key already present keeps its value.
pub fn push_field(r: &mut Vec<(String, JsonValue)>, key: &str, v: JsonValue)
    ensures
        final(r)@.len() == old(r)@.len() + 1,
        final(r)@.drop_last() == old(r)@,
        final(r)@.last().0@ == key@,
        final(r)@.last().1 == v,
        forall|k: Seq<char>| #[trigger]
            lookup(final(r)@, k) == match lookup(old(r)@, k) {
                Some(x) => Some(x),
                None => if key@ == k {
                    Some(v)
                } else {
                    None
                },
            },
{
    let ghost s = r@;
    let e = (String::from_str(key), v);
    r.push(e);
    proof {
        assert(r@.drop_last() =~= s);
        assert forall|k: Seq<char>| #[trigger]
            lookup(r@, k) == match lookup(s, k) {
                Some(x) => Some(x),
                None => if key@ == k {
                    Some(v)
                } else {
                    None
                },
            } by {
            lemma_lookup_push(s, e, k);
        }
    }
}

/// Two values with the same content: strings compared by their
/// characters, containers member by member.
pub open spec fn json_same(a: JsonValue, b: JsonValue) -> bool
    decreases a,
{
    match a {
        JsonValue::Null => b is Null,
        JsonValue::Bool(x) => b == JsonValue::Bool(x),
        JsonValue::Number(x) => b == JsonValue::Number(x),
        JsonValue::String(x) => b is String && b->String_0@ == x@,
        JsonValue::Array(x) => b is Array && b->Array_0@.len() == x@.len() && forall|i: int|
            0 <= i < x@.len() ==> json_same(#[trigger] x@[i], b->Array_0@[i]),
        JsonValue::Object(x) => b is Object && b->Object_0@.len() == x@.len() && forall|i: int|
            0 <= i < x@.len() ==> b->Object_0@[i].0@ == (#[trigger] x@[i]).0@ && json_same(
                x@[i].1,
                b->Object_0@[i].1,
            ),
    }
}

impl JsonValue {
    /// A copy of the value.
    pub fn duplicate(&self) -> (r: JsonValue)
        ensures
            json_same(*self, r),
        decreases self,
    {
        match self {
            JsonValue::Null => JsonValue::Null,
            JsonValue::Bool(b) => JsonValue::Bool(*b),
            JsonValue::Number(n) => JsonValue::Number(*n),
            JsonValue::String(s) => JsonValue::String(s.clone()),
            JsonValue::Array(items) => {
                let mut out: Vec<JsonValue> = Vec::new();
                let mut i: usize = 0;
                while i < items.len()
                    invariant
                        i <= items@.len(),
                        *self == JsonValue::Array(*items),
                        out@.len() == i,
                        forall|j: int| 0 <= j < i ==> json_same(#[trigger] items@[j], out@[j]),
                    decreases items@.len() - i,
                {
                    proof {
                        let e = self->Array_0;
                        assert(e == *items);
                        assert(decreases_to!(*self => e));
                        assert(decreases_to!(e => e[i as int]));
                    }
                    let c = items[i].duplicate();
                    out.push(c);
                    i = i + 1;
                }
                JsonValue::Array(out)
            },
            JsonValue::Object(entries) => {
                let mut out: Vec<(String, JsonValue)> = Vec::new();
                let mut i: usize = 0;
                while i < entries.len()
                    invariant
                        i <= entries@.len(),
                        *self == JsonValue::Object(*entries),
                        out@.len() == i,
                        forall|j: int|
                            0 <= j < i ==> out@[j].0@ == (#[trigger] entries@[j]).0@ && json_same(
                                entries@[j].1,
                                out@[j].1,
                            ),
                    decreases entries@.len() - i,
                {
                    proof {
                        let e = self->Object_0;
                        assert(e == *entries);
                        assert(decreases_to!(*self => e));
                        assert(decreases_to!(e => e[i as int]));
                        assert(decreases_to!(e[i as int] => e[i as int].1));
                        assert(decreases_to!(*self => e[i as int].1));
                    }
                    let c = entries[i].1.duplicate();
                    out.push((entries[i].0.clone(), c));
                    i = i + 1;
                }
                JsonValue::Object(out)
            },
        }
    }

    /// `get(key)`: the member of an object.
    pub fn get(&self, key: &str) -> (r: Option<&JsonValue>)
        ensures
            match r {
                Some(v) => member(*self, key@) == Some(*v),
                None => member(*self, key@) is None,
            },
    {
        match self {
            JsonValue::Object(entries) => {
                let mut i: usize = 0;
                assert(entries@.subrange(0, entries@.len() as int) =~= entries@);
                while i < entries.len()
                    invariant
                        i <= entries@.len(),
                        member(*self, key@) == lookup(entries@, key@),
                        lookup(entries@, key@) == lookup(
                            entries@.subrange(i as int, entries@.len() as int),
                            key@,
                        ),
                    decreases entries@.len() - i,
                {
                    let ghost rest = entries@.subrange(i as int, entries@.len() as int);
                    proof {
                        assert(rest[0] == entries@[i as int]);
                        assert(rest.drop_first() =~= entries@.subrange(i + 1, entries@.len() as int));
                    }
                    if str_eq(entries[i].0.as_str(), key) {
                        return Some(&entries[i].1);
                    }
                    i = i + 1;
                }
                None
            },
            _ => None,
        }
    }

    /// `as_str`.
    pub fn as_str(&self) -> (r: Option<&str>)
        ensures
            match r {
                Some(s) => str_of(*self) == Some(s@),
                None => str_of(*self) is None,
            },
    {
        match self {
            JsonValue::String(s) => Some(s.as_str()),
            _ => None,
        }
    }

    /// `as_bool`.
    pub fn as_bool(&self) -> (r: Option<bool>)
        ensures
            r == (match *self {
                JsonValue::Bool(b) => Some(b),
                _ => None::<bool>,
            }),
    {
        match self {
            JsonValue::Bool(b) => Some(*b),
            _ => None,
        }
    }

    /// `as_array`.
    pub fn as_array(&self) -> (r: Option<&Vec<JsonValue>>)
        ensures
            match r {
                Some(a) => *self == JsonValue::Array(*a),
                None => !(*self is Array),
            },
    {
        match self {
            JsonValue::Array(a) => Some(a),
            _ => None,
        }
    }

    /// `as_object`: the entries of an object.
    pub fn as_object(&self) -> (r: Option<&Vec<(String, JsonValue)>>)
        ensures
            match r {
                Some(o) => *self == JsonValue::Object(*o),
                None => !(*self is Object),
            },
    {
        match self {
            JsonValue::Object(o) => Some(o),
            _ => None,
        }
    }

    /// `as_number`.
    pub fn as_number(&self) -> (r: Option<JsonNumber>)
        ensures
            r == (match *self {
                JsonValue::Number(n) => Some(n),
                _ => None::<JsonNumber>,
            }),
    {
        match self {
            JsonValue::Number(n) => Some(*n),
            _ => None,
        }
    }

    pub fn is_null(&self) -> (r: bool)
        ensures
            r == (*self is Null),
    {
        match self {
            JsonValue::Null => true,
            _ => false,
        }
    }

    pub fn is_object(&self) -> (r: bool)
        ensures
            r == (*self is Object),
    {
        match self {
            JsonValue::Object(_) => true,
            _ => false,
        }
    }
}

} // verus!

verus! {

// ── reading JSON text ─────────────────────────────────────────────────
//
// A text is read node by node: the value at each JSON Pointer of the text
// is asked of serde_json one level deep, and the tree is built here.

/// One level of a JSON value as serde_json gives it: a scalar (a number as
/// what `as_u64`, `as_i64` and `as_f64`, by its IEEE-754 bits, read of
/// it), the length of an array, or an object's keys in the order its map
/// keeps them.
pub enum NodePart {
    Null,
    Bool(bool),
    Number(Option<u64>, Option<i64>, Option<u64>),
    String(String),
    Array(usize),
    Object(Vec<String>),
}

/// [`NodePart`] with its strings as characters.
pub enum NodeView {
    Null,
    Bool(bool),
    Number(Option<u64>, Option<i64>, Option<u64>),
    String(Seq<char>),
    Array(nat),
    Object(Seq<Seq<char>>),
}

impl View for NodePart {
    type V = NodeView;

    open spec fn view(&self) -> NodeView {
        match self {
            NodePart::Null => NodeView::Null,
            NodePart::Bool(b) => NodeView::Bool(*b),
            NodePart::Number(u, i, f) => NodeView::Number(*u, *i, *f),
            NodePart::String(s) => NodeView::String(s@),
            NodePart::Array(n) => NodeView::Array(*n as nat),
            NodePart::Object(ks) => NodeView::Object(ks@.map_values(|k: String| k@)),
        }
    }
}

/// What serde_json finds at JSON Pointer `pointer` of the JSON text
/// `text`, one level deep (`None` when the text is not JSON or nothing is
/// there).
pub uninterp spec fn json_node(text: Seq<char>, pointer: Seq<char>) -> Option<NodeView>;

/// Parses `text` with `serde_json::from_str::<serde_json::Value>` and
/// looks `pointer` up with `Value::pointer`, handing on one level of what
/// is there.  The contract names that result; that an object's map holds
/// each key once is serde_json's `Map`.
#[verifier::external_body]
fn node_at(text: &str, pointer: &str) -> (r: Option<NodePart>)
    ensures
        match r {
            Some(p) => json_node(text@, pointer@) == Some(p@),
            None => json_node(text@, pointer@) is None,
        },
        r matches Some(NodePart::Object(ks)) ==> keys_unique(ks@),
{
    let doc = serde_json::from_str::<serde_json::Value>(text).ok()?;
    Some(match doc.pointer(pointer)? {
        serde_json::Value::Null => NodePart::Null,
        serde_json::Value::Bool(b) => NodePart::Bool(*b),
        serde_json::Value::Number(n) => NodePart::Number(n.as_u64(), n.as_i64(), n.as_f64().map(|f| f.to_bits())),
        serde_json::Value::String(s) => NodePart::String(s.clone()),
        serde_json::Value::Array(a) => NodePart::Array(a.len()),
        serde_json::Value::Object(m) => NodePart::Object(m.keys().cloned().collect()),
    })
}

/// No string comes twice.
pub open spec fn keys_unique(ks: Seq<String>) -> bool {
    forall|i: int, j: int| 0 <= i < j < ks.len() ==> (#[trigger] ks[i])@ != (#[trigger] ks[j])@
}

/// A key as a JSON Pointer token: `~` written `~0`, `/` written `~1`.
pub open spec fn escape_key(k: Seq<char>) -> Seq<char>
    decreases k.len(),
{
    if k.len() == 0 {
        Seq::<char>::empty()
    } else {
        escape_key(k.drop_last()) + escape_char(k.last())
    }
}

pub open spec fn escape_char(c: char) -> Seq<char> {
    if c == '~' {
        seq!['~', '0']
    } else if c == '/' {
        seq!['~', '1']
    } else {
        seq![c]
    }
}

/// The pointer to member `k` of the object at `p`.
pub open spec fn key_pointer(p: Seq<char>, k: Seq<char>) -> Seq<char> {
    p + seq!['/'] + escape_key(k)
}

/// The pointer to item `i` of the array at `p`.
pub open spec fn index_pointer(p: Seq<char>, i: nat) -> Seq<char> {
    p + seq!['/'] + dec(i)
}

fn key_ptr(p: &str, k: &str) -> (r: String)
    ensures
        r@ == key_pointer(p@, k@),
{
    let mut s = String::new();
    push_str(&mut s, p);
    push_char(&mut s, '/');
    let cs = chars_of(k);
    let mut i: usize = 0;
    while i < cs.len()
        invariant
            i <= cs@.len(),
            cs@ == k@,
            s@ == p@ + seq!['/'] + escape_key(cs@.subrange(0, i as int)),
        decreases cs@.len() - i,
    {
        let c = cs[i];
        let ghost before = s@;
        if c == '~' {
            push_char(&mut s, '~');
            push_char(&mut s, '0');
        } else if c == '/' {
            push_char(&mut s, '~');
            push_char(&mut s, '1');
        } else {
            push_char(&mut s, c);
        }
        proof {
            let t = cs@.subrange(0, i + 1);
            assert(t.drop_last() =~= cs@.subrange(0, i as int));
            assert(t.last() == c);
            assert(s@ =~= before + escape_char(c));
        }
        i = i + 1;
    }
    assert(cs@.subrange(0, cs@.len() as int) =~= cs@);
    s
}

fn index_ptr(p: &str, i: usize) -> (r: String)
    ensures
        r@ == index_pointer(p@, i as nat),
{
    let n = decimal(i as u64);
    let mut s = String::new();
    push_str(&mut s, p);
    push_char(&mut s, '/');
    push_str(&mut s, n.as_str());
    assert(s@ =~= p@ + seq!['/'] + dec(i as nat));
    s
}

/// The number an IEEE-754 double with these bits denotes, as sign,
/// integer mantissa and binary exponent.
pub open spec fn float_of_bits(bits: u64) -> JsonNumber {
    let e = (bits >> 52u64) & 0x7ffu64;
    let frac = bits & 0xfffffffffffffu64;
    if e == 0 {
        JsonNumber::Float { negative: (bits >> 63u64) == 1, mantissa: frac, exponent: -1074i32 }
    } else {
        JsonNumber::Float {
            negative: (bits >> 63u64) == 1,
            mantissa: frac | 0x10000000000000u64,
            exponent: (e - 1075) as i32,
        }
    }
}

/// A number from what `as_u64`, `as_i64` and `as_f64` read of it: an
/// unsigned integer first, then a signed one, else the double.
pub open spec fn number_from(u: Option<u64>, i: Option<i64>, bits: Option<u64>) -> JsonNumber {
    match u {
        Some(k) => JsonNumber::PosInt(k),
        None => match i {
            Some(k) => JsonNumber::NegInt(k),
            None => match bits {
                Some(b) => float_of_bits(b),
                None => JsonNumber::PosInt(0),
            },
        },
    }
}

fn number_of(u: Option<u64>, i: Option<i64>, bits: Option<u64>) -> (r: JsonNumber)
    ensures
        r == number_from(u, i, bits),
{
    match u {
        Some(k) => JsonNumber::PosInt(k),
        None => match i {
            Some(k) => JsonNumber::NegInt(k),
            None => match bits {
                Some(b) => {
                    let e = (b >> 52u64) & 0x7ffu64;
                    let frac = b & 0xfffffffffffffu64;
                    assert(e <= 0x7ff) by (bit_vector)
                        requires
                            e == (b >> 52u64) & 0x7ffu64,
                    ;
                    if e == 0 {
                        JsonNumber::Float { negative: (b >> 63u64) == 1, mantissa: frac, exponent: -1074i32 }
                    } else {
                        JsonNumber::Float {
                            negative: (b >> 63u64) == 1,
                            mantissa: frac | 0x10000000000000u64,
                            exponent: (e as i32) - 1075,
                        }
                    }
                },
                None => JsonNumber::PosInt(0),
            },
        },
    }
}

/// Nesting depth serde_json's parser allows; nothing it returns is deeper.
pub const JSON_DEPTH: u32 = 128;

/// No key of the entries comes twice.
pub open spec fn keys_distinct<V>(es: Seq<(String, V)>) -> bool {
    forall|i: int, j: int| 0 <= i < j < es.len() ==> (#[trigger] es[i]).0@ != (#[trigger] es[j]).0@
}

/// Whether `v` holds containers at most `d` levels below it (a container
/// at level `d` is empty), and every object in it holds each key once.
pub open spec fn nests_within(v: JsonValue, d: nat) -> bool
    decreases v,
{
    match v {
        JsonValue::Array(x) => if d == 0 {
            x@.len() == 0
        } else {
            forall|i: int| 0 <= i < x@.len() ==> nests_within(#[trigger] x@[i], (d - 1) as nat)
        },
        JsonValue::Object(x) => keys_distinct(x@) && if d == 0 {
            x@.len() == 0
        } else {
            forall|i: int| 0 <= i < x@.len() ==> nests_within((#[trigger] x@[i]).1, (d - 1) as nat)
        },
        _ => true,
    }
}

/// Whether `v` is the value at pointer `ptr` of `text`, with containers
/// more than `d` levels below left empty: each node as [`json_node`] gives
/// it, an array's items and an object's members (keys in order) read at
/// their own pointers.
pub open spec fn doc_is(text: Seq<char>, ptr: Seq<char>, d: nat, v: JsonValue) -> bool
    decreases v,
{
    match json_node(text, ptr) {
        None => v is Null,
        Some(NodeView::Null) => v is Null,
        Some(NodeView::Bool(b)) => v == JsonValue::Bool(b),
        Some(NodeView::Number(u, i, f)) => v == JsonValue::Number(number_from(u, i, f)),
        Some(NodeView::String(t)) => v matches JsonValue::String(x) && x@ == t,
        Some(NodeView::Array(n)) => match v {
            JsonValue::Array(items) => if d == 0 {
                items@.len() == 0
            } else {
                items@.len() == n && forall|i: int|
                    0 <= i < n ==> doc_is(text, index_pointer(ptr, i as nat), (d - 1) as nat, #[trigger] items@[i])
            },
            _ => false,
        },
        Some(NodeView::Object(ks)) => match v {
            JsonValue::Object(es) => if d == 0 {
                es@.len() == 0
            } else {
                es@.len() == ks.len() && forall|i: int|
                    0 <= i < ks.len() ==> (#[trigger] es@[i]).0@ == ks[i] && doc_is(
                        text,
                        key_pointer(ptr, ks[i]),
                        (d - 1) as nat,
                        es@[i].1,
                    )
            },
            _ => false,
        },
    }
}

/// Builds the value at pointer `ptr` of `text`, node by node.
fn doc_from(text: &str, ptr: &str, depth: u32) -> (r: JsonValue)
    ensures
        doc_is(text@, ptr@, depth as nat, r),
        nests_within(r, depth as nat),
    decreases depth,
{
    match node_at(text, ptr) {
        None => JsonValue::Null,
        Some(NodePart::Null) => JsonValue::Null,
        Some(NodePart::Bool(b)) => JsonValue::Bool(b),
        Some(NodePart::Number(u, i, f)) => JsonValue::Number(number_of(u, i, f)),
        Some(NodePart::String(t)) => JsonValue::String(t),
        Some(NodePart::Array(n)) => {
            let mut out: Vec<JsonValue> = Vec::new();
            if depth > 0 {
                let mut i: usize = 0;
                while i < n
                    invariant
                        depth > 0,
                        i <= n,
                        out@.len() == i,
                        forall|j: int|
                            0 <= j < i ==> doc_is(text@, index_pointer(ptr@, j as nat), (depth - 1) as nat, #[trigger] out@[j])
                                && nests_within(out@[j], (depth - 1) as nat),
                    decreases n - i,
                {
                    let p = index_ptr(ptr, i);
                    let x = doc_from(text, p.as_str(), depth - 1);
                    out.push(x);
                    i = i + 1;
                }
            }
            JsonValue::Array(out)
        },
        Some(NodePart::Object(keys)) => {
            let ghost ks = keys@;
            let mut out: Vec<(String, JsonValue)> = Vec::new();
            if depth > 0 {
                let mut i: usize = 0;
                while i < keys.len()
                    invariant
                        depth > 0,
                        i <= keys@.len(),
                        keys@ == ks,
                        keys_unique(ks),
                        out@.len() == i,
                        forall|j: int|
                            0 <= j < i ==> (#[trigger] out@[j]).0@ == ks[j]@ && doc_is(
                                text@,
                                key_pointer(ptr@, ks[j]@),
                                (depth - 1) as nat,
                                out@[j].1,
                            ) && nests_within(out@[j].1, (depth - 1) as nat),
                    decreases keys@.len() - i,
                {
                    let k = &keys[i];
                    let p = key_ptr(ptr, k.as_str());
                    let x = doc_from(text, p.as_str(), depth - 1);
                    out.push((k.clone(), x));
                    i = i + 1;
                }
                assert forall|a: int, b: int| 0 <= a < b < out@.len() implies (#[trigger] out@[a]).0@
                    != (#[trigger] out@[b]).0@ by {
                    assert(out@[a].0@ == ks[a]@);
                    assert(out@[b].0@ == ks[b]@);
                }
            }
            let r = JsonValue::Object(out);
            proof {
                assert(ks.map_values(|k: String| k@).len() == ks.len());
            }
            r
        },
    }
}

/// What `serde_json::from_str::<serde_json::Value>` says of `text`:
/// `None` when it parses, otherwise the `Display` text of its error.
pub uninterp spec fn json_parse_error(text: Seq<char>) -> Option<Seq<char>>;

/// Parses JSON text with `serde_json::from_str::<serde_json::Value>`,
/// handing on only whether it parsed and, when not, its error's text.
#[verifier::external_body]
fn parse_check(text: &str) -> (r: Result<(), String>)
    ensures
        match r {
            Ok(_) => json_parse_error(text@) is None,
            Err(e) => json_parse_error(text@) == Some(e@),
        },
{
    match serde_json::from_str::<serde_json::Value>(text) {
        Ok(_) => Ok(()),
        Err(e) => Err(e.to_string()),
    }
}

/// Whether `v` is what `text` reads as: the text parses, and `v` is the
/// document, node by node, as deep as the parser allows.
pub open spec fn json_value(text: Seq<char>, v: JsonValue) -> bool {
    &&& json_parse_error(text) is None
    &&& doc_is(text, Seq::<char>::empty(), JSON_DEPTH as nat, v)
    &&& nests_within(v, JSON_DEPTH as nat)
}

/// Parses JSON text: serde_json's error text when it is not JSON,
/// otherwise the document.
pub fn parse_json_text(text: &str) -> (r: Result<JsonValue, String>)
    ensures
        match json_parse_error(text@) {
            Some(e) => r matches Err(m) && m@ == e,
            None => r matches Ok(v) && json_value(text@, v),
        },
{
    proof {
        reveal_strlit("");
        assert(""@ =~= Seq::<char>::empty());
    }
    match parse_check(text) {
        Ok(()) => Ok(doc_from(text, "", JSON_DEPTH)),
        Err(e) => Err(e),
    }
}

/// What `serde_json::to_string_pretty` writes for the value at JSON
/// Pointer `pointer` of the JSON text `text` (`None` when nothing is
/// there).
pub uninterp spec fn json_pretty_at(text: Seq<char>, pointer: Seq<char>) -> Option<Seq<char>>;

/// Parses `text` with `serde_json::from_str::<serde_json::Value>`, looks
/// `pointer` up with `Value::pointer` and writes what is there with
/// `serde_json::to_string_pretty`.  The contract names that result.
#[verifier::external_body]
pub(crate) fn pretty_at(text: &str, pointer: &str) -> (r: Option<String>)
    ensures
        match r {
            Some(s) => json_pretty_at(text@, pointer@) == Some(s@),
            None => json_pretty_at(text@, pointer@) is None,
        },
{
    let doc = serde_json::from_str::<serde_json::Value>(text).ok()?;
    serde_json::to_string_pretty(doc.pointer(pointer)?).ok()
}

} // verus!

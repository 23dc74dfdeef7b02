//! The codec of single configuration values: from a typed value to the
//! variant that is handed to the native library, and back.
use crate::enums::{Mq, MqFlags, MqType};
use crate::error::SigrokError;
use crate::rational::{unsigned_denom, unsigned_numer, unsigned_parts, unsigned_ratio};
use crate::variant::{Tree, Variant};
use num_rational::Ratio;
use std::ops::RangeInclusive;
use vstd::prelude::*;
use vstd::utf8::encode_utf8;

verus! {

/// The type of value that a configuration key takes.
#[derive(Clone, Copy, Debug, PartialEq, Eq, Hash, Structural)]
pub enum ValueKind {
    Bool,
    Text,
    U64Range,
    F64Range,
    U64,
    F64,
    I32,
    Rational,
    Mq,
}

/// A configuration value. A double is held as the bit pattern of its
/// IEEE-754 encoding, a range of doubles as the range of the two patterns.
#[derive(Debug, PartialEq)]
pub enum ConfigValue {
    Bool(bool),
    Text(String),
    U64Range(RangeInclusive<u64>),
    F64Range(RangeInclusive<u64>),
    U64(u64),
    F64(u64),
    I32(i32),
    Rational(Ratio<u64>),
    Mq(Mq),
}

/// What a [`ConfigValue`] holds, as a mathematical value.
pub enum Value {
    Bool(bool),
    Text(Seq<char>),
    U64Range(u64, u64),
    F64Range(u64, u64),
    U64(u64),
    F64(u64),
    I32(i32),
    Rational(u64, u64),
    Mq(Mq),
}

impl View for ConfigValue {
    type V = Value;

    open spec fn view(&self) -> Value {
        match self {
            ConfigValue::Bool(b) => Value::Bool(*b),
            ConfigValue::Text(s) => Value::Text(s@),
            ConfigValue::U64Range(r) => Value::U64Range(r@.start, r@.end),
            ConfigValue::F64Range(r) => Value::F64Range(r@.start, r@.end),
            ConfigValue::U64(n) => Value::U64(*n),
            ConfigValue::F64(bits) => Value::F64(*bits),
            ConfigValue::I32(n) => Value::I32(*n),
            ConfigValue::Rational(r) => Value::Rational(unsigned_parts(*r).0, unsigned_parts(*r).1),
            ConfigValue::Mq(mq) => Value::Mq(*mq),
        }
    }
}

/// Calls `RangeInclusive::start`, which hands out the lower bound of the
/// range.
#[verifier::external_body]
pub(crate) fn range_start(range: &RangeInclusive<u64>) -> (low: u64)
    ensures
        low == range@.start,
{
    *range.start()
}

/// Calls `RangeInclusive::end`, which hands out the upper bound of the
/// range.
#[verifier::external_body]
pub(crate) fn range_end(range: &RangeInclusive<u64>) -> (high: u64)
    ensures
        high == range@.end,
{
    *range.end()
}

/// The position of the first zero byte.
pub open spec fn nul_position(bytes: Seq<u8>) -> Option<int>
    decreases bytes.len(),
{
    if bytes.len() == 0 {
        None
    } else if bytes[0] == 0 {
        Some(0)
    } else {
        match nul_position(bytes.skip(1)) {
            Some(i) => Some(i + 1),
            None => None,
        }
    }
}

/// The position of the first zero byte is that of a zero byte with none
/// before it; there is none exactly when no byte is zero.
pub proof fn lemma_nul_position(bytes: Seq<u8>)
    ensures
        match nul_position(bytes) {
            Some(i) => 0 <= i < bytes.len() && bytes[i] == 0 && forall|j: int|
                0 <= j < i ==> bytes[j] != 0,
            None => forall|j: int| 0 <= j < bytes.len() ==> bytes[j] != 0,
        },
    decreases bytes.len(),
{
    if bytes.len() > 0 && bytes[0] != 0 {
        let rest = bytes.skip(1);
        lemma_nul_position(rest);
        match nul_position(rest) {
            Some(i) => {
                assert(rest[i] == bytes[i + 1]);
                assert forall|j: int| 0 <= j < i + 1 implies bytes[j] != 0 by {
                    if j > 0 {
                        assert(bytes[j] == rest[j - 1]);
                    }
                }
            },
            None => {
                assert forall|j: int| 0 <= j < bytes.len() implies bytes[j] != 0 by {
                    if j > 0 {
                        assert(bytes[j] == rest[j - 1]);
                    }
                }
            },
        }
    }
}

/// Finds the first zero byte.
pub fn find_nul(bytes: &[u8]) -> (r: Option<usize>)
    ensures
        match r {
            Some(i) => nul_position(bytes@) == Some(i as int),
            None => nul_position(bytes@) is None,
        },
{
    let mut i: usize = 0;
    while i < bytes.len()
        invariant
            i <= bytes.len(),
            forall|j: int| 0 <= j < i ==> bytes@[j] != 0,
        decreases bytes.len() - i,
    {
        if bytes[i] == 0 {
            proof {
                lemma_nul_position(bytes@);
            }
            return Some(i);
        }
        i = i + 1;
    }
    proof {
        lemma_nul_position(bytes@);
    }
    None
}

/// The tuple of two unsigned numbers.
pub open spec fn u64_tuple(low: u64, high: u64) -> Tree {
    Tree::Tuple(seq![Tree::UInt64(low), Tree::UInt64(high)])
}

/// The tuple of two doubles, given as bit patterns.
pub open spec fn double_tuple(low: u64, high: u64) -> Tree {
    Tree::Tuple(seq![Tree::Double(low), Tree::Double(high)])
}

/// The tuple that stands for a measured quantity: its native number, then
/// its flags widened to 64 bits.
pub open spec fn mq_tuple(mq: Mq) -> Tree {
    Tree::Tuple(seq![Tree::UInt32(mq.mq_type.spec_raw()), Tree::UInt64(mq.flags@ as u64)])
}

impl Tree {
    /// The two numbers of a tuple of exactly two unsigned 64-bit integers.
    /// Everything else reads as two zeros.
    pub open spec fn u64_pair(self) -> (u64, u64) {
        match self {
            Tree::Tuple(s) => if s.len() == 2 && s[0] is UInt64 && s[1] is UInt64 {
                (s[0]->UInt64_0, s[1]->UInt64_0)
            } else {
                (0, 0)
            },
            _ => (0, 0),
        }
    }

    /// The two bit patterns of a tuple of exactly two doubles. Everything
    /// else reads as two zeros.
    pub open spec fn double_pair(self) -> (u64, u64) {
        match self {
            Tree::Tuple(s) => if s.len() == 2 && s[0] is Double && s[1] is Double {
                (s[0]->Double_0, s[1]->Double_0)
            } else {
                (0, 0)
            },
            _ => (0, 0),
        }
    }

    /// The two numbers of a tuple of an unsigned 32-bit and an unsigned
    /// 64-bit integer. Everything else reads as two zeros.
    pub open spec fn mq_pair(self) -> (u32, u64) {
        match self {
            Tree::Tuple(s) => if s.len() == 2 && s[0] is UInt32 && s[1] is UInt64 {
                (s[0]->UInt32_0, s[1]->UInt64_0)
            } else {
                (0, 0)
            },
            _ => (0, 0),
        }
    }
}

/// The measured quantity that a pair of native numbers stands for: a
/// quantity that is not known counts as a voltage, and of the flags only the
/// named ones among the low 32 bits count.
pub open spec fn mq_matches(pair: (u32, u64), mq: Mq) -> bool {
    &&& mq.mq_type == match MqType::spec_from_raw(pair.0) {
        Some(t) => t,
        None => MqType::Voltage,
    }
    &&& mq.flags@ == (pair.1 as u32) & MqFlags::ALL
    &&& mq.flags.wf()
}

impl Value {
    /// The kind of the value.
    pub open spec fn kind(self) -> ValueKind {
        match self {
            Value::Bool(_) => ValueKind::Bool,
            Value::Text(_) => ValueKind::Text,
            Value::U64Range(_, _) => ValueKind::U64Range,
            Value::F64Range(_, _) => ValueKind::F64Range,
            Value::U64(_) => ValueKind::U64,
            Value::F64(_) => ValueKind::F64,
            Value::I32(_) => ValueKind::I32,
            Value::Rational(_, _) => ValueKind::Rational,
            Value::Mq(_) => ValueKind::Mq,
        }
    }

    /// The variant in which the value is handed to the native library. A
    /// text that holds a zero byte has none: the error tells where the first
    /// one is.
    pub open spec fn encoded(self) -> Result<Tree, SigrokError> {
        match self {
            Value::Bool(b) => Ok(Tree::Boolean(b)),
            Value::Text(s) => match nul_position(encode_utf8(s)) {
                Some(i) => Err(SigrokError::NullError(i as usize)),
                None => Ok(Tree::Text(s)),
            },
            Value::U64Range(low, high) => Ok(u64_tuple(low, high)),
            Value::F64Range(low, high) => Ok(double_tuple(low, high)),
            Value::U64(n) => Ok(Tree::UInt64(n)),
            Value::F64(bits) => Ok(Tree::Double(bits)),
            Value::I32(n) => Ok(Tree::Int32(n)),
            Value::Rational(numer, denom) => Ok(u64_tuple(numer, denom)),
            Value::Mq(mq) => Ok(mq_tuple(mq)),
        }
    }

    /// `self` is what a variant reads as, for a key that takes values of the
    /// given kind. A variant of another shape reads as false, zero or the
    /// empty text. Only a measured quantity is checked: it must be a tuple of
    /// two.
    pub open spec fn decoded_from(self, kind: ValueKind, tree: Tree) -> bool {
        match kind {
            ValueKind::Bool => self == Value::Bool(tree matches Tree::Boolean(b) && b),
            ValueKind::Text => self == Value::Text(
                match tree {
                    Tree::Text(s) => s,
                    _ => Seq::empty(),
                },
            ),
            ValueKind::U64Range => self == Value::U64Range(tree.u64_pair().0, tree.u64_pair().1),
            ValueKind::F64Range => self == Value::F64Range(
                tree.double_pair().0,
                tree.double_pair().1,
            ),
            ValueKind::U64 => self == Value::U64(
                match tree {
                    Tree::UInt64(n) => n,
                    _ => 0,
                },
            ),
            ValueKind::F64 => self == Value::F64(
                match tree {
                    Tree::Double(bits) => bits,
                    _ => 0,
                },
            ),
            ValueKind::I32 => self == Value::I32(
                match tree {
                    Tree::Int32(n) => n,
                    _ => 0,
                },
            ),
            ValueKind::Rational => self == Value::Rational(tree.u64_pair().0, tree.u64_pair().1),
            ValueKind::Mq => self matches Value::Mq(mq) && mq_matches(tree.mq_pair(), mq),
        }
    }

    /// The value can be set: it is no measured quantity with a flag that has
    /// no name.
    pub open spec fn valid(self) -> bool {
        self matches Value::Mq(mq) ==> mq.flags.wf()
    }
}

/// Whether a variant can be read as a measured quantity: it is a tuple of
/// two.
pub open spec fn mq_shaped(tree: Tree) -> bool {
    tree is Tuple && tree.children().len() == 2
}

/// Builds a tuple of two variants.
fn pair_of(first: Variant, second: Variant) -> (r: Variant)
    ensures
        r@ == Tree::Tuple(seq![first@, second@]),
{
    let mut items: Vec<Variant> = Vec::new();
    items.push(first);
    items.push(second);
    let r = Variant::Tuple(items);
    assert(r@->Tuple_0 =~= seq![first@, second@]);
    r
}

/// Encodes a value for the native library.
///
/// It fails on one input only: a text with a zero byte in it, which the
/// native string cannot hold. The error tells where the first one is.
pub fn set_config(value: &ConfigValue) -> (r: Result<Variant, SigrokError>)
    ensures
        match r {
            Ok(v) => value@.encoded() == Ok::<Tree, SigrokError>(v@),
            Err(e) => value@.encoded() == Err::<Tree, SigrokError>(e),
        },
{
    match value {
        ConfigValue::Bool(b) => Ok(Variant::Boolean(*b)),
        ConfigValue::Text(s) => {
            match find_nul(s.as_str().as_bytes()) {
                Some(i) => Err(SigrokError::NullError(i)),
                None => Ok(Variant::Text(s.clone())),
            }
        },
        ConfigValue::U64Range(r) => Ok(
            pair_of(Variant::UInt64(range_start(r)), Variant::UInt64(range_end(r))),
        ),
        ConfigValue::F64Range(r) => Ok(
            pair_of(Variant::Double(range_start(r)), Variant::Double(range_end(r))),
        ),
        ConfigValue::U64(n) => Ok(Variant::UInt64(*n)),
        ConfigValue::F64(bits) => Ok(Variant::Double(*bits)),
        ConfigValue::I32(n) => Ok(Variant::Int32(*n)),
        ConfigValue::Rational(r) => Ok(
            pair_of(Variant::UInt64(unsigned_numer(r)), Variant::UInt64(unsigned_denom(r))),
        ),
        ConfigValue::Mq(mq) => Ok(
            pair_of(Variant::UInt32(mq.mq_type.raw()), Variant::UInt64(mq.flags.bits() as u64)),
        ),
    }
}

/// Reads a tuple of two unsigned 64-bit integers; everything else reads as
/// two zeros.
pub fn get_numeric_range(variant: &Variant) -> (r: (u64, u64))
    ensures
        r == variant@.u64_pair(),
{
    proof {
        reveal_with_fuel(Variant::tree, 2);
    }
    match variant {
        Variant::Tuple(items) => {
            if items.len() == 2 {
                match (&items[0], &items[1]) {
                    (Variant::UInt64(low), Variant::UInt64(high)) => (*low, *high),
                    _ => (0, 0),
                }
            } else {
                (0, 0)
            }
        },
        _ => (0, 0),
    }
}

/// Reads a tuple of two doubles as bit patterns; everything else reads as two
/// zeros.
pub fn get_double_range(variant: &Variant) -> (r: (u64, u64))
    ensures
        r == variant@.double_pair(),
{
    proof {
        reveal_with_fuel(Variant::tree, 2);
    }
    match variant {
        Variant::Tuple(items) => {
            if items.len() == 2 {
                match (&items[0], &items[1]) {
                    (Variant::Double(low), Variant::Double(high)) => (*low, *high),
                    _ => (0, 0),
                }
            } else {
                (0, 0)
            }
        },
        _ => (0, 0),
    }
}

/// Reads the two numbers of a measured quantity; everything else reads as two
/// zeros.
pub fn get_mq_pair(variant: &Variant) -> (r: (u32, u64))
    ensures
        r == variant@.mq_pair(),
{
    proof {
        reveal_with_fuel(Variant::tree, 2);
    }
    match variant {
        Variant::Tuple(items) => {
            if items.len() == 2 {
                match (&items[0], &items[1]) {
                    (Variant::UInt32(mq), Variant::UInt64(flags)) => (*mq, *flags),
                    _ => (0, 0),
                }
            } else {
                (0, 0)
            }
        },
        _ => (0, 0),
    }
}

/// The measured quantity that a pair of native numbers stands for.
pub fn mq_from_pair(pair: (u32, u64)) -> (mq: Mq)
    ensures
        mq_matches(pair, mq),
{
    Mq {
        mq_type: match MqType::from_raw(pair.0) {
            Some(t) => t,
            None => MqType::Voltage,
        },
        flags: MqFlags::from_bits_truncate(
            #[verifier::truncate]
            (pair.1 as u32),
        ),
    }
}

/// Decodes the variant that the native library gave for a key that takes
/// values of the given kind.
///
/// It fails on one input only: a measured quantity that is no tuple of two,
/// which is an argument error. A variant of an unexpected shape is no
/// failure otherwise: it reads as false, zero or the empty text.
pub fn get_config(kind: ValueKind, variant: &Variant) -> (r: Result<ConfigValue, SigrokError>)
    ensures
        r is Ok <==> (kind == ValueKind::Mq ==> mq_shaped(variant@)),
        r matches Ok(v) ==> v@.decoded_from(kind, variant@) && v@.kind() == kind,
        r matches Err(e) ==> e == SigrokError::Arg,
{
    match kind {
        ValueKind::Bool => Ok(
            ConfigValue::Bool(
                match variant {
                    Variant::Boolean(b) => *b,
                    _ => false,
                },
            ),
        ),
        ValueKind::Text => Ok(
            ConfigValue::Text(
                match variant {
                    Variant::Text(s) => s.clone(),
                    _ => String::new(),
                },
            ),
        ),
        ValueKind::U64Range => {
            let (low, high) = get_numeric_range(variant);
            Ok(ConfigValue::U64Range(RangeInclusive::new(low, high)))
        },
        ValueKind::F64Range => {
            let (low, high) = get_double_range(variant);
            Ok(ConfigValue::F64Range(RangeInclusive::new(low, high)))
        },
        ValueKind::U64 => Ok(
            ConfigValue::U64(
                match variant {
                    Variant::UInt64(n) => *n,
                    _ => 0,
                },
            ),
        ),
        ValueKind::F64 => Ok(
            ConfigValue::F64(
                match variant {
                    Variant::Double(bits) => *bits,
                    _ => 0,
                },
            ),
        ),
        ValueKind::I32 => Ok(
            ConfigValue::I32(
                match variant {
                    Variant::Int32(n) => *n,
                    _ => 0,
                },
            ),
        ),
        ValueKind::Rational => {
            let (numer, denom) = get_numeric_range(variant);
            Ok(ConfigValue::Rational(unsigned_ratio(numer, denom)))
        },
        ValueKind::Mq => {
            let is_tuple = match variant {
                Variant::Tuple(_) => true,
                _ => false,
            };
            if is_tuple && variant.num_children() == 2 {
                Ok(ConfigValue::Mq(mq_from_pair(get_mq_pair(variant))))
            } else {
                Err(SigrokError::Arg)
            }
        },
    }
}

/// What is set is what is read back: a value that can be encoded decodes,
/// under its own kind, from its own encoding, and as nothing but itself.
pub proof fn lemma_set_get_roundtrip(value: Value, back: Value)
    requires
        value.valid(),
        value.encoded() is Ok,
    ensures
        value.decoded_from(value.kind(), value.encoded()->Ok_0),
        value.kind() == ValueKind::Mq ==> mq_shaped(value.encoded()->Ok_0),
        back.decoded_from(value.kind(), value.encoded()->Ok_0) && back.valid() ==> back == value,
{
    match value {
        Value::Mq(mq) => {
            mq.mq_type.lemma_raw_roundtrip();
            let bits = mq.flags@;
            assert(((bits as u64) as u32) & 0x3fffffu32 == bits) by (bit_vector)
                requires
                    bits & !0x3fffffu32 == 0,
            ;
            if back.decoded_from(value.kind(), value.encoded()->Ok_0) {
                assert(back matches Value::Mq(b) && b.flags@ == mq.flags@ && b.mq_type
                    == mq.mq_type);
                lemma_mq_eq(back->Mq_0, mq);
            }
        },
        _ => {},
    }
}

/// Two measured quantities of the same type and with the same flag bits are
/// the same.
proof fn lemma_mq_eq(a: Mq, b: Mq)
    requires
        a.mq_type == b.mq_type,
        a.flags@ == b.flags@,
    ensures
        a == b,
{
    MqFlags::lemma_same_bits(a.flags, b.flags);
}

} // verus!

//! The tagged variant container in which configuration values cross the
//! native boundary, as a tree of plain values.
//!
//! A double is held as the bit pattern of its IEEE-754 encoding, and the key
//! of a dictionary entry as its bytes without the closing zero.
use vstd::prelude::*;

verus! {

/// The shape of a variant, one level deep.
#[derive(Clone, Copy, Debug, PartialEq, Eq, Structural)]
pub enum Kind {
    Boolean,
    Int32,
    UInt32,
    UInt64,
    Double,
    Text,
    Int32Array,
    UInt64Array,
    DoubleArray,
    TextArray,
    Tuple,
    Array,
    Dictionary,
}

/// The shape that a type string of the container names, as far as this
/// crate holds values of it: a single letter for a number, a boolean or a
/// string, `a` and such a letter for an array of them, an opening bracket for
/// a tuple, `a{` for a dictionary, and `a` before anything else for an array
/// of variants.
pub open spec fn kind_of_type(ty: Seq<u8>) -> Option<Kind> {
    if ty.len() == 0 {
        None
    } else if ty.len() == 1 {
        if ty[0] == 98 {
            Some(Kind::Boolean)
        } else if ty[0] == 105 {
            Some(Kind::Int32)
        } else if ty[0] == 117 {
            Some(Kind::UInt32)
        } else if ty[0] == 116 {
            Some(Kind::UInt64)
        } else if ty[0] == 100 {
            Some(Kind::Double)
        } else if ty[0] == 115 {
            Some(Kind::Text)
        } else {
            None
        }
    } else if ty[0] == 40 {
        Some(Kind::Tuple)
    } else if ty[0] == 97 {
        if ty[1] == 123 {
            Some(Kind::Dictionary)
        } else if ty.len() == 2 && ty[1] == 105 {
            Some(Kind::Int32Array)
        } else if ty.len() == 2 && ty[1] == 116 {
            Some(Kind::UInt64Array)
        } else if ty.len() == 2 && ty[1] == 100 {
            Some(Kind::DoubleArray)
        } else if ty.len() == 2 && ty[1] == 115 {
            Some(Kind::TextArray)
        } else {
            Some(Kind::Array)
        }
    } else {
        None
    }
}

impl Kind {
    /// Reads the shape off a type string of the container, given without
    /// its closing zero. `None` means that this crate holds no values of
    /// that type.
    pub fn of_type(ty: &[u8]) -> (r: Option<Kind>)
        ensures
            r == kind_of_type(ty@),
    {
        if ty.len() == 0 {
            None
        } else if ty.len() == 1 {
            match ty[0] {
                98 => Some(Kind::Boolean),
                105 => Some(Kind::Int32),
                117 => Some(Kind::UInt32),
                116 => Some(Kind::UInt64),
                100 => Some(Kind::Double),
                115 => Some(Kind::Text),
                _ => None,
            }
        } else if ty[0] == 40 {
            Some(Kind::Tuple)
        } else if ty[0] == 97 {
            if ty[1] == 123 {
                Some(Kind::Dictionary)
            } else if ty.len() == 2 {
                match ty[1] {
                    105 => Some(Kind::Int32Array),
                    116 => Some(Kind::UInt64Array),
                    100 => Some(Kind::DoubleArray),
                    115 => Some(Kind::TextArray),
                    _ => Some(Kind::Array),
                }
            } else {
                Some(Kind::Array)
            }
        } else {
            None
        }
    }
}

/// What a [`Variant`] holds, as a mathematical value.
pub enum Tree {
    Boolean(bool),
    Int32(i32),
    UInt32(u32),
    UInt64(u64),
    Double(u64),
    Text(Seq<char>),
    Int32Array(Seq<i32>),
    UInt64Array(Seq<u64>),
    DoubleArray(Seq<u64>),
    TextArray(Seq<Seq<char>>),
    Tuple(Seq<Tree>),
    Array(Seq<Tree>),
    Dictionary(Seq<(Seq<u8>, Tree)>),
}

/// One entry of a dictionary.
#[derive(Debug, PartialEq)]
pub struct Entry {
    pub key: Vec<u8>,
    pub value: Variant,
}

/// A value of the tagged variant container.
#[derive(Debug, PartialEq)]
pub enum Variant {
    Boolean(bool),
    Int32(i32),
    UInt32(u32),
    UInt64(u64),
    /// A double, as its bit pattern.
    Double(u64),
    Text(String),
    /// An array of 32-bit integers.
    Int32Array(Vec<i32>),
    /// An array of unsigned 64-bit integers.
    UInt64Array(Vec<u64>),
    /// An array of doubles, each as its bit pattern.
    DoubleArray(Vec<u64>),
    /// An array of strings.
    TextArray(Vec<String>),
    Tuple(Vec<Variant>),
    /// An array of anything that is not a number or a string.
    Array(Vec<Variant>),
    /// A dictionary from byte strings to variants, in the order of its
    /// entries.
    Dictionary(Vec<Entry>),
}

impl View for Variant {
    type V = Tree;

    open spec fn view(&self) -> Tree {
        self.tree()
    }
}

impl Tree {
    /// The shape of the value.
    pub open spec fn kind(self) -> Kind {
        match self {
            Tree::Boolean(_) => Kind::Boolean,
            Tree::Int32(_) => Kind::Int32,
            Tree::UInt32(_) => Kind::UInt32,
            Tree::UInt64(_) => Kind::UInt64,
            Tree::Double(_) => Kind::Double,
            Tree::Text(_) => Kind::Text,
            Tree::Int32Array(_) => Kind::Int32Array,
            Tree::UInt64Array(_) => Kind::UInt64Array,
            Tree::DoubleArray(_) => Kind::DoubleArray,
            Tree::TextArray(_) => Kind::TextArray,
            Tree::Tuple(_) => Kind::Tuple,
            Tree::Array(_) => Kind::Array,
            Tree::Dictionary(_) => Kind::Dictionary,
        }
    }

    /// The numbers of an array of unsigned 64-bit integers that is not
    /// empty. An empty array has no memory to hand out and counts as absent,
    /// like everything that is no such array.
    pub open spec fn fixed_u64(self) -> Option<Seq<u64>> {
        match self {
            Tree::UInt64Array(s) => if s.len() > 0 {
                Some(s)
            } else {
                None
            },
            _ => None,
        }
    }

    /// The bit patterns of an array of doubles that is not empty.
    pub open spec fn fixed_double(self) -> Option<Seq<u64>> {
        match self {
            Tree::DoubleArray(s) => if s.len() > 0 {
                Some(s)
            } else {
                None
            },
            _ => None,
        }
    }

    /// The numbers of an array of 32-bit integers that is not empty.
    pub open spec fn fixed_i32(self) -> Option<Seq<i32>> {
        match self {
            Tree::Int32Array(s) => if s.len() > 0 {
                Some(s)
            } else {
                None
            },
            _ => None,
        }
    }

    /// The strings of an array of strings, empty or not.
    pub open spec fn strings(self) -> Option<Seq<Seq<char>>> {
        match self {
            Tree::TextArray(s) => Some(s),
            _ => None,
        }
    }

    /// The variants that a tuple or an array of variants holds, in order.
    /// Nothing else has children.
    pub open spec fn children(self) -> Seq<Tree> {
        match self {
            Tree::Tuple(s) => s,
            Tree::Array(s) => s,
            _ => Seq::empty(),
        }
    }

    /// The position of the first entry with the given key.
    pub open spec fn position_of(entries: Seq<(Seq<u8>, Tree)>, key: Seq<u8>) -> Option<int>
        decreases entries.len(),
    {
        if entries.len() == 0 {
            None
        } else if entries[0].0 == key {
            Some(0)
        } else {
            match Self::position_of(entries.skip(1), key) {
                Some(i) => Some(i + 1),
                None => None,
            }
        }
    }

    /// The value of the first entry of a dictionary that has the given key,
    /// if that value is of the given kind.
    pub open spec fn lookup(self, key: Seq<u8>, value_type: Kind) -> Option<Tree> {
        match self {
            Tree::Dictionary(entries) => match Self::position_of(entries, key) {
                Some(i) => if entries[i].1.kind() == value_type {
                    Some(entries[i].1)
                } else {
                    None
                },
                None => None,
            },
            _ => None,
        }
    }
}

/// The first entry with a key is at a position inside the dictionary, it has
/// that key, and no entry before it has.
pub proof fn lemma_position_of(entries: Seq<(Seq<u8>, Tree)>, key: Seq<u8>)
    ensures
        match Tree::position_of(entries, key) {
            Some(i) => 0 <= i < entries.len() && entries[i].0 == key && forall|j: int|
                0 <= j < i ==> (#[trigger] entries[j]).0 != key,
            None => forall|j: int| 0 <= j < entries.len() ==> (#[trigger] entries[j]).0 != key,
        },
    decreases entries.len(),
{
    if entries.len() > 0 && entries[0].0 != key {
        let rest = entries.skip(1);
        lemma_position_of(rest, key);
        match Tree::position_of(rest, key) {
            Some(i) => {
                assert(rest[i] == entries[i + 1]);
                assert forall|j: int| 0 <= j < i + 1 implies (#[trigger] entries[j]).0 != key by {
                    if j > 0 {
                        assert(entries[j] == rest[j - 1]);
                    }
                }
            },
            None => {
                assert forall|j: int| 0 <= j < entries.len() implies (#[trigger] entries[j]).0
                    != key by {
                    if j > 0 {
                        assert(entries[j] == rest[j - 1]);
                    }
                }
            },
        }
    }
}

/// Where an entry has the key and none before it has, it is the first with
/// that key.
pub proof fn lemma_position_of_found(entries: Seq<(Seq<u8>, Tree)>, key: Seq<u8>, i: int)
    requires
        0 <= i < entries.len(),
        entries[i].0 == key,
        forall|j: int| 0 <= j < i ==> (#[trigger] entries[j]).0 != key,
    ensures
        Tree::position_of(entries, key) == Some(i),
    decreases i,
{
    if i > 0 {
        assert(entries[0].0 != key);
        let rest = entries.skip(1);
        assert forall|j: int| 0 <= j < i - 1 implies (#[trigger] rest[j]).0 != key by {
            assert(rest[j] == entries[j + 1]);
        }
        lemma_position_of_found(rest, key, i - 1);
    }
}

/// Whether two byte strings are the same.
pub fn bytes_equal(a: &[u8], b: &[u8]) -> (r: bool)
    ensures
        r <==> a@ == b@,
{
    if a.len() != b.len() {
        return false;
    }
    let mut i: usize = 0;
    while i < a.len()
        invariant
            a.len() == b.len(),
            i <= a.len(),
            forall|j: int| 0 <= j < i ==> a@[j] == b@[j],
        decreases a.len() - i,
    {
        if a[i] != b[i] {
            return false;
        }
        i = i + 1;
    }
    assert(a@ =~= b@);
    true
}

impl Variant {
    /// What the variant holds.
    pub open spec fn tree(&self) -> Tree
        decreases self,
    {
        match self {
            Variant::Boolean(b) => Tree::Boolean(*b),
            Variant::Int32(n) => Tree::Int32(*n),
            Variant::UInt32(n) => Tree::UInt32(*n),
            Variant::UInt64(n) => Tree::UInt64(*n),
            Variant::Double(bits) => Tree::Double(*bits),
            Variant::Text(s) => Tree::Text(s@),
            Variant::Int32Array(v) => Tree::Int32Array(v@),
            Variant::UInt64Array(v) => Tree::UInt64Array(v@),
            Variant::DoubleArray(v) => Tree::DoubleArray(v@),
            Variant::TextArray(v) => Tree::TextArray(Seq::new(v@.len(), |i: int| v@[i]@)),
            Variant::Tuple(v) => Tree::Tuple(
                Seq::new(
                    v.len() as nat,
                    |i: int|
                        if 0 <= i < v.len() {
                            v[i].tree()
                        } else {
                            Tree::Boolean(false)
                        },
                ),
            ),
            Variant::Array(v) => Tree::Array(
                Seq::new(
                    v.len() as nat,
                    |i: int|
                        if 0 <= i < v.len() {
                            v[i].tree()
                        } else {
                            Tree::Boolean(false)
                        },
                ),
            ),
            Variant::Dictionary(v) => Tree::Dictionary(
                Seq::new(
                    v.len() as nat,
                    |i: int|
                        if 0 <= i < v.len() {
                            (v[i].key@, v[i].value.tree())
                        } else {
                            (Seq::empty(), Tree::Boolean(false))
                        },
                ),
            ),
        }
    }

    /// The shape of the variant.
    pub fn kind(&self) -> (r: Kind)
        ensures
            r == self@.kind(),
    {
        match self {
            Variant::Boolean(_) => Kind::Boolean,
            Variant::Int32(_) => Kind::Int32,
            Variant::UInt32(_) => Kind::UInt32,
            Variant::UInt64(_) => Kind::UInt64,
            Variant::Double(_) => Kind::Double,
            Variant::Text(_) => Kind::Text,
            Variant::Int32Array(_) => Kind::Int32Array,
            Variant::UInt64Array(_) => Kind::UInt64Array,
            Variant::DoubleArray(_) => Kind::DoubleArray,
            Variant::TextArray(_) => Kind::TextArray,
            Variant::Tuple(_) => Kind::Tuple,
            Variant::Array(_) => Kind::Array,
            Variant::Dictionary(_) => Kind::Dictionary,
        }
    }

    /// The numbers of an array of unsigned 64-bit integers that is not
    /// empty.
    pub fn get_fixed_array_u64(&self) -> (r: Option<&Vec<u64>>)
        ensures
            match r {
                Some(v) => self@.fixed_u64() == Some(v@),
                None => self@.fixed_u64() is None,
            },
    {
        match self {
            Variant::UInt64Array(v) => if v.len() > 0 {
                Some(v)
            } else {
                None
            },
            _ => None,
        }
    }

    /// The bit patterns of an array of doubles that is not empty.
    pub fn get_fixed_array_double(&self) -> (r: Option<&Vec<u64>>)
        ensures
            match r {
                Some(v) => self@.fixed_double() == Some(v@),
                None => self@.fixed_double() is None,
            },
    {
        match self {
            Variant::DoubleArray(v) => if v.len() > 0 {
                Some(v)
            } else {
                None
            },
            _ => None,
        }
    }

    /// The numbers of an array of 32-bit integers that is not empty.
    pub fn get_fixed_array_i32(&self) -> (r: Option<&Vec<i32>>)
        ensures
            match r {
                Some(v) => self@.fixed_i32() == Some(v@),
                None => self@.fixed_i32() is None,
            },
    {
        match self {
            Variant::Int32Array(v) => if v.len() > 0 {
                Some(v)
            } else {
                None
            },
            _ => None,
        }
    }

    /// The strings of an array of strings.
    pub fn get_str_array(&self) -> (r: Option<&Vec<String>>)
        ensures
            match r {
                Some(v) => self@.strings() == Some(Seq::new(v@.len(), |i: int| v@[i]@)),
                None => self@.strings() is None,
            },
    {
        match self {
            Variant::TextArray(v) => Some(v),
            _ => None,
        }
    }

    /// The number of variants that a tuple or an array of variants holds.
    pub fn num_children(&self) -> (n: usize)
        ensures
            n == self@.children().len(),
    {
        match self {
            Variant::Tuple(v) => v.len(),
            Variant::Array(v) => v.len(),
            _ => 0,
        }
    }

    /// The child at position `i`, if there is one.
    pub fn get_child_value(&self, i: usize) -> (r: Option<&Variant>)
        ensures
            match r {
                Some(c) => i < self@.children().len() && c@ == self@.children()[i as int],
                None => i >= self@.children().len(),
            },
    {
        match self {
            Variant::Tuple(v) => if i < v.len() {
                Some(&v[i])
            } else {
                None
            },
            Variant::Array(v) => if i < v.len() {
                Some(&v[i])
            } else {
                None
            },
            _ => None,
        }
    }

    /// Looks a key up in a dictionary: the value of the first entry with
    /// that key, if it is of the kind asked for.
    pub fn lookup_value(&self, key: &[u8], value_type: Kind) -> (r: Option<&Variant>)
        ensures
            match r {
                Some(c) => self@.lookup(key@, value_type) == Some(c@),
                None => self@.lookup(key@, value_type) is None,
            },
    {
        match self {
            Variant::Dictionary(entries) => {
                let ghost model = self@->Dictionary_0;
                let mut i: usize = 0;
                while i < entries.len()
                    invariant
                        i <= entries.len(),
                        self@ == Tree::Dictionary(model),
                        model.len() == entries.len(),
                        forall|j: int|
                            0 <= j < entries.len() ==> #[trigger] model[j] == (
                                entries[j].key@,
                                entries[j].value@,
                            ),
                        forall|j: int| 0 <= j < i ==> (#[trigger] model[j]).0 != key@,
                    decreases entries.len() - i,
                {
                    if bytes_equal(entries[i].key.as_slice(), key) {
                        proof {
                            lemma_position_of_found(model, key@, i as int);
                        }
                        if entries[i].value.kind() == value_type {
                            return Some(&entries[i].value);
                        } else {
                            return None;
                        }
                    }
                    i = i + 1;
                }
                proof {
                    lemma_position_of(model, key@);
                }
                None
            },
            _ => None,
        }
    }
}

} // verus!

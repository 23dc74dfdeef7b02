//! Possible configuration options
//!
//! This module contains wrapper types for the possible configuration values
//! and reads them from the variant in which the native library lists them.
//! Listing is advisory: what cannot be read gives no option list, never an
//! error.
use crate::config::set_get::{get_double_range, get_mq_pair, get_numeric_range, mq_from_pair, mq_matches};
use crate::enums::{Mq, TriggerType};
use crate::rational::{unsigned_parts, unsigned_ratio};
use crate::variant::{Kind, Tree, Variant};
use num_rational::Ratio;
use std::ops::RangeInclusive;
use vstd::prelude::*;

verus! {

/// The configuration expects a [`bool`]. This has no members because it accepts both `true` and
/// `false`.
#[derive(Clone, PartialEq, Debug)]
pub struct BoolOption;

/// The possible [`String`]s that this may be configured with.
#[derive(Clone, PartialEq, Debug)]
pub struct StringOption(pub Vec<String>);

/// The possible [`u64`] ranges that this may be configured with.
#[derive(Clone, PartialEq, Debug)]
pub struct U64RangeOption(pub Vec<RangeInclusive<u64>>);

/// The possible ranges of doubles that this may be configured with, each
/// bound as its bit pattern.
#[derive(Clone, PartialEq, Debug)]
pub struct F64RangeOption(pub Vec<RangeInclusive<u64>>);

/// The possible [rational numbers][Ratio] that this may be configured with.
#[derive(Clone, PartialEq, Debug)]
pub struct RationalOption(pub Vec<Ratio<u64>>);

/// The possible [`u64`]s that this may be configured with.
#[derive(Clone, PartialEq, Debug)]
pub struct U64Option(pub Vec<u64>);

/// The possible sample rates that this may be configured with.
#[derive(Clone, PartialEq, Debug)]
pub enum SampleRateOption {
    /// There are a fixed number of sample rates that may be configured.
    Fixed(Vec<u64>),
    /// There are a range of sample rates that may be configured. Any sample rate within the
    /// range with the fixed step are valid.
    Range { range: RangeInclusive<u64>, step: u64 },
    Unknown,
}

/// The possible doubles that this may be configured with, each as its bit
/// pattern.
#[derive(Clone, PartialEq, Debug)]
pub struct F64Option(pub Vec<u64>);

/// The possible [`i32`]s that this may be configured with.
#[derive(Clone, PartialEq, Debug)]
pub struct I32Option(pub Vec<i32>);

/// The possible [`TriggerType`]s that this may be configured with.
#[derive(Clone, PartialEq, Debug)]
pub struct TriggerOption(pub Vec<TriggerType>);

/// The possible [`Mq`]s that this may be configured with.
#[derive(Clone, PartialEq, Debug)]
pub struct MqOption(pub Vec<Mq>);

/// `Clone::clone` of an inclusive range. Nothing is claimed of the copy: it
/// is here so that types with a range in them can be cloned.
pub assume_specification<Idx: Clone>[ <RangeInclusive<Idx> as Clone>::clone ](
    range: &RangeInclusive<Idx>,
) -> (copy: RangeInclusive<Idx>)
;

/// Key of the dictionary entry that lists the sample rates one by one.
pub open spec fn samplerates_key() -> Seq<u8> {
    seq![115u8, 97, 109, 112, 108, 101, 114, 97, 116, 101, 115]
}

/// Key of the dictionary entry that gives the lowest and the highest sample
/// rate and the step between two rates.
pub open spec fn samplerate_steps_key() -> Seq<u8> {
    seq![115u8, 97, 109, 112, 108, 101, 114, 97, 116, 101, 45, 115, 116, 101, 112, 115]
}

/// The bounds of each range, in order.
pub open spec fn range_pairs(ranges: Seq<RangeInclusive<u64>>) -> Seq<(u64, u64)> {
    Seq::new(ranges.len(), |i: int| (ranges[i]@.start, ranges[i]@.end))
}

/// The numerator and the denominator of each ratio, in order.
pub open spec fn ratio_pairs(ratios: Seq<Ratio<u64>>) -> Seq<(u64, u64)> {
    Seq::new(ratios.len(), |i: int| unsigned_parts(ratios[i]))
}

/// The trigger conditions among some native numbers, in their order;
/// numbers that name no condition are left out.
pub open spec fn trigger_types(raw: Seq<i32>) -> Seq<TriggerType>
    decreases raw.len(),
{
    if raw.len() == 0 {
        Seq::empty()
    } else {
        let before = trigger_types(raw.drop_last());
        match TriggerType::spec_from_raw(raw.last()) {
            Some(t) => before.push(t),
            None => before,
        }
    }
}

impl Tree {
    /// What each child reads as when taken for a pair of unsigned numbers.
    pub open spec fn u64_pairs(self) -> Seq<(u64, u64)> {
        Seq::new(self.children().len(), |i: int| self.children()[i].u64_pair())
    }

    /// What each child reads as when taken for a pair of doubles.
    pub open spec fn double_pairs(self) -> Seq<(u64, u64)> {
        Seq::new(self.children().len(), |i: int| self.children()[i].double_pair())
    }

    /// What each child reads as when taken for the two numbers of a measured
    /// quantity.
    pub open spec fn mq_pairs(self) -> Seq<(u32, u64)> {
        Seq::new(self.children().len(), |i: int| self.children()[i].mq_pair())
    }

    /// The sample rates that a listing offers one by one.
    pub open spec fn fixed_samplerates(self) -> Option<Seq<u64>> {
        match self.lookup(samplerates_key(), Kind::UInt64Array) {
            Some(list) => list.fixed_u64(),
            None => None,
        }
    }

    /// The lowest and highest sample rate and the step between two rates
    /// that a listing gives: the first three numbers under the key for
    /// steps, where the key for single rates is not there.
    pub open spec fn stepped_samplerates(self) -> Option<(u64, u64, u64)> {
        if self.lookup(samplerates_key(), Kind::UInt64Array) is Some {
            None
        } else {
            match self.lookup(samplerate_steps_key(), Kind::UInt64Array) {
                Some(list) => match list.fixed_u64() {
                    Some(s) => if s.len() >= 3 {
                        Some((s[0], s[1], s[2]))
                    } else {
                        None
                    },
                    None => None,
                },
                None => None,
            }
        }
    }
}

impl Default for BoolOption {
    fn default() -> (r: Self) {
        BoolOption
    }
}

impl Default for StringOption {
    fn default() -> (r: Self)
        ensures
            r.0@.len() == 0,
    {
        StringOption(Vec::new())
    }
}

impl Default for U64RangeOption {
    fn default() -> (r: Self)
        ensures
            r.0@.len() == 0,
    {
        U64RangeOption(Vec::new())
    }
}

impl Default for F64RangeOption {
    fn default() -> (r: Self)
        ensures
            r.0@.len() == 0,
    {
        F64RangeOption(Vec::new())
    }
}

impl Default for RationalOption {
    fn default() -> (r: Self)
        ensures
            r.0@.len() == 0,
    {
        RationalOption(Vec::new())
    }
}

impl Default for U64Option {
    fn default() -> (r: Self)
        ensures
            r.0@.len() == 0,
    {
        U64Option(Vec::new())
    }
}

impl Default for SampleRateOption {
    fn default() -> (r: Self)
        ensures
            r is Unknown,
    {
        SampleRateOption::Unknown
    }
}

impl Default for F64Option {
    fn default() -> (r: Self)
        ensures
            r.0@.len() == 0,
    {
        F64Option(Vec::new())
    }
}

impl Default for I32Option {
    fn default() -> (r: Self)
        ensures
            r.0@.len() == 0,
    {
        I32Option(Vec::new())
    }
}

impl Default for TriggerOption {
    fn default() -> (r: Self)
        ensures
            r.0@.len() == 0,
    {
        TriggerOption(Vec::new())
    }
}

impl Default for MqOption {
    fn default() -> (r: Self)
        ensures
            r.0@.len() == 0,
    {
        MqOption(Vec::new())
    }
}

/// Copies the numbers of a list.
fn copy_u64(list: &Vec<u64>) -> (r: Vec<u64>)
    ensures
        r@ == list@,
{
    let mut out: Vec<u64> = Vec::new();
    let mut i: usize = 0;
    while i < list.len()
        invariant
            i <= list.len(),
            out@ == list@.take(i as int),
        decreases list.len() - i,
    {
        out.push(list[i]);
        assert(list@.take(i + 1) =~= list@.take(i as int).push(list@[i as int]));
        i = i + 1;
    }
    assert(list@.take(list.len() as int) =~= list@);
    out
}

/// Copies the numbers of a list.
fn copy_i32(list: &Vec<i32>) -> (r: Vec<i32>)
    ensures
        r@ == list@,
{
    let mut out: Vec<i32> = Vec::new();
    let mut i: usize = 0;
    while i < list.len()
        invariant
            i <= list.len(),
            out@ == list@.take(i as int),
        decreases list.len() - i,
    {
        out.push(list[i]);
        assert(list@.take(i + 1) =~= list@.take(i as int).push(list@[i as int]));
        i = i + 1;
    }
    assert(list@.take(list.len() as int) =~= list@);
    out
}

/// Reads every child of a listing as a range of unsigned numbers. Without a
/// listing there is nothing to read.
fn numeric_range_option(listing: Option<&Variant>) -> (r: Option<Vec<RangeInclusive<u64>>>)
    ensures
        r is Some <==> listing is Some,
        r matches Some(ranges) ==> range_pairs(ranges@) == listing.unwrap()@.u64_pairs(),
{
    match listing {
        None => None,
        Some(variant) => {
            let mut out: Vec<RangeInclusive<u64>> = Vec::new();
            let n = variant.num_children();
            let mut i: usize = 0;
            while i < n
                invariant
                    n == variant@.children().len(),
                    i <= n,
                    out@.len() == i,
                    forall|j: int|
                        0 <= j < i ==> (#[trigger] out@[j]@.start, out@[j]@.end)
                            == variant@.children()[j].u64_pair(),
                decreases n - i,
            {
                if let Some(child) = variant.get_child_value(i) {
                    let (low, high) = get_numeric_range(child);
                    out.push(RangeInclusive::new(low, high));
                }
                i = i + 1;
            }
            assert(range_pairs(out@) =~= variant@.u64_pairs());
            Some(out)
        },
    }
}

/// Reads every child of a listing as a range of doubles. Without a listing
/// there is nothing to read.
fn double_range_option(listing: Option<&Variant>) -> (r: Option<Vec<RangeInclusive<u64>>>)
    ensures
        r is Some <==> listing is Some,
        r matches Some(ranges) ==> range_pairs(ranges@) == listing.unwrap()@.double_pairs(),
{
    match listing {
        None => None,
        Some(variant) => {
            let mut out: Vec<RangeInclusive<u64>> = Vec::new();
            let n = variant.num_children();
            let mut i: usize = 0;
            while i < n
                invariant
                    n == variant@.children().len(),
                    i <= n,
                    out@.len() == i,
                    forall|j: int|
                        0 <= j < i ==> (#[trigger] out@[j]@.start, out@[j]@.end)
                            == variant@.children()[j].double_pair(),
                decreases n - i,
            {
                if let Some(child) = variant.get_child_value(i) {
                    let (low, high) = get_double_range(child);
                    out.push(RangeInclusive::new(low, high));
                }
                i = i + 1;
            }
            assert(range_pairs(out@) =~= variant@.double_pairs());
            Some(out)
        },
    }
}

impl BoolOption {
    /// A boolean has nothing to list.
    pub fn from_sigrok(_listing: Option<&Variant>) -> (r: Option<Self>)
        ensures
            r is Some,
    {
        Some(BoolOption)
    }
}

impl StringOption {
    /// The strings of a listing that is an array of strings; in every other
    /// case no strings, but never nothing.
    pub fn from_sigrok(listing: Option<&Variant>) -> (r: Option<Self>)
        ensures
            r is Some,
            r matches Some(o) ==> Seq::new(o.0@.len(), |i: int| o.0@[i]@) == (match listing {
                Some(v) => match v@.strings() {
                    Some(s) => s,
                    None => Seq::empty(),
                },
                None => Seq::empty(),
            }),
    {
        let mut out: Vec<String> = Vec::new();
        if let Some(variant) = listing {
            if let Some(strings) = variant.get_str_array() {
                let mut i: usize = 0;
                while i < strings.len()
                    invariant
                        i <= strings.len(),
                        out@.len() == i,
                        forall|j: int| 0 <= j < i ==> #[trigger] out@[j]@ == strings@[j]@,
                    decreases strings.len() - i,
                {
                    out.push(strings[i].clone());
                    i = i + 1;
                }
                assert(Seq::new(out@.len(), |i: int| out@[i]@) =~= Seq::new(
                    strings@.len(),
                    |i: int| strings@[i]@,
                ));
                return Some(StringOption(out));
            }
        }
        assert(Seq::new(out@.len(), |i: int| out@[i]@) =~= Seq::<Seq<char>>::empty());
        Some(StringOption(out))
    }
}

impl U64RangeOption {
    /// Every child of the listing, read as a range.
    pub fn from_sigrok(listing: Option<&Variant>) -> (r: Option<Self>)
        ensures
            r is Some <==> listing is Some,
            r matches Some(o) ==> range_pairs(o.0@) == listing.unwrap()@.u64_pairs(),
    {
        match numeric_range_option(listing) {
            Some(ranges) => Some(U64RangeOption(ranges)),
            None => None,
        }
    }
}

impl F64RangeOption {
    /// Every child of the listing, read as a range.
    pub fn from_sigrok(listing: Option<&Variant>) -> (r: Option<Self>)
        ensures
            r is Some <==> listing is Some,
            r matches Some(o) ==> range_pairs(o.0@) == listing.unwrap()@.double_pairs(),
    {
        match double_range_option(listing) {
            Some(ranges) => Some(F64RangeOption(ranges)),
            None => None,
        }
    }
}

impl F64Option {
    /// The doubles of a listing that is an array of doubles and not empty.
    pub fn from_sigrok(listing: Option<&Variant>) -> (r: Option<Self>)
        ensures
            match r {
                Some(o) => listing is Some && listing.unwrap()@.fixed_double() == Some(o.0@),
                None => listing is None || listing.unwrap()@.fixed_double() is None,
            },
    {
        match listing {
            None => None,
            Some(variant) => match variant.get_fixed_array_double() {
                Some(list) => Some(F64Option(copy_u64(list))),
                None => None,
            },
        }
    }
}

impl U64Option {
    /// The numbers of a listing that is an array of unsigned 64-bit
    /// integers and not empty.
    pub fn from_sigrok(listing: Option<&Variant>) -> (r: Option<Self>)
        ensures
            match r {
                Some(o) => listing is Some && listing.unwrap()@.fixed_u64() == Some(o.0@),
                None => listing is None || listing.unwrap()@.fixed_u64() is None,
            },
    {
        match listing {
            None => None,
            Some(variant) => match variant.get_fixed_array_u64() {
                Some(list) => Some(U64Option(copy_u64(list))),
                None => None,
            },
        }
    }
}

impl I32Option {
    /// The numbers of a listing that is an array of 32-bit integers and not
    /// empty.
    pub fn from_sigrok(listing: Option<&Variant>) -> (r: Option<Self>)
        ensures
            match r {
                Some(o) => listing is Some && listing.unwrap()@.fixed_i32() == Some(o.0@),
                None => listing is None || listing.unwrap()@.fixed_i32() is None,
            },
    {
        match listing {
            None => None,
            Some(variant) => match variant.get_fixed_array_i32() {
                Some(list) => Some(I32Option(copy_i32(list))),
                None => None,
            },
        }
    }
}

impl SampleRateOption {
    /// `self` is what a listing says of the sample rates: the single rates
    /// where it lists them, else the stepped range where it gives one.
    pub open spec fn read_from(self, tree: Tree) -> bool {
        match self {
            SampleRateOption::Fixed(rates) => tree.fixed_samplerates() == Some(rates@),
            SampleRateOption::Range { range, step } => tree.stepped_samplerates() == Some(
                (range@.start, range@.end, step),
            ),
            SampleRateOption::Unknown => false,
        }
    }

    /// Whether a listing says anything of the sample rates.
    pub open spec fn readable(tree: Tree) -> bool {
        tree.fixed_samplerates() is Some || tree.stepped_samplerates() is Some
    }

    /// Reads the sample rates from the dictionary in which they are listed:
    /// a list of single rates under one key or, where that key is not there,
    /// lowest rate, highest rate and step under another.
    pub fn from_sigrok(listing: Option<&Variant>) -> (r: Option<Self>)
        ensures
            r is Some <==> listing is Some && Self::readable(listing.unwrap()@),
            r matches Some(o) ==> o.read_from(listing.unwrap()@),
    {
        let variant = match listing {
            Some(v) => v,
            None => {
                return None;
            },
        };
        let samplerates: [u8; 11] = [115, 97, 109, 112, 108, 101, 114, 97, 116, 101, 115];
        let steps: [u8; 16] = [115, 97, 109, 112, 108, 101, 114, 97, 116, 101, 45, 115, 116, 101, 112, 115];
        assert(samplerates@ =~= samplerates_key());
        assert(steps@ =~= samplerate_steps_key());
        if let Some(list) = variant.lookup_value(samplerates.as_slice(), Kind::UInt64Array) {
            match list.get_fixed_array_u64() {
                Some(rates) => Some(SampleRateOption::Fixed(copy_u64(rates))),
                None => None,
            }
        } else if let Some(list) = variant.lookup_value(steps.as_slice(), Kind::UInt64Array) {
            match list.get_fixed_array_u64() {
                Some(vals) => {
                    if vals.len() >= 3 {
                        Some(
                            SampleRateOption::Range {
                                range: RangeInclusive::new(vals[0], vals[1]),
                                step: vals[2],
                            },
                        )
                    } else {
                        None
                    }
                },
                None => None,
            }
        } else {
            None
        }
    }
}

impl TriggerOption {
    /// The trigger conditions of a listing that is an array of 32-bit
    /// integers and not empty; numbers that name no condition are left out.
    pub fn from_sigrok(listing: Option<&Variant>) -> (r: Option<Self>)
        ensures
            match r {
                Some(o) => listing is Some && listing.unwrap()@.fixed_i32() is Some && o.0@
                    == trigger_types(listing.unwrap()@.fixed_i32().unwrap()),
                None => listing is None || listing.unwrap()@.fixed_i32() is None,
            },
    {
        match listing {
            None => None,
            Some(variant) => match variant.get_fixed_array_i32() {
                None => None,
                Some(list) => {
                    let mut out: Vec<TriggerType> = Vec::new();
                    let mut i: usize = 0;
                    while i < list.len()
                        invariant
                            i <= list.len(),
                            out@ == trigger_types(list@.take(i as int)),
                        decreases list.len() - i,
                    {
                        assert(list@.take(i + 1).drop_last() =~= list@.take(i as int));
                        if let Some(t) = TriggerType::from_raw(list[i]) {
                            out.push(t);
                        }
                        i = i + 1;
                    }
                    assert(list@.take(list.len() as int) =~= list@);
                    Some(TriggerOption(out))
                },
            },
        }
    }
}

impl RationalOption {
    /// Every child of the listing, read as numerator and denominator.
    pub fn from_sigrok(listing: Option<&Variant>) -> (r: Option<Self>)
        ensures
            r is Some <==> listing is Some,
            r matches Some(o) ==> ratio_pairs(o.0@) == listing.unwrap()@.u64_pairs(),
    {
        match listing {
            None => None,
            Some(variant) => {
                let mut out: Vec<Ratio<u64>> = Vec::new();
                let n = variant.num_children();
                let mut i: usize = 0;
                while i < n
                    invariant
                        n == variant@.children().len(),
                        i <= n,
                        out@.len() == i,
                        forall|j: int|
                            0 <= j < i ==> #[trigger] unsigned_parts(out@[j])
                                == variant@.children()[j].u64_pair(),
                    decreases n - i,
                {
                    if let Some(child) = variant.get_child_value(i) {
                        let (numer, denom) = get_numeric_range(child);
                        out.push(unsigned_ratio(numer, denom));
                    }
                    i = i + 1;
                }
                assert(ratio_pairs(out@) =~= variant@.u64_pairs());
                Some(RationalOption(out))
            },
        }
    }
}

impl MqOption {
    /// `self` holds, in order, the measured quantity of each pair.
    pub open spec fn read_from(self, pairs: Seq<(u32, u64)>) -> bool {
        &&& self.0@.len() == pairs.len()
        &&& forall|i: int| 0 <= i < pairs.len() ==> mq_matches(pairs[i], #[trigger] self.0@[i])
    }

    /// Every child of the listing, read as a measured quantity.
    pub fn from_sigrok(listing: Option<&Variant>) -> (r: Option<Self>)
        ensures
            r is Some <==> listing is Some,
            r matches Some(o) ==> o.read_from(listing.unwrap()@.mq_pairs()),
    {
        match listing {
            None => None,
            Some(variant) => {
                let mut out: Vec<Mq> = Vec::new();
                let n = variant.num_children();
                let mut i: usize = 0;
                while i < n
                    invariant
                        n == variant@.children().len(),
                        i <= n,
                        out@.len() == i,
                        forall|j: int|
                            0 <= j < i ==> mq_matches(
                                variant@.children()[j].mq_pair(),
                                #[trigger] out@[j],
                            ),
                    decreases n - i,
                {
                    if let Some(child) = variant.get_child_value(i) {
                        out.push(mq_from_pair(get_mq_pair(child)));
                    }
                    i = i + 1;
                }
                Some(MqOption(out))
            },
        }
    }
}

} // verus!

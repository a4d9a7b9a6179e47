//! The index capability and the typed node/edge reference wrappers.
//!
//! An index is a small unsigned integer naming a position in an external
//! table. Construction from a `usize` truncates to the width of the
//! implementing type; this library follows the "zero" semantic: the numeric
//! minimum is the valid base position, not an "absent" marker.

use vstd::prelude::*;

verus! {

/// The number of values a `usize` can hold: reading an index back through
/// `usize` truncates modulo this bound.
pub open spec fn usize_bound() -> int {
    usize::MAX as int + 1
}

/// A value that fits in `usize` is unchanged by truncation through `usize`.
proof fn lemma_fits_usize(x: int)
    requires
        0 <= x <= usize::MAX as int,
    ensures
        x % usize_bound() == x,
{
    vstd::arithmetic::div_mod::lemma_small_mod(x as nat, usize_bound() as nat);
}

/// Stepping past the last `usize` value wraps to zero.
proof fn lemma_usize_bound_wraps()
    ensures
        usize_bound() % usize_bound() == 0,
{
    vstd::arithmetic::div_mod::lemma_mod_self_0(usize_bound());
}

/// Defines the index functionality.
///
/// The mathematical value of an index is `as_int`, always in
/// `[0, modulus)`. `new` truncates its argument modulo `modulus`;
/// `index` reads the value back, truncated through `usize`; `zero`
/// is the reserved minimum, a valid base value.
pub trait Index: PartialEq + Eq + PartialOrd + Ord + Default + core::fmt::Debug + Sized {
    /// The mathematical value of this index.
    spec fn as_int(&self) -> int;

    /// The number of representable index values; `new` truncates modulo this.
    spec fn modulus() -> int;

    /// The value `new` constructs from `x`.
    spec fn spec_new(x: usize) -> Self;

    /// The value `next` steps to.
    spec fn spec_next(&self) -> Self;

    /// At least two values are representable: the base value and one more.
    proof fn lemma_modulus()
        ensures
            2 <= Self::modulus(),
    ;

    /// Every index value lies below the modulus.
    proof fn lemma_in_range(&self)
        ensures
            0 <= self.as_int() < Self::modulus(),
    ;

    /// An index is determined by its mathematical value.
    proof fn lemma_as_int_injective(a: Self, b: Self)
        requires
            a.as_int() == b.as_int(),
        ensures
            a == b,
    ;

    /// Construction truncates modulo the modulus.
    proof fn lemma_new_value(x: usize)
        ensures
            Self::spec_new(x).as_int() == x as int % Self::modulus(),
    ;

    /// Stepping adds one to the value read back through `usize`, then
    /// truncates as `new` does.
    proof fn lemma_next_value(v: Self)
        ensures
            v.spec_next().as_int() == (v.as_int() % usize_bound() + 1) % usize_bound()
                % Self::modulus(),
    ;

    /// Constructs a new index from a specified value, truncating out-of-range
    /// values silently.
    fn new(x: usize) -> (r: Self)
        ensures
            r == Self::spec_new(x),
            r.as_int() == x as int % Self::modulus(),
            (x as int) < Self::modulus() ==> r.as_int() == x as int,
    ;

    /// Returns the usize value of the index.
    fn index(&self) -> (r: usize)
        ensures
            r as int == self.as_int() % usize_bound(),
            self.as_int() <= usize::MAX as int ==> r as int == self.as_int(),
    ;

    /// Returns the minimum value of index.
    fn zero() -> (r: Self)
        ensures
            r.as_int() == 0,
    ;

    /// Constructs the index one position further on, wrapping at the
    /// representable boundary.
    fn next(&self) -> (r: Self)
        ensures
            r == self.spec_next(),
            r.as_int() == (self.as_int() % usize_bound() + 1) % usize_bound() % Self::modulus(),
            (self.as_int() + 1 <= usize::MAX as int && self.as_int() + 1 < Self::modulus())
                ==> r.as_int() == self.as_int() + 1,
    ;

    /// Determines if a given index is the reserved minimum value.
    fn is_zero(&self) -> (r: bool)
        ensures
            r == (self.as_int() == 0),
    ;
}

impl Index for u8 {
    open spec fn as_int(&self) -> int {
        *self as int
    }

    open spec fn modulus() -> int {
        0x100
    }

    open spec fn spec_new(x: usize) -> u8 {
        (x as int % 0x100) as u8
    }

    open spec fn spec_next(&self) -> u8 {
        ((*self as int + 1) % 0x100) as u8
    }

    proof fn lemma_modulus() {
    }

    proof fn lemma_in_range(&self) {
    }

    proof fn lemma_as_int_injective(a: u8, b: u8) {
    }

    proof fn lemma_new_value(x: usize) {
    }

    proof fn lemma_next_value(v: u8) {
        lemma_fits_usize(v as int);
        lemma_fits_usize(v as int + 1);
    }

    fn new(x: usize) -> (r: u8) {
        (x % 0x100) as u8
    }

    fn index(&self) -> (r: usize) {
        proof {
            lemma_fits_usize(*self as int);
        }
        *self as usize
    }

    fn zero() -> (r: u8) {
        0
    }

    fn next(&self) -> (r: u8) {
        proof {
            lemma_fits_usize(*self as int);
            lemma_fits_usize(*self as int + 1);
        }
        let i = self.index();
        Self::new(i + 1)
    }

    fn is_zero(&self) -> (r: bool) {
        *self == 0
    }
}

impl Index for u16 {
    open spec fn as_int(&self) -> int {
        *self as int
    }

    open spec fn modulus() -> int {
        0x1_0000
    }

    open spec fn spec_new(x: usize) -> u16 {
        (x as int % 0x1_0000) as u16
    }

    open spec fn spec_next(&self) -> u16 {
        ((*self as int + 1) % 0x1_0000) as u16
    }

    proof fn lemma_modulus() {
    }

    proof fn lemma_in_range(&self) {
    }

    proof fn lemma_as_int_injective(a: u16, b: u16) {
    }

    proof fn lemma_new_value(x: usize) {
    }

    proof fn lemma_next_value(v: u16) {
        lemma_fits_usize(v as int);
        lemma_fits_usize(v as int + 1);
    }

    fn new(x: usize) -> (r: u16) {
        (x % 0x1_0000) as u16
    }

    fn index(&self) -> (r: usize) {
        proof {
            lemma_fits_usize(*self as int);
        }
        *self as usize
    }

    fn zero() -> (r: u16) {
        0
    }

    fn next(&self) -> (r: u16) {
        proof {
            lemma_fits_usize(*self as int);
            lemma_fits_usize(*self as int + 1);
        }
        let i = self.index();
        Self::new(i + 1)
    }

    fn is_zero(&self) -> (r: bool) {
        *self == 0
    }
}

impl Index for u32 {
    open spec fn as_int(&self) -> int {
        *self as int
    }

    open spec fn modulus() -> int {
        0x1_0000_0000
    }

    open spec fn spec_new(x: usize) -> u32 {
        (x as int % 0x1_0000_0000) as u32
    }

    open spec fn spec_next(&self) -> u32 {
        ((*self as int + 1) % 0x1_0000_0000) as u32
    }

    proof fn lemma_modulus() {
    }

    proof fn lemma_in_range(&self) {
    }

    proof fn lemma_as_int_injective(a: u32, b: u32) {
    }

    proof fn lemma_new_value(x: usize) {
    }

    proof fn lemma_next_value(v: u32) {
        lemma_fits_usize(v as int);
        if v as int + 1 <= usize::MAX as int {
            lemma_fits_usize(v as int + 1);
        } else {
            lemma_usize_bound_wraps();
        }
    }

    fn new(x: usize) -> (r: u32) {
        let m: u64 = 0x1_0000_0000;
        ((x as u64) % m) as u32
    }

    fn index(&self) -> (r: usize) {
        proof {
            lemma_fits_usize(*self as int);
        }
        *self as usize
    }

    fn zero() -> (r: u32) {
        0
    }

    fn next(&self) -> (r: u32) {
        proof {
            lemma_fits_usize(*self as int);
            if *self as int + 1 <= usize::MAX as int {
                lemma_fits_usize(*self as int + 1);
            } else {
                lemma_usize_bound_wraps();
            }
        }
        let i = self.index();
        if i == usize::MAX {
            Self::new(0)
        } else {
            Self::new(i + 1)
        }
    }

    fn is_zero(&self) -> (r: bool) {
        *self == 0
    }
}

impl Index for u64 {
    open spec fn as_int(&self) -> int {
        *self as int
    }

    open spec fn modulus() -> int {
        0x1_0000_0000_0000_0000
    }

    open spec fn spec_new(x: usize) -> u64 {
        (x as int % 0x1_0000_0000_0000_0000) as u64
    }

    open spec fn spec_next(&self) -> u64 {
        ((*self as int % usize_bound() + 1) % usize_bound()) as u64
    }

    proof fn lemma_modulus() {
    }

    proof fn lemma_in_range(&self) {
    }

    proof fn lemma_as_int_injective(a: u64, b: u64) {
    }

    proof fn lemma_new_value(x: usize) {
    }

    proof fn lemma_next_value(v: u64) {
    }

    fn new(x: usize) -> (r: u64) {
        x as u64
    }

    fn index(&self) -> (r: usize) {
        proof {
            if *self as int <= usize::MAX as int {
                lemma_fits_usize(*self as int);
            }
        }
        let m: u128 = usize::MAX as u128 + 1;
        ((*self as u128) % m) as usize
    }

    fn zero() -> (r: u64) {
        0
    }

    fn next(&self) -> (r: u64) {
        let i = self.index();
        proof {
            if i == usize::MAX {
                lemma_usize_bound_wraps();
            } else {
                lemma_fits_usize(i as int + 1);
            }
            if *self as int + 1 <= usize::MAX as int {
                lemma_fits_usize(*self as int);
                lemma_fits_usize(*self as int + 1);
            }
        }
        if i == usize::MAX {
            Self::new(0)
        } else {
            Self::new(i + 1)
        }
    }

    fn is_zero(&self) -> (r: bool) {
        *self == 0
    }
}

impl Index for u128 {
    open spec fn as_int(&self) -> int {
        *self as int
    }

    open spec fn modulus() -> int {
        0x1_0000_0000_0000_0000_0000_0000_0000_0000int
    }

    open spec fn spec_new(x: usize) -> u128 {
        (x as int % 0x1_0000_0000_0000_0000_0000_0000_0000_0000int) as u128
    }

    open spec fn spec_next(&self) -> u128 {
        ((*self as int % usize_bound() + 1) % usize_bound()) as u128
    }

    proof fn lemma_modulus() {
    }

    proof fn lemma_in_range(&self) {
    }

    proof fn lemma_as_int_injective(a: u128, b: u128) {
    }

    proof fn lemma_new_value(x: usize) {
    }

    proof fn lemma_next_value(v: u128) {
    }

    fn new(x: usize) -> (r: u128) {
        x as u128
    }

    fn index(&self) -> (r: usize) {
        proof {
            if *self as int <= usize::MAX as int {
                lemma_fits_usize(*self as int);
            }
        }
        let m: u128 = usize::MAX as u128 + 1;
        (*self % m) as usize
    }

    fn zero() -> (r: u128) {
        0
    }

    fn next(&self) -> (r: u128) {
        let i = self.index();
        proof {
            if i == usize::MAX {
                lemma_usize_bound_wraps();
            } else {
                lemma_fits_usize(i as int + 1);
            }
            if *self as int + 1 <= usize::MAX as int {
                lemma_fits_usize(*self as int);
                lemma_fits_usize(*self as int + 1);
            }
        }
        if i == usize::MAX {
            Self::new(0)
        } else {
            Self::new(i + 1)
        }
    }

    fn is_zero(&self) -> (r: bool) {
        *self == 0
    }
}

/// The index width used when none is chosen: the narrowest one, fit for
/// collections of at most 255 elements beside the base value.
pub type DefaultIdx = u8;

/// A typed reference to a node: a single-field wrapper over an index value,
/// kept apart from edge references at the type level.
#[derive(Copy, Clone, PartialEq, PartialOrd, Eq, Ord, Hash, Debug)]
pub struct NodeIndex<Idx = DefaultIdx>(pub Idx);

impl<Idx: Index> Default for NodeIndex<Idx> {
    /// A defaulted node reference holds the base value.
    fn default() -> (r: NodeIndex<Idx>)
        ensures
            r.as_int() == 0,
    {
        NodeIndex(Idx::zero())
    }
}

/// A typed reference to an edge: a single-field wrapper over an index value,
/// kept apart from node references at the type level.
#[derive(Copy, Clone, PartialEq, PartialOrd, Eq, Ord, Hash, Debug)]
pub struct EdgeIndex<Idx = DefaultIdx>(pub Idx);

impl<Idx: Index> Default for EdgeIndex<Idx> {
    /// A defaulted edge reference holds the base value.
    fn default() -> (r: EdgeIndex<Idx>)
        ensures
            r.as_int() == 0,
    {
        EdgeIndex(Idx::zero())
    }
}

impl<Idx: Index> Index for NodeIndex<Idx> {
    open spec fn as_int(&self) -> int {
        self.0.as_int()
    }

    open spec fn modulus() -> int {
        Idx::modulus()
    }

    open spec fn spec_new(x: usize) -> NodeIndex<Idx> {
        NodeIndex(Idx::spec_new(x))
    }

    open spec fn spec_next(&self) -> NodeIndex<Idx> {
        NodeIndex(self.0.spec_next())
    }

    proof fn lemma_modulus() {
        Idx::lemma_modulus();
    }

    proof fn lemma_in_range(&self) {
        self.0.lemma_in_range();
    }

    proof fn lemma_as_int_injective(a: NodeIndex<Idx>, b: NodeIndex<Idx>) {
        Idx::lemma_as_int_injective(a.0, b.0);
    }

    proof fn lemma_new_value(x: usize) {
        Idx::lemma_new_value(x);
    }

    proof fn lemma_next_value(v: NodeIndex<Idx>) {
        Idx::lemma_next_value(v.0);
    }

    fn new(x: usize) -> (r: NodeIndex<Idx>) {
        NodeIndex(Idx::new(x))
    }

    fn index(&self) -> (r: usize) {
        self.0.index()
    }

    fn zero() -> (r: NodeIndex<Idx>) {
        NodeIndex(Idx::zero())
    }

    fn next(&self) -> (r: NodeIndex<Idx>) {
        NodeIndex(self.0.next())
    }

    fn is_zero(&self) -> (r: bool) {
        self.0.is_zero()
    }
}

impl<Idx> From<Idx> for NodeIndex<Idx> {
    /// Wraps an index value as a node reference.
    fn from(idx: Idx) -> (r: NodeIndex<Idx>) {
        NodeIndex(idx)
    }
}

impl<Idx> vstd::std_specs::convert::FromSpecImpl<Idx> for NodeIndex<Idx> {
    open spec fn obeys_from_spec() -> bool {
        true
    }

    open spec fn from_spec(idx: Idx) -> NodeIndex<Idx> {
        NodeIndex(idx)
    }
}

impl<Idx: Index> From<usize> for NodeIndex<Idx> {
    /// Builds a node reference from a plain value, truncating as `new` does.
    fn from(x: usize) -> (r: NodeIndex<Idx>) {
        NodeIndex(Idx::new(x))
    }
}

impl<Idx: Index> vstd::std_specs::convert::FromSpecImpl<usize> for NodeIndex<Idx> {
    open spec fn obeys_from_spec() -> bool {
        true
    }

    open spec fn from_spec(x: usize) -> NodeIndex<Idx> {
        NodeIndex(Idx::spec_new(x))
    }
}

impl<Idx: Index> Index for EdgeIndex<Idx> {
    open spec fn as_int(&self) -> int {
        self.0.as_int()
    }

    open spec fn modulus() -> int {
        Idx::modulus()
    }

    open spec fn spec_new(x: usize) -> EdgeIndex<Idx> {
        EdgeIndex(Idx::spec_new(x))
    }

    open spec fn spec_next(&self) -> EdgeIndex<Idx> {
        EdgeIndex(self.0.spec_next())
    }

    proof fn lemma_modulus() {
        Idx::lemma_modulus();
    }

    proof fn lemma_in_range(&self) {
        self.0.lemma_in_range();
    }

    proof fn lemma_as_int_injective(a: EdgeIndex<Idx>, b: EdgeIndex<Idx>) {
        Idx::lemma_as_int_injective(a.0, b.0);
    }

    proof fn lemma_new_value(x: usize) {
        Idx::lemma_new_value(x);
    }

    proof fn lemma_next_value(v: EdgeIndex<Idx>) {
        Idx::lemma_next_value(v.0);
    }

    fn new(x: usize) -> (r: EdgeIndex<Idx>) {
        EdgeIndex(Idx::new(x))
    }

    fn index(&self) -> (r: usize) {
        self.0.index()
    }

    fn zero() -> (r: EdgeIndex<Idx>) {
        EdgeIndex(Idx::zero())
    }

    fn next(&self) -> (r: EdgeIndex<Idx>) {
        EdgeIndex(self.0.next())
    }

    fn is_zero(&self) -> (r: bool) {
        self.0.is_zero()
    }
}

impl<Idx> From<Idx> for EdgeIndex<Idx> {
    /// Wraps an index value as an edge reference.
    fn from(idx: Idx) -> (r: EdgeIndex<Idx>) {
        EdgeIndex(idx)
    }
}

impl<Idx> vstd::std_specs::convert::FromSpecImpl<Idx> for EdgeIndex<Idx> {
    open spec fn obeys_from_spec() -> bool {
        true
    }

    open spec fn from_spec(idx: Idx) -> EdgeIndex<Idx> {
        EdgeIndex(idx)
    }
}

impl<Idx: Index> From<usize> for EdgeIndex<Idx> {
    /// Builds an edge reference from a plain value, truncating as `new` does.
    fn from(x: usize) -> (r: EdgeIndex<Idx>) {
        EdgeIndex(Idx::new(x))
    }
}

impl<Idx: Index> vstd::std_specs::convert::FromSpecImpl<usize> for EdgeIndex<Idx> {
    open spec fn obeys_from_spec() -> bool {
        true
    }

    open spec fn from_spec(x: usize) -> EdgeIndex<Idx> {
        EdgeIndex(Idx::spec_new(x))
    }
}

/// Reading back an index built from `n` gives `n` exactly, for every `n`
/// below the type's modulus: construction only truncates out-of-range input.
pub proof fn lemma_new_round_trip<I: Index>(x: usize)
    requires
        (x as int) < I::modulus(),
    ensures
        I::spec_new(x).as_int() == x as int,
{
    I::lemma_modulus();
    I::lemma_new_value(x);
    vstd::arithmetic::div_mod::lemma_small_mod(x as nat, I::modulus() as nat);
}

/// Stepping the index built from `n` yields the index built from `n + 1`,
/// for `n` strictly below the type's maximum value minus one.
pub proof fn lemma_next_of_new<I: Index>(x: usize)
    requires
        x < usize::MAX,
        (x as int) < I::modulus() - 2,
    ensures
        I::spec_new(x).spec_next() == I::spec_new((x + 1) as usize),
{
    I::lemma_modulus();
    I::lemma_new_value(x);
    let a = I::spec_new(x);
    I::lemma_next_value(a);
    I::lemma_new_value((x + 1) as usize);
    lemma_fits_usize(x as int);
    lemma_fits_usize(x as int + 1);
    vstd::arithmetic::div_mod::lemma_small_mod(x as nat, I::modulus() as nat);
    vstd::arithmetic::div_mod::lemma_small_mod((x + 1) as nat, I::modulus() as nat);
    I::lemma_as_int_injective(a.spec_next(), I::spec_new((x + 1) as usize));
}

} // verus!
